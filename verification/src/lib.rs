//! A verified model of an integration-test harness: it provisions an
//! isolated, disposable backing store and a running service instance for
//! each test run, then tears both down deterministically.
//!
//! The modules below hold the decision logic of the harness — identifier
//! generation, connection-string and statement construction, and the
//! startup/shutdown state machines — each with a contract. The async
//! driver that performs the network and store operations lives outside
//! the library and feeds events back into the state machines.

pub mod diagnostics;
pub mod endpoint;
pub mod ident;
pub mod lifecycle;
pub mod numfmt;
pub mod registry;
pub mod settings;
pub mod statements;
