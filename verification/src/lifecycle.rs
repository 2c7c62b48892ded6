//! The lifecycle manager. `StartupMachine` holds the decisions of the
//! startup sequence: the driver performs each outside operation —
//! loading settings, connecting, creating the store, migrating, binding
//! a listener, launching the service task — and reports each outcome
//! here; any failure aborts the whole sequence, naming the step. A
//! completed sequence yields a `TestApp`, whose teardown methods model
//! `shutdown`: cancel the task, close the pool, then drop the store,
//! swallowing a drop failure.

use crate::diagnostics::DiagnosticsGate;
use crate::endpoint::{endpoint_spec, endpoint_url, lemma_endpoint_injective};
use crate::ident::{draw_identifier, hyphenated, lemma_hyphenated_injective};
use crate::registry::ProcessRegistry;
use crate::settings::StoreSettings;
use crate::statements::{
    create_store_statement, create_store_statement_spec, drop_failure_log, drop_failure_log_spec,
    drop_store_statement, drop_store_statement_spec, drop_success_log, drop_success_log_spec,
};
use vstd::prelude::*;

verus! {

/// The startup step whose failure aborted the sequence.
#[derive(Clone, Copy, Debug, PartialEq, Eq, Structural)]
pub enum StartupStep {
    LoadSettings,
    GenerateIdentifier,
    ConnectAdmin,
    CreateStore,
    OpenPool,
    RunMigrations,
    BuildOutboundClient,
    BindListener,
    LaunchService,
}

/// The outcome the startup sequence awaits next, or how it ended.
#[derive(Clone, Copy, Debug, PartialEq, Eq, Structural)]
pub enum StartupPhase {
    AwaitingSettings,
    GeneratingIdentifier,
    AwaitingAdminConnection,
    AwaitingStoreCreation,
    AwaitingPool,
    AwaitingMigrations,
    AwaitingOutboundClient,
    AwaitingListener,
    AwaitingLaunch,
    Complete,
    Aborted(StartupStep),
}

/// True of the phases reached only after the store identifier was
/// generated and written into the settings.
pub open spec fn identifier_fixed(p: StartupPhase) -> bool {
    ||| p is AwaitingAdminConnection
    ||| p is AwaitingStoreCreation
    ||| p is AwaitingPool
    ||| p is AwaitingMigrations
    ||| p is AwaitingOutboundClient
    ||| p is AwaitingListener
    ||| p is AwaitingLaunch
    ||| p is Complete
}

/// The step reported when the operation a phase awaits fails.
pub open spec fn failing_step_of(p: StartupPhase) -> StartupStep {
    match p {
        StartupPhase::AwaitingSettings => StartupStep::LoadSettings,
        StartupPhase::GeneratingIdentifier => StartupStep::GenerateIdentifier,
        StartupPhase::AwaitingAdminConnection => StartupStep::ConnectAdmin,
        StartupPhase::AwaitingStoreCreation => StartupStep::CreateStore,
        StartupPhase::AwaitingPool => StartupStep::OpenPool,
        StartupPhase::AwaitingMigrations => StartupStep::RunMigrations,
        StartupPhase::AwaitingOutboundClient => StartupStep::BuildOutboundClient,
        StartupPhase::AwaitingListener => StartupStep::BindListener,
        StartupPhase::AwaitingLaunch => StartupStep::LaunchService,
        _ => StartupStep::LoadSettings,
    }
}

/// The startup sequence of one harness instance. The driver calls the
/// methods below in order, reporting each outside outcome; the machine
/// decides, carries the generated identifier and the scoped settings,
/// and yields the `TestApp` once the service task is running.
pub struct StartupMachine {
    pub phase: StartupPhase,
    pub store_id: u128,
    pub store_name: String,
    pub settings: StoreSettings,
    pub port: u16,
}

/// A running harness instance: the single handle a test interacts
/// with. The flags model the resources the driver owns on its behalf:
/// whether the pool still accepts queries, whether the service task is
/// still scheduled, and whether the provisioned store still exists on
/// the backing server.
pub struct TestApp {
    pub http_endpoint: String,
    pub store_id: u128,
    pub store_name: String,
    pub port: u16,
    pub pool_open: bool,
    pub task_live: bool,
    pub store_present: bool,
    pub migrated: bool,
}

impl StartupMachine {
    /// Once the identifier is fixed, the store name is its rendering,
    /// and the settings point at that store.
    pub open spec fn wf(self) -> bool {
        identifier_fixed(self.phase) ==> {
            &&& self.store_name@ == hyphenated(self.store_id)
            &&& self.settings.name@ == self.store_name@
        }
    }

    /// Starts a sequence: fires the diagnostics gate first (step one of
    /// `startup`); the caller must install the sink exactly when the
    /// returned flag says so, then load the settings.
    pub fn begin(gate: &mut DiagnosticsGate) -> (r: (StartupMachine, bool))
        ensures
            final(gate).installed,
            r.1 == !old(gate).installed,
            r.0.phase is AwaitingSettings,
            r.0.wf(),
    {
        let install_now = gate.ensure_initialized();
        let m = StartupMachine {
            phase: StartupPhase::AwaitingSettings,
            store_id: 0,
            store_name: String::new(),
            settings: StoreSettings {
                username: String::new(),
                password: String::new(),
                host: String::new(),
                port: 0,
                name: String::new(),
            },
            port: 0,
        };
        (m, install_now)
    }

    /// The loaded settings arrived; next the identifier is generated.
    pub fn settings_loaded(&mut self, loaded: StoreSettings)
        requires
            old(self).phase is AwaitingSettings,
        ensures
            final(self).phase is GeneratingIdentifier,
            final(self).settings == loaded,
            final(self).wf(),
    {
        self.settings = loaded;
        self.phase = StartupPhase::GeneratingIdentifier;
    }

    /// Draws a fresh random identifier, claims it in the process
    /// registry, and overwrites the store name in a copy of the loaded
    /// settings. On the (negligible-probability) collision with an
    /// earlier claim the sequence aborts instead — no instance may
    /// reuse a store name.
    pub fn generate_identifier(&mut self, registry: &mut ProcessRegistry) -> (ok: bool)
        requires
            old(self).phase is GeneratingIdentifier,
            old(registry).wf(),
        ensures
            final(registry).wf(),
            final(registry).live_ports@ == old(registry).live_ports@,
            final(self).wf(),
            ok ==> {
                &&& final(self).phase is AwaitingAdminConnection
                &&& !old(registry).store_ids@.contains(final(self).store_id)
                &&& final(registry).store_ids@ == old(registry).store_ids@.push(
                    final(self).store_id,
                )
                &&& final(self).store_name@ == hyphenated(final(self).store_id)
                &&& final(self).settings.name@ == final(self).store_name@
                &&& final(self).settings.username@ == old(self).settings.username@
                &&& final(self).settings.password@ == old(self).settings.password@
                &&& final(self).settings.host@ == old(self).settings.host@
                &&& final(self).settings.port == old(self).settings.port
            },
            !ok ==> {
                &&& final(self).phase == StartupPhase::Aborted(StartupStep::GenerateIdentifier)
                &&& final(registry).store_ids@ == old(registry).store_ids@
            },
    {
        let (id, name) = draw_identifier();
        let fresh = registry.claim_store_id(id);
        if !fresh {
            self.phase = StartupPhase::Aborted(StartupStep::GenerateIdentifier);
            return false;
        }
        let scoped = self.settings.with_store_name(name.clone());
        self.settings = scoped;
        self.store_id = id;
        self.store_name = name;
        self.phase = StartupPhase::AwaitingAdminConnection;
        true
    }

    /// The administrative connection to the backing server is open.
    pub fn admin_connected(&mut self)
        requires
            old(self).phase is AwaitingAdminConnection,
            old(self).wf(),
        ensures
            final(self).phase is AwaitingStoreCreation,
            *final(self) == (StartupMachine { phase: StartupPhase::AwaitingStoreCreation, ..*old(self) }),
            final(self).wf(),
    {
        self.phase = StartupPhase::AwaitingStoreCreation;
    }

    /// The statement the driver must issue on the administrative
    /// connection to create this instance's store.
    pub fn create_statement(&self) -> (r: String)
        requires
            self.phase is AwaitingStoreCreation,
        ensures
            r@ == create_store_statement_spec(self.store_name@),
    {
        create_store_statement(self.store_name.as_str())
    }

    /// The store now exists on the backing server.
    pub fn store_created(&mut self)
        requires
            old(self).phase is AwaitingStoreCreation,
            old(self).wf(),
        ensures
            final(self).phase is AwaitingPool,
            *final(self) == (StartupMachine { phase: StartupPhase::AwaitingPool, ..*old(self) }),
            final(self).wf(),
    {
        self.phase = StartupPhase::AwaitingPool;
    }

    /// The pool scoped to the new store is open.
    pub fn pool_opened(&mut self)
        requires
            old(self).phase is AwaitingPool,
            old(self).wf(),
        ensures
            final(self).phase is AwaitingMigrations,
            *final(self) == (StartupMachine { phase: StartupPhase::AwaitingMigrations, ..*old(self) }),
            final(self).wf(),
    {
        self.phase = StartupPhase::AwaitingMigrations;
    }

    /// The full ordered set of schema migrations ran against the pool.
    pub fn migrations_applied(&mut self)
        requires
            old(self).phase is AwaitingMigrations,
            old(self).wf(),
        ensures
            final(self).phase is AwaitingOutboundClient,
            *final(self) == (StartupMachine {
                phase: StartupPhase::AwaitingOutboundClient,
                ..*old(self)
            }),
            final(self).wf(),
    {
        self.phase = StartupPhase::AwaitingOutboundClient;
    }

    /// The outbound client was built from a validated sender address.
    pub fn outbound_client_built(&mut self)
        requires
            old(self).phase is AwaitingOutboundClient,
            old(self).wf(),
        ensures
            final(self).phase is AwaitingListener,
            *final(self) == (StartupMachine { phase: StartupPhase::AwaitingListener, ..*old(self) }),
            final(self).wf(),
    {
        self.phase = StartupPhase::AwaitingListener;
    }

    /// The listener is bound on an OS-assigned ephemeral port. The port
    /// is recorded as live; were it already held by a live instance the
    /// sequence would abort, keeping live ports pairwise distinct.
    pub fn listener_bound(&mut self, port: u16, registry: &mut ProcessRegistry) -> (ok: bool)
        requires
            old(self).phase is AwaitingListener,
            old(self).wf(),
            old(registry).wf(),
        ensures
            final(registry).wf(),
            final(registry).store_ids@ == old(registry).store_ids@,
            final(self).wf(),
            final(self).store_id == old(self).store_id,
            final(self).store_name@ == old(self).store_name@,
            final(self).settings == old(self).settings,
            ok == !old(registry).live_ports@.contains(port),
            ok ==> {
                &&& final(self).phase is AwaitingLaunch
                &&& final(self).port == port
                &&& final(registry).live_ports@ == old(registry).live_ports@.push(port)
            },
            !ok ==> {
                &&& final(self).phase == StartupPhase::Aborted(StartupStep::BindListener)
                &&& final(registry).live_ports@ == old(registry).live_ports@
            },
    {
        let fresh = registry.record_live_port(port);
        if !fresh {
            self.phase = StartupPhase::Aborted(StartupStep::BindListener);
            return false;
        }
        self.port = port;
        self.phase = StartupPhase::AwaitingLaunch;
        true
    }

    /// The service task is scheduled: the sequence is complete, and the
    /// instance is handed to the test with its base URL, its store
    /// name, an open pool over a created and fully migrated store, and
    /// a live task.
    pub fn service_launched(&mut self) -> (app: TestApp)
        requires
            old(self).phase is AwaitingLaunch,
            old(self).wf(),
        ensures
            final(self).phase is Complete,
            app.http_endpoint@ == endpoint_spec(app.port),
            app.port == old(self).port,
            app.store_id == old(self).store_id,
            app.store_name@ == hyphenated(app.store_id),
            app.pool_open,
            app.task_live,
            app.store_present,
            app.migrated,
    {
        let endpoint = endpoint_url(self.port);
        let app = TestApp {
            http_endpoint: endpoint,
            store_id: self.store_id,
            store_name: self.store_name.clone(),
            port: self.port,
            pool_open: true,
            task_live: true,
            store_present: true,
            migrated: true,
        };
        self.phase = StartupPhase::Complete;
        app
    }

    /// The operation the current phase awaited failed: the whole
    /// sequence aborts, naming the step. There is no partial-result
    /// mode and no retry.
    pub fn step_failed(&mut self)
        requires
            !(old(self).phase is Complete),
            !(old(self).phase is Aborted),
        ensures
            final(self).phase == StartupPhase::Aborted(failing_step_of(old(self).phase)),
            final(self).store_id == old(self).store_id,
            final(self).store_name@ == old(self).store_name@,
            final(self).settings == old(self).settings,
            final(self).port == old(self).port,
    {
        let step = match self.phase {
            StartupPhase::AwaitingSettings => StartupStep::LoadSettings,
            StartupPhase::GeneratingIdentifier => StartupStep::GenerateIdentifier,
            StartupPhase::AwaitingAdminConnection => StartupStep::ConnectAdmin,
            StartupPhase::AwaitingStoreCreation => StartupStep::CreateStore,
            StartupPhase::AwaitingPool => StartupStep::OpenPool,
            StartupPhase::AwaitingMigrations => StartupStep::RunMigrations,
            StartupPhase::AwaitingOutboundClient => StartupStep::BuildOutboundClient,
            StartupPhase::AwaitingListener => StartupStep::BindListener,
            StartupPhase::AwaitingLaunch => StartupStep::LaunchService,
            _ => StartupStep::LoadSettings,
        };
        self.phase = StartupPhase::Aborted(step);
    }
}

/// The instance after its service task was cancelled.
pub open spec fn after_cancel(a: TestApp) -> TestApp {
    TestApp { task_live: false, ..a }
}

/// The instance after its pool was closed.
pub open spec fn after_close(a: TestApp) -> TestApp {
    TestApp { pool_open: false, ..a }
}

/// The instance after the drop statement ran: the store is gone only
/// if the server accepted the drop; a refusal changes nothing.
pub open spec fn after_drop(a: TestApp, dropped: bool) -> TestApp {
    if dropped {
        TestApp { store_present: false, ..a }
    } else {
        a
    }
}

/// The whole teardown: cancel the task, close the pool, attempt the
/// drop with the given outcome.
pub open spec fn shutdown_spec(a: TestApp, dropped: bool) -> TestApp {
    after_drop(after_close(after_cancel(a)), dropped)
}

impl TestApp {
    /// Teardown step one: cancel the service task, fire and forget. No
    /// outcome is reported and none is awaited.
    pub fn cancel_task(&mut self)
        ensures
            *final(self) == after_cancel(*old(self)),
            !final(self).task_live,
    {
        self.task_live = false;
    }

    /// Teardown step two: close the pool. Only performed once the task
    /// is cancelled — teardown runs cancel, close, drop, in that order.
    /// Afterwards the pool rejects every further query, whatever
    /// becomes of the drop.
    pub fn close_pool(&mut self)
        requires
            !old(self).task_live,
        ensures
            *final(self) == after_close(*old(self)),
            !final(self).pool_open,
    {
        self.pool_open = false;
    }

    /// The URL of the service's health probe: the base URL extended
    /// with the health route.
    pub fn health_url(&self) -> (r: String)
        ensures
            r@ == self.http_endpoint@ + "/health"@,
    {
        let mut s = self.http_endpoint.clone();
        s.append("/health");
        s
    }

    /// The statement the driver must issue on the retained
    /// administrative connection to drop this instance's store.
    pub fn drop_statement(&self) -> (r: String)
        ensures
            r@ == drop_store_statement_spec(self.store_name@),
    {
        drop_store_statement(self.store_name.as_str())
    }

    /// Teardown step three, successful outcome: the server dropped the
    /// store. Only attempted once the pool is closed — dropping first
    /// risks a store-in-use refusal.
    pub fn store_dropped(&mut self) -> (log: String)
        requires
            !old(self).pool_open,
        ensures
            *final(self) == after_drop(*old(self), true),
            !final(self).store_present,
            log@ == drop_success_log_spec(old(self).store_name@),
    {
        self.store_present = false;
        drop_success_log(self.store_name.as_str())
    }

    /// Teardown step three, failed outcome: the server refused the
    /// drop. The failure is swallowed — nothing is raised to the
    /// caller — and reported only as a log line carrying the store's
    /// identifier and the server's error code.
    pub fn store_drop_failed(&mut self, code: &str) -> (log: String)
        requires
            !old(self).pool_open,
        ensures
            *final(self) == after_drop(*old(self), false),
            log@ == drop_failure_log_spec(old(self).store_name@, code@),
    {
        drop_failure_log(self.store_name.as_str(), code)
    }
}

/// Law: after teardown the pool rejects further queries and the task
/// is cancelled, whether or not the drop statement succeeded.
pub proof fn lemma_shutdown_closes_pool(a: TestApp, dropped: bool)
    ensures
        !shutdown_spec(a, dropped).pool_open,
        !shutdown_spec(a, dropped).task_live,
{
}

/// Law: a second full teardown pass changes nothing. On the second
/// pass the store is already gone, so the drop statement fails and is
/// swallowed; the instance ends exactly where the first pass left it.
pub proof fn lemma_shutdown_idempotent(a: TestApp, first_drop: bool)
    ensures
        shutdown_spec(shutdown_spec(a, first_drop), false) == shutdown_spec(a, first_drop),
{
}

/// Law: two completed instances with distinct identifiers and distinct
/// ports are fully isolated — their store names differ and their base
/// URLs differ.
pub proof fn lemma_instances_isolated(a: TestApp, b: TestApp)
    requires
        a.store_name@ == hyphenated(a.store_id),
        b.store_name@ == hyphenated(b.store_id),
        a.http_endpoint@ == endpoint_spec(a.port),
        b.http_endpoint@ == endpoint_spec(b.port),
        a.store_id != b.store_id,
        a.port != b.port,
    ensures
        a.store_name@ != b.store_name@,
        a.http_endpoint@ != b.http_endpoint@,
{
    if hyphenated(a.store_id) == hyphenated(b.store_id) {
        lemma_hyphenated_injective(a.store_id, b.store_id);
    }
    if endpoint_spec(a.port) == endpoint_spec(b.port) {
        lemma_endpoint_injective(a.port, b.port);
    }
}

} // verus!
