//! Store connection settings: the parameters that address the shared
//! backing server, plus the name of the logical store one instance works
//! against. The two connection strings — one excluding the store name,
//! for administrative statements, and one including it, for the pool —
//! are specified exactly.

use crate::numfmt::{dec_seq, u16_to_string};
use vstd::prelude::*;

verus! {

/// Connection parameters for the shared backing server. `name` is the
/// logical store the pool connects to; the harness overwrites it with a
/// freshly generated identifier before provisioning, leaving the loaded
/// default untouched.
pub struct StoreSettings {
    pub username: String,
    pub password: String,
    pub host: String,
    pub port: u16,
    pub name: String,
}

/// The connection string that addresses the server but no particular
/// store, used only for store-level create/drop statements.
pub open spec fn admin_conn_spec(
    username: Seq<char>,
    password: Seq<char>,
    host: Seq<char>,
    port: u16,
) -> Seq<char> {
    "postgres://"@ + username + ":"@ + password + "@"@ + host + ":"@ + dec_seq(port as nat)
}

/// The connection string scoped to the named store, used by the pool.
pub open spec fn full_conn_spec(
    username: Seq<char>,
    password: Seq<char>,
    host: Seq<char>,
    port: u16,
    name: Seq<char>,
) -> Seq<char> {
    admin_conn_spec(username, password, host, port) + "/"@ + name
}

impl StoreSettings {
    /// The administrative connection string: server only, no store.
    pub fn connection_string_without_store(&self) -> (r: String)
        ensures
            r@ == admin_conn_spec(self.username@, self.password@, self.host@, self.port),
    {
        let mut s = String::from_str("postgres://");
        s.append(self.username.as_str());
        s.append(":");
        s.append(self.password.as_str());
        s.append("@");
        s.append(self.host.as_str());
        s.append(":");
        let p = u16_to_string(self.port);
        s.append(p.as_str());
        proof {
            assert(s@ =~= admin_conn_spec(self.username@, self.password@, self.host@, self.port));
        }
        s
    }

    /// The pool connection string: the administrative one extended with
    /// `/` and the store name.
    pub fn connection_string(&self) -> (r: String)
        ensures
            r@ == full_conn_spec(
                self.username@,
                self.password@,
                self.host@,
                self.port,
                self.name@,
            ),
    {
        let mut s = self.connection_string_without_store();
        s.append("/");
        s.append(self.name.as_str());
        proof {
            assert(s@ =~= full_conn_spec(
                self.username@,
                self.password@,
                self.host@,
                self.port,
                self.name@,
            ));
        }
        s
    }

    /// A copy of these settings pointing at the given store. The
    /// original value — typically the loaded default — is not mutated.
    pub fn with_store_name(&self, name: String) -> (r: StoreSettings)
        ensures
            r.username@ == self.username@,
            r.password@ == self.password@,
            r.host@ == self.host@,
            r.port == self.port,
            r.name@ == name@,
    {
        StoreSettings {
            username: self.username.clone(),
            password: self.password.clone(),
            host: self.host.clone(),
            port: self.port,
            name,
        }
    }
}

} // verus!
