//! The administrative statements the harness issues against the backing
//! server — creating and dropping a logical store — and the log lines
//! teardown produces. Statements quote the store name, which is a
//! rendered identifier and so never contains a quote itself.

use vstd::prelude::*;

verus! {

/// The statement that creates the logical store with the given name.
pub open spec fn create_store_statement_spec(name: Seq<char>) -> Seq<char> {
    "CREATE DATABASE \""@ + name + "\";"@
}

/// The statement that drops the logical store with the given name.
pub open spec fn drop_store_statement_spec(name: Seq<char>) -> Seq<char> {
    "DROP DATABASE \""@ + name + "\";"@
}

/// The log line recorded when a provisioned store was removed.
pub open spec fn drop_success_log_spec(name: Seq<char>) -> Seq<char> {
    "removed store "@ + name
}

/// The log line recorded when removing a store failed: it carries the
/// store's identifier and the server's error code, and nothing is
/// raised to the caller.
pub open spec fn drop_failure_log_spec(name: Seq<char>, code: Seq<char>) -> Seq<char> {
    "failed to remove store "@ + name + " (code="@ + code + ")"@
}

/// Builds the create statement for the given store name.
pub fn create_store_statement(name: &str) -> (r: String)
    ensures
        r@ == create_store_statement_spec(name@),
{
    let mut s = String::from_str("CREATE DATABASE \"");
    s.append(name);
    s.append("\";");
    proof {
        assert(s@ =~= create_store_statement_spec(name@));
    }
    s
}

/// Builds the drop statement for the given store name.
pub fn drop_store_statement(name: &str) -> (r: String)
    ensures
        r@ == drop_store_statement_spec(name@),
{
    let mut s = String::from_str("DROP DATABASE \"");
    s.append(name);
    s.append("\";");
    proof {
        assert(s@ =~= drop_store_statement_spec(name@));
    }
    s
}

/// Builds the log line for a successful drop.
pub fn drop_success_log(name: &str) -> (r: String)
    ensures
        r@ == drop_success_log_spec(name@),
{
    let mut s = String::from_str("removed store ");
    s.append(name);
    s
}

/// Builds the log line for a failed drop.
pub fn drop_failure_log(name: &str, code: &str) -> (r: String)
    ensures
        r@ == drop_failure_log_spec(name@, code@),
{
    let mut s = String::from_str("failed to remove store ");
    s.append(name);
    s.append(" (code=");
    s.append(code);
    s.append(")");
    proof {
        assert(s@ =~= drop_failure_log_spec(name@, code@));
    }
    s
}

} // verus!
