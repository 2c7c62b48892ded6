//! The diagnostics gate: process-wide one-time initialization of the
//! logging/tracing sink, idempotent across any number of harness
//! instances started within one process.

use vstd::prelude::*;

verus! {

/// Tracks whether the process-wide diagnostics sink has been installed.
///
/// The underlying installation (wiring a tracing subscriber to either a
/// visible stream or a discard sink) is performed by the caller exactly
/// when `ensure_initialized` says so; this type decides, and guarantees
/// the installation happens exactly once per process.
pub struct DiagnosticsGate {
    pub installed: bool,
}

impl DiagnosticsGate {
    /// A fresh process starts with no sink installed.
    pub fn new() -> (gate: DiagnosticsGate)
        ensures
            !gate.installed,
    {
        DiagnosticsGate { installed: false }
    }

    /// Decides whether the caller must perform the underlying sink
    /// installation now. Returns true exactly on the first use; every
    /// later use returns false, and the flag stays set for the rest of
    /// the process.
    pub fn ensure_initialized(&mut self) -> (install_now: bool)
        ensures
            final(self).installed,
            install_now == !old(self).installed,
    {
        let install_now = !self.installed;
        self.installed = true;
        install_now
    }
}

/// The state after `n` uses of `ensure_initialized` on a fresh
/// process: whether the sink is reported present, and how many of
/// those uses demanded the underlying installation — which a use does
/// exactly when the flag was still unset.
pub open spec fn gate_runs(n: nat) -> (bool, nat)
    decreases n,
{
    if n == 0 {
        (false, 0)
    } else {
        let prev = gate_runs((n - 1) as nat);
        (true, if prev.0 {
            prev.1
        } else {
            prev.1 + 1
        })
    }
}

/// Law: however many harness instances consult `ensure_initialized`
/// within one process, the sink installation is demanded exactly once.
pub proof fn lemma_installed_exactly_once(n: nat)
    requires
        n >= 1,
    ensures
        gate_runs(n).1 == 1,
    decreases n,
{
    if n > 1 {
        lemma_installed_exactly_once((n - 1) as nat);
    } else {
        assert(!gate_runs(0).0 && gate_runs(0).1 == 0);
    }
}

} // verus!
