//! The process registry: every store identifier ever claimed in this
//! process, and the ports of the currently live instances. Identifiers
//! are never released — uniqueness must hold across all prior and
//! concurrent instances for the process lifetime — while a port is
//! released once its instance has shut down.

use crate::endpoint::{endpoint_spec, lemma_endpoint_injective};
use crate::ident::{hyphenated, lemma_hyphenated_injective};
use vstd::prelude::*;

verus! {

/// One process's record of claimed store identifiers and live ports.
pub struct ProcessRegistry {
    pub store_ids: Vec<u128>,
    pub live_ports: Vec<u16>,
}

impl ProcessRegistry {
    /// All recorded identifiers are pairwise distinct, and so are the
    /// live ports.
    pub open spec fn wf(self) -> bool {
        (forall|i: int, j: int|
            0 <= i < j < self.store_ids@.len() ==> self.store_ids@[i] != self.store_ids@[j])
            && (forall|i: int, j: int|
            0 <= i < j < self.live_ports@.len() ==> self.live_ports@[i] != self.live_ports@[j])
    }

    /// A fresh process has claimed nothing.
    pub fn new() -> (r: ProcessRegistry)
        ensures
            r.wf(),
            r.store_ids@ == Seq::<u128>::empty(),
            r.live_ports@ == Seq::<u16>::empty(),
    {
        ProcessRegistry { store_ids: Vec::new(), live_ports: Vec::new() }
    }

    /// Claims a freshly drawn identifier: records it and returns true if
    /// no prior instance claimed it, else records nothing and returns
    /// false. Either way the identifier is present afterwards.
    pub fn claim_store_id(&mut self, id: u128) -> (fresh: bool)
        requires
            old(self).wf(),
        ensures
            final(self).wf(),
            fresh == !old(self).store_ids@.contains(id),
            fresh ==> final(self).store_ids@ == old(self).store_ids@.push(id),
            !fresh ==> final(self).store_ids@ == old(self).store_ids@,
            final(self).live_ports@ == old(self).live_ports@,
            final(self).store_ids@.contains(id),
    {
        let n = self.store_ids.len();
        let mut i: usize = 0;
        while i < n
            invariant
                i <= n,
                old(self).wf(),
                self.store_ids@ == old(self).store_ids@,
                self.live_ports@ == old(self).live_ports@,
                n == self.store_ids@.len(),
                forall|k: int| 0 <= k < i ==> self.store_ids@[k] != id,
            decreases n - i,
        {
            if self.store_ids[i] == id {
                return false;
            }
            i += 1;
        }
        assert(!self.store_ids@.contains(id));
        self.store_ids.push(id);
        proof {
            let ids = self.store_ids@;
            assert(ids.last() == id);
            assert forall|i: int, j: int| 0 <= i < j < ids.len() implies ids[i] != ids[j] by {
                if j == ids.len() - 1 {
                    assert(ids[i] == old(self).store_ids@[i]);
                }
            }
        }
        true
    }

    /// Records the port a new instance bound: records it and returns
    /// true if no live instance holds it, else records nothing and
    /// returns false.
    pub fn record_live_port(&mut self, port: u16) -> (fresh: bool)
        requires
            old(self).wf(),
        ensures
            final(self).wf(),
            fresh == !old(self).live_ports@.contains(port),
            fresh ==> final(self).live_ports@ == old(self).live_ports@.push(port),
            !fresh ==> final(self).live_ports@ == old(self).live_ports@,
            final(self).store_ids@ == old(self).store_ids@,
            final(self).live_ports@.contains(port),
    {
        let n = self.live_ports.len();
        let mut i: usize = 0;
        while i < n
            invariant
                i <= n,
                old(self).wf(),
                self.store_ids@ == old(self).store_ids@,
                self.live_ports@ == old(self).live_ports@,
                n == self.live_ports@.len(),
                forall|k: int| 0 <= k < i ==> self.live_ports@[k] != port,
            decreases n - i,
        {
            if self.live_ports[i] == port {
                return false;
            }
            i += 1;
        }
        assert(!self.live_ports@.contains(port));
        self.live_ports.push(port);
        proof {
            let ps = self.live_ports@;
            assert(ps.last() == port);
            assert forall|i: int, j: int| 0 <= i < j < ps.len() implies ps[i] != ps[j] by {
                if j == ps.len() - 1 {
                    assert(ps[i] == old(self).live_ports@[i]);
                }
            }
        }
        true
    }

    /// Releases the port of an instance that shut down: afterwards the
    /// port is no longer recorded as live, and every other live port
    /// is preserved — the new record is exactly the old one with this
    /// port's occurrence removed.
    pub fn release_port(&mut self, port: u16)
        requires
            old(self).wf(),
        ensures
            final(self).wf(),
            !final(self).live_ports@.contains(port),
            final(self).live_ports@ == old(self).live_ports@.remove_value(port),
            final(self).store_ids@ == old(self).store_ids@,
    {
        let n = self.live_ports.len();
        let mut i: usize = 0;
        while i < n
            invariant
                i <= n,
                old(self).wf(),
                n == old(self).live_ports@.len(),
                self.live_ports@ == old(self).live_ports@,
                self.store_ids@ == old(self).store_ids@,
                forall|k: int| 0 <= k < i ==> self.live_ports@[k] != port,
            decreases n - i,
        {
            if self.live_ports[i] == port {
                self.live_ports.remove(i);
                proof {
                    let ps = self.live_ports@;
                    let os = old(self).live_ports@;
                    assert forall|a: int, b: int| 0 <= a < b < ps.len() implies ps[a] != ps[b] by {
                        if b < i {
                            assert(ps[a] == os[a] && ps[b] == os[b]);
                        } else if a < i {
                            assert(ps[a] == os[a] && ps[b] == os[b + 1]);
                        } else {
                            assert(ps[a] == os[a + 1] && ps[b] == os[b + 1]);
                        }
                    }
                    assert forall|k: int| 0 <= k < ps.len() implies ps[k] != port by {
                        if k < i {
                            assert(ps[k] == os[k]);
                        } else {
                            assert(ps[k] == os[k + 1]);
                        }
                    }
                    os.index_of_first_ensures(port);
                    match os.index_of_first(port) {
                        Some(idx) => {
                            if idx < i {
                                assert(os[idx] == port);
                            }
                            if idx > i {
                                assert(os[i as int] == port);
                            }
                            assert(idx == i);
                        },
                        None => {
                            assert(os[i as int] == port);
                        },
                    }
                    assert(os.remove_value(port) == os.remove(i as int));
                }
                return;
            }
            i += 1;
        }
        proof {
            let os = old(self).live_ports@;
            assert(!os.contains(port));
            os.index_of_first_ensures(port);
            match os.index_of_first(port) {
                Some(idx) => {
                    assert(os.contains(port));
                },
                None => {},
            }
            assert(os.remove_value(port) == os);
        }
    }
}

/// Law: any two identifiers recorded in a well-formed registry render
/// to distinct store names — the generated identifier is unique across
/// all prior and concurrent instances of one process.
pub proof fn lemma_store_names_distinct(reg: ProcessRegistry, i: int, j: int)
    requires
        reg.wf(),
        0 <= i < reg.store_ids@.len(),
        0 <= j < reg.store_ids@.len(),
        i != j,
    ensures
        hyphenated(reg.store_ids@[i]) != hyphenated(reg.store_ids@[j]),
{
    if hyphenated(reg.store_ids@[i]) == hyphenated(reg.store_ids@[j]) {
        lemma_hyphenated_injective(reg.store_ids@[i], reg.store_ids@[j]);
    }
}

/// Law: any two ports recorded as live in a well-formed registry give
/// distinct HTTP base URLs — no two concurrently live instances expose
/// the same endpoint.
pub proof fn lemma_live_endpoints_distinct(reg: ProcessRegistry, i: int, j: int)
    requires
        reg.wf(),
        0 <= i < reg.live_ports@.len(),
        0 <= j < reg.live_ports@.len(),
        i != j,
    ensures
        endpoint_spec(reg.live_ports@[i]) != endpoint_spec(reg.live_ports@[j]),
{
    if endpoint_spec(reg.live_ports@[i]) == endpoint_spec(reg.live_ports@[j]) {
        lemma_endpoint_injective(reg.live_ports@[i], reg.live_ports@[j]);
    }
}

} // verus!
