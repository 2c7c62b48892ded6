//! The HTTP base URL a test issues requests against: the loopback
//! address plus the OS-assigned port the listener was bound to.

use crate::numfmt::{dec_seq, lemma_dec_seq_injective, u16_to_string};
use vstd::prelude::*;

verus! {

/// The base URL for a service listening on the loopback address at the
/// given port.
pub open spec fn endpoint_spec(port: u16) -> Seq<char> {
    "http://127.0.0.1:"@ + dec_seq(port as nat)
}

/// Renders the base URL for the given port.
pub fn endpoint_url(port: u16) -> (r: String)
    ensures
        r@ == endpoint_spec(port),
{
    let mut s = String::from_str("http://127.0.0.1:");
    let p = u16_to_string(port);
    s.append(p.as_str());
    s
}

/// Law: distinct ports give distinct base URLs, so two concurrently
/// live instances that bound different ports expose different
/// endpoints.
pub proof fn lemma_endpoint_injective(a: u16, b: u16)
    requires
        endpoint_spec(a) == endpoint_spec(b),
    ensures
        a == b,
{
    let pre = "http://127.0.0.1:"@;
    let ea = endpoint_spec(a);
    let eb = endpoint_spec(b);
    assert(dec_seq(a as nat) =~= ea.subrange(pre.len() as int, ea.len() as int));
    assert(dec_seq(b as nat) =~= eb.subrange(pre.len() as int, eb.len() as int));
    lemma_dec_seq_injective(a as nat, b as nat);
}

} // verus!
