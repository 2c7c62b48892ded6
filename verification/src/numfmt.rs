//! Decimal rendering of port numbers, used in connection strings and in
//! the HTTP base URL. Rendered exactly, with no leading zeros, so two
//! distinct ports provably render to distinct text.

use crate::ident::hex_char;
use vstd::prelude::*;

verus! {

/// The usual decimal rendering of `n`: most significant digit first,
/// no leading zeros (`0` renders as "0").
pub open spec fn dec_seq(n: nat) -> Seq<char>
    decreases n,
{
    if n < 10 {
        seq![hex_char(n)]
    } else {
        dec_seq(n / 10) + seq![hex_char(n % 10)]
    }
}

/// The single-character string for a digit value below ten.
fn digit_str(d: u16) -> (r: &'static str)
    requires
        d < 10,
    ensures
        r@ =~= seq![hex_char(d as nat)],
{
    proof {
        reveal_strlit("0");
        reveal_strlit("1");
        reveal_strlit("2");
        reveal_strlit("3");
        reveal_strlit("4");
        reveal_strlit("5");
        reveal_strlit("6");
        reveal_strlit("7");
        reveal_strlit("8");
        reveal_strlit("9");
    }
    match d {
        0 => "0",
        1 => "1",
        2 => "2",
        3 => "3",
        4 => "4",
        5 => "5",
        6 => "6",
        7 => "7",
        8 => "8",
        _ => "9",
    }
}

/// Renders a port number in decimal.
pub fn u16_to_string(n: u16) -> (s: String)
    ensures
        s@ == dec_seq(n as nat),
{
    if n == 0 {
        let s = String::from_str(digit_str(0));
        return s;
    }
    let mut acc = String::new();
    let mut m: u16 = n;
    proof {
        assert(dec_seq(n as nat) + acc@ =~= dec_seq(n as nat));
    }
    while m > 0
        invariant
            dec_seq(n as nat) == (if m > 0 {
                dec_seq(m as nat) + acc@
            } else {
                acc@
            }),
        decreases m,
    {
        let d: u16 = m % 10;
        let rest: u16 = m / 10;
        let piece = digit_str(d);
        let tail = acc;
        acc = String::from_str(piece).concat(tail.as_str());
        proof {
            if m >= 10 {
                assert(dec_seq(m as nat) == dec_seq((m / 10) as nat) + seq![
                    hex_char((m % 10) as nat),
                ]);
                assert(dec_seq((m / 10) as nat) + (seq![hex_char((m % 10) as nat)] + tail@)
                    =~= (dec_seq((m / 10) as nat) + seq![hex_char((m % 10) as nat)]) + tail@);
            } else {
                assert(dec_seq(m as nat) == seq![hex_char(m as nat)]);
                assert(seq![hex_char(m as nat)] + tail@ =~= dec_seq(m as nat) + tail@);
            }
        }
        m = rest;
    }
    acc
}

/// The rendering is never empty, and from ten upwards it is at least
/// two characters long.
proof fn lemma_dec_seq_len(n: nat)
    ensures
        dec_seq(n).len() >= 1,
        n >= 10 ==> dec_seq(n).len() >= 2,
    decreases n,
{
    if n >= 10 {
        lemma_dec_seq_len(n / 10);
    }
}

/// Law: decimal rendering is injective — distinct port numbers render
/// to distinct text.
pub proof fn lemma_dec_seq_injective(a: nat, b: nat)
    requires
        dec_seq(a) == dec_seq(b),
    ensures
        a == b,
    decreases a,
{
    lemma_dec_seq_len(a);
    lemma_dec_seq_len(b);
    if a < 10 && b < 10 {
        assert(dec_seq(a)[0] == hex_char(a));
        assert(dec_seq(b)[0] == hex_char(b));
    } else if a >= 10 && b >= 10 {
        let la = dec_seq(a / 10).len() as int;
        let lb = dec_seq(b / 10).len() as int;
        assert(la == lb);
        assert(dec_seq(a).last() == hex_char(a % 10));
        assert(dec_seq(b).last() == hex_char(b % 10));
        assert(a % 10 == b % 10);
        assert(dec_seq(a / 10) =~= dec_seq(a).subrange(0, la));
        assert(dec_seq(b / 10) =~= dec_seq(b).subrange(0, lb));
        lemma_dec_seq_injective(a / 10, b / 10);
        assert(a == 10 * (a / 10) + a % 10) by (nonlinear_arith);
        assert(b == 10 * (b / 10) + b % 10) by (nonlinear_arith);
    } else {
        // One side is a single digit and the other at least two: the
        // lengths of the renderings disagree, against the hypothesis.
        assert(dec_seq(a).len() == dec_seq(b).len());
        assert(a < 10 ==> dec_seq(a).len() == 1);
        assert(b < 10 ==> dec_seq(b).len() == 1);
        assert(false);
    }
}

} // verus!
