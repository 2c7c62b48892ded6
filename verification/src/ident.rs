//! Store identifiers: each harness instance names its logical store with a
//! freshly drawn 128-bit random value, rendered in the usual hyphenated
//! lowercase-hex form. The rendering is specified exactly, so distinct
//! values provably render to distinct names.

use vstd::prelude::*;

verus! {

/// The lowercase hex digit for a value below sixteen.
pub open spec fn hex_char(d: nat) -> char {
    if d == 0 {
        '0'
    } else if d == 1 {
        '1'
    } else if d == 2 {
        '2'
    } else if d == 3 {
        '3'
    } else if d == 4 {
        '4'
    } else if d == 5 {
        '5'
    } else if d == 6 {
        '6'
    } else if d == 7 {
        '7'
    } else if d == 8 {
        '8'
    } else if d == 9 {
        '9'
    } else if d == 10 {
        'a'
    } else if d == 11 {
        'b'
    } else if d == 12 {
        'c'
    } else if d == 13 {
        'd'
    } else if d == 14 {
        'e'
    } else {
        'f'
    }
}

/// The last `k` lowercase hex digits of `n`, most significant first.
pub open spec fn hex_seq(n: nat, k: nat) -> Seq<char>
    decreases k,
{
    if k == 0 {
        Seq::<char>::empty()
    } else {
        hex_seq(n / 16, (k - 1) as nat) + seq![hex_char(n % 16)]
    }
}

/// Sixteen to the power `k`.
pub open spec fn pow16(k: nat) -> nat
    decreases k,
{
    if k == 0 {
        1
    } else {
        16 * pow16((k - 1) as nat)
    }
}

/// The hyphenated lowercase-hex rendering of a 128-bit identifier:
/// 32 hex digits in groups of 8, 4, 4, 4 and 12, separated by hyphens.
pub open spec fn hyphenated(n: u128) -> Seq<char> {
    let h = hex_seq(n as nat, 32);
    h.subrange(0, 8) + seq!['-'] + h.subrange(8, 12) + seq!['-'] + h.subrange(12, 16)
        + seq!['-'] + h.subrange(16, 20) + seq!['-'] + h.subrange(20, 32)
}

/// Relies on uuid::Uuid: `new_v4` draws a fresh random UUID, `as_u128`
/// returns its bytes as one big-endian 128-bit value, and `to_string`
/// renders those same bytes in hyphenated lowercase hex. The string is
/// therefore `hyphenated` of the numeric value; nothing is promised of
/// the value itself, which is random.
#[verifier::external_body]
pub fn draw_identifier() -> (r: (u128, String))
    ensures
        r.1@ == hyphenated(r.0),
{
    let u = uuid::Uuid::new_v4();
    (u.as_u128(), u.to_string())
}

proof fn lemma_hex_seq_len(n: nat, k: nat)
    ensures
        hex_seq(n, k).len() == k,
    decreases k,
{
    if k > 0 {
        lemma_hex_seq_len(n / 16, (k - 1) as nat);
    }
}

proof fn lemma_hex_seq_injective(a: nat, b: nat, k: nat)
    requires
        a < pow16(k),
        b < pow16(k),
        hex_seq(a, k) == hex_seq(b, k),
    ensures
        a == b,
    decreases k,
{
    if k == 0 {
        assert(a == 0 && b == 0);
    } else {
        let k1 = (k - 1) as nat;
        lemma_hex_seq_len(a / 16, k1);
        lemma_hex_seq_len(b / 16, k1);
        assert(hex_seq(a, k)[k - 1] == hex_char(a % 16));
        assert(hex_seq(b, k)[k - 1] == hex_char(b % 16));
        assert(a % 16 == b % 16);
        assert(hex_seq(a / 16, k1) =~= hex_seq(a, k).subrange(0, k1 as int));
        assert(hex_seq(b / 16, k1) =~= hex_seq(b, k).subrange(0, k1 as int));
        assert(a / 16 < pow16(k1) && b / 16 < pow16(k1)) by (nonlinear_arith)
            requires
                a < 16 * pow16(k1),
                b < 16 * pow16(k1),
        ;
        lemma_hex_seq_injective(a / 16, b / 16, k1);
        assert(a == 16 * (a / 16) + a % 16) by (nonlinear_arith);
        assert(b == 16 * (b / 16) + b % 16) by (nonlinear_arith);
    }
}

proof fn lemma_pow16_32()
    ensures
        pow16(32) == 0x100000000000000000000000000000000,
{
    assert(pow16(32) == 0x100000000000000000000000000000000) by {
        reveal_with_fuel(pow16, 33);
    }
}

/// Law: the hyphenated rendering is injective, so two instances whose
/// numeric identifiers differ also receive different store names.
pub proof fn lemma_hyphenated_injective(a: u128, b: u128)
    requires
        hyphenated(a) == hyphenated(b),
    ensures
        a == b,
{
    lemma_hex_seq_len(a as nat, 32);
    lemma_hex_seq_len(b as nat, 32);
    let ha = hex_seq(a as nat, 32);
    let hb = hex_seq(b as nat, 32);
    assert(ha =~= hb) by {
        assert forall|i: int| 0 <= i < 32 implies ha[i] == hb[i] by {
            if i < 8 {
                assert(hyphenated(a)[i] == ha[i]);
                assert(hyphenated(b)[i] == hb[i]);
            } else if i < 12 {
                assert(hyphenated(a)[i + 1] == ha[i]);
                assert(hyphenated(b)[i + 1] == hb[i]);
            } else if i < 16 {
                assert(hyphenated(a)[i + 2] == ha[i]);
                assert(hyphenated(b)[i + 2] == hb[i]);
            } else if i < 20 {
                assert(hyphenated(a)[i + 3] == ha[i]);
                assert(hyphenated(b)[i + 3] == hb[i]);
            } else {
                assert(hyphenated(a)[i + 4] == ha[i]);
                assert(hyphenated(b)[i + 4] == hb[i]);
            }
        }
    }
    lemma_pow16_32();
    lemma_hex_seq_injective(a as nat, b as nat, 32);
}

} // verus!
