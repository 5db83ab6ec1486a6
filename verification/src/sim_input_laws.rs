//! Properties of the simulation command's input handling.
use vstd::prelude::*;
use crate::sim_input::{
    argument_list, has_hex_prefix, hex, hex_digit, non_empty, split_pieces, trim_all, value_hex,
};

verus! {

/// The value of lower-case hexadecimal digits.
pub open spec fn hex_value(s: Seq<char>) -> nat
    decreases s.len(),
{
    if s.len() == 0 {
        0
    } else {
        hex_value(s.drop_last()) * 16 + hex_digit_value(s.last())
    }
}

/// The value of one lower-case hexadecimal digit.
pub open spec fn hex_digit_value(c: char) -> nat {
    if '0' <= c <= '9' {
        (c as nat - 48) as nat
    } else {
        (c as nat - 87) as nat
    }
}

/// Reading the hexadecimal text of a number gives the number back.
pub proof fn lemma_hex_roundtrip(n: nat)
    ensures
        hex_value(hex(n)) == n,
        hex(n).len() >= 1,
    decreases n,
{
    if n >= 16 {
        lemma_hex_roundtrip(n / 16);
        let d = n % 16;
        assert(hex_digit_value(hex_digit(d)) == d);
        assert(hex(n).drop_last() =~= hex(n / 16));
        assert(hex(n).last() == hex_digit(d));
        vstd::arithmetic::div_mod::lemma_fundamental_div_mod(n as int, 16);
        assert(hex_value(hex(n)) == hex_value(hex(n / 16)) * 16 + d);
        assert(n == (n / 16) * 16 + d);
    } else {
        assert(hex(n) == seq![hex_digit(n)]);
        assert(hex_value(hex(n)) == hex_value(hex(n).drop_last()) * 16 + hex_digit_value(hex(n).last()));
        assert(hex_value(Seq::<char>::empty()) == 0);
        assert(n % 16 == n);
        assert(hex_digit_value(hex_digit(n)) == n);
        assert(hex(n).drop_last() =~= Seq::<char>::empty());
    }
}

/// A normalised value is left alone when normalised again.
pub proof fn lemma_value_hex_idempotent(v: Option<Seq<char>>)
    ensures
        value_hex(v) matches Some(h) ==> value_hex(Some(h)) == Some(h),
{
    reveal_strlit("0x");
    if let Some(h) = value_hex(v) {
        assert(h.len() >= 2 && h[0] == '0' && h[1] == 'x' || has_hex_prefix(h, true));
        assert(has_hex_prefix(h, true));
    }
}

/// Dropping empty pieces leaves only non-empty ones.
pub proof fn lemma_non_empty(s: Seq<Seq<char>>)
    ensures
        forall|i: int| 0 <= i < non_empty(s).len() ==> #[trigger] non_empty(s)[i].len() > 0,
    decreases s.len(),
{
    if s.len() > 0 {
        lemma_non_empty(s.drop_last());
        let r = non_empty(s.drop_last());
        if s.last().len() > 0 {
            assert forall|i: int| 0 <= i < r.push(s.last()).len() implies #[trigger] r.push(s.last())[i].len() > 0 by {
                if i < r.len() {
                    assert(r.push(s.last())[i] == r[i]);
                }
            }
        }
    }
}

/// No argument handed to the calldata encoder is empty.
pub proof fn lemma_arguments_non_empty(raw: Seq<char>)
    ensures
        forall|i: int| 0 <= i < argument_list(raw).len() ==> #[trigger] argument_list(raw)[i].len() > 0,
{
    lemma_non_empty(trim_all(split_pieces(raw, true)));
    lemma_non_empty(split_pieces(raw, false));
}

} // verus!
