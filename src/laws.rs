//! Laws that tie the operations of `i24` together.

use core::cmp::Ordering;
use vstd::arithmetic::power2::{lemma_pow2_pos, pow2};
use vstd::prelude::*;
use vstd::std_specs::cmp::PartialOrdSpec;
use vstd::std_specs::convert::FromSpec;
use vstd::std_specs::ops::{BitAndSpec, NegSpec, NotSpec, ShrSpec};

use crate::lemmas::{lemma_bits_are_value_mod, lemma_wrapping};
use crate::ops::{lemma_not_value, shift_count};
use crate::signed24::{i24, wrapping};

verus! {

/// Writing a value's bytes out and reading them back, in either byte order,
/// gives the value; the big-endian bytes are the little-endian ones reversed.
/// Conversely any three bytes read in and written out again are unchanged.
pub proof fn law_byte_round_trip(v: i24, b: Seq<u8>)
    requires
        b.len() == 3,
    ensures
        i24::from_le_seq(v.le_bytes()) == v,
        i24::from_be_seq(v.be_bytes()) == v,
        v.be_bytes() == v.le_bytes().reverse(),
        i24::from_le_seq(b).le_bytes() == b,
        i24::from_be_seq(b).be_bytes() == b,
{
    assert(v.be_bytes() =~= v.le_bytes().reverse());
    assert(i24::from_le_seq(b).le_bytes() =~= b);
    assert(i24::from_be_seq(b).be_bytes() =~= b);
}

/// Converting a value to `i32` and back gives the value.
pub proof fn law_i32_round_trip(v: i24)
    ensures
        <i24 as FromSpec<i32>>::from_spec(v.value() as i32) == v,
{
    lemma_bits_are_value_mod(v);
}

/// Values order as their sign-extended 32-bit values do, not as their bytes.
pub proof fn law_order_is_numeric(a: i24, b: i24)
    ensures
        (a.partial_cmp_spec(&b) == Some(Ordering::Less)) <==> a.value() < b.value(),
        (a.partial_cmp_spec(&b) == Some(Ordering::Equal)) <==> a == b,
        (a.partial_cmp_spec(&b) == Some(Ordering::Greater)) <==> a.value() > b.value(),
{
    if a.value() == b.value() {
        lemma_bits_are_value_mod(a);
        lemma_bits_are_value_mod(b);
    }
}

/// Each byte of `a & b` is the AND of the matching bytes of `a` and `b`.
pub proof fn law_bitand_bytewise(a: i24, b: i24)
    ensures
        forall|i: int|
            0 <= i < 3 ==> #[trigger] a.bitand_spec(b).le_bytes()[i] == a.le_bytes()[i]
                & b.le_bytes()[i],
{
}

/// The complement of `v` is `-1 - v`, and negation is the complement plus
/// one: `-v` equals `v` negated, wrapped to 24 bits, so the smallest value is
/// its own negation and every other value negates exactly.
pub proof fn law_not_and_neg(v: i24)
    ensures
        v.not_spec().value() == -1 - v.value(),
        v.value() != -0x80_0000 ==> v.neg_spec().value() == -v.value(),
        v.value() == -0x80_0000 ==> v.neg_spec() == v,
{
    lemma_not_value(v);
    lemma_wrapping(-v.value());
    lemma_bits_are_value_mod(v);
    if v.value() == -0x80_0000 {
        vstd::arithmetic::div_mod::lemma_fundamental_div_mod_converse(
            -v.value(), 0x100_0000, 0, 0x80_0000);
        crate::lemmas::lemma_from_bits_of(v);
    } else {
        vstd::arithmetic::div_mod::lemma_fundamental_div_mod_converse(
            -v.value(), 0x100_0000, if -v.value() < 0 { -1 } else { 0 },
            if -v.value() < 0 { -v.value() + 0x100_0000 } else { -v.value() });
    }
}

/// Wrapping to 24 bits keeps a number modulo `2^24` and lands in
/// `[-2^23, 2^23)`; a number already in that range is kept as it is.
pub proof fn law_wrapping_is_modular(x: int)
    ensures
        (wrapping(x).value() - x) % 0x100_0000 == 0,
        -0x80_0000 <= wrapping(x).value() < 0x80_0000,
        -0x80_0000 <= x < 0x80_0000 ==> wrapping(x).value() == x,
{
    lemma_wrapping(x);
    vstd::arithmetic::div_mod::lemma_fundamental_div_mod(x, 0x100_0000);
    let q = x / 0x100_0000;
    let d = wrapping(x).value() - x;
    if x % 0x100_0000 >= 0x80_0000 {
        vstd::arithmetic::div_mod::lemma_fundamental_div_mod_converse(d, 0x100_0000, -q - 1, 0);
    } else {
        vstd::arithmetic::div_mod::lemma_fundamental_div_mod_converse(d, 0x100_0000, -q, 0);
    }
    if -0x80_0000 <= x < 0x80_0000 {
        if x < 0 {
            vstd::arithmetic::div_mod::lemma_fundamental_div_mod_converse(x, 0x100_0000, -1, x + 0x100_0000);
        } else {
            vstd::arithmetic::div_mod::lemma_fundamental_div_mod_converse(x, 0x100_0000, 0, x);
        }
    }
}

/// An arithmetic right shift never wraps: its value is exactly the value
/// divided by `2^k`, rounded down.
pub proof fn law_shr_is_floor_division(a: i24, b: i24)
    ensures
        a.shr_spec(b).value() == a.value() / (pow2(shift_count(b)) as int),
{
    let p = pow2(shift_count(b)) as int;
    lemma_pow2_pos(shift_count(b));
    let v = a.value();
    lemma_bits_are_value_mod(a);
    assert(-0x80_0000 <= v / p <= v || v <= v / p < 0x80_0000) by (nonlinear_arith)
        requires
            p >= 1,
            -0x80_0000 <= v < 0x80_0000,
    ;
    law_wrapping_is_modular(v / p);
}

} // verus!
