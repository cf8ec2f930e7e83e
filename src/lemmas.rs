//! Arithmetic facts about the byte model of `i24`.

use vstd::arithmetic::div_mod::{
    lemma_fundamental_div_mod, lemma_fundamental_div_mod_converse, lemma_mod_mod,
};
use vstd::arithmetic::power2::{lemma2_to64, lemma_pow2_pos, lemma_pow2_unfold, pow2};
use vstd::prelude::*;

use crate::signed24::{from_bits, i24, wrap24, wrapping};

verus! {

/// Reading a value's bits back into bytes gives the value.
pub proof fn lemma_from_bits_of(v: i24)
    ensures
        0 <= v.bits() < 0x100_0000,
        from_bits(v.bits()) == v,
{
    let b = v.bits();
    let hi = v.1 as int + 0x100 * (v.2 as int);
    lemma_fundamental_div_mod_converse(b, 0x100, hi, v.0 as int);
    lemma_fundamental_div_mod_converse(hi, 0x100, v.2 as int, v.1 as int);
    lemma_fundamental_div_mod_converse(b, 0x1_0000, v.2 as int, v.0 as int + 0x100 * (v.1 as int));
    lemma_fundamental_div_mod_converse(v.2 as int, 0x100, 0, v.2 as int);
}

/// The bytes that `from_bits` picks give back the pattern they came from.
pub proof fn lemma_bits_of_from_bits(b: int)
    requires
        0 <= b < 0x100_0000,
    ensures
        from_bits(b).bits() == b,
{
    let q = b / 0x100;
    lemma_fundamental_div_mod_converse(b, 0x100, q, b % 0x100);
    let q2 = q / 0x100;
    lemma_fundamental_div_mod_converse(q, 0x100, q2, q % 0x100);
    assert(0 <= q2 < 0x100);
    lemma_fundamental_div_mod_converse(q2, 0x100, 0, q2);
    lemma_fundamental_div_mod_converse(b, 0x1_0000, q2, b % 0x100 + 0x100 * (q % 0x100));
}

/// `wrapping(x)` holds `x` modulo `2^24`, and its signed value is `wrap24(x)`.
pub proof fn lemma_wrapping(x: int)
    ensures
        wrapping(x).bits() == x % 0x100_0000,
        wrapping(x).value() == wrap24(x),
{
    lemma_bits_of_from_bits(x % 0x100_0000);
}

/// The bit pattern of a value is its signed value modulo `2^24`.
pub proof fn lemma_bits_are_value_mod(v: i24)
    ensures
        v.bits() == v.value() % 0x100_0000,
        wrapping(v.value()) == v,
        wrap24(v.value()) == v.value(),
{
    lemma_from_bits_of(v);
    if v.bits() >= 0x80_0000 {
        lemma_fundamental_div_mod_converse(v.value(), 0x100_0000, -1, v.bits());
    } else {
        lemma_fundamental_div_mod_converse(v.value(), 0x100_0000, 0, v.bits());
    }
}

/// Two values that agree modulo `2^32` agree modulo `2^24`.
pub proof fn lemma_mod_32_to_24(x: int, y: int)
    requires
        x % 0x1_0000_0000 == y % 0x1_0000_0000,
    ensures
        wrap24(x) == wrap24(y),
        wrapping(x) == wrapping(y),
{
    lemma_mod_mod(x, 0x100_0000, 0x100);
    lemma_mod_mod(y, 0x100_0000, 0x100);
}

} // verus!

verus! {

/// Floor division by `c` and then by `d` is floor division by `c * d`,
/// for negative dividends too.
pub proof fn lemma_floor_div_twice(x: int, c: int, d: int)
    requires
        0 < c,
        0 < d,
    ensures
        (x / c) / d == x / (c * d),
{
    let q = x / c;
    let r = x % c;
    let q2 = q / d;
    let r2 = q % d;
    lemma_fundamental_div_mod(x, c);
    lemma_fundamental_div_mod(q, d);
    assert(x == (c * d) * q2 + (c * r2 + r)) by (nonlinear_arith)
        requires
            x == c * q + r,
            q == d * q2 + r2,
    ;
    assert(0 <= c * r2 + r < c * d) by (nonlinear_arith)
        requires
            0 <= r < c,
            0 <= r2 < d,
    ;
    lemma_fundamental_div_mod_converse(x, c * d, q2, c * r2 + r);
}

/// Arithmetic right shift of an `i32` is floor division by a power of two.
pub proof fn lemma_i32_shr_is_div(x: i32, k: u32)
    requires
        k < 32,
    ensures
        (x >> k) as int == (x as int) / (pow2(k as nat) as int),
    decreases k,
{
    if k == 0 {
        assert(x >> k == x) by (bit_vector)
            requires
                k == 0,
        ;
        lemma2_to64();
    } else {
        let j = (k - 1) as u32;
        lemma_i32_shr_is_div(x, j);
        let y = x >> j;
        assert(x >> k == y >> 1u32) by (bit_vector)
            requires
                0 < k < 32,
                j == k - 1,
                y == x >> j,
        ;
        assert((y >> 1u32) as int == (y as int) / 2) by (bit_vector);
        lemma_pow2_pos(j as nat);
        lemma_pow2_unfold(k as nat);
        lemma_floor_div_twice(x as int, pow2(j as nat) as int, 2);
        assert(pow2(j as nat) * 2 == pow2(k as nat)) by (nonlinear_arith)
            requires
                pow2(k as nat) == 2 * pow2((k - 1) as nat),
                j == k - 1,
        ;
    }
}

} // verus!

verus! {

/// Wrapping a 32-bit product to 24 bits gives what wrapping the exact
/// product does.
pub proof fn lemma_i32_wrapping_mul(a: i32, b: i32)
    ensures
        wrapping(a.wrapping_mul(b) as int) == wrapping(a as int * b as int),
{
    let m: int = 0x1_0000_0000;
    let x = a as int * b as int;
    let p = a.wrapping_mul(b) as int;
    lemma_fundamental_div_mod(x, m);
    if x % m > 0x7FFF_FFFF {
        assert(p == x % m - m);
        lemma_fundamental_div_mod_converse(p, m, -1, x % m);
    } else {
        assert(p == x % m);
        lemma_fundamental_div_mod_converse(p, m, 0, x % m);
    }
    lemma_mod_32_to_24(p, x);
}

} // verus!
