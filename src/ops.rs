//! Arithmetic, bitwise and shift operators on `i24`.
//!
//! Arithmetic widens both operands to 32 bits, computes there and wraps the
//! result to 24 bits. The bitwise operators act on the three bytes directly.
//! A shift count is the right operand's value modulo 32, so every count is
//! defined: counts of 32 or more, and negative ones, wrap into `0 .. 32`.

use vstd::arithmetic::div_mod::{
    lemma_fundamental_div_mod, lemma_fundamental_div_mod_converse, lemma_mul_mod_noop_left,
};
use vstd::arithmetic::power2::{lemma2_to64, lemma_pow2_strictly_increases, pow2};
use vstd::bits::lemma_u64_shl_is_mul;
use vstd::prelude::*;
use vstd::std_specs::ops::{
    AddSpecImpl, BitAndSpecImpl, BitOrSpecImpl, BitXorSpecImpl, DivSpecImpl, MulSpecImpl,
    NegSpecImpl, NotSpecImpl, RemSpecImpl, ShlSpecImpl, ShrSpecImpl, SubSpecImpl,
};

use crate::lemmas::{
    lemma_bits_are_value_mod, lemma_from_bits_of, lemma_i32_shr_is_div, lemma_i32_wrapping_mul,
};
use crate::signed24::{i24, wrapping};

verus! {

/// The magnitude of `a`.
pub open spec fn abs(a: int) -> int {
    if a < 0 {
        -a
    } else {
        a
    }
}

/// Integer division rounding toward zero (`b != 0`).
pub open spec fn div_trunc(a: int, b: int) -> int {
    let q = abs(a) / abs(b);
    if (a < 0) == (b < 0) {
        q
    } else {
        -q
    }
}

/// The remainder that goes with `div_trunc`: it takes the sign of `a`.
pub open spec fn rem_trunc(a: int, b: int) -> int {
    let r = abs(a) % abs(b);
    if a < 0 {
        -r
    } else {
        r
    }
}

/// The shift count that `rhs` stands for: its value modulo 32.
pub open spec fn shift_count(rhs: i24) -> nat {
    (rhs.value() % 32) as nat
}

/// The shift count, computed from the low byte.
fn shift_count_of(rhs: i24) -> (r: u32)
    ensures
        r == shift_count(rhs),
        r < 32,
{
    let b = rhs.0;
    assert(b & 31 == b % 32) by (bit_vector);
    proof {
        lemma_from_bits_of(rhs);
        lemma_fundamental_div_mod(b as int, 32);
        let t: int = if rhs.bits() >= 0x80_0000 { 1 } else { 0 };
        let q = (b as int) / 32 + 8 * (rhs.1 as int) + 2048 * (rhs.2 as int) - 0x8_0000 * t;
        lemma_fundamental_div_mod_converse(rhs.value(), 32, q, (b as int) % 32);
    }
    (b & 31) as u32
}

impl core::ops::Add for i24 {
    type Output = i24;

    /// The sum, wrapped to 24 bits.
    fn add(self, rhs: i24) -> (r: i24) {
        i24::from(self.as_i32() + rhs.as_i32())
    }
}

impl AddSpecImpl for i24 {
    open spec fn obeys_add_spec() -> bool {
        true
    }

    open spec fn add_req(self, rhs: i24) -> bool {
        true
    }

    open spec fn add_spec(self, rhs: i24) -> i24 {
        wrapping(self.value() + rhs.value())
    }
}

impl core::ops::Sub for i24 {
    type Output = i24;

    /// The difference, wrapped to 24 bits.
    fn sub(self, rhs: i24) -> (r: i24) {
        i24::from(self.as_i32() - rhs.as_i32())
    }
}

impl SubSpecImpl for i24 {
    open spec fn obeys_sub_spec() -> bool {
        true
    }

    open spec fn sub_req(self, rhs: i24) -> bool {
        true
    }

    open spec fn sub_spec(self, rhs: i24) -> i24 {
        wrapping(self.value() - rhs.value())
    }
}

impl core::ops::Mul for i24 {
    type Output = i24;

    /// The product, wrapped to 24 bits.
    fn mul(self, rhs: i24) -> (r: i24) {
        let a = self.as_i32();
        let b = rhs.as_i32();
        let p = a.wrapping_mul(b);
        proof {
            lemma_i32_wrapping_mul(a, b);
        }
        i24::from(p)
    }
}

impl MulSpecImpl for i24 {
    open spec fn obeys_mul_spec() -> bool {
        true
    }

    open spec fn mul_req(self, rhs: i24) -> bool {
        true
    }

    open spec fn mul_spec(self, rhs: i24) -> i24 {
        wrapping(self.value() * rhs.value())
    }
}

impl core::ops::Div for i24 {
    type Output = i24;

    /// The quotient rounded toward zero, wrapped to 24 bits (so the
    /// smallest value divided by -1 is itself). `rhs` must not be zero.
    fn div(self, rhs: i24) -> (r: i24) {
        let q = self.as_i32().checked_div(rhs.as_i32());
        assert(q is Some);
        i24::from(q.unwrap())
    }
}

impl DivSpecImpl for i24 {
    open spec fn obeys_div_spec() -> bool {
        true
    }

    open spec fn div_req(self, rhs: i24) -> bool {
        rhs.value() != 0
    }

    open spec fn div_spec(self, rhs: i24) -> i24 {
        wrapping(div_trunc(self.value(), rhs.value()))
    }
}

impl core::ops::Rem for i24 {
    type Output = i24;

    /// The remainder of division rounding toward zero; it takes the sign of
    /// `self`. `rhs` must not be zero.
    fn rem(self, rhs: i24) -> (r: i24) {
        let m = self.as_i32().checked_rem(rhs.as_i32());
        assert(m is Some);
        i24::from(m.unwrap())
    }
}

impl RemSpecImpl for i24 {
    open spec fn obeys_rem_spec() -> bool {
        true
    }

    open spec fn rem_req(self, rhs: i24) -> bool {
        rhs.value() != 0
    }

    open spec fn rem_spec(self, rhs: i24) -> i24 {
        wrapping(rem_trunc(self.value(), rhs.value()))
    }
}

impl core::ops::BitAnd for i24 {
    type Output = i24;

    /// Byte-wise AND.
    fn bitand(self, rhs: i24) -> (r: i24) {
        i24(self.0 & rhs.0, self.1 & rhs.1, self.2 & rhs.2)
    }
}

impl BitAndSpecImpl for i24 {
    open spec fn obeys_bitand_spec() -> bool {
        true
    }

    open spec fn bitand_req(self, rhs: i24) -> bool {
        true
    }

    open spec fn bitand_spec(self, rhs: i24) -> i24 {
        i24(self.0 & rhs.0, self.1 & rhs.1, self.2 & rhs.2)
    }
}

impl core::ops::BitOr for i24 {
    type Output = i24;

    /// Byte-wise OR.
    fn bitor(self, rhs: i24) -> (r: i24) {
        i24(self.0 | rhs.0, self.1 | rhs.1, self.2 | rhs.2)
    }
}

impl BitOrSpecImpl for i24 {
    open spec fn obeys_bitor_spec() -> bool {
        true
    }

    open spec fn bitor_req(self, rhs: i24) -> bool {
        true
    }

    open spec fn bitor_spec(self, rhs: i24) -> i24 {
        i24(self.0 | rhs.0, self.1 | rhs.1, self.2 | rhs.2)
    }
}

impl core::ops::BitXor for i24 {
    type Output = i24;

    /// Byte-wise XOR.
    fn bitxor(self, rhs: i24) -> (r: i24) {
        i24(self.0 ^ rhs.0, self.1 ^ rhs.1, self.2 ^ rhs.2)
    }
}

impl BitXorSpecImpl for i24 {
    open spec fn obeys_bitxor_spec() -> bool {
        true
    }

    open spec fn bitxor_req(self, rhs: i24) -> bool {
        true
    }

    open spec fn bitxor_spec(self, rhs: i24) -> i24 {
        i24(self.0 ^ rhs.0, self.1 ^ rhs.1, self.2 ^ rhs.2)
    }
}

impl core::ops::Shl for i24 {
    type Output = i24;

    /// `self * 2^k` wrapped to 24 bits, where `k` is `rhs` modulo 32.
    fn shl(self, rhs: i24) -> (r: i24) {
        let k = shift_count_of(rhs);
        let x = self.as_u64();
        let kk = k as u64;
        proof {
            lemma2_to64();
            if k < 31 {
                lemma_pow2_strictly_increases(k as nat, 31);
            }
            assert(x * pow2(k as nat) <= u64::MAX) by (nonlinear_arith)
                requires
                    x < 0x100_0000,
                    pow2(k as nat) <= 0x8000_0000,
            ;
            lemma_u64_shl_is_mul(x, kk);
            lemma_bits_are_value_mod(self);
            lemma_mul_mod_noop_left(self.value(), pow2(k as nat) as int, 0x100_0000);
        }
        i24::from(x << kk)
    }
}

impl ShlSpecImpl for i24 {
    open spec fn obeys_shl_spec() -> bool {
        true
    }

    open spec fn shl_req(self, rhs: i24) -> bool {
        true
    }

    open spec fn shl_spec(self, rhs: i24) -> i24 {
        wrapping(self.value() * pow2(shift_count(rhs)))
    }
}

impl core::ops::Shr for i24 {
    type Output = i24;

    /// Arithmetic shift: `self / 2^k` rounded down, where `k` is `rhs`
    /// modulo 32.
    fn shr(self, rhs: i24) -> (r: i24) {
        let k = shift_count_of(rhs);
        let x = self.as_i32();
        proof {
            lemma_i32_shr_is_div(x, k);
        }
        i24::from(x >> k)
    }
}

impl ShrSpecImpl for i24 {
    open spec fn obeys_shr_spec() -> bool {
        true
    }

    open spec fn shr_req(self, rhs: i24) -> bool {
        true
    }

    open spec fn shr_spec(self, rhs: i24) -> i24 {
        wrapping(self.value() / (pow2(shift_count(rhs)) as int))
    }
}

impl core::ops::Not for i24 {
    type Output = i24;

    /// Byte-wise complement.
    fn not(self) -> (r: i24) {
        i24(!self.0, !self.1, !self.2)
    }
}

impl NotSpecImpl for i24 {
    open spec fn obeys_not_spec() -> bool {
        true
    }

    open spec fn not_req(self) -> bool {
        true
    }

    open spec fn not_spec(self) -> i24 {
        i24(!self.0, !self.1, !self.2)
    }
}

impl core::ops::Neg for i24 {
    type Output = i24;

    /// Two's-complement negation: the complement plus one. The smallest
    /// value is its own negation.
    fn neg(self) -> (r: i24) {
        let c = core::ops::Not::not(self);
        proof {
            lemma_not_value(self);
        }
        c + i24(1, 0, 0)
    }
}

impl NegSpecImpl for i24 {
    open spec fn obeys_neg_spec() -> bool {
        true
    }

    open spec fn neg_req(self) -> bool {
        true
    }

    open spec fn neg_spec(self) -> i24 {
        wrapping(-self.value())
    }
}

impl core::ops::AddAssign for i24 {
    fn add_assign(&mut self, rhs: i24)
        ensures
            *final(self) == wrapping(old(self).value() + rhs.value()),
    {
        *self = *self + rhs;
    }
}

impl core::ops::SubAssign for i24 {
    fn sub_assign(&mut self, rhs: i24)
        ensures
            *final(self) == wrapping(old(self).value() - rhs.value()),
    {
        *self = *self - rhs;
    }
}

impl core::ops::MulAssign for i24 {
    fn mul_assign(&mut self, rhs: i24)
        ensures
            *final(self) == wrapping(old(self).value() * rhs.value()),
    {
        *self = *self * rhs;
    }
}

impl core::ops::BitAndAssign for i24 {
    fn bitand_assign(&mut self, rhs: i24)
        ensures
            *final(self) == i24(old(self).0 & rhs.0, old(self).1 & rhs.1, old(self).2 & rhs.2),
    {
        *self = *self & rhs;
    }
}

impl core::ops::BitOrAssign for i24 {
    fn bitor_assign(&mut self, rhs: i24)
        ensures
            *final(self) == i24(old(self).0 | rhs.0, old(self).1 | rhs.1, old(self).2 | rhs.2),
    {
        *self = *self | rhs;
    }
}

impl core::ops::BitXorAssign for i24 {
    fn bitxor_assign(&mut self, rhs: i24)
        ensures
            *final(self) == i24(old(self).0 ^ rhs.0, old(self).1 ^ rhs.1, old(self).2 ^ rhs.2),
    {
        *self = *self ^ rhs;
    }
}

impl core::ops::ShlAssign for i24 {
    fn shl_assign(&mut self, rhs: i24)
        ensures
            *final(self) == wrapping(old(self).value() * pow2(shift_count(rhs))),
    {
        *self = *self << rhs;
    }
}

impl core::ops::ShrAssign for i24 {
    fn shr_assign(&mut self, rhs: i24)
        ensures
            *final(self) == wrapping(old(self).value() / (pow2(shift_count(rhs)) as int)),
    {
        *self = *self >> rhs;
    }
}

// `DivAssign` and `RemAssign` cannot carry the requirement that the divisor
// be nonzero, so in-place division and remainder are inherent methods.
impl i24 {
    /// Divides in place, rounding toward zero; `rhs` must not be zero.
    pub fn div_assign(&mut self, rhs: i24)
        requires
            rhs.value() != 0,
        ensures
            *final(self) == wrapping(div_trunc(old(self).value(), rhs.value())),
    {
        *self = *self / rhs;
    }

    /// Replaces the value by its remainder after division by `rhs`, which
    /// must not be zero.
    pub fn rem_assign(&mut self, rhs: i24)
        requires
            rhs.value() != 0,
        ensures
            *final(self) == wrapping(rem_trunc(old(self).value(), rhs.value())),
    {
        *self = *self % rhs;
    }
}

/// The complement of the bytes has the value `-1 - v`.
pub proof fn lemma_not_value(v: i24)
    ensures
        i24(!v.0, !v.1, !v.2).value() == -1 - v.value(),
{
    let (a, b, c) = (v.0, v.1, v.2);
    assert(!a == 255 - a && !b == 255 - b && !c == 255 - c) by (bit_vector);
}

} // verus!
