//! Conversions between `i24` and the native integer types.
//!
//! Into `i24`: the source is wrapped to its low 24 bits (two's complement),
//! never saturated. Out of `i24`: signed targets at least 32 bits wide
//! sign-extend, unsigned ones zero-extend the bit pattern, and 16- and 8-bit
//! targets keep the low bytes.

use vstd::prelude::*;
use vstd::std_specs::convert::FromSpecImpl;

use crate::lemmas::lemma_from_bits_of;
use crate::signed24::{i24, wrapping};

verus! {

impl From<i32> for i24 {
    fn from(v: i32) -> (r: i24) {
        let r = i24(
            #[verifier::truncate]
            (v as u8),
            #[verifier::truncate]
            ((v >> 8u32) as u8),
            #[verifier::truncate]
            ((v >> 16u32) as u8),
        );
        proof {
            assert((v as u8) as int + 0x100 * ((v >> 8u32) as u8) as int + 0x1_0000 * ((v
                >> 16u32) as u8) as int == (v as int) % 0x100_0000) by (bit_vector);
            lemma_from_bits_of(r);
        }
        r
    }
}

impl FromSpecImpl<i32> for i24 {
    open spec fn obeys_from_spec() -> bool {
        true
    }

    open spec fn from_spec(v: i32) -> i24 {
        wrapping(v as int)
    }
}

impl From<u32> for i24 {
    fn from(v: u32) -> (r: i24) {
        let r = i24(
            #[verifier::truncate]
            (v as u8),
            #[verifier::truncate]
            ((v >> 8u32) as u8),
            #[verifier::truncate]
            ((v >> 16u32) as u8),
        );
        proof {
            assert((v as u8) as int + 0x100 * ((v >> 8u32) as u8) as int + 0x1_0000 * ((v
                >> 16u32) as u8) as int == (v as int) % 0x100_0000) by (bit_vector);
            lemma_from_bits_of(r);
        }
        r
    }
}

impl FromSpecImpl<u32> for i24 {
    open spec fn obeys_from_spec() -> bool {
        true
    }

    open spec fn from_spec(v: u32) -> i24 {
        wrapping(v as int)
    }
}

impl From<i8> for i24 {
    fn from(v: i8) -> (r: i24) {
        i24::from(v as i32)
    }
}

impl FromSpecImpl<i8> for i24 {
    open spec fn obeys_from_spec() -> bool {
        true
    }

    open spec fn from_spec(v: i8) -> i24 {
        wrapping(v as int)
    }
}

impl From<i16> for i24 {
    fn from(v: i16) -> (r: i24) {
        i24::from(v as i32)
    }
}

impl FromSpecImpl<i16> for i24 {
    open spec fn obeys_from_spec() -> bool {
        true
    }

    open spec fn from_spec(v: i16) -> i24 {
        wrapping(v as int)
    }
}

impl From<i64> for i24 {
    fn from(v: i64) -> (r: i24) {
        let w: i32 = #[verifier::truncate] (v as i32);
        assert((w as int) % 0x100_0000 == (v as int) % 0x100_0000) by (bit_vector)
            requires
                w == v as i32,
        ;
        i24::from(w)
    }
}

impl FromSpecImpl<i64> for i24 {
    open spec fn obeys_from_spec() -> bool {
        true
    }

    open spec fn from_spec(v: i64) -> i24 {
        wrapping(v as int)
    }
}

impl From<i128> for i24 {
    fn from(v: i128) -> (r: i24) {
        let w: i32 = #[verifier::truncate] (v as i32);
        assert((w as int) % 0x100_0000 == (v as int) % 0x100_0000) by (bit_vector)
            requires
                w == v as i32,
        ;
        i24::from(w)
    }
}

impl FromSpecImpl<i128> for i24 {
    open spec fn obeys_from_spec() -> bool {
        true
    }

    open spec fn from_spec(v: i128) -> i24 {
        wrapping(v as int)
    }
}

impl From<u8> for i24 {
    fn from(v: u8) -> (r: i24) {
        i24::from(v as u32)
    }
}

impl FromSpecImpl<u8> for i24 {
    open spec fn obeys_from_spec() -> bool {
        true
    }

    open spec fn from_spec(v: u8) -> i24 {
        wrapping(v as int)
    }
}

impl From<u16> for i24 {
    fn from(v: u16) -> (r: i24) {
        i24::from(v as u32)
    }
}

impl FromSpecImpl<u16> for i24 {
    open spec fn obeys_from_spec() -> bool {
        true
    }

    open spec fn from_spec(v: u16) -> i24 {
        wrapping(v as int)
    }
}

impl From<u64> for i24 {
    fn from(v: u64) -> (r: i24) {
        let w: u32 = #[verifier::truncate] (v as u32);
        assert((w as int) % 0x100_0000 == (v as int) % 0x100_0000) by (bit_vector)
            requires
                w == v as u32,
        ;
        i24::from(w)
    }
}

impl FromSpecImpl<u64> for i24 {
    open spec fn obeys_from_spec() -> bool {
        true
    }

    open spec fn from_spec(v: u64) -> i24 {
        wrapping(v as int)
    }
}

impl From<u128> for i24 {
    fn from(v: u128) -> (r: i24) {
        let w: u32 = #[verifier::truncate] (v as u32);
        assert((w as int) % 0x100_0000 == (v as int) % 0x100_0000) by (bit_vector)
            requires
                w == v as u32,
        ;
        i24::from(w)
    }
}

impl FromSpecImpl<u128> for i24 {
    open spec fn obeys_from_spec() -> bool {
        true
    }

    open spec fn from_spec(v: u128) -> i24 {
        wrapping(v as int)
    }
}

impl From<i24> for i8 {
    fn from(v: i24) -> (r: i8) {
        v.as_i8()
    }
}

impl FromSpecImpl<i24> for i8 {
    open spec fn obeys_from_spec() -> bool {
        true
    }

    open spec fn from_spec(v: i24) -> i8 {
        v.low_i8()
    }
}

impl From<i24> for i16 {
    fn from(v: i24) -> (r: i16) {
        v.as_i16()
    }
}

impl FromSpecImpl<i24> for i16 {
    open spec fn obeys_from_spec() -> bool {
        true
    }

    open spec fn from_spec(v: i24) -> i16 {
        v.low_i16()
    }
}

impl From<i24> for i32 {
    fn from(v: i24) -> (r: i32) {
        v.as_i32()
    }
}

impl FromSpecImpl<i24> for i32 {
    open spec fn obeys_from_spec() -> bool {
        true
    }

    open spec fn from_spec(v: i24) -> i32 {
        v.value() as i32
    }
}

impl From<i24> for i64 {
    fn from(v: i24) -> (r: i64) {
        v.as_i64()
    }
}

impl FromSpecImpl<i24> for i64 {
    open spec fn obeys_from_spec() -> bool {
        true
    }

    open spec fn from_spec(v: i24) -> i64 {
        v.value() as i64
    }
}

impl From<i24> for i128 {
    fn from(v: i24) -> (r: i128) {
        v.as_i128()
    }
}

impl FromSpecImpl<i24> for i128 {
    open spec fn obeys_from_spec() -> bool {
        true
    }

    open spec fn from_spec(v: i24) -> i128 {
        v.value() as i128
    }
}

impl From<i24> for u8 {
    fn from(v: i24) -> (r: u8) {
        v.as_u8()
    }
}

impl FromSpecImpl<i24> for u8 {
    open spec fn obeys_from_spec() -> bool {
        true
    }

    open spec fn from_spec(v: i24) -> u8 {
        v.0
    }
}

impl From<i24> for u16 {
    fn from(v: i24) -> (r: u16) {
        v.as_u16()
    }
}

impl FromSpecImpl<i24> for u16 {
    open spec fn obeys_from_spec() -> bool {
        true
    }

    open spec fn from_spec(v: i24) -> u16 {
        (v.0 + 0x100 * v.1) as u16
    }
}

impl From<i24> for u32 {
    fn from(v: i24) -> (r: u32) {
        v.as_u32()
    }
}

impl FromSpecImpl<i24> for u32 {
    open spec fn obeys_from_spec() -> bool {
        true
    }

    open spec fn from_spec(v: i24) -> u32 {
        v.bits() as u32
    }
}

impl From<i24> for u64 {
    fn from(v: i24) -> (r: u64) {
        v.as_u64()
    }
}

impl FromSpecImpl<i24> for u64 {
    open spec fn obeys_from_spec() -> bool {
        true
    }

    open spec fn from_spec(v: i24) -> u64 {
        v.bits() as u64
    }
}

impl From<i24> for u128 {
    fn from(v: i24) -> (r: u128) {
        v.as_u128()
    }
}

impl FromSpecImpl<i24> for u128 {
    open spec fn obeys_from_spec() -> bool {
        true
    }

    open spec fn from_spec(v: i24) -> u128 {
        v.bits() as u128
    }
}

} // verus!
