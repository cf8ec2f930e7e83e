use vstd::prelude::*;

use crate::lemmas::{lemma_bits_are_value_mod, lemma_from_bits_of};

verus! {

/// The signed value that a 24-bit pattern `b` (in `0 .. 2^24`) stands for.
pub open spec fn signed_of_bits(b: int) -> int {
    if b >= 0x80_0000 {
        b - 0x100_0000
    } else {
        b
    }
}

/// The representative of `x` modulo `2^24` in `[-2^23, 2^23)`:
/// what two's-complement wrap-around to 24 bits yields.
pub open spec fn wrap24(x: int) -> int {
    signed_of_bits(x % 0x100_0000)
}

/// The value whose bytes are those of `b`, least significant first
/// (`b` in `0 .. 2^24`).
pub open spec fn from_bits(b: int) -> i24 {
    i24((b % 0x100) as u8, ((b / 0x100) % 0x100) as u8, ((b / 0x1_0000) % 0x100) as u8)
}

/// The value that `x` wraps to: its low 24 bits.
pub open spec fn wrapping(x: int) -> i24 {
    from_bits(x % 0x100_0000)
}

/// A 24-bit signed integer: three bytes, least significant first.
/// The sign is bit 7 of the last byte. Every bit pattern is a valid value.
#[derive(Clone, Copy, Debug, Hash, PartialEq, Eq, Structural)]
#[allow(non_camel_case_types)]
pub struct i24(pub u8, pub u8, pub u8);

impl i24 {
    /// The raw bit pattern, read as an unsigned number in `0 .. 2^24`.
    pub open spec fn bits(self) -> int {
        self.0 as int + 0x100 * (self.1 as int) + 0x1_0000 * (self.2 as int)
    }

    /// The signed numeric value, in `[-2^23, 2^23)`.
    pub open spec fn value(self) -> int {
        signed_of_bits(self.bits())
    }

    /// The low two bytes read as a signed 16-bit integer.
    pub open spec fn low_i16(self) -> i16 {
        let lo = self.0 + 0x100 * self.1;
        (if lo >= 0x8000 {
            lo - 0x1_0000
        } else {
            lo
        }) as i16
    }

    /// The low byte read as a signed 8-bit integer.
    pub open spec fn low_i8(self) -> i8 {
        (if self.0 >= 0x80 {
            self.0 - 0x100
        } else {
            self.0 as int
        }) as i8
    }

    /// The three bytes, least significant first.
    pub open spec fn le_bytes(self) -> Seq<u8> {
        seq![self.0, self.1, self.2]
    }

    /// The three bytes, most significant first.
    pub open spec fn be_bytes(self) -> Seq<u8> {
        seq![self.2, self.1, self.0]
    }

    /// The value whose little-endian bytes are `b` (three of them).
    pub open spec fn from_le_seq(b: Seq<u8>) -> i24 {
        i24(b[0], b[1], b[2])
    }

    /// The value whose big-endian bytes are `b` (three of them).
    pub open spec fn from_be_seq(b: Seq<u8>) -> i24 {
        i24(b[2], b[1], b[0])
    }

    /// The largest value, `2^23 - 1`.
    pub fn max_value() -> (r: i24)
        ensures
            r == i24(0xFF, 0xFF, 0x7F),
            r.value() == 0x7F_FFFF,
    {
        i24(0xFF, 0xFF, 0x7F)
    }

    /// The smallest value, `-2^23`.
    pub fn min_value() -> (r: i24)
        ensures
            r == i24(0x00, 0x00, 0x80),
            r.value() == -0x80_0000,
    {
        i24(0x00, 0x00, 0x80)
    }

    /// Reads three bytes, least significant first.
    pub fn from_le_bytes(bytes: [u8; 3]) -> (r: Self)
        ensures
            r == i24::from_le_seq(bytes@),
            r.le_bytes() == bytes@,
    {
        let r = i24(bytes[0], bytes[1], bytes[2]);
        assert(r.le_bytes() =~= bytes@);
        r
    }

    /// Reads three bytes, most significant first.
    pub fn from_be_bytes(bytes: [u8; 3]) -> (r: Self)
        ensures
            r == i24::from_be_seq(bytes@),
            r.be_bytes() == bytes@,
    {
        let r = i24(bytes[2], bytes[1], bytes[0]);
        assert(r.be_bytes() =~= bytes@);
        r
    }

    /// The three bytes, least significant first.
    pub fn to_le_bytes(self) -> (r: [u8; 3])
        ensures
            r@ == self.le_bytes(),
    {
        let r = [self.0, self.1, self.2];
        assert(r@ =~= self.le_bytes());
        r
    }

    /// The three bytes, most significant first.
    pub fn to_be_bytes(self) -> (r: [u8; 3])
        ensures
            r@ == self.be_bytes(),
    {
        let r = [self.2, self.1, self.0];
        assert(r@ =~= self.be_bytes());
        r
    }

    /// Whether the sign bit (bit 7 of the most significant byte) is set.
    pub fn is_minus(self) -> (r: bool)
        ensures
            r == (self.value() < 0),
            r == (self.2 >= 0x80),
    {
        let b = self.2;
        assert((b & 0x80 != 0) == (b >= 0x80)) by (bit_vector);
        (self.2 & 0x80) != 0
    }

    /// Sign-extends to 32 bits.
    pub fn as_i32(self) -> (r: i32)
        ensures
            r == self.value(),
    {
        let u: i32 = self.0 as i32 + (self.1 as i32) * 0x100 + (self.2 as i32) * 0x1_0000;
        if self.is_minus() {
            u - 0x100_0000
        } else {
            u
        }
    }

    /// Sign-extends to 64 bits.
    pub fn as_i64(self) -> (r: i64)
        ensures
            r == self.value(),
    {
        self.as_i32() as i64
    }

    /// Sign-extends to 128 bits.
    pub fn as_i128(self) -> (r: i128)
        ensures
            r == self.value(),
    {
        self.as_i32() as i128
    }

    /// The low two bytes, read as a signed 16-bit integer.
    pub fn as_i16(self) -> (r: i16)
        ensures
            r == self.low_i16(),
            (r - self.value()) % 0x1_0000 == 0,
    {
        let lo: u16 = self.0 as u16 + (self.1 as u16) * 0x100;
        let r: i16 = if lo >= 0x8000 {
            (lo as i32 - 0x1_0000) as i16
        } else {
            lo as i16
        };
        proof {
            lemma_bits_are_value_mod(self);
            assert(self.bits() == lo + 0x1_0000 * (self.2 as int));
            vstd::arithmetic::div_mod::lemma_mod_mod(self.value(), 0x1_0000, 0x100);
        }
        r
    }

    /// The low byte, read as a signed 8-bit integer.
    pub fn as_i8(self) -> (r: i8)
        ensures
            r == self.low_i8(),
            (r - self.value()) % 0x100 == 0,
    {
        let r: i8 = if self.0 >= 0x80 {
            (self.0 as i16 - 0x100) as i8
        } else {
            self.0 as i8
        };
        proof {
            lemma_bits_are_value_mod(self);
            assert(self.bits() == self.0 + 0x100 * (self.1 as int + 0x100 * (self.2 as int)));
            vstd::arithmetic::div_mod::lemma_mod_mod(self.value(), 0x100, 0x1_0000);
        }
        r
    }

    /// The bit pattern, zero-extended to 128 bits.
    pub fn as_u128(self) -> (r: u128)
        ensures
            r == self.bits(),
    {
        self.as_u32() as u128
    }

    /// The bit pattern, zero-extended to 64 bits.
    pub fn as_u64(self) -> (r: u64)
        ensures
            r == self.bits(),
    {
        self.as_u32() as u64
    }

    /// The bit pattern, zero-extended to 32 bits.
    pub fn as_u32(self) -> (r: u32)
        ensures
            r == self.bits(),
    {
        self.0 as u32 + (self.1 as u32) * 0x100 + (self.2 as u32) * 0x1_0000
    }

    /// The low two bytes.
    pub fn as_u16(self) -> (r: u16)
        ensures
            r == self.0 + 0x100 * self.1,
            r == self.bits() % 0x1_0000,
    {
        proof {
            lemma_from_bits_of(self);
            vstd::arithmetic::div_mod::lemma_fundamental_div_mod_converse(
                self.bits(), 0x1_0000, self.2 as int, self.0 + 0x100 * self.1);
        }
        self.0 as u16 + (self.1 as u16) * 0x100
    }

    /// The low byte.
    pub fn as_u8(self) -> (r: u8)
        ensures
            r == self.0,
            r == self.bits() % 0x100,
    {
        proof {
            vstd::arithmetic::div_mod::lemma_fundamental_div_mod_converse(
                self.bits(), 0x100, self.1 + 0x100 * (self.2 as int), self.0 as int);
        }
        self.0
    }
}

} // verus!
