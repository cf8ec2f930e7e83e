//! Numeric ordering of `i24`, clamping, the default value, and decimal text.
//!
//! Values order by their signed value, never by their raw bytes.

use core::cmp::Ordering;
use vstd::prelude::*;
use vstd::std_specs::cmp::PartialOrdSpecImpl;

use crate::signed24::i24;

verus! {

/// How `a` stands to `b`.
pub open spec fn order_of(a: int, b: int) -> Ordering {
    if a < b {
        Ordering::Less
    } else if a > b {
        Ordering::Greater
    } else {
        Ordering::Equal
    }
}

/// The decimal digit `d` (`d < 10`) as a character.
pub open spec fn digit_char(d: nat) -> char {
    ('0' as nat + d) as char
}

/// The decimal digits of `n`, most significant first, with no leading zero.
pub open spec fn digits_of(n: nat) -> Seq<char>
    decreases n,
{
    if n < 10 {
        seq![digit_char(n)]
    } else {
        digits_of(n / 10) + seq![digit_char(n % 10)]
    }
}

/// The decimal text of `x`: its digits, after a `-` when it is negative.
pub open spec fn decimal_text(x: int) -> Seq<char> {
    if x < 0 {
        seq!['-'] + digits_of((-x) as nat)
    } else {
        digits_of(x as nat)
    }
}

/// Relies on `i32`'s `Display` (through `ToString`): the decimal digits of the
/// number, with a leading `-` when it is negative.
#[verifier::external_body]
fn decimal_of_i32(v: i32) -> (r: String)
    ensures
        r@ == decimal_text(v as int),
{
    v.to_string()
}

impl PartialOrd for i24 {
    fn partial_cmp(&self, other: &i24) -> (r: Option<Ordering>) {
        Some(self.cmp(other))
    }
}

impl PartialOrdSpecImpl for i24 {
    open spec fn obeys_partial_cmp_spec() -> bool {
        true
    }

    open spec fn partial_cmp_spec(&self, other: &i24) -> Option<Ordering> {
        Some(order_of(self.value(), other.value()))
    }
}

impl Default for i24 {
    /// Zero.
    fn default() -> (r: i24)
        ensures
            r == i24(0, 0, 0),
            r.value() == 0,
    {
        i24(0, 0, 0)
    }
}

impl i24 {
    /// Compares the signed values.
    pub fn cmp(&self, other: &i24) -> (r: Ordering)
        ensures
            r == order_of(self.value(), other.value()),
    {
        let a = self.as_i32();
        let b = other.as_i32();
        if a < b {
            Ordering::Less
        } else if a > b {
            Ordering::Greater
        } else {
            Ordering::Equal
        }
    }

    /// `min` when the value is below `min`, `max` when it is above `max`,
    /// else the value itself.
    pub fn clamp(self, min: i24, max: i24) -> (r: i24)
        requires
            min.value() <= max.value(),
        ensures
            r == (if self.value() < min.value() {
                min
            } else if self.value() > max.value() {
                max
            } else {
                self
            }),
    {
        if self < min {
            min
        } else if self > max {
            max
        } else {
            self
        }
    }

    /// The decimal text of the signed value, as `Display` gives it for the
    /// native integers.
    pub fn to_string(&self) -> (r: String)
        ensures
            r@ == decimal_text(self.value()),
    {
        decimal_of_i32(self.as_i32())
    }
}

} // verus!
