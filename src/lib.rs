//! A 24-bit signed two's-complement integer stored as three little-endian
//! bytes, with wrapping arithmetic and conversions to and from the native
//! integer widths.

pub mod convert;
pub mod laws;
mod lemmas;
pub mod ops;
pub mod order;
pub mod signed24;

pub use signed24::i24;
