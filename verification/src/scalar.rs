//! Fixed-width scalars: the values a message can carry as raw bytes.
//!
//! A scalar travels as its bit pattern in two's complement, least significant
//! byte first. Each scalar type says how wide it is and how its values
//! correspond to bit patterns; the byte encoding follows from that.

use crate::codec::{
    le_bytes, le_value, lemma_le_bytes_len, lemma_le_bytes_of_value, lemma_le_value_bound,
    lemma_le_value_of_bytes, lemma_radix_pow_values, radix_pow,
};
use vstd::prelude::*;

verus! {

/// A value of fixed width that can be written to and read from a message.
pub trait Scalar: Copy {
    /// The number of bytes a value takes.
    spec fn width() -> nat;

    /// The value's bit pattern, read as an unsigned number.
    spec fn pattern(self) -> nat;

    /// The value whose bit pattern is the `width` lowest bytes of `pattern`.
    spec fn from_pattern(pattern: nat) -> Self;

    /// A value takes between one and eight bytes, its pattern fits its width,
    /// and the pattern identifies the value.
    proof fn lemma_faithful(value: Self)
        ensures
            0 < Self::width() <= 8,
            value.pattern() < radix_pow(Self::width()),
            Self::from_pattern(value.pattern()) == value,
    ;

    /// Every pattern that fits the width is the pattern of the value made
    /// from it: no two patterns give one value.
    proof fn lemma_pattern_of_from_pattern(pattern: nat)
        requires
            pattern < radix_pow(Self::width()),
        ensures
            Self::from_pattern(pattern).pattern() == pattern,
    ;

    /// The number of bytes a value takes.
    fn size() -> (size: usize)
        ensures
            size == Self::width(),
    ;

    /// The value's bit pattern.
    fn to_pattern(self) -> (pattern: u64)
        ensures
            pattern == self.pattern(),
    ;

    /// The value whose bit pattern is the `width` lowest bytes of `pattern`.
    fn of_pattern(pattern: u64) -> (value: Self)
        ensures
            value == Self::from_pattern(pattern as nat),
    ;
}

/// The bytes that carry `value`: its bit pattern, least significant byte first.
pub open spec fn encoding<T: Scalar>(value: T) -> Seq<u8> {
    le_bytes(value.pattern(), T::width())
}

/// The value that `bytes` carry.
pub open spec fn decoding<T: Scalar>(bytes: Seq<u8>) -> T {
    T::from_pattern(le_value(bytes))
}

/// The value whose bytes are all zero.
pub open spec fn zero<T: Scalar>() -> T {
    T::from_pattern(0)
}

/// Every value is read back from its own encoding, which is as wide as the type.
pub proof fn lemma_decoding_of_encoding<T: Scalar>(value: T)
    ensures
        encoding(value).len() == T::width(),
        decoding::<T>(encoding(value)) == value,
{
    T::lemma_faithful(value);
    lemma_le_bytes_len(value.pattern(), T::width());
    lemma_le_value_of_bytes(value.pattern(), T::width());
}

/// Bytes of the type's width are the encoding of the value they carry: a
/// value that was read holds exactly the bytes that were read.
pub proof fn lemma_encoding_of_decoding<T: Scalar>(bytes: Seq<u8>)
    requires
        bytes.len() == T::width(),
    ensures
        encoding(decoding::<T>(bytes)) == bytes,
{
    lemma_le_value_bound(bytes);
    T::lemma_pattern_of_from_pattern(le_value(bytes));
    lemma_le_bytes_of_value(bytes);
}

impl Scalar for u8 {
    open spec fn width() -> nat {
        1
    }

    open spec fn pattern(self) -> nat {
        self as nat
    }

    open spec fn from_pattern(pattern: nat) -> u8 {
        (pattern % 0x100) as u8
    }

    proof fn lemma_faithful(value: u8) {
        lemma_radix_pow_values();
    }

    proof fn lemma_pattern_of_from_pattern(pattern: nat) {
        lemma_radix_pow_values();
    }

    fn size() -> (size: usize) {
        1
    }

    fn to_pattern(self) -> (pattern: u64) {
        self as u64
    }

    fn of_pattern(pattern: u64) -> (value: u8) {
        (pattern % 0x100) as u8
    }
}

impl Scalar for u16 {
    open spec fn width() -> nat {
        2
    }

    open spec fn pattern(self) -> nat {
        self as nat
    }

    open spec fn from_pattern(pattern: nat) -> u16 {
        (pattern % 0x1_0000) as u16
    }

    proof fn lemma_faithful(value: u16) {
        lemma_radix_pow_values();
    }

    proof fn lemma_pattern_of_from_pattern(pattern: nat) {
        lemma_radix_pow_values();
    }

    fn size() -> (size: usize) {
        2
    }

    fn to_pattern(self) -> (pattern: u64) {
        self as u64
    }

    fn of_pattern(pattern: u64) -> (value: u16) {
        (pattern % 0x1_0000) as u16
    }
}

impl Scalar for u32 {
    open spec fn width() -> nat {
        4
    }

    open spec fn pattern(self) -> nat {
        self as nat
    }

    open spec fn from_pattern(pattern: nat) -> u32 {
        (pattern % 0x1_0000_0000) as u32
    }

    proof fn lemma_faithful(value: u32) {
        lemma_radix_pow_values();
    }

    proof fn lemma_pattern_of_from_pattern(pattern: nat) {
        lemma_radix_pow_values();
    }

    fn size() -> (size: usize) {
        4
    }

    fn to_pattern(self) -> (pattern: u64) {
        self as u64
    }

    fn of_pattern(pattern: u64) -> (value: u32) {
        (pattern % 0x1_0000_0000) as u32
    }
}

impl Scalar for u64 {
    open spec fn width() -> nat {
        8
    }

    open spec fn pattern(self) -> nat {
        self as nat
    }

    open spec fn from_pattern(pattern: nat) -> u64 {
        (pattern % 0x1_0000_0000_0000_0000) as u64
    }

    proof fn lemma_faithful(value: u64) {
        lemma_radix_pow_values();
    }

    proof fn lemma_pattern_of_from_pattern(pattern: nat) {
        lemma_radix_pow_values();
    }

    fn size() -> (size: usize) {
        8
    }

    fn to_pattern(self) -> (pattern: u64) {
        self
    }

    fn of_pattern(pattern: u64) -> (value: u64) {
        pattern
    }
}

impl Scalar for i8 {
    open spec fn width() -> nat {
        1
    }

    open spec fn pattern(self) -> nat {
        if self < 0 {
            (self + 0x100) as nat
        } else {
            self as nat
        }
    }

    open spec fn from_pattern(pattern: nat) -> i8 {
        let low = pattern % 0x100;
        if low >= 0x80 {
            (low - 0x100) as i8
        } else {
            low as i8
        }
    }

    proof fn lemma_faithful(value: i8) {
        lemma_radix_pow_values();
    }

    proof fn lemma_pattern_of_from_pattern(pattern: nat) {
        lemma_radix_pow_values();
    }

    fn size() -> (size: usize) {
        1
    }

    fn to_pattern(self) -> (pattern: u64) {
        if self < 0 {
            (self as i64 + 0x100) as u64
        } else {
            self as u64
        }
    }

    fn of_pattern(pattern: u64) -> (value: i8) {
        let low: u64 = pattern % 0x100;
        if low >= 0x80 {
            (low as i64 - 0x100) as i8
        } else {
            low as i8
        }
    }
}

impl Scalar for i16 {
    open spec fn width() -> nat {
        2
    }

    open spec fn pattern(self) -> nat {
        if self < 0 {
            (self + 0x1_0000) as nat
        } else {
            self as nat
        }
    }

    open spec fn from_pattern(pattern: nat) -> i16 {
        let low = pattern % 0x1_0000;
        if low >= 0x8000 {
            (low - 0x1_0000) as i16
        } else {
            low as i16
        }
    }

    proof fn lemma_faithful(value: i16) {
        lemma_radix_pow_values();
    }

    proof fn lemma_pattern_of_from_pattern(pattern: nat) {
        lemma_radix_pow_values();
    }

    fn size() -> (size: usize) {
        2
    }

    fn to_pattern(self) -> (pattern: u64) {
        if self < 0 {
            (self as i64 + 0x1_0000) as u64
        } else {
            self as u64
        }
    }

    fn of_pattern(pattern: u64) -> (value: i16) {
        let low: u64 = pattern % 0x1_0000;
        if low >= 0x8000 {
            (low as i64 - 0x1_0000) as i16
        } else {
            low as i16
        }
    }
}

impl Scalar for i32 {
    open spec fn width() -> nat {
        4
    }

    open spec fn pattern(self) -> nat {
        if self < 0 {
            (self + 0x1_0000_0000) as nat
        } else {
            self as nat
        }
    }

    open spec fn from_pattern(pattern: nat) -> i32 {
        let low = pattern % 0x1_0000_0000;
        if low >= 0x8000_0000 {
            (low - 0x1_0000_0000) as i32
        } else {
            low as i32
        }
    }

    proof fn lemma_faithful(value: i32) {
        lemma_radix_pow_values();
    }

    proof fn lemma_pattern_of_from_pattern(pattern: nat) {
        lemma_radix_pow_values();
    }

    fn size() -> (size: usize) {
        4
    }

    fn to_pattern(self) -> (pattern: u64) {
        if self < 0 {
            (self as i64 + 0x1_0000_0000) as u64
        } else {
            self as u64
        }
    }

    fn of_pattern(pattern: u64) -> (value: i32) {
        let low: u64 = pattern % 0x1_0000_0000;
        if low >= 0x8000_0000 {
            (low as i64 - 0x1_0000_0000) as i32
        } else {
            low as i32
        }
    }
}

impl Scalar for i64 {
    open spec fn width() -> nat {
        8
    }

    open spec fn pattern(self) -> nat {
        if self < 0 {
            (self + 0x1_0000_0000_0000_0000) as nat
        } else {
            self as nat
        }
    }

    open spec fn from_pattern(pattern: nat) -> i64 {
        let low = pattern % 0x1_0000_0000_0000_0000;
        if low >= 0x8000_0000_0000_0000 {
            (low - 0x1_0000_0000_0000_0000) as i64
        } else {
            low as i64
        }
    }

    proof fn lemma_faithful(value: i64) {
        lemma_radix_pow_values();
    }

    proof fn lemma_pattern_of_from_pattern(pattern: nat) {
        lemma_radix_pow_values();
    }

    fn size() -> (size: usize) {
        8
    }

    fn to_pattern(self) -> (pattern: u64) {
        if self < 0 {
            (self as i128 + 0x1_0000_0000_0000_0000) as u64
        } else {
            self as u64
        }
    }

    fn of_pattern(pattern: u64) -> (value: i64) {
        if pattern >= 0x8000_0000_0000_0000 {
            (pattern as i128 - 0x1_0000_0000_0000_0000) as i64
        } else {
            pattern as i64
        }
    }
}

} // verus!
