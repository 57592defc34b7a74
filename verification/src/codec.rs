//! The little-endian byte encoding of bit patterns.
//!
//! The encoding is defined on natural numbers: the least significant byte
//! comes first, and each following byte weighs 256 times the one before.

use vstd::prelude::*;

verus! {

/// The number of values that `width` bytes can tell apart: 256 to the power `width`.
pub open spec fn radix_pow(width: nat) -> nat
    decreases width,
{
    if width == 0 {
        1
    } else {
        256 * radix_pow((width - 1) as nat)
    }
}

/// The number that `bytes` spell, least significant byte first.
pub open spec fn le_value(bytes: Seq<u8>) -> nat
    decreases bytes.len(),
{
    if bytes.len() == 0 {
        0
    } else {
        bytes[0] as nat + 256 * le_value(bytes.drop_first())
    }
}

/// The `width` lowest bytes of `value`, least significant byte first.
pub open spec fn le_bytes(value: nat, width: nat) -> Seq<u8>
    decreases width,
{
    if width == 0 {
        Seq::empty()
    } else {
        seq![(value % 256) as u8] + le_bytes(value / 256, (width - 1) as nat)
    }
}

/// The powers of 256 that fit the widths in use.
pub proof fn lemma_radix_pow_values()
    ensures
        radix_pow(0) == 1,
        radix_pow(1) == 0x100,
        radix_pow(2) == 0x1_0000,
        radix_pow(3) == 0x100_0000,
        radix_pow(4) == 0x1_0000_0000,
        radix_pow(5) == 0x100_0000_0000,
        radix_pow(6) == 0x1_0000_0000_0000,
        radix_pow(7) == 0x100_0000_0000_0000,
        radix_pow(8) == 0x1_0000_0000_0000_0000,
{
    reveal_with_fuel(radix_pow, 9);
}

/// A wider field tells more values apart.
pub proof fn lemma_radix_pow_monotonic(narrow: nat, wide: nat)
    requires
        narrow <= wide,
    ensures
        0 < radix_pow(narrow) <= radix_pow(wide),
    decreases wide,
{
    if wide == 0 {
    } else if narrow == wide {
        lemma_radix_pow_monotonic((narrow - 1) as nat, (wide - 1) as nat);
    } else {
        lemma_radix_pow_monotonic(narrow, (wide - 1) as nat);
    }
}

/// An encoding has exactly the width asked for.
pub proof fn lemma_le_bytes_len(value: nat, width: nat)
    ensures
        le_bytes(value, width).len() == width,
    decreases width,
{
    if width > 0 {
        lemma_le_bytes_len(value / 256, (width - 1) as nat);
    }
}

/// What bytes spell fits in as many bytes.
pub proof fn lemma_le_value_bound(bytes: Seq<u8>)
    ensures
        le_value(bytes) < radix_pow(bytes.len()),
    decreases bytes.len(),
{
    if bytes.len() > 0 {
        lemma_le_value_bound(bytes.drop_first());
    }
}

/// Decoding undoes encoding for every value that fits the width.
pub proof fn lemma_le_value_of_bytes(value: nat, width: nat)
    requires
        value < radix_pow(width),
    ensures
        le_value(le_bytes(value, width)) == value,
    decreases width,
{
    if width > 0 {
        let rest = le_bytes(value / 256, (width - 1) as nat);
        let whole = le_bytes(value, width);
        assert(whole.drop_first() =~= rest);
        lemma_le_value_of_bytes(value / 256, (width - 1) as nat);
    }
}

/// Encoding undoes decoding: bytes are the encoding of the number they spell.
pub proof fn lemma_le_bytes_of_value(bytes: Seq<u8>)
    ensures
        le_bytes(le_value(bytes), bytes.len()) == bytes,
    decreases bytes.len(),
{
    if bytes.len() > 0 {
        let tail = bytes.drop_first();
        lemma_le_bytes_of_value(tail);
        let value = le_value(bytes);
        assert(value % 256 == bytes[0] as nat && value / 256 == le_value(tail));
        assert(le_bytes(value, bytes.len()) =~= bytes);
    }
}

/// Encodes the `width` lowest bytes of `pattern`, least significant byte first.
pub fn encode_le(pattern: u64, width: usize) -> (bytes: Vec<u8>)
    ensures
        bytes@ == le_bytes(pattern as nat, width as nat),
{
    let mut bytes: Vec<u8> = Vec::new();
    let mut rest: u64 = pattern;
    let mut done: usize = 0;
    while done < width
        invariant
            done <= width,
            bytes@.len() == done,
            le_bytes(pattern as nat, width as nat) == bytes@ + le_bytes(
                rest as nat,
                (width - done) as nat,
            ),
        decreases width - done,
    {
        let ghost written = bytes@;
        let low: u8 = (rest % 256) as u8;
        bytes.push(low);
        rest = rest / 256;
        done += 1;
        proof {
            let tail = le_bytes(rest as nat, (width - done) as nat);
            assert(written + (seq![low] + tail) =~= bytes@ + tail);
        }
    }
    bytes
}

/// Decodes the number that up to eight bytes spell, least significant byte first.
pub fn decode_le(bytes: &[u8]) -> (pattern: u64)
    requires
        bytes@.len() <= 8,
    ensures
        pattern == le_value(bytes@),
{
    let width: usize = bytes.len();
    let mut pattern: u64 = 0;
    let mut left: usize = width;
    while left > 0
        invariant
            left <= width,
            width == bytes@.len(),
            width <= 8,
            pattern == le_value(bytes@.subrange(left as int, width as int)),
        decreases left,
    {
        let ghost upper = bytes@.subrange(left as int, width as int);
        left -= 1;
        proof {
            let taken = bytes@.subrange(left as int, width as int);
            assert(taken.drop_first() =~= upper);
            lemma_le_value_bound(upper);
            lemma_radix_pow_monotonic(upper.len(), 7);
            lemma_radix_pow_values();
        }
        pattern = pattern * 256 + bytes[left] as u64;
    }
    assert(bytes@.subrange(0, width as int) =~= bytes@);
    pattern
}

} // verus!
