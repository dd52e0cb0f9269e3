//! Little-endian integers in byte buffers.

use vstd::prelude::*;

verus! {

/// Value of a byte sequence read as a little-endian natural number: the
/// first byte is the least significant one.
pub open spec fn le_nat(bytes: Seq<u8>) -> nat
    decreases bytes.len(),
{
    if bytes.len() == 0 {
        0
    } else {
        bytes[0] as nat + 256 * le_nat(bytes.drop_first())
    }
}

/// Number of values that `width` bytes can tell apart: 256 to the power
/// `width`.
pub open spec fn radix(width: nat) -> nat
    decreases width,
{
    if width == 0 {
        1
    } else {
        256 * radix((width - 1) as nat)
    }
}

/// Value of four bytes read as a little-endian two's complement integer.
pub open spec fn le_i32(bytes: Seq<u8>) -> int {
    let value = le_nat(bytes) as int;
    if value < 0x8000_0000 {
        value
    } else {
        value - 0x1_0000_0000
    }
}

/// Value of sixteen bytes read as a little-endian two's complement integer.
pub open spec fn le_i128(bytes: Seq<u8>) -> int {
    let value = le_nat(bytes) as int;
    if value < 0x8000_0000_0000_0000_0000_0000_0000_0000 {
        value
    } else {
        value - 0x1_0000_0000_0000_0000_0000_0000_0000_0000
    }
}

/// The `width` bytes that store `value` in little-endian order. A value
/// that does not fit is stored without its upper part.
pub open spec fn le_bytes(value: nat, width: nat) -> Seq<u8>
    decreases width,
{
    if width == 0 {
        Seq::empty()
    } else {
        seq![(value % 256) as u8] + le_bytes(value / 256, (width - 1) as nat)
    }
}

/// The natural number that stands for `value` in two's complement of
/// `width` bytes.
pub open spec fn twos_complement(value: int, width: nat) -> nat {
    if value < 0 {
        (value + radix(width)) as nat
    } else {
        value as nat
    }
}

/// A value is stored in as many bytes as its width says.
pub proof fn lemma_le_bytes_len(value: nat, width: nat)
    ensures
        le_bytes(value, width).len() == width,
    decreases width,
{
    if width > 0 {
        lemma_le_bytes_len(value / 256, (width - 1) as nat);
    }
}

/// Reading the bytes that store a value gives the value back, if it fits
/// the width.
pub proof fn lemma_le_nat_of_le_bytes(value: nat, width: nat)
    requires
        value < radix(width),
    ensures
        le_nat(le_bytes(value, width)) == value,
    decreases width,
{
    if width > 0 {
        let rest = le_bytes(value / 256, (width - 1) as nat);
        lemma_le_nat_of_le_bytes(value / 256, (width - 1) as nat);
        lemma_le_bytes_len(value / 256, (width - 1) as nat);
        assert(le_bytes(value, width).drop_first() =~= rest);
    }
}

/// A little-endian value is below the radix of its width.
pub proof fn lemma_le_nat_bound(bytes: Seq<u8>)
    ensures
        le_nat(bytes) < radix(bytes.len()),
    decreases bytes.len(),
{
    if bytes.len() > 0 {
        lemma_le_nat_bound(bytes.drop_first());
    }
}

/// The radix grows with the width.
pub proof fn lemma_radix_increases(narrow: nat, wide: nat)
    requires
        narrow <= wide,
    ensures
        0 < radix(narrow) <= radix(wide),
    decreases wide,
{
    if wide == 0 {
    } else if narrow < wide {
        lemma_radix_increases(narrow, (wide - 1) as nat);
    } else {
        lemma_radix_increases((narrow - 1) as nat, (wide - 1) as nat);
    }
}

/// The radixes of the widths that the account layouts use.
pub proof fn lemma_radix_values()
    ensures
        radix(1) == 0x100,
        radix(2) == 0x1_0000,
        radix(4) == 0x1_0000_0000,
        radix(16) == 0x1_0000_0000_0000_0000_0000_0000_0000_0000,
{
    reveal_with_fuel(radix, 17);
}

/// Reads `width` bytes at `offset` as a little-endian natural number.
pub fn read_le(bytes: &[u8], offset: usize, width: usize) -> (value: u128)
    requires
        width <= 16,
        offset + width <= bytes.len(),
    ensures
        value == le_nat(bytes@.subrange(offset as int, offset + width)),
{
    let mut value: u128 = 0;
    let mut i: usize = width;
    while i > 0
        invariant
            i <= width <= 16,
            offset + width <= bytes.len(),
            value == le_nat(bytes@.subrange(offset + i, offset + width)),
        decreases i,
    {
        i = i - 1;
        proof {
            let rest = bytes@.subrange(offset + i + 1, offset + width);
            lemma_le_nat_bound(rest);
            lemma_radix_increases(rest.len(), 15);
            lemma_radix_values();
            reveal_with_fuel(radix, 2);
            assert(bytes@.subrange(offset + i, offset + width).drop_first() =~= rest);
        }
        value = value * 256 + bytes[offset + i] as u128;
    }
    value
}

/// Reads the two bytes at `offset` as a little-endian `u16`.
pub fn read_u16_le(bytes: &[u8], offset: usize) -> (value: u16)
    requires
        offset + 2 <= bytes.len(),
    ensures
        value == le_nat(bytes@.subrange(offset as int, offset + 2)),
{
    let raw: u128 = read_le(bytes, offset, 2);
    proof {
        lemma_le_nat_bound(bytes@.subrange(offset as int, offset + 2));
        lemma_radix_values();
    }
    raw as u16
}

/// Reads the four bytes at `offset` as a little-endian `i32`.
pub fn read_i32_le(bytes: &[u8], offset: usize) -> (value: i32)
    requires
        offset + 4 <= bytes.len(),
    ensures
        value == le_i32(bytes@.subrange(offset as int, offset + 4)),
{
    let raw: u128 = read_le(bytes, offset, 4);
    proof {
        lemma_le_nat_bound(bytes@.subrange(offset as int, offset + 4));
        lemma_radix_values();
    }
    let wide: i64 = raw as i64;
    if wide < 0x8000_0000 {
        wide as i32
    } else {
        (wide - 0x1_0000_0000) as i32
    }
}

/// Reads the sixteen bytes at `offset` as a little-endian `u128`.
pub fn read_u128_le(bytes: &[u8], offset: usize) -> (value: u128)
    requires
        offset + 16 <= bytes.len(),
    ensures
        value == le_nat(bytes@.subrange(offset as int, offset + 16)),
{
    read_le(bytes, offset, 16)
}

/// Reads the sixteen bytes at `offset` as a little-endian `i128`.
pub fn read_i128_le(bytes: &[u8], offset: usize) -> (value: i128)
    requires
        offset + 16 <= bytes.len(),
    ensures
        value == le_i128(bytes@.subrange(offset as int, offset + 16)),
{
    let raw: u128 = read_le(bytes, offset, 16);
    if raw < 0x8000_0000_0000_0000_0000_0000_0000_0000 {
        raw as i128
    } else {
        let low: i128 = (raw - 0x8000_0000_0000_0000_0000_0000_0000_0000) as i128;
        low + i128::MIN
    }
}

/// Appends the `width` bytes that store `value` in little-endian order.
pub fn write_le(out: &mut Vec<u8>, value: u128, width: usize)
    requires
        width <= 16,
    ensures
        final(out)@ == old(out)@ + le_bytes(value as nat, width as nat),
{
    let mut rest: u128 = value;
    let mut written: usize = 0;
    while written < width
        invariant
            written <= width <= 16,
            out@ + le_bytes(rest as nat, (width - written) as nat) == old(out)@ + le_bytes(
                value as nat,
                width as nat,
            ),
        decreases width - written,
    {
        let ghost before = out@;
        out.push((rest % 256) as u8);
        proof {
            let tail = le_bytes((rest / 256) as nat, (width - written - 1) as nat);
            assert(before + le_bytes(rest as nat, (width - written) as nat) =~= out@ + tail);
        }
        rest = rest / 256;
        written = written + 1;
    }
    assert(out@ + le_bytes(rest as nat, 0) =~= out@);
}

/// The number that stores `value` in two's complement of four bytes.
pub fn i32_bits(value: i32) -> (bits: u128)
    ensures
        bits == twos_complement(value as int, 4),
{
    proof {
        lemma_radix_values();
    }
    if value >= 0 {
        value as u128
    } else {
        (value as i64 + 0x1_0000_0000) as u128
    }
}

/// The `u128` that stores `value` in two's complement.
pub fn i128_bits(value: i128) -> (bits: u128)
    ensures
        bits == twos_complement(value as int, 16),
{
    proof {
        lemma_radix_values();
    }
    if value >= 0 {
        value as u128
    } else {
        let low: u128 = (value - i128::MIN) as u128;
        low + 0x8000_0000_0000_0000_0000_0000_0000_0000
    }
}

/// Reading a stored `u128` gives it back.
pub proof fn lemma_u128_round_trip(value: u128)
    ensures
        le_bytes(value as nat, 16).len() == 16,
        le_nat(le_bytes(value as nat, 16)) == value,
{
    lemma_radix_values();
    lemma_le_bytes_len(value as nat, 16);
    lemma_le_nat_of_le_bytes(value as nat, 16);
}

/// Reading a stored `i128` gives it back.
pub proof fn lemma_i128_round_trip(value: i128)
    ensures
        le_bytes(twos_complement(value as int, 16), 16).len() == 16,
        le_i128(le_bytes(twos_complement(value as int, 16), 16)) == value,
{
    lemma_radix_values();
    lemma_le_bytes_len(twos_complement(value as int, 16), 16);
    lemma_le_nat_of_le_bytes(twos_complement(value as int, 16), 16);
}

/// Reading a stored `i32` gives it back.
pub proof fn lemma_i32_round_trip(value: i32)
    ensures
        le_bytes(twos_complement(value as int, 4), 4).len() == 4,
        le_i32(le_bytes(twos_complement(value as int, 4), 4)) == value,
{
    lemma_radix_values();
    lemma_le_bytes_len(twos_complement(value as int, 4), 4);
    lemma_le_nat_of_le_bytes(twos_complement(value as int, 4), 4);
}

} // verus!
