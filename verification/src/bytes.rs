//! Little-endian integers inside raw account and instruction data.

use vstd::prelude::*;

verus! {

/// The unsigned value of the eight bytes at `offset`, least significant first.
pub open spec fn le_u64_at(data: Seq<u8>, offset: int) -> int {
    data[offset] + data[offset + 1] * 0x100 + data[offset + 2] * 0x1_0000 + data[offset + 3] * 0x100_0000
        + data[offset + 4] * 0x1_0000_0000 + data[offset + 5] * 0x100_0000_0000 + data[offset + 6]
        * 0x1_0000_0000_0000 + data[offset + 7] * 0x100_0000_0000_0000
}

/// The eight bytes of `value`, least significant first.
pub open spec fn u64_le_bytes(value: u64) -> Seq<u8> {
    seq![
        (value % 0x100) as u8,
        ((value / 0x100) % 0x100) as u8,
        ((value / 0x1_0000) % 0x100) as u8,
        ((value / 0x100_0000) % 0x100) as u8,
        ((value / 0x1_0000_0000) % 0x100) as u8,
        ((value / 0x100_0000_0000) % 0x100) as u8,
        ((value / 0x1_0000_0000_0000) % 0x100) as u8,
        ((value / 0x100_0000_0000_0000) % 0x100) as u8,
    ]
}

/// Reads the little-endian `u64` stored at `offset`.
pub fn read_u64_le(data: &[u8], offset: usize) -> (res: u64)
    requires
        offset + 8 <= data@.len(),
    ensures
        res == le_u64_at(data@, offset as int),
{
    let b0 = data[offset] as u64;
    let b1 = data[offset + 1] as u64;
    let b2 = data[offset + 2] as u64;
    let b3 = data[offset + 3] as u64;
    let b4 = data[offset + 4] as u64;
    let b5 = data[offset + 5] as u64;
    let b6 = data[offset + 6] as u64;
    let b7 = data[offset + 7] as u64;
    b0 + b1 * 0x100 + b2 * 0x1_0000 + b3 * 0x100_0000 + b4 * 0x1_0000_0000 + b5 * 0x100_0000_0000 + b6
        * 0x1_0000_0000_0000 + b7 * 0x100_0000_0000_0000
}

/// Appends the eight little-endian bytes of `value` to `out`.
pub fn push_u64_le(out: &mut Vec<u8>, value: u64)
    ensures
        final(out)@ == old(out)@ + u64_le_bytes(value),
{
    out.push((value % 0x100) as u8);
    out.push(((value / 0x100) % 0x100) as u8);
    out.push(((value / 0x1_0000) % 0x100) as u8);
    out.push(((value / 0x100_0000) % 0x100) as u8);
    out.push(((value / 0x1_0000_0000) % 0x100) as u8);
    out.push(((value / 0x100_0000_0000) % 0x100) as u8);
    out.push(((value / 0x1_0000_0000_0000) % 0x100) as u8);
    out.push(((value / 0x100_0000_0000_0000) % 0x100) as u8);
    assert(final(out)@ =~= old(out)@ + u64_le_bytes(value));
}

/// Splitting off the low byte: `x == x % 256 + 256 * (x / 256)`.
proof fn lemma_split_low_byte(x: int)
    requires
        0 <= x,
    ensures
        x == x % 0x100 + 0x100 * (x / 0x100),
        0 <= x % 0x100 < 0x100,
{
    vstd::arithmetic::div_mod::lemma_fundamental_div_mod(x, 0x100);
}

/// Dividing by 256 once more moves to the next byte.
proof fn lemma_next_byte(x: int, c: int)
    requires
        0 <= x,
        0 < c,
    ensures
        (x / c) / 0x100 == x / (c * 0x100),
{
    vstd::arithmetic::div_mod::lemma_div_denominator(x, c, 0x100);
}

/// Writing a value's bytes and reading them back gives the value.
pub proof fn lemma_u64_le_roundtrip(value: u64)
    ensures
        u64_le_bytes(value).len() == 8,
        le_u64_at(u64_le_bytes(value), 0) == value,
{
    let v = value as int;
    let b = u64_le_bytes(value);
    let q1 = v / 0x100;
    let q2 = v / 0x1_0000;
    let q3 = v / 0x100_0000;
    let q4 = v / 0x1_0000_0000;
    let q5 = v / 0x100_0000_0000;
    let q6 = v / 0x1_0000_0000_0000;
    let q7 = v / 0x100_0000_0000_0000;
    lemma_split_low_byte(v);
    lemma_split_low_byte(q1);
    lemma_split_low_byte(q2);
    lemma_split_low_byte(q3);
    lemma_split_low_byte(q4);
    lemma_split_low_byte(q5);
    lemma_split_low_byte(q6);
    lemma_split_low_byte(q7);
    lemma_next_byte(v, 0x100);
    lemma_next_byte(v, 0x1_0000);
    lemma_next_byte(v, 0x100_0000);
    lemma_next_byte(v, 0x1_0000_0000);
    lemma_next_byte(v, 0x100_0000_0000);
    lemma_next_byte(v, 0x1_0000_0000_0000);
    lemma_next_byte(v, 0x100_0000_0000_0000);
    assert(v / 0x1_0000_0000_0000_0000 == 0);
    assert(q7 / 0x100 == 0);
    assert(b[0] == v % 0x100);
    assert(b[1] == q1 % 0x100);
    assert(b[2] == q2 % 0x100);
    assert(b[3] == q3 % 0x100);
    assert(b[4] == q4 % 0x100);
    assert(b[5] == q5 % 0x100);
    assert(b[6] == q6 % 0x100);
    assert(b[7] == q7 % 0x100);
}

} // verus!
