//! Little-endian fixed-width integer encoding, shared by the instruction
//! codec and the persisted record layouts.

use vstd::prelude::*;

verus! {

/// The little-endian encoding of a `u64`: eight bytes, least significant
/// first.
pub open spec fn spec_u64_le(x: u64) -> Seq<u8> {
    seq![
        (x % 0x100) as u8,
        ((x / 0x100) % 0x100) as u8,
        ((x / 0x1_0000) % 0x100) as u8,
        ((x / 0x100_0000) % 0x100) as u8,
        ((x / 0x1_0000_0000) % 0x100) as u8,
        ((x / 0x100_0000_0000) % 0x100) as u8,
        ((x / 0x1_0000_0000_0000) % 0x100) as u8,
        ((x / 0x100_0000_0000_0000) % 0x100) as u8,
    ]
}

/// The value read back from an eight-byte little-endian encoding.
pub open spec fn spec_u64_from_le(b: Seq<u8>) -> int
    recommends
        b.len() == 8,
{
    b[0] + b[1] * 0x100 + b[2] * 0x1_0000 + b[3] * 0x100_0000 + b[4] * 0x1_0000_0000
        + b[5] * 0x100_0000_0000 + b[6] * 0x1_0000_0000_0000 + b[7] * 0x100_0000_0000_0000
}

/// The little-endian encoding of a `u16`: two bytes, least significant
/// first.
pub open spec fn spec_u16_le(x: u16) -> Seq<u8> {
    seq![(x % 0x100) as u8, ((x / 0x100) % 0x100) as u8]
}

/// The value read back from a two-byte little-endian encoding.
pub open spec fn spec_u16_from_le(b: Seq<u8>) -> int
    recommends
        b.len() == 2,
{
    b[0] + b[1] * 0x100
}

/// The little-endian two's-complement encoding of an `i64`.
pub open spec fn spec_i64_le(x: i64) -> Seq<u8> {
    spec_u64_le(x as u64)
}

/// The value read back from an eight-byte little-endian two's-complement
/// encoding.
pub open spec fn spec_i64_from_le(b: Seq<u8>) -> i64
    recommends
        b.len() == 8,
{
    (spec_u64_from_le(b) as u64) as i64
}

/// Decoding inverts encoding for `u64` values.
pub proof fn lemma_u64_le_round_trip(x: u64)
    ensures
        spec_u64_from_le(spec_u64_le(x)) == x,
{
    assert(x == (x % 0x100) + ((x / 0x100) % 0x100) * 0x100 + ((x / 0x1_0000) % 0x100) * 0x1_0000
        + ((x / 0x100_0000) % 0x100) * 0x100_0000 + ((x / 0x1_0000_0000) % 0x100) * 0x1_0000_0000
        + ((x / 0x100_0000_0000) % 0x100) * 0x100_0000_0000
        + ((x / 0x1_0000_0000_0000) % 0x100) * 0x1_0000_0000_0000
        + ((x / 0x100_0000_0000_0000) % 0x100) * 0x100_0000_0000_0000) by (bit_vector);
}

/// Decoding inverts encoding for `u16` values.
pub proof fn lemma_u16_le_round_trip(x: u16)
    ensures
        spec_u16_from_le(spec_u16_le(x)) == x,
{
    assert(x == (x % 0x100) + ((x / 0x100) % 0x100) * 0x100) by (bit_vector);
}

/// Decoding inverts encoding for `i64` values.
pub proof fn lemma_i64_le_round_trip(x: i64)
    ensures
        spec_i64_from_le(spec_i64_le(x)) == x,
{
    lemma_u64_le_round_trip(x as u64);
    assert(((x as u64) as i64) == x) by (bit_vector);
}

/// Appends the little-endian encoding of `x` to `out`.
pub fn push_u64_le(out: &mut Vec<u8>, x: u64)
    ensures
        final(out)@ == old(out)@ + spec_u64_le(x),
{
    out.push((x % 0x100) as u8);
    out.push(((x / 0x100) % 0x100) as u8);
    out.push(((x / 0x1_0000) % 0x100) as u8);
    out.push(((x / 0x100_0000) % 0x100) as u8);
    out.push(((x / 0x1_0000_0000) % 0x100) as u8);
    out.push(((x / 0x100_0000_0000) % 0x100) as u8);
    out.push(((x / 0x1_0000_0000_0000) % 0x100) as u8);
    out.push(((x / 0x100_0000_0000_0000) % 0x100) as u8);
    assert(out@ =~= old(out)@ + spec_u64_le(x));
}

/// Appends the little-endian encoding of `x` to `out`.
pub fn push_u16_le(out: &mut Vec<u8>, x: u16)
    ensures
        final(out)@ == old(out)@ + spec_u16_le(x),
{
    out.push((x % 0x100) as u8);
    out.push(((x / 0x100) % 0x100) as u8);
    assert(out@ =~= old(out)@ + spec_u16_le(x));
}

/// Appends the little-endian two's-complement encoding of `x` to `out`.
pub fn push_i64_le(out: &mut Vec<u8>, x: i64)
    ensures
        final(out)@ == old(out)@ + spec_i64_le(x),
{
    let u = x as u64;
    push_u64_le(out, u);
}

/// Reads the `u64` encoded little-endian at `off`.
pub fn read_u64_le(d: &Vec<u8>, off: usize) -> (r: u64)
    requires
        off + 8 <= d@.len(),
    ensures
        r == spec_u64_from_le(d@.subrange(off as int, off as int + 8)),
{
    let n: usize = d.len();
    assert(off + 8 <= n);
    let r: u64 = (d[off] as u64) + (d[off + 1] as u64) * 0x100 + (d[off + 2] as u64) * 0x1_0000
        + (d[off + 3] as u64) * 0x100_0000 + (d[off + 4] as u64) * 0x1_0000_0000
        + (d[off + 5] as u64) * 0x100_0000_0000 + (d[off + 6] as u64) * 0x1_0000_0000_0000
        + (d[off + 7] as u64) * 0x100_0000_0000_0000;
    r
}

/// Reads the `u16` encoded little-endian at `off`.
pub fn read_u16_le(d: &Vec<u8>, off: usize) -> (r: u16)
    requires
        off + 2 <= d@.len(),
    ensures
        r == spec_u16_from_le(d@.subrange(off as int, off as int + 2)),
{
    let n: usize = d.len();
    assert(off + 2 <= n);
    let r: u16 = (d[off] as u16) + (d[off + 1] as u16) * 0x100;
    r
}

/// Reads the `i64` encoded little-endian at `off`.
pub fn read_i64_le(d: &Vec<u8>, off: usize) -> (r: i64)
    requires
        off + 8 <= d@.len(),
    ensures
        r == spec_i64_from_le(d@.subrange(off as int, off as int + 8)),
{
    let u = read_u64_le(d, off);
    u as i64
}

/// Appends a 16-byte identifier to `out`.
pub fn push_bytes16(out: &mut Vec<u8>, a: &[u8; 16])
    ensures
        final(out)@ == old(out)@ + a@,
{
    let mut i: usize = 0;
    while i < 16
        invariant
            i <= 16,
            out@ == old(out)@ + a@.subrange(0, i as int),
        decreases 16 - i,
    {
        out.push(a[i]);
        assert(out@ =~= old(out)@ + a@.subrange(0, i + 1));
        i += 1;
    }
    assert(out@ =~= old(out)@ + a@);
}

/// The 16 bytes at `off`, as an array.
pub fn read_bytes16(d: &Vec<u8>, off: usize) -> (a: [u8; 16])
    requires
        off + 16 <= d@.len(),
    ensures
        a@ == d@.subrange(off as int, off as int + 16),
{
    let n: usize = d.len();
    let mut a: [u8; 16] = [0u8; 16];
    let mut i: usize = 0;
    while i < 16
        invariant
            i <= 16,
            off + 16 <= n,
            n == d@.len(),
            forall|j: int| 0 <= j < i ==> a@[j] == d@[off + j],
        decreases 16 - i,
    {
        a[i] = d[off + i];
        i += 1;
    }
    assert(a@ =~= d@.subrange(off as int, off as int + 16));
    a
}

/// A fresh copy of a byte vector, element for element.
pub fn clone_bytes(d: &Vec<u8>) -> (r: Vec<u8>)
    ensures
        r@ == d@,
{
    let mut r: Vec<u8> = Vec::new();
    let mut i: usize = 0;
    while i < d.len()
        invariant
            i <= d@.len(),
            r@ == d@.subrange(0, i as int),
        decreases d@.len() - i,
    {
        r.push(d[i]);
        assert(r@ =~= d@.subrange(0, i + 1));
        i += 1;
    }
    assert(r@ =~= d@);
    r
}

} // verus!
