//! Little-endian byte encoding of the fixed-width integers used by the
//! wire format, with round-trip lemmas.

use vstd::prelude::*;

verus! {

/// The four little-endian bytes of a 32-bit value.
pub open spec fn u32_le_bytes(n: u32) -> Seq<u8> {
    seq![
        (n & 0xff) as u8,
        ((n >> 8) & 0xff) as u8,
        ((n >> 16) & 0xff) as u8,
        ((n >> 24) & 0xff) as u8,
    ]
}

/// The 32-bit value read from four little-endian bytes.
pub open spec fn u32_from_le_bytes(b0: u8, b1: u8, b2: u8, b3: u8) -> u32 {
    (b0 as u32) | ((b1 as u32) << 8) | ((b2 as u32) << 16) | ((b3 as u32) << 24)
}

/// The eight little-endian bytes of a 64-bit value.
pub open spec fn u64_le_bytes(n: u64) -> Seq<u8> {
    seq![
        (n & 0xff) as u8,
        ((n >> 8) & 0xff) as u8,
        ((n >> 16) & 0xff) as u8,
        ((n >> 24) & 0xff) as u8,
        ((n >> 32) & 0xff) as u8,
        ((n >> 40) & 0xff) as u8,
        ((n >> 48) & 0xff) as u8,
        ((n >> 56) & 0xff) as u8,
    ]
}

/// The 64-bit value read from eight little-endian bytes.
pub open spec fn u64_from_le_bytes(
    b0: u8,
    b1: u8,
    b2: u8,
    b3: u8,
    b4: u8,
    b5: u8,
    b6: u8,
    b7: u8,
) -> u64 {
    (b0 as u64) | ((b1 as u64) << 8) | ((b2 as u64) << 16) | ((b3 as u64) << 24) | ((b4
        as u64) << 32) | ((b5 as u64) << 40) | ((b6 as u64) << 48) | ((b7 as u64) << 56)
}

/// Reading back the four little-endian bytes of a 32-bit value yields the value.
pub proof fn lemma_u32_le_round_trip(n: u32)
    ensures
        u32_from_le_bytes(
            u32_le_bytes(n)[0],
            u32_le_bytes(n)[1],
            u32_le_bytes(n)[2],
            u32_le_bytes(n)[3],
        ) == n,
{
    assert((((n & 0xff) as u8) as u32) | (((((n >> 8) & 0xff) as u8) as u32) << 8) | (((((n >> 16)
        & 0xff) as u8) as u32) << 16) | (((((n >> 24) & 0xff) as u8) as u32) << 24) == n)
        by (bit_vector);
}

/// Reading back the eight little-endian bytes of a 64-bit value yields the value.
pub proof fn lemma_u64_le_round_trip(n: u64)
    ensures
        u64_from_le_bytes(
            u64_le_bytes(n)[0],
            u64_le_bytes(n)[1],
            u64_le_bytes(n)[2],
            u64_le_bytes(n)[3],
            u64_le_bytes(n)[4],
            u64_le_bytes(n)[5],
            u64_le_bytes(n)[6],
            u64_le_bytes(n)[7],
        ) == n,
{
    assert((((n & 0xff) as u8) as u64) | (((((n >> 8) & 0xff) as u8) as u64) << 8) | (((((n >> 16)
        & 0xff) as u8) as u64) << 16) | (((((n >> 24) & 0xff) as u8) as u64) << 24) | (((((n >> 32)
        & 0xff) as u8) as u64) << 32) | (((((n >> 40) & 0xff) as u8) as u64) << 40) | (((((n >> 48)
        & 0xff) as u8) as u64) << 48) | (((((n >> 56) & 0xff) as u8) as u64) << 56) == n)
        by (bit_vector);
}

/// Appends the four little-endian bytes of `n` to `out`.
pub fn write_u32_le(out: &mut Vec<u8>, n: u32)
    ensures
        final(out)@ == old(out)@ + u32_le_bytes(n),
{
    out.push((n & 0xff) as u8);
    out.push(((n >> 8) & 0xff) as u8);
    out.push(((n >> 16) & 0xff) as u8);
    out.push(((n >> 24) & 0xff) as u8);
    assert(final(out)@ =~= old(out)@ + u32_le_bytes(n));
}

/// Appends the eight little-endian bytes of `n` to `out`.
pub fn write_u64_le(out: &mut Vec<u8>, n: u64)
    ensures
        final(out)@ == old(out)@ + u64_le_bytes(n),
{
    out.push((n & 0xff) as u8);
    out.push(((n >> 8) & 0xff) as u8);
    out.push(((n >> 16) & 0xff) as u8);
    out.push(((n >> 24) & 0xff) as u8);
    out.push(((n >> 32) & 0xff) as u8);
    out.push(((n >> 40) & 0xff) as u8);
    out.push(((n >> 48) & 0xff) as u8);
    out.push(((n >> 56) & 0xff) as u8);
    assert(final(out)@ =~= old(out)@ + u64_le_bytes(n));
}

/// Appends every byte of `data` to `out`.
pub fn append_bytes(out: &mut Vec<u8>, data: &[u8])
    ensures
        final(out)@ == old(out)@ + data@,
{
    let mut i: usize = 0;
    while i < data.len()
        invariant
            i <= data@.len(),
            out@ == old(out)@ + data@.subrange(0, i as int),
        decreases data@.len() - i,
    {
        out.push(data[i]);
        i = i + 1;
        assert(out@ =~= old(out)@ + data@.subrange(0, i as int));
    }
    assert(out@ =~= old(out)@ + data@);
}

/// Copies `data[start..end]` into a fresh vector.
pub fn slice_range_to_vec(data: &[u8], start: usize, end: usize) -> (r: Vec<u8>)
    requires
        start <= end <= data@.len(),
    ensures
        r@ == data@.subrange(start as int, end as int),
{
    let mut out: Vec<u8> = Vec::new();
    let mut i: usize = start;
    while i < end
        invariant
            start <= i <= end <= data@.len(),
            out@ == data@.subrange(start as int, i as int),
        decreases end - i,
    {
        out.push(data[i]);
        i = i + 1;
        assert(out@ =~= data@.subrange(start as int, i as int));
    }
    out
}

/// Reads the 32-bit value whose little-endian bytes sit at `pos` in `data`.
pub fn read_u32_le(data: &[u8], pos: usize) -> (r: u32)
    requires
        pos + 4 <= data@.len(),
    ensures
        r == u32_from_le_bytes(data@[pos as int], data@[pos + 1], data@[pos + 2], data@[pos + 3]),
{
    let b0: u8 = data[pos];
    let b1: u8 = data[pos + 1];
    let b2: u8 = data[pos + 2];
    let b3: u8 = data[pos + 3];
    (b0 as u32) | ((b1 as u32) << 8) | ((b2 as u32) << 16) | ((b3 as u32) << 24)
}

/// Reads the 64-bit value whose little-endian bytes sit at `pos` in `data`.
pub fn read_u64_le(data: &[u8], pos: usize) -> (r: u64)
    requires
        pos + 8 <= data@.len(),
    ensures
        r == u64_from_le_bytes(
            data@[pos as int],
            data@[pos + 1],
            data@[pos + 2],
            data@[pos + 3],
            data@[pos + 4],
            data@[pos + 5],
            data@[pos + 6],
            data@[pos + 7],
        ),
{
    let b0: u8 = data[pos];
    let b1: u8 = data[pos + 1];
    let b2: u8 = data[pos + 2];
    let b3: u8 = data[pos + 3];
    let b4: u8 = data[pos + 4];
    let b5: u8 = data[pos + 5];
    let b6: u8 = data[pos + 6];
    let b7: u8 = data[pos + 7];
    (b0 as u64) | ((b1 as u64) << 8) | ((b2 as u64) << 16) | ((b3 as u64) << 24) | ((b4
        as u64) << 32) | ((b5 as u64) << 40) | ((b6 as u64) << 48) | ((b7 as u64) << 56)
}

} // verus!
