//! Little-endian and big-endian scalar codecs over byte buffers.
//!
//! The container header stores its fields little-endian; the CBOR emitter
//! stores head arguments big-endian. Each encoding is defined once as a spec
//! function, and the executable readers and writers are proved against it.

use vstd::prelude::*;

verus! {

broadcast use vstd::std_specs::vec::axiom_spec_len;

/// The two bytes of `x` in little-endian order.
pub open spec fn spec_u16_le(x: u16) -> Seq<u8> {
    seq![(x & 0xff) as u8, ((x >> 8) & 0xff) as u8]
}

/// The `u16` stored little-endian as `b0`, `b1`.
pub open spec fn spec_u16_from_le(b0: u8, b1: u8) -> u16 {
    (b0 as u16) | ((b1 as u16) << 8)
}

/// The four bytes of `x` in little-endian order.
pub open spec fn spec_u32_le(x: u32) -> Seq<u8> {
    seq![
        (x & 0xff) as u8,
        ((x >> 8) & 0xff) as u8,
        ((x >> 16) & 0xff) as u8,
        ((x >> 24) & 0xff) as u8,
    ]
}

/// The `u32` stored little-endian as `b0` through `b3`.
pub open spec fn spec_u32_from_le(b0: u8, b1: u8, b2: u8, b3: u8) -> u32 {
    (b0 as u32) | ((b1 as u32) << 8) | ((b2 as u32) << 16) | ((b3 as u32) << 24)
}

/// Decoding inverts encoding for little-endian `u16` values.
pub proof fn lemma_u16_le_round_trip(x: u16)
    ensures
        spec_u16_from_le(spec_u16_le(x)[0], spec_u16_le(x)[1]) == x,
{
    assert(((x & 0xff) as u8 as u16) | ((((x >> 8) & 0xff) as u8 as u16) << 8) == x)
        by (bit_vector);
}

/// Encoding inverts decoding for little-endian `u16` values.
pub proof fn lemma_u16_le_unique(b0: u8, b1: u8)
    ensures
        spec_u16_le(spec_u16_from_le(b0, b1)) == seq![b0, b1],
{
    let x = spec_u16_from_le(b0, b1);
    assert((((b0 as u16) | ((b1 as u16) << 8)) & 0xff) as u8 == b0) by (bit_vector);
    assert(((((b0 as u16) | ((b1 as u16) << 8)) >> 8) & 0xff) as u8 == b1) by (bit_vector);
    assert(spec_u16_le(x) =~= seq![b0, b1]);
}

/// Encoding inverts decoding for little-endian `u32` values.
pub proof fn lemma_u32_le_unique(b0: u8, b1: u8, b2: u8, b3: u8)
    ensures
        spec_u32_le(spec_u32_from_le(b0, b1, b2, b3)) == seq![b0, b1, b2, b3],
{
    let x = spec_u32_from_le(b0, b1, b2, b3);
    assert((((b0 as u32) | ((b1 as u32) << 8) | ((b2 as u32) << 16) | ((b3 as u32) << 24)) & 0xff)
        as u8 == b0) by (bit_vector);
    assert(((((b0 as u32) | ((b1 as u32) << 8) | ((b2 as u32) << 16) | ((b3 as u32) << 24)) >> 8)
        & 0xff) as u8 == b1) by (bit_vector);
    assert(((((b0 as u32) | ((b1 as u32) << 8) | ((b2 as u32) << 16) | ((b3 as u32) << 24)) >> 16)
        & 0xff) as u8 == b2) by (bit_vector);
    assert(((((b0 as u32) | ((b1 as u32) << 8) | ((b2 as u32) << 16) | ((b3 as u32) << 24)) >> 24)
        & 0xff) as u8 == b3) by (bit_vector);
    assert(spec_u32_le(x) =~= seq![b0, b1, b2, b3]);
}

/// Decoding inverts encoding for little-endian `u32` values.
pub proof fn lemma_u32_le_round_trip(x: u32)
    ensures
        spec_u32_from_le(spec_u32_le(x)[0], spec_u32_le(x)[1], spec_u32_le(x)[2], spec_u32_le(x)[3])
            == x,
{
    assert(((x & 0xff) as u8 as u32) | ((((x >> 8) & 0xff) as u8 as u32) << 8)
        | ((((x >> 16) & 0xff) as u8 as u32) << 16) | ((((x >> 24) & 0xff) as u8 as u32) << 24)
        == x) by (bit_vector);
}

/// The two bytes of `x` in big-endian order.
pub open spec fn spec_u16_be(x: u16) -> Seq<u8> {
    seq![((x >> 8) & 0xff) as u8, (x & 0xff) as u8]
}

/// The `u16` stored big-endian as `b0`, `b1`.
pub open spec fn spec_u16_from_be(b0: u8, b1: u8) -> u16 {
    ((b0 as u16) << 8) | (b1 as u16)
}

/// The four bytes of `x` in big-endian order.
pub open spec fn spec_u32_be(x: u32) -> Seq<u8> {
    seq![
        ((x >> 24) & 0xff) as u8,
        ((x >> 16) & 0xff) as u8,
        ((x >> 8) & 0xff) as u8,
        (x & 0xff) as u8,
    ]
}

/// The `u32` stored big-endian as `b0` through `b3`.
pub open spec fn spec_u32_from_be(b0: u8, b1: u8, b2: u8, b3: u8) -> u32 {
    ((b0 as u32) << 24) | ((b1 as u32) << 16) | ((b2 as u32) << 8) | (b3 as u32)
}

/// The eight bytes of `x` in big-endian order.
pub open spec fn spec_u64_be(x: u64) -> Seq<u8> {
    seq![
        ((x >> 56) & 0xff) as u8,
        ((x >> 48) & 0xff) as u8,
        ((x >> 40) & 0xff) as u8,
        ((x >> 32) & 0xff) as u8,
        ((x >> 24) & 0xff) as u8,
        ((x >> 16) & 0xff) as u8,
        ((x >> 8) & 0xff) as u8,
        (x & 0xff) as u8,
    ]
}

/// The `u64` stored big-endian as `b0` through `b7`.
pub open spec fn spec_u64_from_be(
    b0: u8,
    b1: u8,
    b2: u8,
    b3: u8,
    b4: u8,
    b5: u8,
    b6: u8,
    b7: u8,
) -> u64 {
    ((b0 as u64) << 56) | ((b1 as u64) << 48) | ((b2 as u64) << 40) | ((b3 as u64) << 32) | ((
    b4 as u64) << 24) | ((b5 as u64) << 16) | ((b6 as u64) << 8) | (b7 as u64)
}

/// Decoding inverts encoding for big-endian `u16` values.
pub proof fn lemma_u16_be_round_trip(x: u16)
    ensures
        spec_u16_from_be(spec_u16_be(x)[0], spec_u16_be(x)[1]) == x,
{
    assert(((((x >> 8) & 0xff) as u8 as u16) << 8) | ((x & 0xff) as u8 as u16) == x)
        by (bit_vector);
}

/// Decoding inverts encoding for big-endian `u32` values.
pub proof fn lemma_u32_be_round_trip(x: u32)
    ensures
        spec_u32_from_be(spec_u32_be(x)[0], spec_u32_be(x)[1], spec_u32_be(x)[2], spec_u32_be(x)[3])
            == x,
{
    assert(((((x >> 24) & 0xff) as u8 as u32) << 24) | ((((x >> 16) & 0xff) as u8 as u32) << 16)
        | ((((x >> 8) & 0xff) as u8 as u32) << 8) | ((x & 0xff) as u8 as u32) == x)
        by (bit_vector);
}

/// Decoding inverts encoding for big-endian `u64` values.
pub proof fn lemma_u64_be_round_trip(x: u64)
    ensures
        spec_u64_from_be(
            spec_u64_be(x)[0],
            spec_u64_be(x)[1],
            spec_u64_be(x)[2],
            spec_u64_be(x)[3],
            spec_u64_be(x)[4],
            spec_u64_be(x)[5],
            spec_u64_be(x)[6],
            spec_u64_be(x)[7],
        ) == x,
{
    assert(((((x >> 56) & 0xff) as u8 as u64) << 56) | ((((x >> 48) & 0xff) as u8 as u64) << 48)
        | ((((x >> 40) & 0xff) as u8 as u64) << 40) | ((((x >> 32) & 0xff) as u8 as u64) << 32)
        | ((((x >> 24) & 0xff) as u8 as u64) << 24) | ((((x >> 16) & 0xff) as u8 as u64) << 16)
        | ((((x >> 8) & 0xff) as u8 as u64) << 8) | ((x & 0xff) as u8 as u64) == x)
        by (bit_vector);
}

/// Reads the little-endian `u16` stored at `buf[at..at + 2]`.
pub fn read_u16_le(buf: &[u8], at: usize) -> (r: u16)
    requires
        at + 2 <= buf@.len(),
    ensures
        r == spec_u16_from_le(buf@[at as int], buf@[at as int + 1]),
{
    let b0: u8 = buf[at];
    let b1: u8 = buf[at + 1];
    (b0 as u16) | ((b1 as u16) << 8)
}

/// Reads the little-endian `u32` stored at `buf[at..at + 4]`.
pub fn read_u32_le(buf: &[u8], at: usize) -> (r: u32)
    requires
        at + 4 <= buf@.len(),
    ensures
        r == spec_u32_from_le(
            buf@[at as int],
            buf@[at as int + 1],
            buf@[at as int + 2],
            buf@[at as int + 3],
        ),
{
    let b0: u8 = buf[at];
    let b1: u8 = buf[at + 1];
    let b2: u8 = buf[at + 2];
    let b3: u8 = buf[at + 3];
    (b0 as u32) | ((b1 as u32) << 8) | ((b2 as u32) << 16) | ((b3 as u32) << 24)
}

/// Overwrites `buf[at..at + 2]` with `x` in little-endian order.
pub fn write_u16_le(buf: &mut Vec<u8>, at: usize, x: u16)
    requires
        at + 2 <= old(buf)@.len(),
    ensures
        final(buf)@.len() == old(buf)@.len(),
        final(buf)@.subrange(at as int, at as int + 2) == spec_u16_le(x),
        forall|i: int|
            0 <= i < old(buf)@.len() && !(at <= i < at + 2) ==> final(buf)@[i] == old(buf)@[i],
{
    let n: usize = buf.len();
    assert(at + 2 <= n);
    buf.set(at, (x & 0xff) as u8);
    buf.set(at + 1, ((x >> 8) & 0xff) as u8);
    assert(buf@.subrange(at as int, at as int + 2) =~= spec_u16_le(x));
}

/// Overwrites `buf[at..at + 4]` with `x` in little-endian order.
pub fn write_u32_le(buf: &mut Vec<u8>, at: usize, x: u32)
    requires
        at + 4 <= old(buf)@.len(),
    ensures
        final(buf)@.len() == old(buf)@.len(),
        final(buf)@.subrange(at as int, at as int + 4) == spec_u32_le(x),
        forall|i: int|
            0 <= i < old(buf)@.len() && !(at <= i < at + 4) ==> final(buf)@[i] == old(buf)@[i],
{
    let n: usize = buf.len();
    assert(at + 4 <= n);
    buf.set(at, (x & 0xff) as u8);
    buf.set(at + 1, ((x >> 8) & 0xff) as u8);
    buf.set(at + 2, ((x >> 16) & 0xff) as u8);
    buf.set(at + 3, ((x >> 24) & 0xff) as u8);
    assert(buf@.subrange(at as int, at as int + 4) =~= spec_u32_le(x));
}

/// Overwrites `buf[at..at + data.len()]` with a copy of `data`.
pub fn write_bytes_at(buf: &mut Vec<u8>, at: usize, data: &[u8])
    requires
        at + data@.len() <= old(buf)@.len(),
    ensures
        final(buf)@.len() == old(buf)@.len(),
        final(buf)@.subrange(at as int, at as int + data@.len() as int) == data@,
        forall|i: int|
            0 <= i < old(buf)@.len() && !(at <= i < at + data@.len()) ==> final(buf)@[i]
                == old(buf)@[i],
{
    let len: usize = data.len();
    let n: usize = buf.len();
    let mut i: usize = 0;
    while i < len
        invariant
            len == data@.len(),
            0 <= i <= len,
            at + len <= n,
            n == old(buf)@.len(),
            buf@.len() == old(buf)@.len(),
            buf@.subrange(at as int, at as int + i as int) == data@.subrange(0, i as int),
            forall|j: int|
                0 <= j < old(buf)@.len() && !(at <= j < at + i) ==> buf@[j] == old(buf)@[j],
        decreases len - i,
    {
        buf.set(at + i, data[i]);
        i = i + 1;
        assert(buf@.subrange(at as int, at as int + i as int) =~= data@.subrange(0, i as int));
    }
    assert(buf@.subrange(at as int, at as int + len as int) =~= data@);
}

} // verus!
