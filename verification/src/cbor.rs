//! A raw CBOR byte-emitter for synthesizing test fixtures.
//!
//! CBOR items start with a head: one byte holding a major type in the top
//! three bits and a five-bit size class, followed by zero, one, two, four or
//! eight big-endian argument bytes. [`RawCborEmitter`] appends such heads —
//! with the size class either chosen minimally or forced by the caller —
//! along with raw literals, length-prefixed byte strings and count-prefixed
//! groups.
//!
//! The emitter deliberately validates nothing beyond its own head
//! invariants: a forced size class may produce a long-form encoding of a
//! value that would normally be short, which is exactly what a fuzz seed or
//! a negative test fixture needs. Production code should not depend on it.

use vstd::prelude::*;

use crate::bytes::{
    lemma_u16_be_round_trip, lemma_u32_be_round_trip, lemma_u64_be_round_trip, spec_u16_be,
    spec_u16_from_be, spec_u32_be, spec_u32_from_be, spec_u64_be, spec_u64_from_be,
};

verus! {

/// The head of a CBOR item with the smallest size class that holds `arg`:
/// arguments below 24 pack into the head byte, larger ones take the one,
/// two, four or eight big-endian bytes selected by magnitude.
pub open spec fn spec_head_min(major: u8, arg: u64) -> Seq<u8>
    recommends
        major < 8,
{
    let ty = (major << 5) as u8;
    if arg < 24 {
        seq![ty | (arg as u8)]
    } else if arg <= 0xff {
        seq![ty | 24, arg as u8]
    } else if arg <= 0xffff {
        seq![ty | 25] + spec_u16_be(arg as u16)
    } else if arg <= 0xffffffff {
        seq![ty | 26] + spec_u32_be(arg as u32)
    } else {
        seq![ty | 27] + spec_u64_be(arg)
    }
}

/// Whether a forced size class of `width` argument bytes can hold `arg`. A
/// width of zero packs the argument into the head byte's five bits.
pub open spec fn spec_width_holds(width: u8, arg: u64) -> bool {
    ||| (width == 0 && arg < 32)
    ||| (width == 1 && arg <= 0xff)
    ||| (width == 2 && arg <= 0xffff)
    ||| (width == 4 && arg <= 0xffffffff)
    ||| (width == 8)
}

/// The head of a CBOR item with the size class forced to `width` argument
/// bytes, regardless of how small `arg` is.
pub open spec fn spec_head_forced(major: u8, width: u8, arg: u64) -> Seq<u8>
    recommends
        major < 8,
        spec_width_holds(width, arg),
{
    let ty = (major << 5) as u8;
    if width == 0 {
        seq![ty | (arg as u8)]
    } else if width == 1 {
        seq![ty | 24, arg as u8]
    } else if width == 2 {
        seq![ty | 25] + spec_u16_be(arg as u16)
    } else if width == 4 {
        seq![ty | 26] + spec_u32_be(arg as u32)
    } else {
        seq![ty | 27] + spec_u64_be(arg)
    }
}

/// A reference CBOR head decoder: the major type, the argument and the head
/// length read from the front of `s`, or `None` when the bytes are not a
/// well-formed head (missing argument bytes, or one of the reserved or
/// indefinite size classes 28 through 31).
pub open spec fn spec_decode_head(s: Seq<u8>) -> Option<(u8, u64, int)> {
    if s.len() < 1 {
        None
    } else {
        let major = (s[0] >> 5) as u8;
        let info = s[0] & 0x1f;
        if info < 24 {
            Some((major, info as u64, 1 as int))
        } else if info == 24 {
            if s.len() >= 2 {
                Some((major, s[1] as u64, 2 as int))
            } else {
                None
            }
        } else if info == 25 {
            if s.len() >= 3 {
                Some((major, spec_u16_from_be(s[1], s[2]) as u64, 3 as int))
            } else {
                None
            }
        } else if info == 26 {
            if s.len() >= 5 {
                Some((major, spec_u32_from_be(s[1], s[2], s[3], s[4]) as u64, 5 as int))
            } else {
                None
            }
        } else if info == 27 {
            if s.len() >= 9 {
                Some(
                    (
                        major,
                        spec_u64_from_be(s[1], s[2], s[3], s[4], s[5], s[6], s[7], s[8]),
                        9 as int,
                    ),
                )
            } else {
                None
            }
        } else {
            None
        }
    }
}

/// A declarative emitter of (potentially invalid!) CBOR byte sequences,
/// appending items to a growable buffer.
pub struct RawCborEmitter {
    out: Vec<u8>,
}

impl RawCborEmitter {
    /// The bytes emitted so far.
    pub closed spec fn bytes(self) -> Seq<u8> {
        self.out@
    }

    /// Creates an emitter with an empty buffer.
    pub fn new() -> (r: RawCborEmitter)
        ensures
            r.bytes() == Seq::<u8>::empty(),
    {
        RawCborEmitter { out: Vec::new() }
    }

    /// Appends one head for `major` with the smallest size class that holds
    /// `arg`.
    pub fn atom(&mut self, major: u8, arg: u64)
        requires
            major < 8,
        ensures
            final(self).bytes() == old(self).bytes() + spec_head_min(major, arg),
    {
        let ty: u8 = major << 5;
        if arg < 24 {
            self.out.push(ty | (arg as u8));
        } else if arg <= 0xff {
            self.out.push(ty | 24);
            self.out.push(arg as u8);
        } else if arg <= 0xffff {
            self.out.push(ty | 25);
            self.push_u16_be(arg as u16);
        } else if arg <= 0xffffffff {
            self.out.push(ty | 26);
            self.push_u32_be(arg as u32);
        } else {
            self.out.push(ty | 27);
            self.push_u64_be(arg);
        }
        assert(self.out@ =~= old(self).bytes() + spec_head_min(major, arg));
    }

    /// Appends one head for `major` with the size class forced to `width`
    /// argument bytes, one of 0, 1, 2, 4 or 8, which must hold `arg`.
    pub fn atom_forced(&mut self, major: u8, width: u8, arg: u64)
        requires
            major < 8,
            spec_width_holds(width, arg),
        ensures
            final(self).bytes() == old(self).bytes() + spec_head_forced(major, width, arg),
    {
        let ty: u8 = major << 5;
        if width == 0 {
            self.out.push(ty | (arg as u8));
        } else if width == 1 {
            self.out.push(ty | 24);
            self.out.push(arg as u8);
        } else if width == 2 {
            self.out.push(ty | 25);
            self.push_u16_be(arg as u16);
        } else if width == 4 {
            self.out.push(ty | 26);
            self.push_u32_be(arg as u32);
        } else {
            self.out.push(ty | 27);
            self.push_u64_be(arg);
        }
        assert(self.out@ =~= old(self).bytes() + spec_head_forced(major, width, arg));
    }

    /// Appends `data` raw, supporting hand-assembled embedded bytes.
    pub fn literal(&mut self, data: &[u8])
        ensures
            final(self).bytes() == old(self).bytes() + data@,
    {
        self.out.extend_from_slice(data);
    }

    /// Appends a byte-string-like item: a minimal head for `major` whose
    /// argument is the byte length of `inner`, followed by `inner` itself.
    pub fn byte_string(&mut self, major: u8, inner: &[u8])
        requires
            major < 8,
        ensures
            final(self).bytes() == old(self).bytes() + spec_head_min(major, inner@.len() as u64)
                + inner@,
    {
        self.atom(major, inner.len() as u64);
        self.literal(inner);
    }

    /// Appends an array- or map-like item: a minimal head for `major` whose
    /// argument is the number of child items, followed by the already
    /// emitted child bytes. The caller counts the children; nested groups
    /// inside `items` do not affect the count. An empty group emits a head
    /// with argument 0 and no payload.
    pub fn group(&mut self, major: u8, count: u64, items: &[u8])
        requires
            major < 8,
        ensures
            final(self).bytes() == old(self).bytes() + spec_head_min(major, count) + items@,
    {
        self.atom(major, count);
        self.literal(items);
    }

    /// Consumes the emitter, yielding the emitted bytes.
    pub fn into_bytes(self) -> (r: Vec<u8>)
        ensures
            r@ == self.bytes(),
    {
        self.out
    }

    /// Appends `x` in big-endian order.
    fn push_u16_be(&mut self, x: u16)
        ensures
            final(self).bytes() == old(self).bytes() + spec_u16_be(x),
    {
        self.out.push(((x >> 8) & 0xff) as u8);
        self.out.push((x & 0xff) as u8);
        assert(self.out@ =~= old(self).bytes() + spec_u16_be(x));
    }

    /// Appends `x` in big-endian order.
    fn push_u32_be(&mut self, x: u32)
        ensures
            final(self).bytes() == old(self).bytes() + spec_u32_be(x),
    {
        self.out.push(((x >> 24) & 0xff) as u8);
        self.out.push(((x >> 16) & 0xff) as u8);
        self.out.push(((x >> 8) & 0xff) as u8);
        self.out.push((x & 0xff) as u8);
        assert(self.out@ =~= old(self).bytes() + spec_u32_be(x));
    }

    /// Appends `x` in big-endian order.
    fn push_u64_be(&mut self, x: u64)
        ensures
            final(self).bytes() == old(self).bytes() + spec_u64_be(x),
    {
        self.out.push(((x >> 56) & 0xff) as u8);
        self.out.push(((x >> 48) & 0xff) as u8);
        self.out.push(((x >> 40) & 0xff) as u8);
        self.out.push(((x >> 32) & 0xff) as u8);
        self.out.push(((x >> 24) & 0xff) as u8);
        self.out.push(((x >> 16) & 0xff) as u8);
        self.out.push(((x >> 8) & 0xff) as u8);
        self.out.push((x & 0xff) as u8);
        assert(self.out@ =~= old(self).bytes() + spec_u64_be(x));
    }
}

/// Law (minimal size classes): the minimal head is exactly as long as the
/// smallest size class that holds the argument — the head byte alone below
/// 24, then one, two, four or eight argument bytes by magnitude — and never
/// longer than any forced head that decodes to the same argument.
pub proof fn lemma_min_head_len(major: u8, arg: u64)
    requires
        major < 8,
    ensures
        arg < 24 ==> spec_head_min(major, arg).len() == 1,
        24 <= arg <= 0xff ==> spec_head_min(major, arg).len() == 2,
        0xff < arg <= 0xffff ==> spec_head_min(major, arg).len() == 3,
        0xffff < arg <= 0xffffffff ==> spec_head_min(major, arg).len() == 5,
        0xffffffff < arg ==> spec_head_min(major, arg).len() == 9,
        forall|width: u8|
            spec_width_holds(width, arg) && (width != 0 || arg < 24) ==> spec_head_min(
                major,
                arg,
            ).len() <= #[trigger] spec_head_forced(major, width, arg).len(),
{
}

/// Law (decoding a minimal head): the reference decoder reads back exactly
/// the major type and argument a minimal head was emitted from, consuming
/// the whole head.
pub proof fn lemma_min_head_decodes(major: u8, arg: u64)
    requires
        major < 8,
    ensures
        spec_decode_head(spec_head_min(major, arg)) == Some(
            (major, arg, spec_head_min(major, arg).len() as int),
        ),
{
    let ty = (major << 5) as u8;
    if arg < 24 {
        let a8 = arg as u8;
        assert((ty | a8) >> 5 == major && (ty | a8) & 0x1f == a8) by (bit_vector)
            requires
                major < 8,
                ty == (major << 5) as u8,
                a8 < 24,
        ;
    } else if arg <= 0xff {
        lemma_head_marker(major, 24);
    } else if arg <= 0xffff {
        lemma_head_marker(major, 25);
        lemma_u16_be_round_trip(arg as u16);
    } else if arg <= 0xffffffff {
        lemma_head_marker(major, 26);
        lemma_u32_be_round_trip(arg as u32);
    } else {
        lemma_head_marker(major, 27);
        lemma_u64_be_round_trip(arg);
    }
}

/// Law (decoding a forced head): a forced head decodes back to the major
/// type and argument it was emitted from, for every size class that yields
/// well-formed CBOR — that is, unless an argument of 24 or more is forced
/// into the head byte, where it would collide with the long-form markers.
pub proof fn lemma_forced_head_decodes(major: u8, width: u8, arg: u64)
    requires
        major < 8,
        spec_width_holds(width, arg),
        width != 0 || arg < 24,
    ensures
        spec_decode_head(spec_head_forced(major, width, arg)) == Some(
            (major, arg, spec_head_forced(major, width, arg).len() as int),
        ),
{
    let ty = (major << 5) as u8;
    if width == 0 {
        let a8 = arg as u8;
        assert((ty | a8) >> 5 == major && (ty | a8) & 0x1f == a8) by (bit_vector)
            requires
                major < 8,
                ty == (major << 5) as u8,
                a8 < 24,
        ;
    } else if width == 1 {
        lemma_head_marker(major, 24);
    } else if width == 2 {
        lemma_head_marker(major, 25);
        lemma_u16_be_round_trip(arg as u16);
    } else if width == 4 {
        lemma_head_marker(major, 26);
        lemma_u32_be_round_trip(arg as u32);
    } else {
        lemma_head_marker(major, 27);
        lemma_u64_be_round_trip(arg);
    }
}

/// A head byte assembled from a major type and a long-form marker takes
/// both back out unchanged.
proof fn lemma_head_marker(major: u8, marker: u8)
    requires
        major < 8,
        24 <= marker < 28,
    ensures
        (((major << 5) as u8) | marker) >> 5 == major,
        (((major << 5) as u8) | marker) & 0x1f == marker,
{
    assert(((major << 5) | marker) >> 5 == major && ((major << 5) | marker) & 0x1f == marker)
        by (bit_vector)
        requires
            major < 8,
            24 <= marker < 28,
    ;
}

} // verus!

