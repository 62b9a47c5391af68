//! Laws of the container codec, stated once for all inputs.
//!
//! The contracts of [`crate::container`] describe each operation in
//! isolation; the proofs here relate them: building then parsing recovers
//! the inputs, a parsed container reconstructs byte-exactly, every byte a
//! container covers is under the signature, and truncation is always
//! rejected.

use vstd::prelude::*;

use crate::bytes::{
    lemma_u16_le_round_trip, lemma_u16_le_unique, lemma_u32_le_round_trip, lemma_u32_le_unique,
    spec_u16_le, spec_u32_le,
};
use crate::container::{
    body_of, built_bytes, built_prefix, id_of, lengths_ok, magic_of, sig_len_of, signature_of,
    signed_len_of, signed_of, total_of, HEADER_LEN, PAD_OFFSET,
};
use crate::crypto::Verifier;
use crate::manifest_type::{lemma_wire_round_trip, spec_from_wire, spec_to_wire, ManifestType};

verus! {

/// Law (round-trip identity): a freshly built container parses back to
/// exactly the inputs it was built from. Every header field read by the
/// parser equals the field the builder wrote, the geometry checks pass, the
/// body and signature split off unchanged, and the signed region is exactly
/// the prefix the builder signed.
pub proof fn lemma_build_parse_round_trip(magic: u16, id: u32, body: Seq<u8>, sig: Seq<u8>)
    requires
        HEADER_LEN + body.len() + sig.len() <= 0xffff,
    ensures
        ({
            let buf = built_bytes(magic, id, body, sig);
            &&& buf.len() == HEADER_LEN + body.len() + sig.len()
            &&& lengths_ok(buf)
            &&& total_of(buf) == buf.len()
            &&& magic_of(buf) == magic
            &&& id_of(buf) == id
            &&& sig_len_of(buf) == sig.len()
            &&& body_of(buf) == body
            &&& signature_of(buf) == sig
            &&& signed_of(buf) == built_prefix(magic, id, body, sig.len() as int)
        }),
{
    let total = (HEADER_LEN + body.len() + sig.len()) as u16;
    let sl = sig.len() as u16;
    let buf = built_bytes(magic, id, body, sig);
    lemma_u16_le_round_trip(total);
    lemma_u16_le_round_trip(magic);
    lemma_u16_le_round_trip(sl);
    lemma_u32_le_round_trip(id);
    assert(buf[0] == spec_u16_le(total)[0] && buf[1] == spec_u16_le(total)[1]);
    assert(buf[2] == spec_u16_le(magic)[0] && buf[3] == spec_u16_le(magic)[1]);
    assert(buf[4] == spec_u32_le(id)[0] && buf[5] == spec_u32_le(id)[1] && buf[6] == spec_u32_le(
        id,
    )[2] && buf[7] == spec_u32_le(id)[3]);
    assert(buf[8] == spec_u16_le(sl)[0] && buf[9] == spec_u16_le(sl)[1]);
    assert(total_of(buf) == total);
    assert(sig_len_of(buf) == sl);
    assert(body_of(buf) =~= body);
    assert(signature_of(buf) =~= sig);
    assert(signed_of(buf) =~= built_prefix(magic, id, body, sig.len() as int));
}

/// Law (round-trip identity): a container built from a tag, an id and a
/// body parses back to exactly that tag, id and body, with the signature
/// found where the builder placed it and the signed region being exactly
/// the prefix the builder signed. With an engine that accepts the signer's
/// signature over that prefix, parse-and-verify therefore succeeds and its
/// view returns the build inputs unchanged.
pub proof fn lemma_round_trip_identity(tag: ManifestType, id: u32, body: Seq<u8>, sig: Seq<u8>)
    requires
        HEADER_LEN + body.len() + sig.len() <= 0xffff,
    ensures
        ({
            let buf = built_bytes(spec_to_wire(tag), id, body, sig);
            &&& lengths_ok(buf)
            &&& spec_from_wire(magic_of(buf)) == Some(tag)
            &&& id_of(buf) == id
            &&& body_of(buf) == body
            &&& signature_of(buf) == sig
            &&& signed_of(buf) == built_prefix(spec_to_wire(tag), id, body, sig.len() as int)
        }),
{
    lemma_build_parse_round_trip(spec_to_wire(tag), id, body, sig);
    lemma_wire_round_trip(tag);
}

/// Law (byte-exact reconstruction): rebuilding a container from the fields
/// and slices its parse yields reproduces the parsed bytes exactly, provided
/// the original carries the fixed `0xffff` padding that the builder always
/// emits. With a deterministic signer holding the original key, the rebuilt
/// signature then also equals the original, so re-containerizing a parsed
/// container is byte-identical.
pub proof fn lemma_reconstruction(buf: Seq<u8>)
    requires
        lengths_ok(buf),
        buf[PAD_OFFSET as int] == 0xffu8,
        buf[PAD_OFFSET as int + 1] == 0xffu8,
    ensures
        built_bytes(magic_of(buf), id_of(buf), body_of(buf), signature_of(buf)) == buf.subrange(
            0,
            total_of(buf),
        ),
{
    lemma_u16_le_unique(buf[0], buf[1]);
    lemma_u16_le_unique(buf[2], buf[3]);
    lemma_u32_le_unique(buf[4], buf[5], buf[6], buf[7]);
    lemma_u16_le_unique(buf[8], buf[9]);
    assert(HEADER_LEN + body_of(buf).len() + signature_of(buf).len() == total_of(buf));
    assert(spec_u16_le((HEADER_LEN + body_of(buf).len() + signature_of(buf).len()) as u16)
        == seq![buf[0], buf[1]]);
    assert(built_bytes(magic_of(buf), id_of(buf), body_of(buf), signature_of(buf)) =~= buf.subrange(
        0,
        total_of(buf),
    ));
}

/// Law (authenticated coverage): the signed region and the signature
/// together cover every byte of a container, so an engine that accepts only
/// the genuine signature/message pair rejects a container in which any byte
/// below the claimed total — header, body or signature — has changed,
/// as long as the change leaves the parse geometry intact.
pub proof fn lemma_tamper_rejected<V: Verifier>(v: V, good: Seq<u8>, bad: Seq<u8>, i: int)
    requires
        lengths_ok(good),
        lengths_ok(bad),
        total_of(bad) == total_of(good),
        sig_len_of(bad) == sig_len_of(good),
        0 <= i < total_of(good),
        bad[i] != good[i],
        forall|s: Seq<u8>, m: Seq<u8>|
            v.verify_ok(s, m) ==> s == signature_of(good) && m == signed_of(good),
    ensures
        !v.verify_ok(signature_of(bad), signed_of(bad)),
{
    if i < signed_len_of(good) {
        assert(signed_of(bad)[i] != signed_of(good)[i]);
    } else {
        assert(signature_of(bad)[i - signed_len_of(good)] != signature_of(good)[i - signed_len_of(
            good,
        )]);
    }
}

/// Law (truncation rejected): a buffer whose container claims exactly the
/// buffer's length no longer passes the parser's geometry checks once any
/// suffix is cut off — short of the header the header check fails, and
/// otherwise the claimed total overruns the shortened buffer.
pub proof fn lemma_truncation_rejected(buf: Seq<u8>, n: int)
    requires
        lengths_ok(buf),
        total_of(buf) == buf.len(),
        0 <= n < buf.len(),
    ensures
        !lengths_ok(buf.take(n)),
{
    let t = buf.take(n);
    if n >= HEADER_LEN {
        assert(t[0] == buf[0] && t[1] == buf[1]);
        assert(total_of(t) == total_of(buf));
    }
}

} // verus!
