//! The manifest container codec: parse-and-verify and incremental build.
//!
//! The wire layout is a fixed 12-byte little-endian header, the body, and a
//! trailing signature; see the crate documentation. The signed region is
//! everything before the signature, so the header fields are themselves
//! authenticated.
//!
//! [`Container::parse_and_verify`] is the only way to obtain a [`Container`]:
//! a value of that type is a witness that signature verification succeeded
//! over the buffer it borrows. [`Containerizer`] builds a new container in a
//! caller-provided buffer and is consumed by [`Containerizer::sign`], which
//! patches the header and signs the prefix in place.

use vstd::prelude::*;

use crate::bytes::{
    read_u16_le, read_u32_le, spec_u16_from_le, spec_u16_le, spec_u32_from_le, spec_u32_le,
    write_bytes_at, write_u16_le, write_u32_le,
};
use crate::crypto::{Signer, Verifier};
use crate::manifest_type::{spec_from_wire, spec_to_wire, ManifestType};
use crate::Error;

verus! {

/// Offset of the total-length field within the header.
pub const LEN_OFFSET: usize = 0;

/// Offset of the magic-number field within the header.
pub const TYPE_OFFSET: usize = 2;

/// Offset of the monotonic-id field within the header.
pub const ID_OFFSET: usize = 4;

/// Offset of the signature-length field within the header.
pub const SIG_LEN_OFFSET: usize = 8;

/// Offset of the fixed `0xffff` padding within the header.
pub const PAD_OFFSET: usize = 10;

/// The length of the container header in bytes: two halves, a word, another
/// half, and two bytes of padding. A multiple of four, so that a four-byte
/// aligned input yields a four-byte aligned body slice.
pub const HEADER_LEN: usize = 2 + 2 + 4 + 2 + 2;

/// The total length a container claims in its header: bytes 0 and 1,
/// little-endian. Counts the header, the body and the signature.
pub open spec fn total_of(b: Seq<u8>) -> int
    recommends
        b.len() >= HEADER_LEN,
{
    spec_u16_from_le(b[0], b[1]) as int
}

/// The magic number a container claims in its header: bytes 2 and 3,
/// little-endian.
pub open spec fn magic_of(b: Seq<u8>) -> u16
    recommends
        b.len() >= HEADER_LEN,
{
    spec_u16_from_le(b[2], b[3])
}

/// The monotonic id a container claims in its header: bytes 4 through 7,
/// little-endian.
pub open spec fn id_of(b: Seq<u8>) -> u32
    recommends
        b.len() >= HEADER_LEN,
{
    spec_u32_from_le(b[4], b[5], b[6], b[7])
}

/// The signature length a container claims in its header: bytes 8 and 9,
/// little-endian.
pub open spec fn sig_len_of(b: Seq<u8>) -> int
    recommends
        b.len() >= HEADER_LEN,
{
    spec_u16_from_le(b[8], b[9]) as int
}

/// Whether the lengths claimed by the header fit the buffer: the header is
/// present, the claimed total lies within the buffer, and the claimed
/// signature fits after the header inside that total. Exactly the geometry
/// checks of [`Container::parse_and_verify`].
pub open spec fn lengths_ok(b: Seq<u8>) -> bool {
    &&& b.len() >= HEADER_LEN
    &&& total_of(b) <= b.len()
    &&& HEADER_LEN + sig_len_of(b) <= total_of(b)
}

/// The length of the signed region: everything the container covers except
/// the trailing signature.
pub open spec fn signed_len_of(b: Seq<u8>) -> int {
    total_of(b) - sig_len_of(b)
}

/// The body bytes of a container: between the header and the signature.
pub open spec fn body_of(b: Seq<u8>) -> Seq<u8>
    recommends
        lengths_ok(b),
{
    b.subrange(HEADER_LEN as int, signed_len_of(b))
}

/// The signature bytes of a container: the last `sig_len_of(b)` bytes of the
/// claimed total.
pub open spec fn signature_of(b: Seq<u8>) -> Seq<u8>
    recommends
        lengths_ok(b),
{
    b.subrange(signed_len_of(b), total_of(b))
}

/// The signed region of a container: the header and the body, exactly what
/// the signature is checked against.
pub open spec fn signed_of(b: Seq<u8>) -> Seq<u8>
    recommends
        lengths_ok(b),
{
    b.subrange(0, signed_len_of(b))
}

/// Metadata attached to every manifest; part of the signed component.
#[derive(Debug)]
pub struct Metadata {
    /// The "version" or "manifest id", a monotonically increasing integer
    /// used to refuse rollback: a manifest with a smaller version number
    /// than the one already loaded can be rejected. A signing authority
    /// should bump this value when minting a new manifest.
    pub version_id: u32,
}

/// A parsed, verified manifest container.
///
/// A value of this type is a witness that authentication via signature was
/// successful: it is not possible to parse a `Container` without also
/// verifying it. The view borrows the body bytes inside the parsed buffer
/// and lives no longer than that buffer.
pub struct Container<'m> {
    manifest_type: ManifestType,
    metadata: Metadata,
    body: &'m [u8],
}

/// Relies on `<[u8]>::as_ptr` and `pointer::align_offset`: the distance, in
/// bytes, from the slice's starting address to the next four-byte boundary.
/// The outcome depends on where the buffer sits in memory, so nothing is
/// stated of it.
#[verifier::external_body]
fn word_align_offset(buf: &[u8]) -> usize {
    buf.as_ptr().align_offset(4)
}

impl<'m> Container<'m> {
    /// The manifest type this container was verified to carry.
    pub closed spec fn spec_manifest_type(self) -> ManifestType {
        self.manifest_type
    }

    /// The monotonic id this container was verified to carry.
    pub closed spec fn spec_version_id(self) -> u32 {
        self.metadata.version_id
    }

    /// The authenticated body bytes.
    pub closed spec fn spec_body(self) -> Seq<u8> {
        self.body@
    }

    /// Parses and verifies a container using the provided [`Verifier`].
    ///
    /// The header is decoded first and used to find the signature at the end
    /// of the buffer; the signature is checked over everything before it,
    /// and only then is the magic number decoded, so an unknown-type probe
    /// is rejected only on already-authenticated bytes.
    ///
    /// `buf` must begin on a four-byte boundary, so that the body slice
    /// handed to downstream parsers is four-byte aligned.
    ///
    /// Errors:
    /// - [`Error::Unaligned`]: the buffer does not begin on a four-byte
    ///   boundary.
    /// - [`Error::OutOfRange`]: the header's lengths do not fit the buffer,
    ///   or the magic number of an already-verified container is unknown.
    /// - [`Error::SignatureFailure`]: the engine rejected the signature.
    pub fn parse_and_verify<V: Verifier>(buf: &'m [u8], verifier: &mut V) -> (r: Result<
        Container<'m>,
        Error,
    >)
        ensures
            r matches Ok(c) ==> {
                &&& lengths_ok(buf@)
                &&& old(verifier).verify_ok(signature_of(buf@), signed_of(buf@))
                &&& spec_from_wire(magic_of(buf@)) == Some(c.spec_manifest_type())
                &&& c.spec_version_id() == id_of(buf@)
                &&& c.spec_body() == body_of(buf@)
            },
            r == Err::<Container<'m>, Error>(Error::OutOfRange) ==> !lengths_ok(buf@) || (old(
                verifier,
            ).verify_ok(signature_of(buf@), signed_of(buf@)) && spec_from_wire(magic_of(buf@))
                is None),
            r == Err::<Container<'m>, Error>(Error::SignatureFailure) ==> lengths_ok(buf@) && !old(
                verifier,
            ).verify_ok(signature_of(buf@), signed_of(buf@)),
            !lengths_ok(buf@) ==> r == Err::<Container<'m>, Error>(Error::OutOfRange) || r
                == Err::<Container<'m>, Error>(Error::Unaligned),
            lengths_ok(buf@) && !old(verifier).verify_ok(signature_of(buf@), signed_of(buf@)) ==> r
                == Err::<Container<'m>, Error>(Error::SignatureFailure) || r == Err::<
                Container<'m>,
                Error,
            >(Error::Unaligned),
            lengths_ok(buf@) && old(verifier).verify_ok(signature_of(buf@), signed_of(buf@))
                && spec_from_wire(magic_of(buf@)) is Some ==> r is Ok || r == Err::<
                Container<'m>,
                Error,
            >(Error::Unaligned),
    {
        let aligned = word_align_offset(buf) == 0;
        Self::parse_and_verify_aligned(buf, verifier, aligned)
    }

    /// The verified remainder of [`Container::parse_and_verify`]: everything
    /// past the machine-dependent alignment measurement, which it takes as
    /// the argument `aligned`. For either value of `aligned` the outcome is
    /// pinned down exactly.
    fn parse_and_verify_aligned<V: Verifier>(buf: &'m [u8], verifier: &mut V, aligned: bool) -> (r:
        Result<Container<'m>, Error>)
        ensures
            !aligned ==> r == Err::<Container<'m>, Error>(Error::Unaligned),
            aligned && !lengths_ok(buf@) ==> r == Err::<Container<'m>, Error>(Error::OutOfRange),
            aligned && lengths_ok(buf@) && !old(verifier).verify_ok(
                signature_of(buf@),
                signed_of(buf@),
            ) ==> r == Err::<Container<'m>, Error>(Error::SignatureFailure),
            aligned && lengths_ok(buf@) && old(verifier).verify_ok(
                signature_of(buf@),
                signed_of(buf@),
            ) && spec_from_wire(magic_of(buf@)) is None ==> r == Err::<Container<'m>, Error>(
                Error::OutOfRange,
            ),
            aligned && lengths_ok(buf@) && old(verifier).verify_ok(
                signature_of(buf@),
                signed_of(buf@),
            ) && spec_from_wire(magic_of(buf@)) is Some ==> r is Ok,
            r matches Ok(c) ==> {
                &&& aligned
                &&& lengths_ok(buf@)
                &&& old(verifier).verify_ok(signature_of(buf@), signed_of(buf@))
                &&& spec_from_wire(magic_of(buf@)) == Some(c.spec_manifest_type())
                &&& c.spec_version_id() == id_of(buf@)
                &&& c.spec_body() == body_of(buf@)
            },
    {
        if !aligned {
            return Err(Error::Unaligned);
        }
        if buf.len() < HEADER_LEN {
            return Err(Error::OutOfRange);
        }
        let total = read_u16_le(buf, LEN_OFFSET) as usize;
        let magic = read_u16_le(buf, TYPE_OFFSET);
        let id = read_u32_le(buf, ID_OFFSET);
        let sig_len = read_u16_le(buf, SIG_LEN_OFFSET) as usize;

        // The claimed total must lie within the buffer, and the claimed
        // signature must fit after the header inside that total; together
        // these bound every split below.
        if total > buf.len() {
            return Err(Error::OutOfRange);
        }
        if total < HEADER_LEN || total - HEADER_LEN < sig_len {
            return Err(Error::OutOfRange);
        }
        assert(lengths_ok(buf@));

        let signed_len = total - sig_len;
        let body: &'m [u8] = vstd::slice::slice_subrange(buf, HEADER_LEN, signed_len);
        let sig: &[u8] = vstd::slice::slice_subrange(buf, signed_len, total);
        let signed: &[u8] = vstd::slice::slice_subrange(buf, 0, signed_len);

        match verifier.verify_signature(sig, signed) {
            Ok(()) => {}
            Err(_) => {
                return Err(Error::SignatureFailure);
            }
        }

        match ManifestType::from_wire_value(magic) {
            Some(manifest_type) => Ok(
                Container { manifest_type, metadata: Metadata { version_id: id }, body },
            ),
            None => Err(Error::OutOfRange),
        }
    }

    /// Returns the [`ManifestType`] of this container.
    pub fn manifest_type(&self) -> (r: ManifestType)
        ensures
            r == self.spec_manifest_type(),
    {
        self.manifest_type
    }

    /// Checks whether this container can replace `other`: it must be of the
    /// same type and have a greater or equal id. Equal ids are permitted,
    /// allowing an idempotent refresh; strictly lower ids are rejected. This
    /// predicate is the rollback gate.
    pub fn can_replace(&self, other: &Self) -> (r: bool)
        ensures
            r == (self.spec_manifest_type() == other.spec_manifest_type()
                && self.spec_version_id() >= other.spec_version_id()),
    {
        self.manifest_type == other.manifest_type && self.metadata.version_id
            >= other.metadata.version_id
    }

    /// Returns this container's [`Metadata`].
    pub fn metadata(&self) -> (r: &Metadata)
        ensures
            r.version_id == self.spec_version_id(),
    {
        &self.metadata
    }

    /// Returns the authenticated body of the container.
    pub fn body(&self) -> (r: &'m [u8])
        ensures
            r@ == self.spec_body(),
    {
        self.body
    }

    /// Re-serializes this container into its binary format in `buf`, driving
    /// a [`Containerizer`] over the container's own type, metadata and body.
    ///
    /// Re-serialization is byte-exact only when the signer is deterministic
    /// and holds the key that produced the original signature.
    pub fn containerize<S: Signer>(&self, signer: &mut S, buf: Vec<u8>) -> (r: Result<
        Vec<u8>,
        Error,
    >)
        ensures
            r matches Ok(out) ==> ({
                let sig_len = old(signer).spec_sig_len() as int;
                let prefix = built_prefix(
                    spec_to_wire(self.spec_manifest_type()),
                    self.spec_version_id(),
                    self.spec_body(),
                    sig_len,
                );
                &&& HEADER_LEN + self.spec_body().len() + sig_len <= 0xffff
                &&& HEADER_LEN + self.spec_body().len() + sig_len <= buf@.len()
                &&& out@ == prefix + old(signer).spec_signature(prefix)
            }),
            r == Err::<Vec<u8>, Error>(Error::OutOfRange) <==> (HEADER_LEN + self.spec_body().len()
                + old(signer).spec_sig_len() > buf@.len() || HEADER_LEN + self.spec_body().len()
                + old(signer).spec_sig_len() > 0xffff),
            HEADER_LEN + self.spec_body().len() + old(signer).spec_sig_len() <= buf@.len()
                && HEADER_LEN + self.spec_body().len() + old(signer).spec_sig_len() <= 0xffff ==> (
            r is Ok || r == Err::<Vec<u8>, Error>(Error::SignatureFailure)),
    {
        let builder = match Containerizer::new(buf) {
            Ok(b) => b,
            Err(e) => {
                return Err(e);
            },
        };
        let builder = match builder.with_type(self.manifest_type()) {
            Ok(b) => b,
            Err(e) => {
                return Err(e);
            },
        };
        let mut builder = match builder.with_metadata(self.metadata()) {
            Ok(b) => b,
            Err(e) => {
                return Err(e);
            },
        };
        match builder.write_bytes(self.body()) {
            Ok(()) => {},
            Err(e) => {
                return Err(e);
            },
        }
        let ghost at_sign = builder;
        let r = builder.sign(signer);
        proof {
            let sig_len = old(signer).spec_sig_len() as int;
            if r is Ok {
                assert(at_sign.signed_prefix(sig_len) =~= built_prefix(
                    spec_to_wire(self.spec_manifest_type()),
                    self.spec_version_id(),
                    self.spec_body(),
                    sig_len,
                ));
            }
        }
        r
    }
}

/// The header-and-body prefix of a freshly built container: the patched
/// header (total length, magic, id, signature length, `0xffff` padding)
/// followed by the body. Exactly the bytes a builder signs.
pub open spec fn built_prefix(magic: u16, id: u32, body: Seq<u8>, sig_len: int) -> Seq<u8>
    recommends
        HEADER_LEN + body.len() + sig_len <= 0xffff,
{
    spec_u16_le((HEADER_LEN + body.len() + sig_len) as u16) + spec_u16_le(magic) + spec_u32_le(id)
        + spec_u16_le(sig_len as u16) + seq![0xffu8, 0xffu8] + body
}

/// A freshly built container in full: the signed prefix followed by the
/// signature.
pub open spec fn built_bytes(magic: u16, id: u32, body: Seq<u8>, sig: Seq<u8>) -> Seq<u8>
    recommends
        HEADER_LEN + body.len() + sig.len() <= 0xffff,
{
    built_prefix(magic, id, body, sig.len() as int) + sig
}

/// An incremental builder for new manifest containers.
///
/// The builder owns the output buffer and keeps its logical write position
/// at or past the header; the header fields are patched in place while the
/// position tracks the end of the body. Once a type and metadata have been
/// recorded, [`Containerizer::sign`] patches the length fields, signs the
/// prefix and yields the encoded container.
pub struct Containerizer {
    buf: Vec<u8>,
    // Invariant: at all times, `HEADER_LEN <= pos <= buf.len()`; the bytes
    // in `buf[HEADER_LEN..pos]` are the body written so far.
    pos: usize,
    has_type: bool,
    has_metadata: bool,
}

impl Containerizer {
    /// The output buffer's bytes as written so far.
    pub closed spec fn bytes(self) -> Seq<u8> {
        self.buf@
    }

    /// The logical write position: the end of the body written so far.
    pub closed spec fn mark(self) -> int {
        self.pos as int
    }

    /// Whether a manifest type has been recorded.
    pub closed spec fn type_set(self) -> bool {
        self.has_type
    }

    /// Whether metadata has been recorded.
    pub closed spec fn metadata_set(self) -> bool {
        self.has_metadata
    }

    /// The builder's structural invariant: the write position sits at or
    /// past the header, inside the output buffer.
    pub open spec fn wf(self) -> bool {
        HEADER_LEN <= self.mark() <= self.bytes().len()
    }

    /// The body bytes appended so far.
    pub open spec fn body_so_far(self) -> Seq<u8> {
        self.bytes().subrange(HEADER_LEN as int, self.mark())
    }

    /// The bytes [`Containerizer::sign`] would sign for a signature of
    /// `sig_len` bytes: the header with its length fields and padding
    /// patched, followed by the body written so far.
    pub open spec fn signed_prefix(self, sig_len: int) -> Seq<u8> {
        spec_u16_le((self.mark() + sig_len) as u16) + self.bytes().subrange(
            TYPE_OFFSET as int,
            SIG_LEN_OFFSET as int,
        ) + spec_u16_le(sig_len as u16) + seq![0xffu8, 0xffu8] + self.body_so_far()
    }

    /// Creates a new, empty containerizer over the caller-provided output
    /// buffer `out`.
    ///
    /// No bytes are written; the builder only checks that `out` can hold a
    /// container header and positions its write mark just past it.
    pub fn new(out: Vec<u8>) -> (r: Result<Containerizer, Error>)
        ensures
            out@.len() >= HEADER_LEN ==> (r matches Ok(b) && {
                &&& b.wf()
                &&& b.bytes() == out@
                &&& b.mark() == HEADER_LEN
                &&& !b.type_set()
                &&& !b.metadata_set()
            }),
            out@.len() < HEADER_LEN ==> r == Err::<Containerizer, Error>(Error::OutOfRange),
    {
        if out.len() < HEADER_LEN {
            return Err(Error::OutOfRange);
        }
        Ok(Containerizer { buf: out, pos: HEADER_LEN, has_type: false, has_metadata: false })
    }

    /// Records the given [`ManifestType`], patching the header's magic
    /// field. May be called more than once; the last write wins.
    pub fn with_type(self, manifest_type: ManifestType) -> (r: Result<Containerizer, Error>)
        requires
            self.wf(),
        ensures
            r matches Ok(b) && {
                &&& b.wf()
                &&& b.bytes().len() == self.bytes().len()
                &&& b.bytes().subrange(TYPE_OFFSET as int, TYPE_OFFSET as int + 2) == spec_u16_le(
                    spec_to_wire(manifest_type),
                )
                &&& forall|i: int|
                    0 <= i < self.bytes().len() && !(TYPE_OFFSET <= i < TYPE_OFFSET + 2)
                        ==> b.bytes()[i] == self.bytes()[i]
                &&& b.mark() == self.mark()
                &&& b.type_set()
                &&& b.metadata_set() == self.metadata_set()
            },
    {
        // The write position already sits past the header, so the patch
        // lands before it and the position needs no adjustment.
        let mut b = self;
        write_u16_le(&mut b.buf, TYPE_OFFSET, manifest_type.to_wire_value());
        b.has_type = true;
        Ok(b)
    }

    /// Records the given [`Metadata`], patching the header's id field. May
    /// be called more than once; the last write wins.
    pub fn with_metadata(self, metadata: &Metadata) -> (r: Result<Containerizer, Error>)
        requires
            self.wf(),
        ensures
            r matches Ok(b) && {
                &&& b.wf()
                &&& b.bytes().len() == self.bytes().len()
                &&& b.bytes().subrange(ID_OFFSET as int, ID_OFFSET as int + 4) == spec_u32_le(
                    metadata.version_id,
                )
                &&& forall|i: int|
                    0 <= i < self.bytes().len() && !(ID_OFFSET <= i < ID_OFFSET + 4) ==> b.bytes()[i]
                        == self.bytes()[i]
                &&& b.mark() == self.mark()
                &&& b.type_set() == self.type_set()
                &&& b.metadata_set()
            },
    {
        let mut b = self;
        write_u32_le(&mut b.buf, ID_OFFSET, metadata.version_id);
        b.has_metadata = true;
        Ok(b)
    }

    /// Appends `data` to the body. The header is not touched; the body's
    /// length is implied by the write position when [`Containerizer::sign`]
    /// is called. Fails with [`Error::OutOfRange`] when the output buffer
    /// cannot hold the bytes, leaving the builder unchanged.
    pub fn write_bytes(&mut self, data: &[u8]) -> (r: Result<(), Error>)
        requires
            old(self).wf(),
        ensures
            final(self).wf(),
            final(self).bytes().len() == old(self).bytes().len(),
            final(self).type_set() == old(self).type_set(),
            final(self).metadata_set() == old(self).metadata_set(),
            r is Ok <==> old(self).mark() + data@.len() <= old(self).bytes().len(),
            r is Ok ==> {
                &&& final(self).mark() == old(self).mark() + data@.len()
                &&& final(self).bytes().subrange(old(self).mark(), final(self).mark()) == data@
                &&& forall|i: int|
                    0 <= i < old(self).bytes().len() && !(old(self).mark() <= i < old(self).mark()
                        + data@.len()) ==> final(self).bytes()[i] == old(self).bytes()[i]
            },
            r is Err ==> *final(self) == *old(self) && r == Err::<(), Error>(Error::OutOfRange),
    {
        let remaining = self.buf.len() - self.pos;
        if data.len() > remaining {
            return Err(Error::OutOfRange);
        }
        write_bytes_at(&mut self.buf, self.pos, data);
        self.pos = self.pos + data.len();
        Ok(())
    }

    /// Completes containerization: patches the header's total length,
    /// signature length and padding, signs the header-and-body prefix, and
    /// returns the encoded container, truncated to its total length.
    ///
    /// Fails with [`Error::OutOfRange`] when a type or metadata is missing,
    /// when the total length would not fit in the header's 16-bit field, or
    /// when the output buffer cannot hold the signature; and with
    /// [`Error::SignatureFailure`] when the engine refuses to sign.
    pub fn sign<S: Signer>(self, signer: &mut S) -> (r: Result<Vec<u8>, Error>)
        requires
            self.wf(),
        ensures
            !(self.type_set() && self.metadata_set()) ==> r == Err::<Vec<u8>, Error>(
                Error::OutOfRange,
            ),
            self.type_set() && self.metadata_set() && (self.mark() + old(signer).spec_sig_len()
                > 0xffff || self.mark() + old(signer).spec_sig_len() > self.bytes().len()) ==> r
                == Err::<Vec<u8>, Error>(Error::OutOfRange),
            self.type_set() && self.metadata_set() && self.mark() + old(signer).spec_sig_len()
                <= 0xffff && self.mark() + old(signer).spec_sig_len() <= self.bytes().len() ==> (
            r is Ok || r == Err::<Vec<u8>, Error>(Error::SignatureFailure)),
            r matches Ok(out) ==> ({
                let sig_len = old(signer).spec_sig_len() as int;
                let prefix = self.signed_prefix(sig_len);
                &&& self.type_set() && self.metadata_set()
                &&& self.mark() + sig_len <= 0xffff
                &&& self.mark() + sig_len <= self.bytes().len()
                &&& out@ == prefix + old(signer).spec_signature(prefix)
                &&& out@.len() == self.mark() + sig_len
            }),
    {
        if !self.has_type || !self.has_metadata {
            return Err(Error::OutOfRange);
        }
        let sig_len = signer.pub_len();
        let total = match self.pos.checked_add(sig_len) {
            Some(t) => t,
            None => {
                return Err(Error::OutOfRange);
            },
        };
        let u16_max: usize = 0xffff;
        if total > u16_max || sig_len > u16_max {
            return Err(Error::OutOfRange);
        }
        let mut buf = self.buf;
        let pos = self.pos;
        if total > buf.len() {
            return Err(Error::OutOfRange);
        }

        // The header must be finalized before signing, so that the signed
        // bytes match what parse-and-verify will re-authenticate.
        write_u16_le(&mut buf, LEN_OFFSET, total as u16);
        write_u16_le(&mut buf, SIG_LEN_OFFSET, sig_len as u16);
        // The padding bytes are part of the signed region; fixing them to
        // 0xffff keeps re-serialization byte-exact.
        write_u16_le(&mut buf, PAD_OFFSET, 0xffff);

        let ghost prefix = self.signed_prefix(sig_len as int);
        proof {
            assert((0xffffu16 & 0xff) == 0xff) by (bit_vector);
            assert(((0xffffu16 >> 8) & 0xff) == 0xff) by (bit_vector);
            assert(buf@.subrange(0, pos as int) =~= prefix);
        }

        let message: &[u8] = vstd::slice::slice_subrange(buf.as_slice(), 0, pos);
        let sig = match signer.sign(message) {
            Ok(s) => s,
            Err(_) => {
                return Err(Error::SignatureFailure);
            },
        };
        write_bytes_at(&mut buf, pos, sig.as_slice());
        buf.truncate(total);
        proof {
            assert(buf@ =~= prefix + sig@);
        }
        Ok(buf)
    }
}

} // verus!
