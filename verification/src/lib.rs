//! Signed manifest containers.
//!
//! A manifest container frames an opaque manifest body with a fixed-layout,
//! little-endian header and authenticates the frame with an asymmetric
//! signature:
//!
//! ```text
//! struct Container {
//!     /// Total length, including the header and the signature.
//!     len: u16,
//!     /// The "magic number", which determines the manifest type.
//!     magic: u16,
//!     /// The monotonic id.
//!     id: u32,
//!     /// The length of the signature.
//!     sig_len: u16,
//!     /// Alignment padding, always emitted as `0xffff`.
//!     _: u16,
//!     /// The manifest-specific body.
//!     body: [u8; len - HEADER_LEN - sig_len],
//!     /// The cryptographic signature over everything before it.
//!     signature: [u8; sig_len],
//! }
//! ```
//!
//! Two operations dominate: [`container::Container::parse_and_verify`] turns
//! an untrusted byte buffer into an authenticated view, and
//! [`container::Containerizer`] incrementally builds a new container in a
//! caller-provided buffer and signs it in place. The signed region covers the
//! header and the body, so the length fields, the magic number and the
//! monotonic id are themselves authenticated.
//!
//! A small, intentionally non-validating CBOR byte-emitter lives in
//! [`cbor`]; it synthesizes well-formed and deliberately malformed encodings
//! for fixture generation.

use vstd::prelude::*;

pub mod bytes;
pub mod cbor;
pub mod container;
pub mod crypto;
pub mod laws;
pub mod manifest_type;

verus! {

/// Faults surfaced by parsing and building manifest containers.
#[derive(Clone, Copy, Debug, PartialEq, Eq, Structural)]
pub enum Error {
    /// The input buffer does not begin on a four-byte boundary.
    Unaligned,
    /// A length, bound or field decode failed; also covers missing builder
    /// prerequisites, field overflow, an exhausted output buffer and an
    /// unknown magic number.
    OutOfRange,
    /// The signature engine reported an error while verifying or signing.
    SignatureFailure,
}

} // verus!
