//! Capability interfaces for the pluggable signature engine.
//!
//! The container codec never inspects signatures itself; it delegates to an
//! engine supplied by the caller. The engine is modelled by two traits, one
//! per capability: [`Verifier`] checks a signature over a message, and
//! [`Signer`] produces one. Implementations live outside this crate (a
//! hardware engine, an RSA library, a test double); the trait contracts
//! state what the codec assumes of them.
//!
//! Both contracts model a deterministic scheme whose outcome is a function
//! of the engine's state and the message alone. RSA PKCS#1 v1.5, the scheme
//! the wire format was designed around, is such a scheme. The round-trip
//! guarantees of the codec hold exactly for engines that honour these
//! contracts.

use vstd::prelude::*;

verus! {

/// An opaque engine fault. The codec never inspects it: any engine error
/// collapses to [`crate::Error::SignatureFailure`], so that unverified
/// inputs cannot be distinguished by cause.
#[derive(Debug)]
pub struct EngineError;

/// The signature-verification capability of an engine.
pub trait Verifier: Sized {
    /// Whether this engine accepts `signature` over `message`. A verified
    /// implementation overrides this with its own acceptance predicate; an
    /// unverified implementation inherits the default, about which nothing
    /// is known or proved.
    open spec fn verify_ok(&self, signature: Seq<u8>, message: Seq<u8>) -> bool {
        vstd::pervasive::arbitrary()
    }

    /// Checks `signature` over `message`, succeeding exactly on the pairs
    /// the engine accepts.
    fn verify_signature(&mut self, signature: &[u8], message: &[u8]) -> (r: Result<
        (),
        EngineError,
    >)
        ensures
            r is Ok <==> old(self).verify_ok(signature@, message@),
    ;
}

/// The signing capability of an engine.
pub trait Signer: Sized {
    /// The byte length of the signatures this engine produces. A verified
    /// implementation overrides this with its own length; an unverified
    /// implementation inherits the default, about which nothing is known or
    /// proved.
    open spec fn spec_sig_len(&self) -> nat {
        vstd::pervasive::arbitrary()
    }

    /// The signature this engine produces over `message`; overridden like
    /// [`Signer::spec_sig_len`].
    open spec fn spec_signature(&self, message: Seq<u8>) -> Seq<u8> {
        vstd::pervasive::arbitrary()
    }

    /// Returns the byte length of the signatures this engine produces, used
    /// by the builder to reserve tail bytes.
    fn pub_len(&self) -> (r: usize)
        ensures
            r == self.spec_sig_len(),
    ;

    /// Signs `message`. On success the signature is the engine's
    /// deterministic signature over the message, of the engine's fixed
    /// length; the engine may fail instead.
    fn sign(&mut self, message: &[u8]) -> (r: Result<Vec<u8>, EngineError>)
        ensures
            r matches Ok(sig) ==> sig@ == old(self).spec_signature(message@) && sig@.len() == old(
                self,
            ).spec_sig_len(),
    ;
}

} // verus!
