use manifest_container::container::{Container, Containerizer, Metadata, HEADER_LEN};
use manifest_container::crypto::{EngineError, Signer, Verifier};
use manifest_container::manifest_type::ManifestType;
use manifest_container::Error;

/// A deterministic mock signature engine: the signature is a 256-byte hash
/// chain over the message, a function of the key and the message alone, as
/// an RSA PKCS#1 v1.5 engine would be.
struct MockEngine {
    key: u8,
    refuse_signing: bool,
}

impl MockEngine {
    fn new(key: u8) -> MockEngine {
        MockEngine {
            key,
            refuse_signing: false,
        }
    }
}

fn mock_signature(key: u8, msg: &[u8]) -> Vec<u8> {
    let mut out = vec![0u8; 256];
    let mut acc: u64 = (key as u64) ^ 0x9e37_79b9_7f4a_7c15;
    for (i, b) in msg.iter().enumerate() {
        acc = acc
            .wrapping_mul(6364136223846793005)
            .wrapping_add(*b as u64)
            .rotate_left((i % 63) as u32);
        out[i % 256] = out[i % 256].wrapping_add((acc >> 32) as u8) ^ (acc as u8);
    }
    for (i, slot) in out.iter_mut().enumerate() {
        acc = acc.wrapping_mul(6364136223846793005).wrapping_add(i as u64);
        *slot ^= (acc >> 24) as u8;
    }
    out
}

impl Verifier for MockEngine {
    fn verify_signature(&mut self, signature: &[u8], message: &[u8]) -> Result<(), EngineError> {
        if signature == mock_signature(self.key, message).as_slice() {
            Ok(())
        } else {
            Err(EngineError)
        }
    }
}

impl Signer for MockEngine {
    fn pub_len(&self) -> usize {
        256
    }

    fn sign(&mut self, message: &[u8]) -> Result<Vec<u8>, EngineError> {
        if self.refuse_signing {
            Err(EngineError)
        } else {
            Ok(mock_signature(self.key, message))
        }
    }
}

const MANIFEST_HEADER: &[u8] = &[
    0x1f, 0x01, // Total length: header (12) + body (19) + signature (256).
    0x0e, 0xda, // FPM magic.
    0xaa, 0x55, 0x01, 0x00, // Container id (0x155aa).
    0x00, 0x01, // Signature length (0x100 = 256).
    0xff, 0xff, // Padding to 4 bytes.
];

const MANIFEST_CONTENTS: &[u8] = b"Container contents!";

const MANIFEST_LEN: usize = 12 + 19 + 256;

fn make_rsa_engine() -> (MockEngine, MockEngine) {
    (MockEngine::new(42), MockEngine::new(42))
}

/// A complete, correctly signed manifest built from the fixture header.
fn signed_fixture() -> Vec<u8> {
    let (_, mut signer) = make_rsa_engine();
    let mut manifest = MANIFEST_HEADER.to_vec();
    manifest.extend_from_slice(MANIFEST_CONTENTS);
    let sig = signer.sign(&manifest).unwrap();
    manifest.extend_from_slice(&sig);
    manifest
}

#[test]
fn parse_manifest() {
    let (mut rsa, mut signer) = make_rsa_engine();

    let mut manifest = MANIFEST_HEADER.to_vec();
    manifest.extend_from_slice(MANIFEST_CONTENTS);

    let sig = signer.sign(&manifest).unwrap();
    manifest.extend_from_slice(&sig);

    assert_eq!(manifest.len(), MANIFEST_LEN);

    let manifest = Container::parse_and_verify(&manifest, &mut rsa).unwrap();
    assert_eq!(manifest.manifest_type(), ManifestType::Fpm);
    assert_eq!(manifest.body(), MANIFEST_CONTENTS);
}

#[test]
fn parse_manifest_too_short() {
    let (mut rsa, mut signer) = make_rsa_engine();

    let mut manifest = MANIFEST_HEADER.to_vec();
    manifest.extend_from_slice(&MANIFEST_CONTENTS[1..]);

    let sig = signer.sign(&manifest).unwrap();
    manifest.extend_from_slice(&sig);

    assert_eq!(manifest.len(), MANIFEST_LEN - 1);

    assert!(Container::parse_and_verify(&manifest, &mut rsa).is_err());
}

#[test]
fn parse_manifest_bad_sig() {
    let (mut rsa, mut signer) = make_rsa_engine();

    let mut manifest = MANIFEST_HEADER.to_vec();
    manifest.extend_from_slice(MANIFEST_CONTENTS);

    let mut sig = signer.sign(&manifest).unwrap();
    // Flip a bit in the signature.
    sig[0] ^= 1;
    manifest.extend_from_slice(&sig);

    assert_eq!(manifest.len(), MANIFEST_LEN);

    assert!(matches!(
        Container::parse_and_verify(&manifest, &mut rsa),
        Err(Error::SignatureFailure)
    ));
}

#[test]
fn build_manifest() {
    let (mut rsa, mut signer) = make_rsa_engine();

    let buf = vec![0; 1024];
    let mut builder = Containerizer::new(buf)
        .unwrap()
        .with_type(ManifestType::Fpm)
        .unwrap()
        .with_metadata(&Metadata {
            version_id: 0x155aa,
        })
        .unwrap();
    builder.write_bytes(MANIFEST_CONTENTS).unwrap();
    let manifest_bytes = builder.sign(&mut signer).unwrap();
    assert_eq!(
        &manifest_bytes[..HEADER_LEN],
        &MANIFEST_HEADER[..HEADER_LEN]
    );

    let manifest = Container::parse_and_verify(&manifest_bytes, &mut rsa).unwrap();
    assert_eq!(manifest.manifest_type(), ManifestType::Fpm);
    assert_eq!(manifest.metadata().version_id, 0x155aa);
    assert_eq!(manifest.body(), MANIFEST_CONTENTS);
}

#[test]
fn roumd_trip() {
    let (mut rsa, mut signer) = make_rsa_engine();

    let mut manifest = MANIFEST_HEADER.to_vec();
    manifest.extend_from_slice(MANIFEST_CONTENTS);

    let sig = signer.sign(&manifest).unwrap();

    manifest.extend_from_slice(&sig);
    assert_eq!(manifest.len(), MANIFEST_LEN);

    let parsed_manifest = Container::parse_and_verify(&manifest, &mut rsa).unwrap();

    let buf = vec![0; 512];
    let new_manifest_bytes = parsed_manifest.containerize(&mut signer, buf).unwrap();
    // Note that this assumes that the padding bytes are always 0xffff.
    assert_eq!(&manifest[..], &new_manifest_bytes[..]);
}

#[test]
fn rollback_gate_is_monotonic() {
    let (mut rsa, mut signer) = make_rsa_engine();

    let mut buffers: Vec<Vec<u8>> = Vec::new();
    for id in [5u32, 9, 9] {
        let mut builder = Containerizer::new(vec![0; 512])
            .unwrap()
            .with_type(ManifestType::Fpm)
            .unwrap()
            .with_metadata(&Metadata { version_id: id })
            .unwrap();
        builder.write_bytes(b"body").unwrap();
        buffers.push(builder.sign(&mut signer).unwrap());
    }
    let low = Container::parse_and_verify(&buffers[0], &mut rsa).unwrap();
    let high = Container::parse_and_verify(&buffers[1], &mut rsa).unwrap();
    let high_again = Container::parse_and_verify(&buffers[2], &mut rsa).unwrap();

    assert!(high.can_replace(&low));
    assert!(!low.can_replace(&high));
    // Equal ids are permitted: an idempotent refresh.
    assert!(high.can_replace(&high_again));
    assert!(high_again.can_replace(&high));
}

#[test]
fn header_bit_flip_breaks_authentication() {
    let manifest = signed_fixture();

    for byte in 0..HEADER_LEN {
        for bit in 0..8 {
            let mut tampered = manifest.clone();
            tampered[byte] ^= 1 << bit;
            let mut rsa = MockEngine::new(42);
            let result = Container::parse_and_verify(&tampered, &mut rsa);
            assert!(result.is_err(), "byte {} bit {}", byte, bit);
            // Outside the length fields the geometry still parses, so the
            // failure must come from the signature check.
            if !(byte < 2 || byte == 8 || byte == 9) {
                assert!(
                    matches!(result, Err(Error::SignatureFailure)),
                    "byte {} bit {}",
                    byte,
                    bit
                );
            }
        }
    }
}

#[test]
fn body_bit_flip_breaks_authentication() {
    let manifest = signed_fixture();

    for byte in HEADER_LEN..HEADER_LEN + MANIFEST_CONTENTS.len() {
        for bit in 0..8 {
            let mut tampered = manifest.clone();
            tampered[byte] ^= 1 << bit;
            let mut rsa = MockEngine::new(42);
            assert!(
                matches!(
                    Container::parse_and_verify(&tampered, &mut rsa),
                    Err(Error::SignatureFailure)
                ),
                "byte {} bit {}",
                byte,
                bit
            );
        }
    }
}

#[test]
fn signature_bit_flip_breaks_authentication() {
    let manifest = signed_fixture();

    for byte in HEADER_LEN + MANIFEST_CONTENTS.len()..MANIFEST_LEN {
        for bit in 0..8 {
            let mut tampered = manifest.clone();
            tampered[byte] ^= 1 << bit;
            let mut rsa = MockEngine::new(42);
            assert!(
                matches!(
                    Container::parse_and_verify(&tampered, &mut rsa),
                    Err(Error::SignatureFailure)
                ),
                "byte {} bit {}",
                byte,
                bit
            );
        }
    }
}

#[test]
fn any_truncation_is_rejected() {
    let manifest = signed_fixture();

    for n in 0..manifest.len() {
        let mut rsa = MockEngine::new(42);
        assert!(
            Container::parse_and_verify(&manifest[..n], &mut rsa).is_err(),
            "length {}",
            n
        );
    }
}

#[test]
fn sign_without_type_or_metadata_is_rejected() {
    let mut signer = MockEngine::new(42);

    let builder = Containerizer::new(vec![0; 512]).unwrap();
    assert!(matches!(
        builder.sign(&mut signer),
        Err(Error::OutOfRange)
    ));

    let builder = Containerizer::new(vec![0; 512])
        .unwrap()
        .with_type(ManifestType::Fpm)
        .unwrap();
    assert!(matches!(
        builder.sign(&mut signer),
        Err(Error::OutOfRange)
    ));

    let builder = Containerizer::new(vec![0; 512])
        .unwrap()
        .with_metadata(&Metadata { version_id: 1 })
        .unwrap();
    assert!(matches!(
        builder.sign(&mut signer),
        Err(Error::OutOfRange)
    ));
}

#[test]
fn total_length_overflow_is_rejected() {
    let mut signer = MockEngine::new(42);

    // Header (12) + body + signature (256) exceeds 0xffff by one byte.
    let body_len = 0xffff - 12 - 256 + 1;
    let mut builder = Containerizer::new(vec![0; 0x1_1000])
        .unwrap()
        .with_type(ManifestType::Fpm)
        .unwrap()
        .with_metadata(&Metadata { version_id: 1 })
        .unwrap();
    builder.write_bytes(&vec![0xab; body_len]).unwrap();
    assert!(matches!(
        builder.sign(&mut signer),
        Err(Error::OutOfRange)
    ));

    // One byte less fits exactly.
    let mut builder = Containerizer::new(vec![0; 0x1_1000])
        .unwrap()
        .with_type(ManifestType::Fpm)
        .unwrap()
        .with_metadata(&Metadata { version_id: 1 })
        .unwrap();
    builder.write_bytes(&vec![0xab; body_len - 1]).unwrap();
    let bytes = builder.sign(&mut signer).unwrap();
    assert_eq!(bytes.len(), 0xffff);
}

#[test]
fn exhausted_output_buffer_is_rejected() {
    let mut signer = MockEngine::new(42);

    // Too small for even the header.
    assert!(matches!(
        Containerizer::new(vec![0; HEADER_LEN - 1]),
        Err(Error::OutOfRange)
    ));

    // Too small for the body.
    let mut builder = Containerizer::new(vec![0; 16])
        .unwrap()
        .with_type(ManifestType::Fpm)
        .unwrap()
        .with_metadata(&Metadata { version_id: 1 })
        .unwrap();
    assert!(matches!(
        builder.write_bytes(&[0; 5]),
        Err(Error::OutOfRange)
    ));
    // A failed append leaves the builder usable.
    builder.write_bytes(&[0; 4]).unwrap();

    // Too small for the signature.
    assert!(matches!(
        builder.sign(&mut signer),
        Err(Error::OutOfRange)
    ));
}

#[test]
fn unknown_magic_of_verified_container_is_rejected() {
    let mut signer = MockEngine::new(42);
    let mut rsa = MockEngine::new(42);

    // A correctly signed container whose magic number no type decodes to.
    let mut manifest = MANIFEST_HEADER.to_vec();
    manifest[2] = 0x34;
    manifest[3] = 0x12;
    manifest.extend_from_slice(MANIFEST_CONTENTS);
    let sig = signer.sign(&manifest).unwrap();
    manifest.extend_from_slice(&sig);

    assert!(matches!(
        Container::parse_and_verify(&manifest, &mut rsa),
        Err(Error::OutOfRange)
    ));
}

#[test]
fn refusing_signer_surfaces_signature_failure() {
    let mut signer = MockEngine::new(42);
    signer.refuse_signing = true;

    let mut builder = Containerizer::new(vec![0; 512])
        .unwrap()
        .with_type(ManifestType::Fpm)
        .unwrap()
        .with_metadata(&Metadata { version_id: 1 })
        .unwrap();
    builder.write_bytes(b"body").unwrap();
    assert!(matches!(
        builder.sign(&mut signer),
        Err(Error::SignatureFailure)
    ));
}

#[test]
fn wrong_key_is_rejected() {
    let manifest = signed_fixture();
    let mut other_rsa = MockEngine::new(43);
    assert!(matches!(
        Container::parse_and_verify(&manifest, &mut other_rsa),
        Err(Error::SignatureFailure)
    ));
}

#[test]
fn last_header_patch_wins() {
    let (mut rsa, mut signer) = make_rsa_engine();

    let mut builder = Containerizer::new(vec![0; 512])
        .unwrap()
        .with_type(ManifestType::Fpm)
        .unwrap()
        .with_metadata(&Metadata { version_id: 1 })
        .unwrap()
        .with_metadata(&Metadata { version_id: 2 })
        .unwrap();
    builder.write_bytes(b"body").unwrap();
    let bytes = builder.sign(&mut signer).unwrap();

    let parsed = Container::parse_and_verify(&bytes, &mut rsa).unwrap();
    assert_eq!(parsed.metadata().version_id, 2);
}
