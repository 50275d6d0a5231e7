use rsa::pkcs8::{EncodePrivateKey, EncodePublicKey, LineEnding};
use feder::http_signatures::{
    create_sha256_digest_header, sign_draft_cavage, verify_draft_cavage, ActorKeyPair,
    HttpSignatureVerificationError, KeyError,
};
use feder::request::verify_request_digest;

/// A fixed-seed generator (SplitMix64), so that every run makes the same
/// test keys and no private key has to be written into the source.
struct SeededRng(u64);

impl rsa::rand_core::RngCore for SeededRng {
    fn next_u32(&mut self) -> u32 {
        (self.next_u64() >> 32) as u32
    }

    fn next_u64(&mut self) -> u64 {
        self.0 = self.0.wrapping_add(0x9E37_79B9_7F4A_7C15);
        let mut z = self.0;
        z = (z ^ (z >> 30)).wrapping_mul(0xBF58_476D_1CE4_E5B9);
        z = (z ^ (z >> 27)).wrapping_mul(0x94D0_49BB_1331_11EB);
        z ^ (z >> 31)
    }

    fn fill_bytes(&mut self, dest: &mut [u8]) {
        for chunk in dest.chunks_mut(8) {
            let bytes = self.next_u64().to_le_bytes();
            chunk.copy_from_slice(&bytes[..chunk.len()]);
        }
    }

    fn try_fill_bytes(&mut self, dest: &mut [u8]) -> Result<(), rsa::rand_core::Error> {
        self.fill_bytes(dest);
        Ok(())
    }
}

impl rsa::rand_core::CryptoRng for SeededRng {}

/// The PKCS#8 private key and SPKI public key PEMs of the 1024-bit test key
/// made from `seed`.
fn seeded_key_pems(seed: u64) -> (String, String) {
    let key = rsa::RsaPrivateKey::new(&mut SeededRng(seed), 1024).expect("generate test key");
    let private_pem = key.to_pkcs8_pem(LineEnding::LF).expect("encode private key").to_string();
    let public_pem = rsa::RsaPublicKey::from(&key)
        .to_public_key_pem(LineEnding::LF)
        .expect("encode public key");
    (private_pem, public_pem)
}

fn actor_key_pair() -> ActorKeyPair {
    let (private_pem, public_pem) = seeded_key_pems(1);
    ActorKeyPair::from_pem(private_pem, public_pem)
        .expect("valid actor key pair")
}

#[test]
fn persisted_actor_key_pair_rejects_mismatched_keys() {
    let (private_pem, _) = seeded_key_pems(1);
    let (_, other_public_pem) = seeded_key_pems(2);
    let result = ActorKeyPair::from_pem(private_pem, other_public_pem);

    assert!(matches!(result, Err(KeyError::MismatchedKeyPair)));
}

#[test]
fn actor_key_pair_debug_output_redacts_private_key() {
    let pair = actor_key_pair();
    let debug = pair.debug_string();

    assert!(debug.contains("[REDACTED]"));
    assert!(!debug.contains(pair.private_key_pem()));
}

#[test]
fn rejects_mismatched_persisted_keys() {
    let (private_pem, _) = seeded_key_pems(1);
    let (_, other_public_pem) = seeded_key_pems(2);
    let result = ActorKeyPair::from_pem(private_pem, other_public_pem);

    assert!(matches!(result, Err(KeyError::MismatchedKeyPair)));
}

#[test]
fn redacts_private_key_from_debug_output() {
    let pair = actor_key_pair();
    let debug = pair.debug_string();

    assert!(debug.contains("[REDACTED]"));
    assert!(!debug.contains(pair.private_key_pem()));
    assert!(debug.contains(pair.public_key_pem()));
}

#[test]
fn creates_known_sha256_digest() {
    assert_eq!(
        create_sha256_digest_header(b"Hello, world!"),
        "SHA-256=MV9b23bQeMQ7isAGTkoBZGErH853yGk0W/yUx1iU7dM="
    );
}

#[test]
fn created_digest_header_verifies_against_its_body() {
    let header = create_sha256_digest_header(b"{\"type\":\"Follow\"}");
    assert_eq!(verify_request_digest(Some(header.as_str()), b"{\"type\":\"Follow\"}"), Ok(()));
    assert_eq!(verify_request_digest(Some(header.as_str()), b"{}"), Err(401));
    assert_eq!(verify_request_digest(None, b"{}"), Err(401));
}

#[test]
fn signs_and_verifies_draft_cavage_request() {
    let pair = actor_key_pair();
    let headers = [
        ("date", "Tue, 05 Mar 2024 07:49:44 GMT"),
        (
            "digest",
            "SHA-256=MV9b23bQeMQ7isAGTkoBZGErH853yGk0W/yUx1iU7dM=",
        ),
        ("host", "example.com"),
    ];
    let signature_header =
        sign_draft_cavage(&pair, "https://example.com/key", "POST", "/inbox", &headers)
            .expect("sign request");
    let signature = signature_header
        .rsplit_once("signature=\"")
        .and_then(|(_, signature)| signature.strip_suffix('"'))
        .expect("signature parameter");

    verify_draft_cavage(pair.public_key_pem(), "POST", "/inbox", &headers, signature)
        .expect("verify request");
    assert!(
        verify_draft_cavage(
            pair.public_key_pem(),
            "POST",
            "/other-inbox",
            &headers,
            signature,
        )
        .is_err()
    );
}

#[test]
fn signature_header_lists_lowercased_signed_headers() {
    let pair = actor_key_pair();
    let headers = [("Date", "Tue, 05 Mar 2024 07:49:44 GMT"), ("Host", "example.com")];
    let header = sign_draft_cavage(&pair, "https://example.com/key", "POST", "/inbox", &headers)
        .expect("sign request");

    assert!(header.starts_with(
        "keyId=\"https://example.com/key\",algorithm=\"rsa-sha256\",headers=\"(request-target) date host\",signature=\""
    ));
    assert!(header.ends_with('"'));
}

#[test]
fn key_errors_describe_themselves() {
    assert_eq!(KeyError::MismatchedKeyPair.message(), "RSA actor keys do not match");
}

#[test]
fn signed_header_parses_back_to_what_was_signed() {
    let pair = actor_key_pair();
    let headers = [("Date", "Tue, 05 Mar 2024 07:49:44 GMT"), ("Host", "example.com"), ("digest", "x")];
    let header = sign_draft_cavage(&pair, "https://example.com/key#main", "POST", "/inbox", &headers)
        .expect("sign request");
    let parsed = feder::signature_header::parse_signature_header(&header).expect("parses");
    assert_eq!(parsed.key_id, "https://example.com/key#main");
    assert_eq!(parsed.algorithm, "rsa-sha256");
    assert_eq!(parsed.signed_headers, vec!["(request-target)", "date", "host", "digest"]);
    assert!(header.ends_with(&format!("signature=\"{}\"", parsed.signature)));
}

#[test]
fn key_pairs_must_decode() {
    let (private_pem, public_pem) = seeded_key_pems(1);
    assert!(matches!(
        ActorKeyPair::from_pem("not a key".to_string(), public_pem),
        Err(KeyError::InvalidPrivateKey(_))
    ));
    assert!(matches!(
        ActorKeyPair::from_pem(private_pem, "not a key".to_string()),
        Err(KeyError::InvalidPublicKey(_))
    ));
}

#[test]
fn verification_reports_each_failure() {
    let pair = actor_key_pair();
    let headers = [("host", "example.com")];
    assert!(matches!(
        verify_draft_cavage("not a key", "POST", "/inbox", &headers, "c2ln"),
        Err(HttpSignatureVerificationError::InvalidPublicKey(_))
    ));
    assert!(matches!(
        verify_draft_cavage(pair.public_key_pem(), "POST", "/inbox", &headers, "%%%"),
        Err(HttpSignatureVerificationError::InvalidSignatureEncoding(_))
    ));
    assert!(matches!(
        verify_draft_cavage(pair.public_key_pem(), "POST", "/inbox", &headers, "c2ln"),
        Err(HttpSignatureVerificationError::Verification(_))
    ));
}

#[test]
fn fixture_key_pair_loads_as_given() {
    let (private_pem, public_pem) = seeded_key_pems(1);
    let pair = ActorKeyPair::from_pem(private_pem.clone(), public_pem.clone()).expect("valid pair");
    assert_eq!(pair.private_key_pem(), private_pem);
    assert_eq!(pair.public_key_pem(), public_pem);
}

#[test]
fn signatures_verify_only_with_the_signing_pair() {
    let pair = actor_key_pair();
    let headers = [("date", "Tue, 05 Mar 2024 07:49:44 GMT"), ("host", "example.com")];
    let first = sign_draft_cavage(&pair, "https://example.com/key", "POST", "/inbox", &headers)
        .expect("sign request");
    let second = sign_draft_cavage(&pair, "https://example.com/key", "POST", "/inbox", &headers)
        .expect("sign request");
    assert_eq!(first, second);
    let signature = first
        .rsplit_once("signature=\"")
        .and_then(|(_, signature)| signature.strip_suffix('"'))
        .expect("signature parameter");
    let (_, other_public_pem) = seeded_key_pems(2);
    let public_pem = pair.public_key_pem();
    assert!(verify_draft_cavage(public_pem, "POST", "/inbox", &headers, signature).is_ok());
    assert!(matches!(
        verify_draft_cavage(&other_public_pem, "POST", "/inbox", &headers, signature),
        Err(HttpSignatureVerificationError::Verification(_))
    ));
    assert!(verify_draft_cavage(public_pem, "GET", "/inbox", &headers, signature).is_err());
    let other_headers = [("date", "Tue, 05 Mar 2024 07:49:45 GMT"), ("host", "example.com")];
    assert!(
        verify_draft_cavage(public_pem, "POST", "/inbox", &other_headers, signature).is_err()
    );
}
