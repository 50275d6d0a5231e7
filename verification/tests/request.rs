use rsa::pkcs8::{EncodePrivateKey, EncodePublicKey, LineEnding};
use feder::http_signatures::{create_sha256_digest_header, sign_draft_cavage, ActorKeyPair};
use feder::iri::Iri;
use feder::request::{
    check_signed_request, verify_request_date, verify_request_host, verify_request_signature,
};
use feder::signature_header::{parse_quoted_parameter, parse_signature_header};
use feder::vocab::CryptographicKey;

const DATE: &str = "Tue, 05 Mar 2024 07:49:44 GMT";
const DATE_SECS: u64 = 1_709_624_984;

/// A fixed-seed generator (SplitMix64), so that every run makes the same
/// test keys and no private key has to be written into the source.
struct SeededRng(u64);

impl rsa::rand_core::RngCore for SeededRng {
    fn next_u32(&mut self) -> u32 {
        (self.next_u64() >> 32) as u32
    }

    fn next_u64(&mut self) -> u64 {
        self.0 = self.0.wrapping_add(0x9E37_79B9_7F4A_7C15);
        let mut z = self.0;
        z = (z ^ (z >> 30)).wrapping_mul(0xBF58_476D_1CE4_E5B9);
        z = (z ^ (z >> 27)).wrapping_mul(0x94D0_49BB_1331_11EB);
        z ^ (z >> 31)
    }

    fn fill_bytes(&mut self, dest: &mut [u8]) {
        for chunk in dest.chunks_mut(8) {
            let bytes = self.next_u64().to_le_bytes();
            chunk.copy_from_slice(&bytes[..chunk.len()]);
        }
    }

    fn try_fill_bytes(&mut self, dest: &mut [u8]) -> Result<(), rsa::rand_core::Error> {
        self.fill_bytes(dest);
        Ok(())
    }
}

impl rsa::rand_core::CryptoRng for SeededRng {}

/// The PKCS#8 private key and SPKI public key PEMs of the 1024-bit test key
/// made from `seed`.
fn seeded_key_pems(seed: u64) -> (String, String) {
    let key = rsa::RsaPrivateKey::new(&mut SeededRng(seed), 1024).expect("generate test key");
    let private_pem = key.to_pkcs8_pem(LineEnding::LF).expect("encode private key").to_string();
    let public_pem = rsa::RsaPublicKey::from(&key)
        .to_public_key_pem(LineEnding::LF)
        .expect("encode public key");
    (private_pem, public_pem)
}

fn request_key_pair() -> ActorKeyPair {
    let (private_pem, public_pem) = seeded_key_pems(1);
    ActorKeyPair::from_pem(private_pem, public_pem)
        .expect("valid key pair")
}

#[test]
fn request_host_accepts_case_and_default_port_equivalence() {
    assert_eq!(
        verify_request_host(Some("EXAMPLE.COM:443"), "example.com", "https"),
        Ok(())
    );
}

#[test]
fn request_host_rejects_wrong_or_invalid_authorities() {
    for host in ["other.example", "example.com:8443", "example.com:99999"] {
        assert_eq!(
            verify_request_host(Some(host), "example.com", "https"),
            Err(401),
            "Host: {host}"
        );
    }
}

#[test]
fn request_host_checks_explicit_ports_and_userinfo() {
    assert_eq!(verify_request_host(Some("example.com:80"), "example.com", "http"), Ok(()));
    assert_eq!(verify_request_host(Some("example.com"), "example.com:443", "https"), Ok(()));
    assert_eq!(verify_request_host(Some("user@example.com"), "example.com", "https"), Err(401));
    assert_eq!(verify_request_host(None, "example.com", "https"), Err(401));
    assert_eq!(verify_request_host(Some("example.com"), "user@example.com", "https"), Err(500));
}

#[test]
fn request_date_window_is_enforced() {
    assert_eq!(verify_request_date(Some(DATE), DATE_SECS, 0), Ok(()));
    assert_eq!(verify_request_date(Some(DATE), DATE_SECS + 3900, 0), Ok(()));
    assert_eq!(verify_request_date(Some(DATE), DATE_SECS + 3900, 1), Err(401));
    assert_eq!(verify_request_date(Some(DATE), DATE_SECS - 3600, 0), Ok(()));
    assert_eq!(verify_request_date(Some(DATE), DATE_SECS - 3601, 0), Err(401));
    assert_eq!(verify_request_date(Some("yesterday"), DATE_SECS, 0), Err(401));
    assert_eq!(verify_request_date(None, DATE_SECS, 0), Err(401));
}

#[test]
fn quoted_parameters_unescape_and_stop_at_the_closing_quote() {
    assert_eq!(
        parse_quoted_parameter("\"a\\\"b\",rest"),
        Some(("a\"b".to_string(), ",rest"))
    );
    assert_eq!(parse_quoted_parameter("unquoted"), None);
    assert_eq!(parse_quoted_parameter("\"unterminated"), None);
    assert_eq!(parse_quoted_parameter("\"bad\u{7}\""), None);
}

#[test]
fn signature_header_parameters_are_parsed() {
    let parsed = parse_signature_header(
        "keyId=\"https://remote.example/key\", Algorithm=\"RSA-SHA256\",headers=\"(request-target) Host date\",signature=\"c2ln\"",
    )
    .expect("valid header");
    assert_eq!(parsed.key_id, "https://remote.example/key");
    assert_eq!(parsed.algorithm, "rsa-sha256");
    assert_eq!(parsed.signed_headers, vec!["(request-target)", "host", "date"]);
    assert_eq!(parsed.signature, "c2ln");

    assert!(parse_signature_header("keyId=\"a\",keyid=\"b\",algorithm=\"x\",headers=\"h\",signature=\"s\"").is_none());
    assert!(parse_signature_header("keyId=\"a\",algorithm=\"x\",headers=\"h\"").is_none());
    assert!(parse_signature_header("keyId=\"\",algorithm=\"x\",headers=\"h\",signature=\"s\"").is_none());
}

#[test]
fn signed_request_is_checked_and_verified() {
    let pair = request_key_pair();
    let body = b"{\"type\":\"Follow\"}";
    let digest = create_sha256_digest_header(body);
    let headers = [("host", "local.example"), ("date", DATE), ("digest", digest.as_str())];
    let signature = sign_draft_cavage(
        &pair,
        "https://remote.example/users/bob#main-key",
        "POST",
        "/users/alice/inbox",
        &headers,
    )
    .expect("sign");
    let request_headers: Vec<(String, Option<String>)> = vec![
        ("host".to_string(), Some("local.example".to_string())),
        ("date".to_string(), Some(DATE.to_string())),
        ("digest".to_string(), Some(digest.clone())),
        ("signature".to_string(), Some(signature)),
    ];

    let request = check_signed_request(
        &request_headers,
        body,
        "local.example",
        "https",
        DATE_SECS + 10,
        0,
    )
    .expect("well-formed signed request");
    assert_eq!(request.key_id.as_str(), "https://remote.example/users/bob#main-key");
    assert_eq!(request.headers.len(), 3);

    let owner = Iri::parse("https://remote.example/users/bob").expect("iri");
    let key = CryptographicKey::new(
        Iri::parse("https://remote.example/users/bob#main-key").expect("iri"),
        owner.clone(),
        pair.public_key_pem().to_string(),
    );
    assert_eq!(
        verify_request_signature(&request, &key, &owner, "POST", "/users/alice/inbox"),
        Ok(())
    );
    assert_eq!(
        verify_request_signature(&request, &key, &owner, "POST", "/users/carol/inbox"),
        Err(401)
    );
    let other = Iri::parse("https://remote.example/users/mallory").expect("iri");
    assert_eq!(
        verify_request_signature(&request, &key, &other, "POST", "/users/alice/inbox"),
        Err(401)
    );

    assert_eq!(
        check_signed_request(&request_headers, b"{}", "local.example", "https", DATE_SECS, 0)
            .err(),
        Some(401)
    );
    assert_eq!(
        check_signed_request(&request_headers, body, "other.example", "https", DATE_SECS, 0).err(),
        Some(401)
    );
}

#[test]
fn signed_request_without_required_headers_is_refused() {
    let pair = request_key_pair();
    let body = b"{}";
    let headers = [("host", "local.example"), ("date", DATE)];
    let signature = sign_draft_cavage(&pair, "https://remote.example/key", "POST", "/inbox", &headers)
        .expect("sign");
    let request_headers: Vec<(String, Option<String>)> = vec![
        ("host".to_string(), Some("local.example".to_string())),
        ("date".to_string(), Some(DATE.to_string())),
        ("digest".to_string(), Some(create_sha256_digest_header(body))),
        ("signature".to_string(), Some(signature)),
    ];
    assert_eq!(
        check_signed_request(&request_headers, body, "local.example", "https", DATE_SECS, 0).err(),
        Some(401)
    );
}
