use feder::config::OutboundAddressPolicy;
use feder::http_signatures::{
    create_sha256_digest_header, sign_draft_cavage, verify_draft_cavage, ActorKeyPair,
};
use feder::iri::Iri;
use feder::network::IpAddress;
use feder::outbound::{
    check_delivery_status, prepare_delivery, push_decimal, signing_key_id, SendError,
};
use feder::vocab::{Actor, CryptographicKey, Reference};
use rsa::pkcs8::{EncodePrivateKey, EncodePublicKey, LineEnding};

fn send_iri(value: &str) -> Iri {
    Iri::parse(value).expect("valid test IRI")
}

/// A fixed-seed generator (SplitMix64), so that every run makes the same
/// test keys and no private key has to be written into the source.
struct SeededRng(u64);

impl rsa::rand_core::RngCore for SeededRng {
    fn next_u32(&mut self) -> u32 {
        (self.next_u64() >> 32) as u32
    }

    fn next_u64(&mut self) -> u64 {
        self.0 = self.0.wrapping_add(0x9E37_79B9_7F4A_7C15);
        let mut z = self.0;
        z = (z ^ (z >> 30)).wrapping_mul(0xBF58_476D_1CE4_E5B9);
        z = (z ^ (z >> 27)).wrapping_mul(0x94D0_49BB_1331_11EB);
        z ^ (z >> 31)
    }

    fn fill_bytes(&mut self, dest: &mut [u8]) {
        for chunk in dest.chunks_mut(8) {
            let bytes = self.next_u64().to_le_bytes();
            chunk.copy_from_slice(&bytes[..chunk.len()]);
        }
    }

    fn try_fill_bytes(&mut self, dest: &mut [u8]) -> Result<(), rsa::rand_core::Error> {
        self.fill_bytes(dest);
        Ok(())
    }
}

impl rsa::rand_core::CryptoRng for SeededRng {}

/// The PKCS#8 private key and SPKI public key PEMs of the 1024-bit test key
/// made from `seed`.
fn seeded_key_pems(seed: u64) -> (String, String) {
    let key = rsa::RsaPrivateKey::new(&mut SeededRng(seed), 1024).expect("generate test key");
    let private_pem = key.to_pkcs8_pem(LineEnding::LF).expect("encode private key").to_string();
    let public_pem = rsa::RsaPublicKey::from(&key)
        .to_public_key_pem(LineEnding::LF)
        .expect("encode public key");
    (private_pem, public_pem)
}

fn send_key_pair() -> ActorKeyPair {
    let (private_pem, public_pem) = seeded_key_pems(1);
    ActorKeyPair::from_pem(private_pem, public_pem)
        .expect("valid key pair")
}

const DATE: &str = "Tue, 05 Mar 2024 07:49:44 GMT";

#[test]
fn prepares_a_signed_post_to_the_inbox() {
    let pair = send_key_pair();
    let inbox = send_iri("https://remote.example:8443/users/bob/inbox?x=1");
    let body = b"{\"type\":\"Accept\"}".to_vec();
    let delivery = prepare_delivery(
        &pair,
        "https://local.example/users/alice#main-key",
        &inbox,
        OutboundAddressPolicy::PublicOnly,
        true,
        DATE,
        body.clone(),
    )
    .expect("prepared delivery");

    assert_eq!(delivery.url, "https://remote.example:8443/users/bob/inbox?x=1");
    assert_eq!(delivery.host, "remote.example:8443");
    assert_eq!(delivery.request_target, "/users/bob/inbox?x=1");
    assert_eq!(delivery.date, DATE);
    assert_eq!(delivery.digest, create_sha256_digest_header(&body));
    assert_eq!(delivery.body, body);
    assert!(delivery.signature.starts_with(
        "keyId=\"https://local.example/users/alice#main-key\",algorithm=\"rsa-sha256\",headers=\"(request-target) content-type date digest host\",signature=\""
    ));

    let signature = delivery
        .signature
        .rsplit_once("signature=\"")
        .and_then(|(_, signature)| signature.strip_suffix('"'))
        .expect("signature parameter");
    let headers = [
        ("content-type", "application/activity+json"),
        ("date", DATE),
        ("digest", delivery.digest.as_str()),
        ("host", delivery.host.as_str()),
    ];
    assert!(verify_draft_cavage(pair.public_key_pem(), "POST", &delivery.request_target, &headers, signature).is_ok());
    let direct = sign_draft_cavage(
        &pair,
        "https://local.example/users/alice#main-key",
        "POST",
        &delivery.request_target,
        &headers,
    )
    .expect("sign");
    assert_eq!(delivery.signature, direct);
}

#[test]
fn default_ports_are_left_out_of_the_host_header() {
    let pair = send_key_pair();
    let delivery = prepare_delivery(
        &pair,
        "https://local.example/key",
        &send_iri("https://remote.example:443/inbox"),
        OutboundAddressPolicy::PublicOnly,
        true,
        DATE,
        Vec::new(),
    )
    .expect("prepared delivery");
    assert_eq!(delivery.host, "remote.example");
    assert_eq!(delivery.request_target, "/inbox");
}

#[test]
fn refuses_invalid_or_private_inboxes() {
    let pair = send_key_pair();
    let result = prepare_delivery(
        &pair,
        "https://local.example/key",
        &send_iri("ftp://remote.example/inbox"),
        OutboundAddressPolicy::PublicOnly,
        true,
        DATE,
        Vec::new(),
    );
    assert!(matches!(result, Err(SendError::InvalidInbox(ref inbox)) if inbox == "ftp://remote.example/inbox"));

    let result = prepare_delivery(
        &pair,
        "https://local.example/key",
        &send_iri("http://10.0.0.1/inbox"),
        OutboundAddressPolicy::PublicOnly,
        true,
        DATE,
        Vec::new(),
    );
    assert!(matches!(
        result,
        Err(SendError::PrivateInboxAddress { ref inbox, address: IpAddress::V4(0x0a00_0001) })
            if inbox == "http://10.0.0.1/inbox"
    ));

    let allowed = prepare_delivery(
        &pair,
        "https://local.example/key",
        &send_iri("http://10.0.0.1/inbox"),
        OutboundAddressPolicy::AllowPrivateAddress,
        true,
        DATE,
        Vec::new(),
    );
    assert!(allowed.is_ok());
}

#[test]
fn signing_key_comes_from_the_local_actor() {
    let pair = send_key_pair();
    let mut actor = Actor::person(
        send_iri("https://local.example/users/alice"),
        send_iri("https://local.example/users/alice/inbox"),
        send_iri("https://local.example/users/alice/outbox"),
    );
    assert!(matches!(
        signing_key_id(&actor, &pair),
        Err(SendError::MissingActorKey(ref id)) if id == "https://local.example/users/alice"
    ));

    actor.set_public_key(Reference::id(send_iri("https://local.example/users/alice#main-key")));
    assert_eq!(
        signing_key_id(&actor, &pair).ok().map(|key| key.as_str().to_string()),
        Some("https://local.example/users/alice#main-key".to_string())
    );

    actor.set_public_key(Reference::object(CryptographicKey::new(
        send_iri("https://local.example/users/alice#main-key"),
        send_iri("https://local.example/users/alice"),
        pair.public_key_pem().to_string(),
    )));
    assert!(signing_key_id(&actor, &pair).is_ok());

    actor.set_public_key(Reference::object(CryptographicKey::new(
        send_iri("https://local.example/users/alice#main-key"),
        send_iri("https://local.example/users/alice"),
        "other".to_string(),
    )));
    assert!(matches!(signing_key_id(&actor, &pair), Err(SendError::ActorKeyMismatch(_))));
}

#[test]
fn delivery_status_must_be_a_success() {
    assert!(check_delivery_status("https://remote.example/inbox", 202).is_ok());
    assert!(check_delivery_status("https://remote.example/inbox", 200).is_ok());
    let error = check_delivery_status("https://remote.example/inbox", 404).expect_err("failure");
    assert!(matches!(error, SendError::UnsuccessfulStatus { status: 404, .. }));
    assert_eq!(error.message(), "sending activity to https://remote.example/inbox returned 404");
    assert!(check_delivery_status("https://remote.example/inbox", 300).is_err());
}

#[test]
fn decimal_text_has_no_leading_zeros() {
    let mut text = String::from("port ");
    push_decimal(&mut text, 0);
    push_decimal(&mut text, 8443);
    push_decimal(&mut text, 65535);
    assert_eq!(text, "port 0844365535");
}

#[test]
fn keys_too_small_for_a_sha256_signature_fail_to_sign() {
    let key = rsa::RsaPrivateKey::new(&mut rsa::rand_core::OsRng, 256).expect("generate tiny key");
    let private_pem = key.to_pkcs8_pem(LineEnding::LF).expect("encode private key").to_string();
    let public_pem = rsa::RsaPublicKey::from(&key)
        .to_public_key_pem(LineEnding::LF)
        .expect("encode public key");
    let pair = ActorKeyPair::from_pem(private_pem, public_pem).expect("valid key pair");
    let result = prepare_delivery(
        &pair,
        "https://local.example/key",
        &send_iri("https://remote.example/inbox"),
        OutboundAddressPolicy::PublicOnly,
        true,
        DATE,
        Vec::new(),
    );
    assert!(matches!(result, Err(SendError::Sign(_))));
    let direct = feder::http_signatures::sign_draft_cavage(&pair, "k", "POST", "/", &[]);
    assert!(matches!(
        direct,
        Err(feder::http_signatures::HttpSignatureError::SigningFailed(_))
    ));
}
