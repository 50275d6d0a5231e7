//! Draft-Cavage HTTP Signature primitives and actor key pairs.

use vstd::prelude::*;

use crate::crypto::{
    base64_decode, base64_encode, base64_standard, base64_standard_decoded, decode_private_key,
    decode_public_key, generate_rsa_key_pems, is_base64_char, key_pair_matches, pems_match,
    private_key_pem_decodes, public_key_pem_decodes, rsa_modulus_bits, rsa_sign, rsa_signature,
    rsa_verifies, rsa_verify, sha256, sha256_digest, MIN_SIGNING_MODULUS_BITS,
};
use crate::signature_header::{parsed_signature, ParsedSignatureView};
use crate::signature_law::{
    is_plain, lemma_signature_header_round_trip, listable_headers, listed_names, plain_text,
};
use crate::text::{chars_of, lower, string_from, to_ascii_lowercase, trim, trim_chars};

verus! {

/// The bit length of generated actor RSA keys.
pub const ACTOR_RSA_BITS: usize = 4096;

/// The model of an [`ActorKeyPair`].
pub ghost struct ActorKeyPairView {
    pub private_key_pem: Seq<char>,
    pub public_key_pem: Seq<char>,
}

/// A local actor's RSA key pair, PEM-encoded for persistent storage. Both
/// keys always decode.
#[derive(PartialEq, Eq)]
pub struct ActorKeyPair {
    private_key_pem: String,
    public_key_pem: String,
}

impl View for ActorKeyPair {
    type V = ActorKeyPairView;

    closed spec fn view(&self) -> ActorKeyPairView {
        ActorKeyPairView {
            private_key_pem: self.private_key_pem@,
            public_key_pem: self.public_key_pem@,
        }
    }
}

impl Clone for ActorKeyPair {
    fn clone(&self) -> (copy: Self)
        ensures
            copy@ == self@,
    {
        proof {
            use_type_invariant(self);
        }
        ActorKeyPair {
            private_key_pem: self.private_key_pem.clone(),
            public_key_pem: self.public_key_pem.clone(),
        }
    }
}

/// Errors produced while generating, encoding, or loading actor keys.
#[derive(Debug)]
pub enum KeyError {
    Generation(rsa::Error),
    PrivateKeyEncoding(rsa::pkcs8::Error),
    PublicKeyEncoding(rsa::pkcs8::spki::Error),
    InvalidPrivateKey(rsa::pkcs8::Error),
    InvalidPublicKey(rsa::pkcs8::spki::Error),
    MismatchedKeyPair,
}

impl KeyError {
    /// A human-readable description of the error.
    pub fn message(&self) -> (text: &'static str)
        ensures
            text@ == match self {
                KeyError::Generation(_) => "failed to generate RSA actor key"@,
                KeyError::PrivateKeyEncoding(_) => "failed to encode RSA private key"@,
                KeyError::PublicKeyEncoding(_) => "failed to encode RSA public key"@,
                KeyError::InvalidPrivateKey(_) => "invalid RSA private key PEM"@,
                KeyError::InvalidPublicKey(_) => "invalid RSA public key PEM"@,
                KeyError::MismatchedKeyPair => "RSA actor keys do not match"@,
            },
    {
        match self {
            KeyError::Generation(_) => "failed to generate RSA actor key",
            KeyError::PrivateKeyEncoding(_) => "failed to encode RSA private key",
            KeyError::PublicKeyEncoding(_) => "failed to encode RSA public key",
            KeyError::InvalidPrivateKey(_) => "invalid RSA private key PEM",
            KeyError::InvalidPublicKey(_) => "invalid RSA public key PEM",
            KeyError::MismatchedKeyPair => "RSA actor keys do not match",
        }
    }
}

impl ActorKeyPair {
    #[verifier::type_invariant]
    closed spec fn keys_decode(self) -> bool {
        pems_form_key_pair(self.private_key_pem@, self.public_key_pem@)
    }

    /// Loads a persisted key pair and checks that both keys belong together.
    pub fn from_pem(private_key_pem: String, public_key_pem: String) -> (pair: Result<
        Self,
        KeyError,
    >)
        ensures
            pair matches Err(KeyError::InvalidPrivateKey(_)) <==> !private_key_pem_decodes(
                private_key_pem@,
            ),
            pair matches Err(KeyError::InvalidPublicKey(_)) <==> private_key_pem_decodes(
                private_key_pem@,
            ) && !public_key_pem_decodes(public_key_pem@),
            pair matches Err(KeyError::MismatchedKeyPair) <==> private_key_pem_decodes(
                private_key_pem@,
            ) && public_key_pem_decodes(public_key_pem@) && !key_pair_matches(
                private_key_pem@,
                public_key_pem@,
            ),
            pair is Ok <==> pems_form_key_pair(private_key_pem@, public_key_pem@),
            pair matches Ok(p) ==> p@ == (ActorKeyPairView {
                private_key_pem: private_key_pem@,
                public_key_pem: public_key_pem@,
            }),
    {
        match decode_private_key(private_key_pem.as_str()) {
            Ok(_) => {},
            Err(e) => {
                return Err(KeyError::InvalidPrivateKey(e));
            },
        }
        match decode_public_key(public_key_pem.as_str()) {
            Ok(_) => {},
            Err(e) => {
                return Err(KeyError::InvalidPublicKey(e));
            },
        }
        if !pems_match(private_key_pem.as_str(), public_key_pem.as_str()) {
            return Err(KeyError::MismatchedKeyPair);
        }
        Ok(ActorKeyPair { private_key_pem, public_key_pem })
    }

    pub fn private_key_pem(&self) -> (pem: &str)
        ensures
            pem@ == self@.private_key_pem,
    {
        self.private_key_pem.as_str()
    }

    pub fn public_key_pem(&self) -> (pem: &str)
        ensures
            pem@ == self@.public_key_pem,
    {
        self.public_key_pem.as_str()
    }

    /// A debugging description that shows the public key and hides the
    /// private key.
    pub fn debug_string(&self) -> (text: String)
        ensures
            text@ == "ActorKeyPair { private_key_pem: \"[REDACTED]\", public_key_pem: "@
                + self@.public_key_pem + " }"@,
    {
        let mut text = "ActorKeyPair { private_key_pem: \"[REDACTED]\", public_key_pem: ".to_owned();
        text.append(self.public_key_pem.as_str());
        text.append(" }");
        text
    }
}

/// Whether two PEM texts form a key pair: both decode, and the public key is
/// the private key's public half. [`ActorKeyPair::from_pem`] accepts
/// exactly these.
pub open spec fn pems_form_key_pair(private_key_pem: Seq<char>, public_key_pem: Seq<char>) -> bool {
    &&& private_key_pem_decodes(private_key_pem)
    &&& public_key_pem_decodes(public_key_pem)
    &&& key_pair_matches(private_key_pem, public_key_pem)
}

/// Generates a new actor key pair of [`ACTOR_RSA_BITS`] bits from the
/// operating system's random number generator, PEM-encoded. Whether the
/// random generation succeeds is not stated; a generated pair is one that
/// [`ActorKeyPair::from_pem`] takes back, and only generation or encoding
/// can fail.
pub fn generate_actor_key_pair() -> (pair: Result<ActorKeyPair, KeyError>)
    ensures
        pair matches Ok(p) ==> pems_form_key_pair(p@.private_key_pem, p@.public_key_pem)
            && rsa_modulus_bits(p@.private_key_pem) == ACTOR_RSA_BITS,
        pair matches Err(e) ==> e is Generation || e is PrivateKeyEncoding || e is PublicKeyEncoding,
{
    match generate_rsa_key_pems(ACTOR_RSA_BITS) {
        Ok((private_key_pem, public_key_pem)) => Ok(ActorKeyPair { private_key_pem, public_key_pem }),
        Err(e) => Err(e),
    }
}

/// The RFC 3230 `Digest` header value for a body: `SHA-256=` and the base64
/// SHA-256 digest.
pub open spec fn sha256_digest_header(body: Seq<u8>) -> Seq<char> {
    "SHA-256="@ + base64_standard(sha256(body))
}

/// Creates an RFC 3230 SHA-256 digest header.
///
/// The header it creates is one that [`verify_request_digest`] accepts for
/// the same body.
///
/// [`verify_request_digest`]: crate::request::verify_request_digest
pub fn create_sha256_digest_header(body: &[u8]) -> (header: String)
    ensures
        header@ == sha256_digest_header(body@),
        crate::request::digest_verdict(Some(header@), body@) == Ok::<(), u16>(()),
{
    let digest = sha256_digest(body);
    let encoded = base64_encode(digest.as_slice());
    proof {
        crate::request::lemma_sha256_header_matches(encoded@);
    }
    let mut header = "SHA-256=".to_owned();
    header.append(encoded.as_str());
    header
}

/// The views of signed header pairs.
pub open spec fn header_views(headers: Seq<(&str, &str)>) -> Seq<(Seq<char>, Seq<char>)> {
    headers.map_values(|h: (&str, &str)| (h.0@, h.1@))
}

/// The first line of a draft-Cavage signature base.
pub open spec fn request_target_line(method: Seq<char>, request_target: Seq<char>) -> Seq<char> {
    "(request-target): "@ + lower(method) + " "@ + request_target
}

/// One signed header's line in a signature base.
pub open spec fn header_line(name: Seq<char>, value: Seq<char>) -> Seq<char> {
    lower(name) + ": "@ + trim(value)
}

/// The draft-Cavage signature base: the request-target line, then one line
/// per header in the given order, joined by line feeds.
pub open spec fn signature_base(
    method: Seq<char>,
    request_target: Seq<char>,
    headers: Seq<(Seq<char>, Seq<char>)>,
) -> Seq<char>
    decreases headers.len(),
{
    if headers.len() == 0 {
        request_target_line(method, request_target)
    } else {
        signature_base(method, request_target, headers.drop_last()) + "\n"@ + header_line(
            headers.last().0,
            headers.last().1,
        )
    }
}

/// Builds the draft-Cavage signature base for a request.
pub fn draft_cavage_signature_base(
    method: &str,
    request_target: &str,
    headers: &[(&str, &str)],
) -> (base: String)
    ensures
        base@ == signature_base(method@, request_target@, header_views(headers@)),
{
    let ghost hv = header_views(headers@);
    let mut base = "(request-target): ".to_owned();
    let lowered_method = to_ascii_lowercase(method);
    base.append(lowered_method.as_str());
    base.append(" ");
    base.append(request_target);
    assert(hv.take(0) =~= Seq::<(Seq<char>, Seq<char>)>::empty());
    let n = headers.len();
    for i in 0..n
        invariant
            n == headers@.len(),
            hv == header_views(headers@),
            base@ == signature_base(method@, request_target@, hv.take(i as int)),
    {
        let (name, value) = headers[i];
        base.append("\n");
        let lowered = to_ascii_lowercase(name);
        base.append(lowered.as_str());
        base.append(": ");
        let value_chars = chars_of(value);
        let trimmed = trim_chars(value_chars.as_slice());
        let trimmed_value = string_from(trimmed.as_slice());
        base.append(trimmed_value.as_str());
        assert(hv.take(i + 1).drop_last() =~= hv.take(i as int));
    }
    assert(hv.take(n as int) =~= hv);
    base
}

/// The lowercased header names joined by single spaces.
pub open spec fn joined_names(headers: Seq<(Seq<char>, Seq<char>)>) -> Seq<char>
    decreases headers.len(),
{
    if headers.len() == 0 {
        Seq::empty()
    } else if headers.len() == 1 {
        lower(headers[0].0)
    } else {
        joined_names(headers.drop_last()) + " "@ + lower(headers.last().0)
    }
}

/// The `Signature` header value for a key, signed header names and base64
/// signature.
pub open spec fn signature_header(
    key_id: Seq<char>,
    headers: Seq<(Seq<char>, Seq<char>)>,
    signature: Seq<char>,
) -> Seq<char> {
    "keyId=\""@ + key_id + "\",algorithm=\"rsa-sha256\",headers=\"(request-target) "@
        + joined_names(headers) + "\",signature=\""@ + signature + "\""@
}

/// Errors produced while creating an HTTP signature.
#[derive(Debug)]
pub enum HttpSignatureError {
    InvalidPrivateKey(rsa::pkcs8::Error),
    /// The key is too small to sign a SHA-256 digest.
    SigningFailed(rsa::signature::Error),
}

impl HttpSignatureError {
    /// A human-readable description of the error.
    pub fn message(&self) -> (text: &'static str)
        ensures
            text@ == match self {
                HttpSignatureError::InvalidPrivateKey(_) => "invalid RSA private key PEM"@,
                HttpSignatureError::SigningFailed(_) => "failed to sign the request"@,
            },
    {
        match self {
            HttpSignatureError::InvalidPrivateKey(_) => "invalid RSA private key PEM",
            HttpSignatureError::SigningFailed(_) => "failed to sign the request",
        }
    }
}

/// The bytes that a draft-Cavage signature covers: the UTF-8 encoding of
/// the signature base.
pub open spec fn signature_base_bytes(
    method: Seq<char>,
    request_target: Seq<char>,
    headers: Seq<(Seq<char>, Seq<char>)>,
) -> Seq<u8> {
    vstd::utf8::encode_utf8(signature_base(method, request_target, headers))
}

/// The base64 signature that the private key in `private_key_pem` gives a
/// request.
pub open spec fn signature_text(
    private_key_pem: Seq<char>,
    method: Seq<char>,
    request_target: Seq<char>,
    headers: Seq<(Seq<char>, Seq<char>)>,
) -> Seq<char> {
    base64_standard(
        rsa_signature(private_key_pem, signature_base_bytes(method, request_target, headers)),
    )
}

/// Whether a base64 `signature` of a request verifies under the public key
/// in `public_key_pem`: the key decodes, the signature decodes, and the RSA
/// check over the request's signature base holds.
pub open spec fn draft_cavage_accepts(
    public_key_pem: Seq<char>,
    method: Seq<char>,
    request_target: Seq<char>,
    headers: Seq<(Seq<char>, Seq<char>)>,
    signature: Seq<char>,
) -> bool {
    &&& public_key_pem_decodes(public_key_pem)
    &&& base64_standard_decoded(signature) matches Some(bytes) && rsa_verifies(
        public_key_pem,
        signature_base_bytes(method, request_target, headers),
        bytes,
    )
}

/// Signs a prepared HTTP request using the draft-Cavage header format.
///
/// Header names must be supplied in the order in which they should appear in
/// the signature's `headers` parameter. The key pair's private key always
/// decodes; signing fails exactly for a key too small to sign a SHA-256
/// digest. The signature is the RSA signature of the signature base, and
/// it verifies with the pair's public key.
///
/// The header it writes parses back, with [`parse_signature_header`], to
/// the key identifier, the algorithm `rsa-sha256`, `(request-target)` and
/// the lowercased header names, and the signature, whenever the key
/// identifier is non-empty and free of quotes, backslashes and control
/// characters and each header name also of ASCII whitespace.
///
/// [`parse_signature_header`]: crate::signature_header::parse_signature_header
pub fn sign_draft_cavage(
    key_pair: &ActorKeyPair,
    key_id: &str,
    method: &str,
    request_target: &str,
    headers: &[(&str, &str)],
) -> (header: Result<String, HttpSignatureError>)
    ensures
        header is Ok <==> rsa_modulus_bits(key_pair@.private_key_pem) >= MIN_SIGNING_MODULUS_BITS,
        header matches Err(e) ==> e is SigningFailed,
        header matches Ok(h) ==> h@ == signature_header(
            key_id@,
            header_views(headers@),
            signature_text(key_pair@.private_key_pem, method@, request_target@, header_views(headers@)),
        ),
        header matches Ok(h) ==> draft_cavage_accepts(
            key_pair@.public_key_pem,
            method@,
            request_target@,
            header_views(headers@),
            signature_text(key_pair@.private_key_pem, method@, request_target@, header_views(headers@)),
        ),
        header matches Ok(h) ==> (key_id@.len() > 0 && plain_text(key_id@) && listable_headers(
            header_views(headers@),
        ) ==> exists|signature: Seq<char>|
            signature.len() > 0 && parsed_signature(h@) == Some(
                ParsedSignatureView {
                    key_id: key_id@,
                    algorithm: "rsa-sha256"@,
                    signed_headers: listed_names(header_views(headers@)),
                    signature,
                },
            )),
{
    proof {
        use_type_invariant(key_pair);
    }
    let ghost hv = header_views(headers@);
    let signature_base = draft_cavage_signature_base(method, request_target, headers);
    let base_bytes = signature_base.as_str().as_bytes();
    let signature = match rsa_sign(key_pair.private_key_pem.as_str(), base_bytes) {
        Ok(bytes) => bytes,
        Err(e) => {
            return Err(e);
        },
    };
    let encoded = base64_encode(signature.as_slice());
    proof {
        assert(key_pair_matches(key_pair@.private_key_pem, key_pair@.public_key_pem));
        assert(base_bytes@ == signature_base_bytes(method@, request_target@, hv));
    }

    let mut signed_headers = String::new();
    let n = headers.len();
    assert(hv.take(0) =~= Seq::<(Seq<char>, Seq<char>)>::empty());
    for i in 0..n
        invariant
            n == headers@.len(),
            hv == header_views(headers@),
            signed_headers@ == joined_names(hv.take(i as int)),
    {
        let (name, _) = headers[i];
        if i > 0 {
            signed_headers.append(" ");
        }
        let lowered = to_ascii_lowercase(name);
        signed_headers.append(lowered.as_str());
        assert(hv.take(i + 1).drop_last() =~= hv.take(i as int));
        proof {
            if i == 0 {
                assert(signed_headers@ =~= lower(hv.take(1)[0].0));
            }
        }
    }
    assert(hv.take(n as int) =~= hv);

    let mut header = "keyId=\"".to_owned();
    header.append(key_id);
    header.append("\",algorithm=\"rsa-sha256\",headers=\"(request-target) ");
    header.append(signed_headers.as_str());
    header.append("\",signature=\"");
    header.append(encoded.as_str());
    header.append("\"");
    assert(header@ =~= signature_header(key_id@, hv, base64_standard(signature@)));
    proof {
        if key_id@.len() > 0 && plain_text(key_id@) && listable_headers(hv) {
            assert forall|k: int| 0 <= k < encoded@.len() implies is_plain(#[trigger] encoded@[k]) by {
                assert(is_base64_char(encoded@[k]));
            }
            lemma_signature_header_round_trip(key_id@, hv, encoded@);
        }
    }
    Ok(header)
}

/// Errors produced while verifying an HTTP signature.
#[derive(Debug)]
pub enum HttpSignatureVerificationError {
    InvalidPublicKey(rsa::pkcs8::spki::Error),
    InvalidSignatureEncoding(base64::DecodeError),
    InvalidSignature(rsa::signature::Error),
    Verification(rsa::signature::Error),
}

impl HttpSignatureVerificationError {
    /// A human-readable description of the error.
    pub fn message(&self) -> (text: &'static str)
        ensures
            text@ == match self {
                HttpSignatureVerificationError::InvalidPublicKey(_) => "invalid RSA public key PEM"@,
                HttpSignatureVerificationError::InvalidSignatureEncoding(_) => "invalid base64 signature encoding"@,
                HttpSignatureVerificationError::InvalidSignature(_) => "invalid RSA signature"@,
                HttpSignatureVerificationError::Verification(_) => "HTTP signature verification failed"@,
            },
    {
        match self {
            HttpSignatureVerificationError::InvalidPublicKey(_) => "invalid RSA public key PEM",
            HttpSignatureVerificationError::InvalidSignatureEncoding(_) =>
                "invalid base64 signature encoding",
            HttpSignatureVerificationError::InvalidSignature(_) => "invalid RSA signature",
            HttpSignatureVerificationError::Verification(_) => "HTTP signature verification failed",
        }
    }
}

/// Verifies a draft-Cavage RSA-SHA256 signature over a prepared request.
///
/// `headers` must contain the signed HTTP headers in their declared order,
/// excluding the `(request-target)` pseudo-header.
pub fn verify_draft_cavage(
    public_key_pem: &str,
    method: &str,
    request_target: &str,
    headers: &[(&str, &str)],
    signature: &str,
) -> (verdict: Result<(), HttpSignatureVerificationError>)
    ensures
        verdict is Ok <==> draft_cavage_accepts(
            public_key_pem@,
            method@,
            request_target@,
            header_views(headers@),
            signature@,
        ),
        verdict matches Err(HttpSignatureVerificationError::InvalidPublicKey(_))
            <==> !public_key_pem_decodes(public_key_pem@),
        verdict matches Err(HttpSignatureVerificationError::InvalidSignatureEncoding(_))
            <==> public_key_pem_decodes(public_key_pem@) && base64_standard_decoded(signature@) is None,
        !(verdict matches Err(HttpSignatureVerificationError::InvalidSignature(_))),
{
    let signature_base = draft_cavage_signature_base(method, request_target, headers);
    match decode_public_key(public_key_pem) {
        Ok(_) => {},
        Err(e) => {
            return Err(HttpSignatureVerificationError::InvalidPublicKey(e));
        },
    }
    let signature_bytes = match base64_decode(signature) {
        Ok(bytes) => bytes,
        Err(e) => {
            return Err(HttpSignatureVerificationError::InvalidSignatureEncoding(e));
        },
    };
    let base_bytes = signature_base.as_str().as_bytes();
    proof {
        assert(base_bytes@ == signature_base_bytes(method@, request_target@, header_views(headers@)));
    }
    rsa_verify(public_key_pem, base_bytes, signature_bytes.as_slice())
}

} // verus!
