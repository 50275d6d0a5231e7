//! The calls into `rsa`, `sha2` (through `rsa`) and `base64` that HTTP
//! signatures and digests need, each behind a trusted wrapper.

use vstd::prelude::*;

use crate::http_signatures::{HttpSignatureError, HttpSignatureVerificationError, KeyError};

verus! {

#[verifier::external_type_specification]
#[verifier::external_body]
pub struct ExRsaPrivateKey(rsa::RsaPrivateKey);

#[verifier::external_type_specification]
#[verifier::external_body]
pub struct ExRsaPublicKey(rsa::RsaPublicKey);

#[verifier::external_type_specification]
#[verifier::external_body]
pub struct ExRsaError(rsa::Error);

#[verifier::external_type_specification]
#[verifier::external_body]
pub struct ExPkcs8Error(rsa::pkcs8::Error);

#[verifier::external_type_specification]
#[verifier::external_body]
pub struct ExSpkiError(rsa::pkcs8::spki::Error);

#[verifier::external_type_specification]
#[verifier::external_body]
pub struct ExSignatureError(rsa::signature::Error);

#[verifier::external_type_specification]
#[verifier::external_body]
pub struct ExBase64DecodeError(base64::DecodeError);

/// The SHA-256 digest of `data`.
pub uninterp spec fn sha256(data: Seq<u8>) -> Seq<u8>;

/// The standard (RFC 4648, padded) base64 encoding of `data`.
pub uninterp spec fn base64_standard(data: Seq<u8>) -> Seq<char>;

/// The bytes that standard padded base64 `text` decodes to, if it is valid.
pub uninterp spec fn base64_standard_decoded(text: Seq<char>) -> Option<Seq<u8>>;

/// Whether `pem` holds a PKCS#8 PEM-encoded RSA private key.
pub uninterp spec fn private_key_pem_decodes(pem: Seq<char>) -> bool;

/// Whether `pem` holds an SPKI PEM-encoded RSA public key.
pub uninterp spec fn public_key_pem_decodes(pem: Seq<char>) -> bool;

/// Whether the public key in `public_pem` is the public half of the private
/// key in `private_pem`.
pub uninterp spec fn key_pair_matches(private_pem: Seq<char>, public_pem: Seq<char>) -> bool;

/// The bit length of the modulus of the private key in `private_pem`.
pub uninterp spec fn rsa_modulus_bits(private_pem: Seq<char>) -> nat;

/// The RSASSA-PKCS1-v1_5 signature over the SHA-256 digest of `message`
/// under the private key in `private_pem`.
pub uninterp spec fn rsa_signature(private_pem: Seq<char>, message: Seq<u8>) -> Seq<u8>;

/// Whether `signature` is a valid RSASSA-PKCS1-v1_5 SHA-256 signature of
/// `message` under the public key in `public_pem`.
pub uninterp spec fn rsa_verifies(public_pem: Seq<char>, message: Seq<u8>, signature: Seq<u8>) -> bool;

/// The smallest modulus, in bits, that can carry a PKCS#1 v1.5 SHA-256
/// signature: the padded digest needs 62 bytes.
pub const MIN_SIGNING_MODULUS_BITS: u64 = 489;

/// Whether `private_pem` holds a private key whose modulus is large enough
/// to sign with PKCS#1 v1.5 over SHA-256.
pub open spec fn signing_key_fits(private_pem: Seq<char>) -> bool {
    private_key_pem_decodes(private_pem) && rsa_modulus_bits(private_pem) >= MIN_SIGNING_MODULUS_BITS
}

/// Whether every public key that forms a pair with the private key in
/// `private_pem` accepts `signature` over `message`.
pub open spec fn signature_accepted_by_pair(private_pem: Seq<char>, message: Seq<u8>, signature: Seq<u8>) -> bool {
    forall|public_pem: Seq<char>| #[trigger] key_pair_matches(private_pem, public_pem) ==> rsa_verifies(public_pem, message, signature)
}

/// Computes the SHA-256 digest of `data`.
///
/// Trusted: `<Sha256 as Digest>::digest` returns the 32-byte SHA-256 digest,
/// a function of the data alone.
#[verifier::external_body]
pub(crate) fn sha256_digest(data: &[u8]) -> (digest: Vec<u8>)
    ensures
        digest@ == sha256(data@),
        digest@.len() == 32,
{
    <rsa::sha2::Sha256 as rsa::sha2::Digest>::digest(data).to_vec()
}

/// Whether `c` belongs to the standard base64 alphabet or is its `=`
/// padding.
pub open spec fn is_base64_char(c: char) -> bool {
    ('A' <= c <= 'Z') || ('a' <= c <= 'z') || ('0' <= c <= '9') || c == '+' || c == '/' || c == '='
}

/// Encodes `data` as standard padded base64.
///
/// Trusted: `Engine::encode` on `general_purpose::STANDARD` returns the
/// standard padded base64 text of the data, a function of the data alone,
/// written with the standard alphabet and `=` padding: four characters for
/// every three bytes begun. `Engine::decode` gives the data back.
#[verifier::external_body]
pub(crate) fn base64_encode(data: &[u8]) -> (text: String)
    ensures
        text@ == base64_standard(data@),
        forall|i: int| 0 <= i < text@.len() ==> is_base64_char(#[trigger] text@[i]),
        data@.len() > 0 ==> text@.len() > 0,
        base64_standard_decoded(text@) == Some(data@),
{
    base64::Engine::encode(&base64::engine::general_purpose::STANDARD, data)
}

/// Decodes standard padded base64 `text`.
///
/// Trusted: `Engine::decode` on `general_purpose::STANDARD` succeeds exactly
/// when the text is valid standard base64, with the decoded bytes; both are a
/// function of the text alone.
#[verifier::external_body]
pub(crate) fn base64_decode(text: &str) -> (bytes: Result<Vec<u8>, base64::DecodeError>)
    ensures
        bytes is Ok <==> base64_standard_decoded(text@) is Some,
        bytes matches Ok(b) ==> base64_standard_decoded(text@) == Some(b@),
{
    base64::Engine::decode(&base64::engine::general_purpose::STANDARD, text)
}

/// Decodes a PKCS#8 PEM RSA private key.
///
/// Trusted: `DecodePrivateKey::from_pkcs8_pem` succeeds exactly when the text
/// is a PKCS#8 PEM RSA private key; this depends on the text alone. Nothing
/// is said of the key's value.
#[verifier::external_body]
pub(crate) fn decode_private_key(pem: &str) -> (key: Result<rsa::RsaPrivateKey, rsa::pkcs8::Error>)
    ensures
        key is Ok <==> private_key_pem_decodes(pem@),
{
    <rsa::RsaPrivateKey as rsa::pkcs8::DecodePrivateKey>::from_pkcs8_pem(pem)
}

/// Decodes an SPKI PEM RSA public key.
///
/// Trusted: `DecodePublicKey::from_public_key_pem` succeeds exactly when the
/// text is an SPKI PEM RSA public key; this depends on the text alone.
/// Nothing is said of the key's value.
#[verifier::external_body]
pub(crate) fn decode_public_key(pem: &str) -> (key: Result<rsa::RsaPublicKey, rsa::pkcs8::spki::Error>)
    ensures
        key is Ok <==> public_key_pem_decodes(pem@),
{
    <rsa::RsaPublicKey as rsa::pkcs8::DecodePublicKey>::from_public_key_pem(pem)
}

/// Whether two PEM texts hold the two halves of one RSA key.
///
/// Trusted: decodes both with `from_pkcs8_pem` and `from_public_key_pem`
/// and compares `RsaPublicKey::from(&private)` with the public key by
/// `PartialEq` (modulus and exponent); texts that do not decode do not
/// match. The answer depends on the two texts alone.
#[verifier::external_body]
pub(crate) fn pems_match(private_key_pem: &str, public_key_pem: &str) -> (matched: bool)
    ensures
        matched == key_pair_matches(private_key_pem@, public_key_pem@),
        matched ==> private_key_pem_decodes(private_key_pem@) && public_key_pem_decodes(
            public_key_pem@,
        ),
{
    match (
        <rsa::RsaPrivateKey as rsa::pkcs8::DecodePrivateKey>::from_pkcs8_pem(private_key_pem),
        <rsa::RsaPublicKey as rsa::pkcs8::DecodePublicKey>::from_public_key_pem(public_key_pem),
    ) {
        (Ok(private), Ok(public)) => rsa::RsaPublicKey::from(&private) == public,
        _ => false,
    }
}

/// Signs `message` with RSASSA-PKCS1-v1_5 over SHA-256 under the private
/// key in `private_key_pem`.
///
/// Trusted: decodes the key with `from_pkcs8_pem`, then `SigningKey::new`
/// and `Signer::try_sign`. Signing pads the 51-byte digest info to the
/// modulus size and fails exactly when the modulus has fewer than 62 bytes
/// (489 bits); the decoded key was validated, so the private operation and
/// its check succeed. The signature is as many bytes as the modulus, a
/// function of the key and the message, and the verifying key of the same
/// pair accepts it.
#[verifier::external_body]
pub(crate) fn rsa_sign(private_key_pem: &str, message: &[u8]) -> (signature: Result<Vec<u8>, HttpSignatureError>)
    ensures
        (signature matches Err(e) && e is InvalidPrivateKey) <==> !private_key_pem_decodes(private_key_pem@),
        signature is Ok <==> signing_key_fits(private_key_pem@),
        signature matches Ok(bytes) ==> bytes@ == rsa_signature(private_key_pem@, message@),
        signature matches Ok(bytes) ==> bytes@.len() > 0,
        signature matches Ok(bytes) ==> signature_accepted_by_pair(private_key_pem@, message@, bytes@),
{
    let key = match <rsa::RsaPrivateKey as rsa::pkcs8::DecodePrivateKey>::from_pkcs8_pem(private_key_pem) {
        Ok(key) => key,
        Err(e) => return Err(HttpSignatureError::InvalidPrivateKey(e)),
    };
    let signing_key = rsa::pkcs1v15::SigningKey::<rsa::sha2::Sha256>::new(key);
    match rsa::signature::Signer::<rsa::pkcs1v15::Signature>::try_sign(&signing_key, message) {
        Ok(s) => Ok(rsa::signature::SignatureEncoding::to_vec(&s)),
        Err(e) => Err(HttpSignatureError::SigningFailed(e)),
    }
}

/// Verifies an RSASSA-PKCS1-v1_5 SHA-256 signature of `message` under the
/// public key in `public_key_pem`.
///
/// Trusted: decodes the key with `from_public_key_pem`, wraps the bytes
/// with `Signature::try_from` (which never fails), then
/// `VerifyingKey::new` and `Verifier::verify`; the outcome depends on the
/// three arguments alone.
#[verifier::external_body]
pub(crate) fn rsa_verify(public_key_pem: &str, message: &[u8], signature_bytes: &[u8]) -> (verdict: Result<(), HttpSignatureVerificationError>)
    ensures
        (verdict matches Err(e) && e is InvalidPublicKey) <==> !public_key_pem_decodes(public_key_pem@),
        verdict is Ok <==> (public_key_pem_decodes(public_key_pem@) && rsa_verifies(public_key_pem@, message@, signature_bytes@)),
        verdict matches Err(e) ==> e is InvalidPublicKey || e is Verification,
{
    let key = match <rsa::RsaPublicKey as rsa::pkcs8::DecodePublicKey>::from_public_key_pem(public_key_pem) {
        Ok(key) => key,
        Err(e) => return Err(HttpSignatureVerificationError::InvalidPublicKey(e)),
    };
    let signature = match rsa::pkcs1v15::Signature::try_from(signature_bytes) {
        Ok(s) => s,
        Err(e) => return Err(HttpSignatureVerificationError::InvalidSignature(e)),
    };
    let verifying_key = rsa::pkcs1v15::VerifyingKey::<rsa::sha2::Sha256>::new(key);
    rsa::signature::Verifier::verify(&verifying_key, message, &signature)
        .map_err(HttpSignatureVerificationError::Verification)
}

/// Generates a random RSA key of `bits` bits and encodes its two halves.
///
/// Trusted: `RsaPrivateKey::new` with the operating system's random number
/// generator, which draws primes until the modulus has exactly `bits` bits;
/// then `to_pkcs8_pem` and `RsaPublicKey::from` with `to_public_key_pem`,
/// with `\n` line endings. The key is random, so whether generation
/// succeeds is not stated; the encodings decode back to the two halves.
#[verifier::external_body]
pub(crate) fn generate_rsa_key_pems(bits: usize) -> (pems: Result<(String, String), KeyError>)
    ensures
        pems matches Ok((private_pem, public_pem)) ==> private_key_pem_decodes(private_pem@)
            && public_key_pem_decodes(public_pem@) && key_pair_matches(private_pem@, public_pem@)
            && rsa_modulus_bits(private_pem@) == bits,
        pems matches Err(e) ==> e is Generation || e is PrivateKeyEncoding || e is PublicKeyEncoding,
{
    let key = rsa::RsaPrivateKey::new(&mut rsa::rand_core::OsRng, bits).map_err(KeyError::Generation)?;
    let private_pem = rsa::pkcs8::EncodePrivateKey::to_pkcs8_pem(&key, rsa::pkcs8::LineEnding::LF)
        .map_err(KeyError::PrivateKeyEncoding)?;
    let public_pem = rsa::pkcs8::EncodePublicKey::to_public_key_pem(
        &rsa::RsaPublicKey::from(&key),
        rsa::pkcs8::LineEnding::LF,
    ).map_err(KeyError::PublicKeyEncoding)?;
    Ok((private_pem.to_string(), public_pem))
}

} // verus!
