//! Preparing signed ActivityPub deliveries.
//!
//! A delivery is a `POST` of a serialized activity to an inbox, with
//! `Content-Type`, `Date`, `Digest` and `Host` headers signed with the local
//! actor's key in the draft-Cavage format. This module checks the inbox URL
//! and the actor's key, and computes every header; a runtime serializes the
//! activity, supplies the current date and sends the request.

use vstd::prelude::*;

use crate::crypto::{rsa_modulus_bits, MIN_SIGNING_MODULUS_BITS};
use crate::http_signatures::{
    create_sha256_digest_header, draft_cavage_accepts, sha256_digest_header, sign_draft_cavage,
    signature_header, signature_text, ActorKeyPair, ActorKeyPairView, HttpSignatureError,
};
use crate::config::OutboundAddressPolicy;
use crate::iri::Iri;
use crate::request::digest_verdict;
use crate::signature_header::{is_ascii_white, parsed_signature, ParsedSignatureView};
use crate::signature_law::{is_listable_name, is_plain, listable_headers, listed_names, plain_text};
use crate::network::{
    check_url, url_verdict, IpAddress, OutboundUrlError, UrlParts,
    UrlPartsView,
};
use crate::text::{lower, push_char, str_eq};
use crate::vocab::{Actor, ActorView, Reference, ReferenceView};

verus! {

#[verifier::external_type_specification]
#[verifier::external_body]
pub struct ExReqwestError(reqwest::Error);

#[verifier::external_type_specification]
#[verifier::external_body]
pub struct ExJsonError(serde_json::Error);

/// The media type of ActivityPub request bodies.
pub const ACTIVITY_JSON: &'static str = "application/activity+json";

/// Why an activity could not be delivered.
#[derive(Debug)]
pub enum SendError {
    /// The HTTP client could not be built.
    BuildClient(reqwest::Error),
    /// The activity could not be serialized.
    Serialize(serde_json::Error),
    /// The inbox is not an `http` or `https` URL with a host.
    InvalidInbox(String),
    /// The inbox names a non-public address.
    PrivateInboxAddress { inbox: String, address: IpAddress },
    /// The request could not be signed.
    Sign(HttpSignatureError),
    /// The request failed.
    Request(reqwest::Error),
    /// The inbox answered with a status outside 200 to 299.
    UnsuccessfulStatus { inbox: String, status: u16 },
    /// The activity type cannot be sent.
    UnsupportedActivity,
    /// The local actor publishes no key.
    MissingActorKey(String),
    /// The local actor's published key is not the stored key pair.
    ActorKeyMismatch(String),
}

impl SendError {
    /// A human-readable description of the error.
    pub fn message(&self) -> (text: String)
        ensures
            text@ == send_error_message(*self),
    {
        match self {
            SendError::BuildClient(_) => "failed to build HTTP client".to_owned(),
            SendError::Serialize(_) => "failed to serialize activity".to_owned(),
            SendError::InvalidInbox(inbox) => {
                let mut text = "invalid recipient inbox: ".to_owned();
                text.append(inbox.as_str());
                text
            },
            SendError::PrivateInboxAddress { inbox, .. } => {
                let mut text = "recipient inbox ".to_owned();
                text.append(inbox.as_str());
                text.append(" resolves to non-public address");
                text
            },
            SendError::Sign(_) => "failed to sign activity request".to_owned(),
            SendError::Request(_) => "failed to send activity".to_owned(),
            SendError::UnsuccessfulStatus { inbox, status } => {
                let mut text = "sending activity to ".to_owned();
                text.append(inbox.as_str());
                text.append(" returned ");
                push_decimal(&mut text, *status);
                text
            },
            SendError::UnsupportedActivity => "activity type is not supported for sending".to_owned(),
            SendError::MissingActorKey(actor) => {
                let mut text = "local actor ".to_owned();
                text.append(actor.as_str());
                text.append(" does not advertise a signing key");
                text
            },
            SendError::ActorKeyMismatch(actor) => {
                let mut text = "stored signing key does not match local actor ".to_owned();
                text.append(actor.as_str());
                text
            },
        }
    }
}

/// The description of a [`SendError`].
pub open spec fn send_error_message(error: SendError) -> Seq<char> {
    match error {
        SendError::BuildClient(_) => "failed to build HTTP client"@,
        SendError::Serialize(_) => "failed to serialize activity"@,
        SendError::InvalidInbox(inbox) => "invalid recipient inbox: "@ + inbox@,
        SendError::PrivateInboxAddress { inbox, .. } => "recipient inbox "@ + inbox@
            + " resolves to non-public address"@,
        SendError::Sign(_) => "failed to sign activity request"@,
        SendError::Request(_) => "failed to send activity"@,
        SendError::UnsuccessfulStatus { inbox, status } => "sending activity to "@ + inbox@
            + " returned "@ + decimal_text(status as nat),
        SendError::UnsupportedActivity => "activity type is not supported for sending"@,
        SendError::MissingActorKey(actor) => "local actor "@ + actor@
            + " does not advertise a signing key"@,
        SendError::ActorKeyMismatch(actor) => "stored signing key does not match local actor "@
            + actor@,
    }
}

/// The decimal digit for `d`.
pub open spec fn digit_char(d: nat) -> char {
    ((d + 0x30) as u32) as char
}

/// The decimal representation of `n`, without leading zeros.
pub open spec fn decimal_text(n: nat) -> Seq<char>
    decreases n,
{
    if n < 10 {
        seq![digit_char(n)]
    } else {
        decimal_text(n / 10).push(digit_char(n % 10))
    }
}

/// Appends the decimal representation of `n`.
pub fn push_decimal(text: &mut String, n: u16)
    ensures
        final(text)@ == old(text)@ + decimal_text(n as nat),
    decreases n,
{
    if n >= 10 {
        push_decimal(text, n / 10);
    }
    let d: u16 = n % 10;
    let c: char = if d == 0 {
        '0'
    } else if d == 1 {
        '1'
    } else if d == 2 {
        '2'
    } else if d == 3 {
        '3'
    } else if d == 4 {
        '4'
    } else if d == 5 {
        '5'
    } else if d == 6 {
        '6'
    } else if d == 7 {
        '7'
    } else if d == 8 {
        '8'
    } else {
        '9'
    };
    assert(c == digit_char(d as nat));
    let ghost before = text@;
    push_char(text, c);
    proof {
        if n >= 10 {
            assert(text@ =~= old(text)@ + decimal_text(n as nat));
        } else {
            assert(text@ =~= old(text)@ + decimal_text(n as nat));
        }
    }
}

/// Which key identifier signs the local actor's deliveries: the published
/// key's identifier, which must be owned by the actor and carry the stored
/// public key when the key is embedded.
pub open spec fn signing_key_verdict(actor: ActorView, public_key_pem: Seq<char>) -> Result<
    Seq<char>,
    bool,
> {
    match actor.public_key {
        Some(ReferenceView::Id(key_id)) => Ok(key_id),
        Some(ReferenceView::Object(key)) => if key.owner != actor.id || key.public_key_pem
            != public_key_pem {
            Err(true)
        } else {
            Ok(key.id)
        },
        None => Err(false),
    }
}

/// Finds the key identifier for the local actor's deliveries.
pub fn signing_key_id(local_actor: &Actor, key_pair: &ActorKeyPair) -> (key_id: Result<
    Iri,
    SendError,
>)
    ensures
        match signing_key_verdict(local_actor@, key_pair@.public_key_pem) {
            Ok(k) => key_id matches Ok(i) && i@ == k,
            Err(true) => key_id matches Err(SendError::ActorKeyMismatch(a)) && a@
                == local_actor@.id,
            Err(false) => key_id matches Err(SendError::MissingActorKey(a)) && a@
                == local_actor@.id,
        },
{
    match &local_actor.public_key {
        Some(Reference::Id(key_id)) => Ok(key_id.clone()),
        Some(Reference::Object(key)) => {
            if !key.owner.same(&local_actor.id) || !str_eq(
                key.public_key_pem.as_str(),
                key_pair.public_key_pem(),
            ) {
                Err(SendError::ActorKeyMismatch(local_actor.id.as_str().to_owned()))
            } else {
                Ok(key.id.clone())
            }
        },
        None => Err(SendError::MissingActorKey(local_actor.id.as_str().to_owned())),
    }
}

/// The `Host` header for a URL: its host, and its port when the URL gives
/// one other than the scheme's default.
pub open spec fn host_header(url: UrlPartsView) -> Option<Seq<char>> {
    match url.host_text {
        Some(host) => Some(
            match url.port {
                Some(port) => host + ":"@ + decimal_text(port as nat),
                None => host,
            },
        ),
        None => None,
    }
}

/// The request target for a URL: its path, and its query after `?`.
pub open spec fn request_target(url: UrlPartsView) -> Seq<char> {
    match url.query {
        Some(query) => url.path + "?"@ + query,
        None => url.path,
    }
}

/// The signed headers of a delivery, in signing order.
pub open spec fn delivery_headers(date: Seq<char>, digest: Seq<char>, host: Seq<char>) -> Seq<
    (Seq<char>, Seq<char>),
> {
    seq![
        ("content-type"@, ACTIVITY_JSON@),
        ("date"@, date),
        ("digest"@, digest),
        ("host"@, host),
    ]
}

/// The names a delivery's `Signature` header lists.
pub open spec fn delivery_signed_names() -> Seq<Seq<char>> {
    seq!["(request-target)"@, "content-type"@, "date"@, "digest"@, "host"@]
}

proof fn lemma_delivery_headers_listable(date: Seq<char>, digest: Seq<char>, host: Seq<char>)
    ensures
        listable_headers(delivery_headers(date, digest, host)),
        listed_names(delivery_headers(date, digest, host)) == delivery_signed_names(),
{
    reveal_strlit("content-type");
    reveal_strlit("date");
    reveal_strlit("digest");
    reveal_strlit("host");
    let hs = delivery_headers(date, digest, host);
    assert forall|k: int| 0 <= k < hs.len() implies is_listable_name(#[trigger] hs[k].0) by {
        let n = hs[k].0;
        assert forall|i: int| 0 <= i < n.len() implies is_plain(#[trigger] n[i]) && !is_ascii_white(
            n[i],
        ) by {}
    }
    assert(lower("content-type"@) =~= "content-type"@);
    assert(lower("date"@) =~= "date"@);
    assert(lower("digest"@) =~= "digest"@);
    assert(lower("host"@) =~= "host"@);
    assert(listed_names(hs) =~= delivery_signed_names());
}

/// A signed delivery, ready to be posted.
pub struct SignedDelivery {
    /// The inbox URL to post to.
    pub url: String,
    /// The request target that was signed.
    pub request_target: String,
    pub host: String,
    pub date: String,
    pub digest: String,
    pub signature: String,
    pub body: Vec<u8>,
}

/// The model of a [`SignedDelivery`].
pub ghost struct SignedDeliveryView {
    pub url: Seq<char>,
    pub request_target: Seq<char>,
    pub host: Seq<char>,
    pub date: Seq<char>,
    pub digest: Seq<char>,
    pub signature: Seq<char>,
    pub body: Seq<u8>,
}

impl View for SignedDelivery {
    type V = SignedDeliveryView;

    open spec fn view(&self) -> SignedDeliveryView {
        SignedDeliveryView {
            url: self.url@,
            request_target: self.request_target@,
            host: self.host@,
            date: self.date@,
            digest: self.digest@,
            signature: self.signature@,
            body: self.body@,
        }
    }
}

/// Whether `delivery` is the `POST` of `body` to `inbox` at `date` for the
/// URL parts `url`, signed with `key_id` by the private key of `key_pair`
/// over the request target and the delivery headers.
pub open spec fn is_signed_delivery(
    delivery: SignedDeliveryView,
    inbox: Seq<char>,
    url: UrlPartsView,
    host: Seq<char>,
    key_pair: ActorKeyPairView,
    key_id: Seq<char>,
    date: Seq<char>,
    body: Seq<u8>,
) -> bool {
    let headers = delivery_headers(date, sha256_digest_header(body), host);
    &&& delivery.url == inbox
    &&& delivery.request_target == request_target(url)
    &&& delivery.host == host
    &&& delivery.date == date
    &&& delivery.digest == sha256_digest_header(body)
    &&& delivery.body == body
    &&& delivery.signature == signature_header(
        key_id,
        headers,
        signature_text(key_pair.private_key_pem, "POST"@, request_target(url), headers),
    )
}

/// Whether the signature of `delivery` verifies with the public key of
/// `key_pair` over `POST`, the delivery's request target and its headers.
pub open spec fn delivery_verifies(delivery: SignedDeliveryView, key_pair: ActorKeyPairView) -> bool {
    let headers = delivery_headers(delivery.date, delivery.digest, delivery.host);
    draft_cavage_accepts(
        key_pair.public_key_pem,
        "POST"@,
        delivery.request_target,
        headers,
        signature_text(key_pair.private_key_pem, "POST"@, delivery.request_target, headers),
    )
}

/// Prepares the signed delivery of `body` to `inbox`, dated `date`.
///
/// The inbox must pass [`check_url`] under `policy` (credentials refused
/// where `reject_credentials` holds) and have a host.
pub fn prepare_delivery(
    key_pair: &ActorKeyPair,
    key_id: &str,
    inbox: &Iri,
    policy: OutboundAddressPolicy,
    reject_credentials: bool,
    date: &str,
    body: Vec<u8>,
) -> (prepared: Result<SignedDelivery, SendError>)
    ensures
        match url_verdict(inbox@, policy, reject_credentials) {
            Err(OutboundUrlError::Invalid) => prepared matches Err(SendError::InvalidInbox(s)) && s@
                == inbox@,
            Err(OutboundUrlError::PrivateAddress(a)) => prepared matches Err(
                SendError::PrivateInboxAddress { inbox: s, address },
            ) && s@ == inbox@ && address == a,
            Ok(url) => match host_header(url) {
                None => prepared matches Err(SendError::InvalidInbox(s)) && s@ == inbox@,
                Some(host) => (prepared is Ok <==> rsa_modulus_bits(key_pair@.private_key_pem)
                    >= MIN_SIGNING_MODULUS_BITS) && (prepared matches Ok(d) ==> is_signed_delivery(
                    d@,
                    inbox@,
                    url,
                    host,
                    key_pair@,
                    key_id@,
                    date@,
                    body@,
                )) && (prepared matches Err(e) ==> e is Sign),
            },
        },
        prepared matches Ok(d) ==> digest_verdict(Some(d@.digest), body@) == Ok::<(), u16>(()),
        prepared matches Ok(d) ==> delivery_verifies(d@, key_pair@),
        prepared matches Ok(d) ==> (key_id@.len() > 0 && plain_text(key_id@) ==> exists|
            signature: Seq<char>,
        |
            signature.len() > 0 && parsed_signature(d@.signature) == Some(
                ParsedSignatureView {
                    key_id: key_id@,
                    algorithm: "rsa-sha256"@,
                    signed_headers: delivery_signed_names(),
                    signature,
                },
            )),
{
    let url: UrlParts = match check_url(inbox.as_str(), policy, reject_credentials) {
        Ok(url) => url,
        Err(OutboundUrlError::Invalid) => {
            return Err(SendError::InvalidInbox(inbox.as_str().to_owned()));
        },
        Err(OutboundUrlError::PrivateAddress(address)) => {
            return Err(
                SendError::PrivateInboxAddress { inbox: inbox.as_str().to_owned(), address },
            );
        },
    };
    let mut host = match &url.host_text {
        Some(h) => h.clone(),
        None => {
            return Err(SendError::InvalidInbox(inbox.as_str().to_owned()));
        },
    };
    match url.port {
        Some(port) => {
            host.append(":");
            push_decimal(&mut host, port);
        },
        None => {},
    }
    let mut target = url.path.clone();
    match &url.query {
        Some(query) => {
            target.append("?");
            target.append(query.as_str());
        },
        None => {},
    }
    let digest = create_sha256_digest_header(body.as_slice());
    let headers: Vec<(&str, &str)> = vec![
        ("content-type", ACTIVITY_JSON),
        ("date", date),
        ("digest", digest.as_str()),
        ("host", host.as_str()),
    ];
    assert(crate::http_signatures::header_views(headers@) =~= delivery_headers(
        date@,
        digest@,
        host@,
    ));
    proof {
        lemma_delivery_headers_listable(date@, digest@, host@);
    }
    let signature = match sign_draft_cavage(
        key_pair,
        key_id,
        "POST",
        target.as_str(),
        headers.as_slice(),
    ) {
        Ok(s) => s,
        Err(e) => {
            return Err(SendError::Sign(e));
        },
    };
    Ok(
        SignedDelivery {
            url: inbox.as_str().to_owned(),
            request_target: target,
            host,
            date: date.to_owned(),
            digest,
            signature,
            body,
        },
    )
}

/// Whether an HTTP status reports success.
pub open spec fn is_success_status(status: u16) -> bool {
    200 <= status <= 299
}

/// Checks the status that an inbox answered a delivery with.
pub fn check_delivery_status(inbox: &str, status: u16) -> (verdict: Result<(), SendError>)
    ensures
        is_success_status(status) ==> verdict is Ok,
        !is_success_status(status) ==> (verdict matches Err(
            SendError::UnsuccessfulStatus { inbox: s, status: t },
        ) && s@ == inbox@ && t == status),
{
    if 200 <= status && status <= 299 {
        Ok(())
    } else {
        Err(SendError::UnsuccessfulStatus { inbox: inbox.to_owned(), status })
    }
}

} // verus!
