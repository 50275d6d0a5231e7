//! Checks on incoming signed requests: the signed `Host`, `Date` and
//! `Digest` headers and the list of signed headers.
//!
//! Request headers are handed in as `(name, value)` pairs with lowercase
//! names; a value is `None` when it is not visible ASCII text.

use vstd::prelude::*;

use crate::crypto::{
    base64_encode, base64_standard, sha256,
    sha256_digest,
};
use crate::http_signatures::{draft_cavage_accepts, header_views, verify_draft_cavage};
use crate::vocab::{Actor, ActorView, CryptographicKey, CryptographicKeyView, Reference, ReferenceView};
use crate::iri::{is_absolute_iri, Iri};
use crate::negotiation::split_commas;
use crate::status::{INTERNAL_SERVER_ERROR, UNAUTHORIZED};
use crate::signature_header::{parse_signature_header, parsed_signature};
use crate::text::{
    chars_eq, chars_eq_ignore_case, chars_of, eq_ignore_case, find, find_char, lemma_find_window,
    is_space, lower, skip_space, str_eq, string_of, trim, trim_end_at, trim_span,
};

verus! {

/// How long after its `Date` a signed request is still accepted, in seconds.
pub const MAX_SIGNATURE_AGE_SECS: u64 = 3900;

/// How far ahead of the clock a request's `Date` may be, in seconds.
pub const MAX_CLOCK_SKEW_SECS: u64 = 3600;

/// What `http` makes of an authority: its text, its host and its port as a
/// number, if the text parses as an authority.
pub uninterp spec fn authority_parse(text: Seq<char>) -> Option<(Seq<char>, Seq<char>, Option<u16>)>;

/// The parts of an authority that host checks read.
pub struct AuthorityParts {
    pub text: String,
    pub host: String,
    pub port: Option<u16>,
}

/// Parses a URI authority.
///
/// Trusted: `<Authority as FromStr>::from_str` decides whether the text
/// parses; on success `as_str`, `host` and `port_u16` give its text, its
/// host and its port when that is a valid `u16`; all of it depends on the
/// text alone.
#[verifier::external_body]
fn parse_authority(text: &str) -> (parts: Option<AuthorityParts>)
    ensures
        match authority_parse(text@) {
            Some((t, h, p)) => parts matches Some(a) && a.text@ == t && a.host@ == h && a.port == p,
            None => parts is None,
        },
{
    let authority = text.parse::<axum::http::uri::Authority>().ok()?;
    Some(
        AuthorityParts {
            text: authority.as_str().to_string(),
            host: authority.host().to_string(),
            port: authority.port_u16(),
        },
    )
}

/// The port an authority designates: the scheme's default when the text ends
/// with the host, its explicit port after a `:`, and nothing otherwise.
pub open spec fn effective_port(
    text: Seq<char>,
    host: Seq<char>,
    port: Option<u16>,
    default_port: Option<u16>,
) -> Option<Option<u16>> {
    if host.len() > text.len() {
        None
    } else {
        let suffix = text.skip(host.len() as int);
        if suffix.len() == 0 {
            Some(default_port)
        } else if suffix[0] == ':' {
            match port {
                Some(p) => Some(Some(p)),
                None => None,
            }
        } else {
            None
        }
    }
}

/// An authority without user information, if `text` is one.
pub open spec fn plain_authority(text: Seq<char>) -> Option<(Seq<char>, Seq<char>, Option<u16>)> {
    match authority_parse(text) {
        Some((t, h, p)) => if t.contains('@') {
            None
        } else {
            Some((t, h, p))
        },
        None => None,
    }
}

/// The default port of an inbox scheme.
pub open spec fn default_port(scheme: Seq<char>) -> Option<u16> {
    if eq_ignore_case(scheme, "http"@) {
        Some(80)
    } else if eq_ignore_case(scheme, "https"@) {
        Some(443)
    } else {
        None
    }
}

/// The verdict on a signed `Host` header against the server's host: the
/// hosts must be equal ignoring ASCII case and designate the same port.
pub open spec fn host_verdict(
    signed_host: Option<Seq<char>>,
    expected_host: Seq<char>,
    inbox_scheme: Seq<char>,
) -> Result<(), u16> {
    match signed_host {
        None => Err(UNAUTHORIZED),
        Some(signed) => match plain_authority(signed) {
            None => Err(UNAUTHORIZED),
            Some((st, sh, sp)) => match plain_authority(expected_host) {
                None => Err(INTERNAL_SERVER_ERROR),
                Some((et, eh, ep)) => {
                    let default = default_port(inbox_scheme);
                    match effective_port(st, sh, sp, default) {
                        None => Err(UNAUTHORIZED),
                        Some(signed_port) => match effective_port(et, eh, ep, default) {
                            None => Err(INTERNAL_SERVER_ERROR),
                            Some(expected_port) => if eq_ignore_case(sh, eh) && signed_port
                                == expected_port {
                                Ok(())
                            } else {
                                Err(UNAUTHORIZED)
                            },
                        },
                    }
                },
            },
        },
    }
}

fn contains_at(chars: &[char]) -> (found: bool)
    ensures
        found == chars@.contains('@'),
{
    match find_char(chars, '@', 0, chars.len()) {
        Some(i) => {
            assert(chars@[i as int] == '@');
            true
        },
        None => false,
    }
}

fn plain_authority_of(text: &str) -> (parts: Option<AuthorityParts>)
    ensures
        match plain_authority(text@) {
            Some((t, h, p)) => parts matches Some(a) && a.text@ == t && a.host@ == h && a.port == p,
            None => parts is None,
        },
{
    match parse_authority(text) {
        Some(a) => {
            let chars = chars_of(a.text.as_str());
            if contains_at(chars.as_slice()) {
                None
            } else {
                Some(a)
            }
        },
        None => None,
    }
}

fn effective_port_of(a: &AuthorityParts, default_port: Option<u16>) -> (port: Option<Option<u16>>)
    ensures
        port == effective_port(a.text@, a.host@, a.port, default_port),
{
    let text = chars_of(a.text.as_str());
    let host = chars_of(a.host.as_str());
    if host.len() > text.len() {
        return None;
    }
    if host.len() == text.len() {
        assert(a.text@.skip(host@.len() as int).len() == 0);
        return Some(default_port);
    }
    assert(a.text@.skip(host@.len() as int)[0] == text@[host.len() as int]);
    if text[host.len()] == ':' {
        match a.port {
            Some(p) => Some(Some(p)),
            None => None,
        }
    } else {
        None
    }
}

/// Checks the signed `Host` header against the server's host.
pub fn verify_request_host(
    signed_host: Option<&str>,
    expected_host: &str,
    inbox_scheme: &str,
) -> (verdict: Result<(), u16>)
    ensures
        verdict == host_verdict(
            match signed_host {
                Some(h) => Some(h@),
                None => None,
            },
            expected_host@,
            inbox_scheme@,
        ),
{
    let signed_text = match signed_host {
        Some(h) => h,
        None => {
            return Err(UNAUTHORIZED);
        },
    };
    let signed = match plain_authority_of(signed_text) {
        Some(a) => a,
        None => {
            return Err(UNAUTHORIZED);
        },
    };
    let expected = match plain_authority_of(expected_host) {
        Some(a) => a,
        None => {
            return Err(INTERNAL_SERVER_ERROR);
        },
    };
    let scheme = chars_of(inbox_scheme);
    let http = chars_of("http");
    let https = chars_of("https");
    let default = if chars_eq_ignore_case(scheme.as_slice(), http.as_slice()) {
        Some(80u16)
    } else if chars_eq_ignore_case(scheme.as_slice(), https.as_slice()) {
        Some(443u16)
    } else {
        None
    };
    let signed_port = match effective_port_of(&signed, default) {
        Some(p) => p,
        None => {
            return Err(UNAUTHORIZED);
        },
    };
    let expected_port = match effective_port_of(&expected, default) {
        Some(p) => p,
        None => {
            return Err(INTERNAL_SERVER_ERROR);
        },
    };
    let signed_chars = chars_of(signed.host.as_str());
    let expected_chars = chars_of(expected.host.as_str());
    if chars_eq_ignore_case(signed_chars.as_slice(), expected_chars.as_slice()) && signed_port
        == expected_port {
        Ok(())
    } else {
        Err(UNAUTHORIZED)
    }
}

/// The time of an HTTP date, in whole seconds since the Unix epoch.
pub uninterp spec fn http_date_seconds(text: Seq<char>) -> Option<u64>;

/// Parses an HTTP date.
///
/// Trusted: `httpdate::parse_http_date` succeeds exactly for valid HTTP
/// dates, which name whole seconds of the years 1970 to 9999, so the time
/// since the Unix epoch never fails; the result depends on the text alone.
#[verifier::external_body]
fn parse_http_date_seconds(text: &str) -> (seconds: Option<u64>)
    ensures
        seconds == http_date_seconds(text@),
{
    let time = httpdate::parse_http_date(text).ok()?;
    Some(time.duration_since(std::time::UNIX_EPOCH).ok()?.as_secs())
}

/// The verdict on a request's `Date` at the time `now_secs` seconds and
/// `now_nanos` nanoseconds after the epoch: the request may be at most
/// `MAX_SIGNATURE_AGE_SECS` old and at most `MAX_CLOCK_SKEW_SECS` ahead.
pub open spec fn date_verdict(date: Option<Seq<char>>, now_secs: u64, now_nanos: u32) -> Result<
    (),
    u16,
> {
    match date {
        None => Err(UNAUTHORIZED),
        Some(text) => match http_date_seconds(text) {
            None => Err(UNAUTHORIZED),
            Some(d) => {
                // `now - date > age` and `date - now > skew`, with `now` a fraction
                // of a second past `now_secs`.
                let too_old = now_secs - d > MAX_SIGNATURE_AGE_SECS || (now_secs - d
                    == MAX_SIGNATURE_AGE_SECS && now_nanos > 0);
                let too_new = d - now_secs > MAX_CLOCK_SKEW_SECS;
                if too_old || too_new {
                    Err(UNAUTHORIZED)
                } else {
                    Ok(())
                }
            },
        },
    }
}

/// Checks a request's `Date` against the current time.
pub fn verify_request_date(date: Option<&str>, now_secs: u64, now_nanos: u32) -> (verdict: Result<
    (),
    u16,
>)
    requires
        now_nanos < 1_000_000_000,
    ensures
        verdict == date_verdict(
            match date {
                Some(d) => Some(d@),
                None => None,
            },
            now_secs,
            now_nanos,
        ),
{
    let text = match date {
        Some(d) => d,
        None => {
            return Err(UNAUTHORIZED);
        },
    };
    let d = match parse_http_date_seconds(text) {
        Some(d) => d,
        None => {
            return Err(UNAUTHORIZED);
        },
    };
    let too_old = if now_secs >= d {
        now_secs - d > MAX_SIGNATURE_AGE_SECS || (now_secs - d == MAX_SIGNATURE_AGE_SECS
            && now_nanos > 0)
    } else {
        false
    };
    let too_new = if d >= now_secs {
        d - now_secs > MAX_CLOCK_SKEW_SECS
    } else {
        false
    };
    if too_old || too_new {
        Err(UNAUTHORIZED)
    } else {
        Ok(())
    }
}

/// Whether one `Digest` header entry names SHA-256 with the given value:
/// once trimmed it is `algorithm=value`, split at its first `=`.
pub open spec fn digest_entry_matches(entry: Seq<char>, expected: Seq<char>) -> bool {
    let t = trim(entry);
    match find(t, '=') {
        Some(i) => eq_ignore_case(t.take(i), "sha-256"@) && t.skip(i + 1) == expected,
        None => false,
    }
}

/// Whether some comma-separated entry of a `Digest` header carries
/// `expected`.
pub open spec fn has_matching_entry(text: Seq<char>, expected: Seq<char>) -> bool {
    exists|k: int|
        0 <= k < split_commas(text).len() && digest_entry_matches(
            #[trigger] split_commas(text)[k],
            expected,
        )
}

/// The verdict on a request's `Digest` header for `body`: some of its
/// comma-separated entries must carry the body's SHA-256 digest.
pub open spec fn digest_verdict(digest: Option<Seq<char>>, body: Seq<u8>) -> Result<(), u16> {
    match digest {
        None => Err(UNAUTHORIZED),
        Some(text) => if has_matching_entry(text, base64_standard(sha256(body))) {
            Ok(())
        } else {
            Err(UNAUTHORIZED)
        },
    }
}

/// A `Digest` header of the form `SHA-256=` and base64 text carries that
/// text.
pub proof fn lemma_sha256_header_matches(encoded: Seq<char>)
    requires
        forall|i: int| 0 <= i < encoded.len() ==> crate::crypto::is_base64_char(#[trigger] encoded[i]),
    ensures
        has_matching_entry("SHA-256="@ + encoded, encoded),
{
    reveal_strlit("SHA-256=");
    reveal_strlit("SHA-256");
    reveal_strlit("sha-256");
    let h = "SHA-256="@ + encoded;
    assert(h.len() == encoded.len() + 8);
    assert forall|k: int| 0 <= k < h.len() implies #[trigger] h[k] != ',' && !is_space(h[k]) by {
        if k >= 8 {
            assert(h[k] == encoded[k - 8]);
        }
    }
    crate::text::lemma_find_from(h, ',', 0);
    assert(find(h, ',') is None);
    assert(split_commas(h) == seq![h]);
    assert(skip_space(h, 0) == 0);
    assert(trim_end_at(h, 0, h.len() as int) == h.len());
    assert(trim(h) =~= h);
    crate::text::lemma_find_from(h, '=', 0);
    assert(h[7] == '=');
    assert(find(h, '=') == Some(7int));
    assert(h.take(7) =~= "SHA-256"@);
    assert(lower("SHA-256"@) =~= lower("sha-256"@));
    assert(h.skip(8) =~= encoded);
    assert(digest_entry_matches(split_commas(h)[0], encoded));
}

fn digest_entry_check(entry: &str, expected: &Vec<char>) -> (matches: bool)
    ensures
        matches == digest_entry_matches(entry@, expected@),
{
    let chars = chars_of(entry);
    let (a, e) = trim_span(chars.as_slice(), 0, chars.len());
    proof {
        assert(chars@.subrange(0, chars@.len() as int) =~= chars@);
    }
    let ghost t = chars@.subrange(a as int, e as int);
    let found = find_char(chars.as_slice(), '=', a, e);
    proof {
        lemma_find_window(
            chars@,
            '=',
            a as int,
            e as int,
            match found {
                Some(i) => Some(i as int),
                None => None,
            },
        );
    }
    match found {
        Some(i) => {
            let algorithm = string_of(chars.as_slice(), a, i);
            let value = string_of(chars.as_slice(), i + 1, e);
            let algorithm_chars = chars_of(algorithm.as_str());
            let value_chars = chars_of(value.as_str());
            let sha = chars_of("sha-256");
            proof {
                assert(t.take(i - a) =~= algorithm@);
                assert(t.skip(i - a + 1) =~= value@);
            }
            chars_eq_ignore_case(algorithm_chars.as_slice(), sha.as_slice()) && chars_eq(
                value_chars.as_slice(),
                expected.as_slice(),
            )
        },
        None => false,
    }
}

/// Checks a request's `Digest` header against its body.
pub fn verify_request_digest(digest: Option<&str>, body: &[u8]) -> (verdict: Result<(), u16>)
    ensures
        verdict == digest_verdict(
            match digest {
                Some(d) => Some(d@),
                None => None,
            },
            body@,
        ),
{
    let text = match digest {
        Some(d) => d,
        None => {
            return Err(UNAUTHORIZED);
        },
    };
    let hash = sha256_digest(body);
    let encoded = base64_encode(hash.as_slice());
    let expected = chars_of(encoded.as_str());
    let entries = crate::negotiation::split_at_commas(text);
    let ghost es = entries@.map_values(|p: String| p@);
    let n = entries.len();
    for k in 0..n
        invariant
            n == entries@.len(),
            es == entries@.map_values(|p: String| p@),
            es == split_commas(text@),
            digest == Some(text),
            expected@ == base64_standard(sha256(body@)),
            forall|j: int| 0 <= j < k ==> !digest_entry_matches(#[trigger] es[j], expected@),
    {
        if digest_entry_check(entries[k].as_str(), &expected) {
            assert(0 <= k < split_commas(text@).len());
            assert(digest_entry_matches(split_commas(text@)[k as int], base64_standard(sha256(body@))));
            let ghost kk = k as int;
            assert(exists|j: int|
                0 <= j < split_commas(text@).len() && digest_entry_matches(
                    #[trigger] split_commas(text@)[j],
                    base64_standard(sha256(body@)),
                )) by {
                assert(0 <= kk < split_commas(text@).len() && digest_entry_matches(
                    split_commas(text@)[kk],
                    base64_standard(sha256(body@)),
                ));
            }
            assert(has_matching_entry(text@, base64_standard(sha256(body@))));
            return Ok(());
        }
    }
    Err(UNAUTHORIZED)
}

/// The value of the first header named `name`, if any: `Some(None)` when
/// that value is not visible ASCII text.
pub open spec fn first_value(headers: Seq<(Seq<char>, Option<Seq<char>>)>, name: Seq<char>) -> Option<
    Option<Seq<char>>,
>
    decreases headers.len(),
{
    if headers.len() == 0 {
        None
    } else if headers[0].0 == name {
        Some(headers[0].1)
    } else {
        first_value(headers.drop_first(), name)
    }
}

/// The values of all headers named `name`, in order.
pub open spec fn all_values(headers: Seq<(Seq<char>, Option<Seq<char>>)>, name: Seq<char>) -> Seq<
    Option<Seq<char>>,
>
    decreases headers.len(),
{
    if headers.len() == 0 {
        Seq::empty()
    } else {
        let before = all_values(headers.drop_last(), name);
        if headers.last().0 == name {
            before.push(headers.last().1)
        } else {
            before
        }
    }
}

/// The views of request headers.
pub open spec fn headers_view(headers: Seq<(String, Option<String>)>) -> Seq<
    (Seq<char>, Option<Seq<char>>),
> {
    headers.map_values(
        |h: (String, Option<String>)|
            (
                h.0@,
                match h.1 {
                    Some(v) => Some(v@),
                    None => None,
                },
            ),
    )
}

/// The first value of header `name` when it is text.
pub open spec fn header_text(headers: Seq<(Seq<char>, Option<Seq<char>>)>, name: Seq<char>) -> Option<
    Seq<char>,
> {
    match first_value(headers, name) {
        Some(Some(v)) => Some(v),
        _ => None,
    }
}

fn lookup_first<'a>(headers: &'a [(String, Option<String>)], name: &str) -> (value: Option<&'a str>)
    ensures
        match header_text(headers_view(headers@), name@) {
            Some(v) => value matches Some(x) && x@ == v,
            None => value is None,
        },
{
    let ghost hv = headers_view(headers@);
    let n = headers.len();
    assert(hv.skip(0) =~= hv);
    for k in 0..n
        invariant
            n == headers@.len(),
            hv == headers_view(headers@),
            first_value(hv, name@) == first_value(hv.skip(k as int), name@),
    {
        proof {
            assert(hv.skip(k as int)[0] == hv[k as int]);
            assert(hv.skip(k as int).drop_first() =~= hv.skip(k + 1));
        }
        if str_eq(headers[k].0.as_str(), name) {
            return match &headers[k].1 {
                Some(v) => Some(v.as_str()),
                None => None,
            };
        }
    }
    proof {
        assert(hv.skip(n as int) =~= Seq::<(Seq<char>, Option<Seq<char>>)>::empty());
    }
    None
}

/// Whether a signed header name is a pseudo-header such as `(created)`.
pub open spec fn is_pseudo_header(name: Seq<char>) -> bool {
    name.len() > 0 && name[0] == '('
}

/// Whether the signed header names after the first are acceptable: none is
/// a pseudo-header, none repeats, each names exactly one request header with
/// a text value, and `host`, `date` and `digest` are among them.
pub open spec fn signed_names_valid(
    names: Seq<Seq<char>>,
    headers: Seq<(Seq<char>, Option<Seq<char>>)>,
) -> bool {
    let rest = names.skip(1);
    &&& forall|i: int| 0 <= i < rest.len() ==> !is_pseudo_header(#[trigger] rest[i])
    &&& rest.no_duplicates()
    &&& forall|i: int|
        0 <= i < rest.len() ==> (#[trigger] all_values(headers, rest[i])).len() == 1 && all_values(
            headers,
            rest[i],
        )[0] is Some
    &&& rest.contains("host"@)
    &&& rest.contains("date"@)
    &&& rest.contains("digest"@)
}

/// The signed headers, in their declared order, with their values.
pub open spec fn signed_header_values(
    names: Seq<Seq<char>>,
    headers: Seq<(Seq<char>, Option<Seq<char>>)>,
) -> Seq<(Seq<char>, Seq<char>)> {
    names.skip(1).map_values(|n: Seq<char>| (n, all_values(headers, n)[0]->Some_0))
}

/// The parts of a signed request that the key lookup and the signature
/// check need.
#[derive(Debug, PartialEq, Eq)]
pub struct SignedRequest {
    pub key_id: Iri,
    pub headers: Vec<(String, String)>,
    pub signature: String,
}

/// The model of a [`SignedRequest`].
pub ghost struct SignedRequestView {
    pub key_id: Seq<char>,
    pub headers: Seq<(Seq<char>, Seq<char>)>,
    pub signature: Seq<char>,
}

impl View for SignedRequest {
    type V = SignedRequestView;

    open spec fn view(&self) -> SignedRequestView {
        SignedRequestView {
            key_id: self.key_id@,
            headers: self.headers@.map_values(|h: (String, String)| (h.0@, h.1@)),
            signature: self.signature@,
        }
    }
}

/// The verdict on a request's signature headers before any key is fetched:
/// the `Signature` header must parse, use `rsa-sha256`, sign
/// `(request-target)` first and then acceptable headers including `host`,
/// `date` and `digest`; the signed `Host`, `Date` and `Digest` must hold;
/// and the key identifier must be an IRI.
pub open spec fn signed_request_verdict(
    headers: Seq<(Seq<char>, Option<Seq<char>>)>,
    body: Seq<u8>,
    expected_host: Seq<char>,
    inbox_scheme: Seq<char>,
    now_secs: u64,
    now_nanos: u32,
) -> Result<SignedRequestView, u16> {
    match header_text(headers, "signature"@) {
        None => Err(UNAUTHORIZED),
        Some(text) => match parsed_signature(text) {
            None => Err(UNAUTHORIZED),
            Some(sig) => if sig.algorithm != "rsa-sha256"@ || sig.signed_headers[0]
                != "(request-target)"@ {
                Err(UNAUTHORIZED)
            } else if !signed_names_valid(sig.signed_headers, headers) {
                Err(UNAUTHORIZED)
            } else if host_verdict(
                header_text(headers, "host"@),
                expected_host,
                inbox_scheme,
            ) is Err {
                Err(host_verdict(header_text(headers, "host"@), expected_host, inbox_scheme)->Err_0)
            } else if date_verdict(header_text(headers, "date"@), now_secs, now_nanos) is Err {
                Err(UNAUTHORIZED)
            } else if digest_verdict(header_text(headers, "digest"@), body) is Err {
                Err(UNAUTHORIZED)
            } else if !is_absolute_iri(sig.key_id) {
                Err(UNAUTHORIZED)
            } else {
                Ok(
                    SignedRequestView {
                        key_id: sig.key_id,
                        headers: signed_header_values(sig.signed_headers, headers),
                        signature: sig.signature,
                    },
                )
            },
        },
    }
}

fn count_values(headers: &[(String, Option<String>)], name: &str) -> (found: (usize, usize))
    ensures
        found.0 == all_values(headers_view(headers@), name@).len(),
        found.0 > 0 ==> found.1 < headers@.len() && all_values(headers_view(headers@), name@)[0]
            == headers_view(headers@)[found.1 as int].1,
{
    let ghost hv = headers_view(headers@);
    let mut count: usize = 0;
    let mut first: usize = 0;
    let n = headers.len();
    assert(hv.take(0) =~= Seq::<(Seq<char>, Option<Seq<char>>)>::empty());
    for k in 0..n
        invariant
            n == headers@.len(),
            hv == headers_view(headers@),
            count == all_values(hv.take(k as int), name@).len(),
            count <= k,
            count > 0 ==> first < k && all_values(hv.take(k as int), name@)[0] == hv[first as int].1,
    {
        proof {
            assert(hv.take(k + 1).drop_last() =~= hv.take(k as int));
            assert(hv.take(k + 1).last() == hv[k as int]);
        }
        if str_eq(headers[k].0.as_str(), name) {
            if count == 0 {
                first = k;
            }
            count = count + 1;
        }
    }
    assert(hv.take(n as int) =~= hv);
    (count, first)
}

fn starts_with_paren(name: &str) -> (pseudo: bool)
    ensures
        pseudo == is_pseudo_header(name@),
{
    let chars = chars_of(name);
    chars.len() > 0 && chars[0] == '('
}

/// Collects the signed headers after `(request-target)` with their values.
fn collect_signed_headers(names: &Vec<String>, headers: &[(String, Option<String>)]) -> (collected:
    Option<Vec<(String, String)>>)
    requires
        names@.len() > 0,
    ensures
        ({
            let nv = names@.map_values(|n: String| n@);
            let hv = headers_view(headers@);
            if signed_names_valid(nv, hv) {
                collected matches Some(c) && c@.map_values(|h: (String, String)| (h.0@, h.1@))
                    == signed_header_values(nv, hv)
            } else {
                collected is None
            }
        }),
{
    let ghost nv = names@.map_values(|n: String| n@);
    let ghost hv = headers_view(headers@);
    let ghost rest = nv.skip(1);
    let mut out: Vec<(String, String)> = Vec::new();
    let mut has_host = false;
    let mut has_date = false;
    let mut has_digest = false;
    let n = names.len();
    assert(rest.take(0) =~= Seq::<Seq<char>>::empty());
    assert(out@.map_values(|h: (String, String)| (h.0@, h.1@)) =~= rest.take(0).map_values(
        |m: Seq<char>| (m, all_values(hv, m)[0]->Some_0),
    ));
    for i in 1..n
        invariant
            n == names@.len(),
            n > 0,
            nv == names@.map_values(|m: String| m@),
            hv == headers_view(headers@),
            rest == nv.skip(1),
            forall|t: int| 0 <= t < i - 1 ==> !is_pseudo_header(#[trigger] rest[t]),
            forall|t: int|
                0 <= t < i - 1 ==> (#[trigger] all_values(hv, rest[t])).len() == 1 && all_values(
                    hv,
                    rest[t],
                )[0] is Some,
            rest.take(i - 1).no_duplicates(),
            out@.map_values(|h: (String, String)| (h.0@, h.1@)) == rest.take(i - 1).map_values(
                |m: Seq<char>| (m, all_values(hv, m)[0]->Some_0),
            ),
            has_host == rest.take(i - 1).contains("host"@),
            has_date == rest.take(i - 1).contains("date"@),
            has_digest == rest.take(i - 1).contains("digest"@),
    {
        let name = &names[i];
        assert(rest[i - 1] == name@);
        if starts_with_paren(name.as_str()) {
            return None;
        }
        let mut k: usize = 1;
        while k < i
            invariant
                1 <= k <= i < n,
                n == names@.len(),
                nv == names@.map_values(|m: String| m@),
                rest == nv.skip(1),
                rest[i - 1] == name@,
                forall|t: int| 0 <= t < k - 1 ==> #[trigger] rest[t] != name@,
            decreases i - k,
        {
            if names[k] == *name {
                assert(rest[k - 1] == name@);
                assert(!rest.no_duplicates());
                return None;
            }
            k = k + 1;
        }
        let (count, first) = count_values(headers, name.as_str());
        if count != 1 {
            return None;
        }
        let value = match &headers[first].1 {
            Some(v) => v,
            None => {
                return None;
            },
        };
        let ghost before = out@.map_values(|h: (String, String)| (h.0@, h.1@));
        assert(hv[first as int].1 == Some(value@));
        assert(all_values(hv, name@)[0]->Some_0 == value@);
        if str_eq(name.as_str(), "host") {
            has_host = true;
        }
        if str_eq(name.as_str(), "date") {
            has_date = true;
        }
        if str_eq(name.as_str(), "digest") {
            has_digest = true;
        }
        out.push((name.clone(), value.clone()));
        proof {
            assert(rest.take(i as int).drop_last() =~= rest.take(i - 1));
            assert(rest.take(i as int).last() == name@);
            assert(out@.map_values(|h: (String, String)| (h.0@, h.1@)) =~= before.push(
                (name@, value@),
            ));
            assert(out@.map_values(|h: (String, String)| (h.0@, h.1@)) =~= rest.take(
                i as int,
            ).map_values(|m: Seq<char>| (m, all_values(hv, m)[0]->Some_0)));
            assert(rest.take(i as int).no_duplicates()) by {
                let r = rest.take(i as int);
                assert forall|a: int, b: int| 0 <= a < r.len() && 0 <= b < r.len() && a != b implies r[a]
                    != r[b] by {
                    if a < i - 1 && b < i - 1 {
                        assert(rest.take(i - 1)[a] == r[a]);
                        assert(rest.take(i - 1)[b] == r[b]);
                    } else if a == i - 1 {
                        assert(r[b] == rest[b]);
                    } else {
                        assert(r[a] == rest[a]);
                    }
                }
            }
            assert(rest.take(i as int).contains("host"@) == (rest.take(i - 1).contains("host"@)
                || name@ == "host"@));
            assert(rest.take(i as int).contains("date"@) == (rest.take(i - 1).contains("date"@)
                || name@ == "date"@));
            assert(rest.take(i as int).contains("digest"@) == (rest.take(i - 1).contains(
                "digest"@,
            ) || name@ == "digest"@));
        }
    }
    proof {
        assert(rest.take(n - 1) =~= rest);
    }
    if !(has_host && has_date && has_digest) {
        return None;
    }
    Some(out)
}

/// Checks a request's signature headers before any key is fetched.
pub fn check_signed_request(
    headers: &[(String, Option<String>)],
    body: &[u8],
    expected_host: &str,
    inbox_scheme: &str,
    now_secs: u64,
    now_nanos: u32,
) -> (verdict: Result<SignedRequest, u16>)
    requires
        now_nanos < 1_000_000_000,
    ensures
        match signed_request_verdict(
            headers_view(headers@),
            body@,
            expected_host@,
            inbox_scheme@,
            now_secs,
            now_nanos,
        ) {
            Ok(v) => verdict matches Ok(r) && r@ == v,
            Err(e) => verdict == Err::<SignedRequest, u16>(e),
        },
{
    let text = match lookup_first(headers, "signature") {
        Some(t) => t,
        None => {
            return Err(UNAUTHORIZED);
        },
    };
    let parsed = match parse_signature_header(text) {
        Some(p) => p,
        None => {
            return Err(UNAUTHORIZED);
        },
    };
    if !str_eq(parsed.algorithm.as_str(), "rsa-sha256") || !str_eq(
        parsed.signed_headers[0].as_str(),
        "(request-target)",
    ) {
        return Err(UNAUTHORIZED);
    }
    let signed = match collect_signed_headers(&parsed.signed_headers, headers) {
        Some(s) => s,
        None => {
            return Err(UNAUTHORIZED);
        },
    };
    verify_request_host(lookup_first(headers, "host"), expected_host, inbox_scheme)?;
    if verify_request_date(lookup_first(headers, "date"), now_secs, now_nanos).is_err() {
        return Err(UNAUTHORIZED);
    }
    if verify_request_digest(lookup_first(headers, "digest"), body).is_err() {
        return Err(UNAUTHORIZED);
    }
    let key_id = match Iri::parse(parsed.key_id.as_str()) {
        Some(i) => i,
        None => {
            return Err(UNAUTHORIZED);
        },
    };
    Ok(SignedRequest { key_id, headers: signed, signature: parsed.signature })
}

/// Whether a fetched key may vouch for a request by `activity_actor_id`: its
/// owner is that actor.
pub fn key_owned_by(key: &CryptographicKey, activity_actor_id: &Iri) -> (owned: bool)
    ensures
        owned == (key.owner@ == activity_actor_id@),
{
    key.owner.same(activity_actor_id)
}

/// Whether `actor` advertises `key` as its own: by the key's identifier, or
/// by embedding the same key, owned by the actor, with the same PEM text.
pub open spec fn actor_owns_key_spec(actor: ActorView, key: CryptographicKeyView) -> bool {
    match actor.public_key {
        Some(ReferenceView::Id(id)) => id == key.id,
        Some(ReferenceView::Object(advertised)) => advertised.id == key.id && advertised.owner
            == actor.id && advertised.public_key_pem == key.public_key_pem,
        None => false,
    }
}

/// Whether `actor` advertises `key` as its own.
pub fn actor_owns_key(actor: &Actor, key: &CryptographicKey) -> (owned: bool)
    ensures
        owned == actor_owns_key_spec(actor@, key@),
{
    match &actor.public_key {
        Some(Reference::Id(id)) => id.same(&key.id),
        Some(Reference::Object(advertised)) => advertised.id.same(&key.id) && advertised.owner.same(
            &actor.id,
        ) && str_eq(advertised.public_key_pem.as_str(), key.public_key_pem.as_str()),
        None => false,
    }
}

/// Checks a signed request's signature with a fetched key: the key must
/// belong to the activity's actor and the draft-Cavage signature over
/// `method`, `request_target` and the signed headers must verify.
pub fn verify_request_signature(
    request: &SignedRequest,
    key: &CryptographicKey,
    activity_actor_id: &Iri,
    method: &str,
    request_target: &str,
) -> (verdict: Result<(), u16>)
    ensures
        verdict is Ok <==> (key.owner@ == activity_actor_id@ && draft_cavage_accepts(
            key.public_key_pem@,
            method@,
            request_target@,
            request@.headers,
            request@.signature,
        )),
        verdict is Err ==> verdict == Err::<(), u16>(UNAUTHORIZED),
{
    if !key_owned_by(key, activity_actor_id) {
        return Err(UNAUTHORIZED);
    }
    let mut pairs: Vec<(&str, &str)> = Vec::new();
    let n = request.headers.len();
    for k in 0..n
        invariant
            n == request.headers@.len(),
            pairs@.len() == k,
            forall|j: int|
                0 <= j < k ==> (#[trigger] pairs@[j]).0@ == request.headers@[j].0@ && pairs@[j].1@
                    == request.headers@[j].1@,
    {
        pairs.push((request.headers[k].0.as_str(), request.headers[k].1.as_str()));
    }
    proof {
        assert(header_views(pairs@) =~= request@.headers);
    }
    match verify_draft_cavage(
        key.public_key_pem.as_str(),
        method,
        request_target,
        pairs.as_slice(),
        request.signature.as_str(),
    ) {
        Ok(()) => Ok(()),
        Err(_) => Err(UNAUTHORIZED),
    }
}

/// An actor owns a key exactly when it advertises it: its `publicKey` names
/// the key's identifier, or embeds a key with that identifier, owned by the
/// actor, with the same PEM text. A `publicKey` that names another
/// identifier, or none at all, owns nothing.
pub proof fn lemma_actor_owns_advertised_key(actor: ActorView, key: CryptographicKeyView)
    ensures
        actor.public_key == Some(ReferenceView::<CryptographicKeyView>::Id(key.id)) ==> actor_owns_key_spec(actor, key),
        (actor.public_key == Some(ReferenceView::Object(key)) && key.owner == actor.id) ==> actor_owns_key_spec(actor, key),
        (actor.public_key matches Some(ReferenceView::Id(i)) && i != key.id) ==> !actor_owns_key_spec(actor, key),
        (actor.public_key matches Some(ReferenceView::Object(k)) && (k.id != key.id || k.owner != actor.id || k.public_key_pem != key.public_key_pem)) ==> !actor_owns_key_spec(actor, key),
        actor.public_key is None ==> !actor_owns_key_spec(actor, key),
{
}

} // verus!
