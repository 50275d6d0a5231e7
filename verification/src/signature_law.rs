//! A signed request's `Signature` header parses back to what was signed.
//!
//! [`crate::http_signatures::sign_draft_cavage`] writes its header as
//! [`signature_header`]; [`parsed_signature`], which
//! [`crate::signature_header::parse_signature_header`] computes, recovers from
//! it the key identifier, the algorithm, the signed header names after
//! `(request-target)` and the signature, whenever the key identifier and the
//! names can be carried inside a quoted string.

use vstd::prelude::*;

use crate::http_signatures::{joined_names, signature_header};
use crate::signature_header::{
    ascii_words, has_parameter, is_ascii_white, is_control, next_ascii, parameter,
    parameters_from, parsed_signature, quoted_at, quoted_scan, valid_parameter_name,
    ParsedSignatureView,
};
use crate::text::{find_from, lower, skip_space, trim, trim_end_at};

verus! {

/// Whether a quoted string carries `c` as it is: not a quote, a backslash
/// or a control character.
pub open spec fn is_plain(c: char) -> bool {
    c != '"' && c != '\\' && !is_control(c)
}

/// Whether every character of `s` is carried as it is.
pub open spec fn plain_text(s: Seq<char>) -> bool {
    forall|k: int| 0 <= k < s.len() ==> is_plain(#[trigger] s[k])
}

/// Whether `name` can be listed in a signature's `headers` parameter: not
/// empty, carried as it is, and free of ASCII whitespace.
pub open spec fn is_listable_name(name: Seq<char>) -> bool {
    &&& name.len() > 0
    &&& plain_text(name)
    &&& forall|k: int| 0 <= k < name.len() ==> !is_ascii_white(#[trigger] name[k])
}

/// A character of a parameter name.
pub open spec fn is_name_char(c: char) -> bool {
    ('a' <= c <= 'z') || ('A' <= c <= 'Z') || ('0' <= c <= '9') || c == '-' || c == '_'
}

proof fn lemma_find_at(s: Seq<char>, c: char, start: int, e: int)
    requires
        0 <= start <= e < s.len(),
        s[e] == c,
        forall|k: int| start <= k < e ==> s[k] != c,
    ensures
        find_from(s, c, start) == Some(e),
    decreases e - start,
{
    if start < e {
        lemma_find_at(s, c, start + 1, e);
    }
}

proof fn lemma_quoted_plain(s: Seq<char>, i: int, value: Seq<char>, n: int)
    requires
        0 <= i,
        0 <= n,
        i + n < s.len(),
        forall|k: int| i <= k < i + n ==> is_plain(#[trigger] s[k]),
        s[i + n] == '"',
    ensures
        quoted_scan(s, i, false, value) == Some((value + s.subrange(i, i + n), i + n + 1)),
    decreases n,
{
    if n == 0 {
        assert(value + s.subrange(i, i) =~= value);
    } else {
        assert(is_plain(s[i]));
        lemma_quoted_plain(s, i + 1, value.push(s[i]), n - 1);
        assert(value.push(s[i]) + s.subrange(i + 1, i + n) =~= value + s.subrange(i, i + n));
    }
}

proof fn lemma_trim_name(name: Seq<char>)
    requires
        name.len() > 0,
        forall|k: int| 0 <= k < name.len() ==> is_name_char(#[trigger] name[k]),
    ensures
        trim(name) == name,
        valid_parameter_name(name),
{
    assert(is_name_char(name[0]));
    assert(is_name_char(name[name.len() - 1]));
    assert(skip_space(name, 0) == 0);
    assert(trim_end_at(name, 0, name.len() as int) == name.len());
    assert(name.subrange(0, name.len() as int) =~= name);
}

/// One `name="value"` parameter at `s[i]`, followed by the end of `s` or
/// a comma.
proof fn lemma_parameter_step(
    s: Seq<char>,
    i: int,
    name: Seq<char>,
    value: Seq<char>,
    params: Seq<(Seq<char>, Seq<char>)>,
)
    requires
        0 <= i,
        i + name.len() + value.len() + 3 <= s.len(),
        name.len() > 0,
        forall|k: int| 0 <= k < name.len() ==> is_name_char(#[trigger] name[k]),
        s.subrange(i, i + name.len()) == name,
        s[i + name.len()] == '=',
        s[i + name.len() + 1] == '"',
        s.subrange(i + name.len() + 2, i + name.len() + 2 + value.len()) == value,
        plain_text(value),
        s[i + name.len() + 2 + value.len()] == '"',
        !has_parameter(params, lower(name)),
    ensures
        i + name.len() + value.len() + 3 == s.len() ==> parameters_from(s, i, params) == Some(
            params.push((lower(name), value)),
        ),
        i + name.len() + value.len() + 3 < s.len() && s[i + name.len() + value.len() + 3] == ','
            ==> parameters_from(s, i, params) == parameters_from(
            s,
            i + name.len() + value.len() + 4,
            params.push((lower(name), value)),
        ),
{
    let e = i + name.len();
    let v = e + 2;
    let end = v + value.len() + 1;
    assert(s[i] == name[0]);
    assert(is_name_char(name[0]));
    assert(skip_space(s, i) == i);
    assert forall|k: int| i <= k < e implies s[k] != '=' by {
        assert(s[k] == name[k - i]);
        assert(is_name_char(name[k - i]));
    }
    lemma_find_at(s, '=', i, e);
    lemma_trim_name(name);
    assert(s.subrange(i, e) == name);
    assert(skip_space(s, e + 1) == e + 1);
    assert forall|k: int| v <= k < v + value.len() implies is_plain(#[trigger] s[k]) by {
        assert(s[k] == value[k - v]);
    }
    lemma_quoted_plain(s, v, Seq::empty(), value.len() as int);
    assert(Seq::<char>::empty() + s.subrange(v, v + value.len()) =~= value);
    assert(quoted_at(s, e + 1) == Some((value, end)));
    if end < s.len() && s[end] == ',' {
        assert(skip_space(s, end) == end);
    } else if end == s.len() {
        assert(skip_space(s, end) == end);
    }
}

/// Words joined by single spaces.
pub open spec fn spaced(words: Seq<Seq<char>>) -> Seq<char>
    decreases words.len(),
{
    if words.len() == 0 {
        Seq::empty()
    } else if words.len() == 1 {
        words[0]
    } else {
        words[0] + " "@ + spaced(words.drop_first())
    }
}

proof fn lemma_spaced_push(words: Seq<Seq<char>>, w: Seq<char>)
    requires
        words.len() > 0,
    ensures
        spaced(words.push(w)) == spaced(words) + " "@ + w,
    decreases words.len(),
{
    let pushed = words.push(w);
    assert(pushed[0] == words[0]);
    if words.len() == 1 {
        assert(pushed.drop_first() =~= seq![w]);
        assert(spaced(seq![w]) == w);
        assert(spaced(pushed) == words[0] + " "@ + w);
    } else {
        lemma_spaced_push(words.drop_first(), w);
        assert(pushed.drop_first() =~= words.drop_first().push(w));
        assert(spaced(pushed) == words[0] + " "@ + spaced(words.drop_first().push(w)));
        assert(spaced(pushed) =~= spaced(words) + " "@ + w);
    }
}

/// The lowercased names of signed headers.
pub open spec fn lowered_names(headers: Seq<(Seq<char>, Seq<char>)>) -> Seq<Seq<char>> {
    headers.map_values(|h: (Seq<char>, Seq<char>)| lower(h.0))
}

proof fn lemma_joined_names_spaced(headers: Seq<(Seq<char>, Seq<char>)>)
    ensures
        joined_names(headers) == spaced(lowered_names(headers)),
    decreases headers.len(),
{
    if headers.len() == 0 {
        assert(lowered_names(headers) =~= Seq::<Seq<char>>::empty());
    } else if headers.len() == 1 {
        assert(lowered_names(headers) =~= seq![lower(headers[0].0)]);
    } else {
        lemma_joined_names_spaced(headers.drop_last());
        assert(lowered_names(headers) =~= lowered_names(headers.drop_last()).push(
            lower(headers.last().0),
        ));
        lemma_spaced_push(lowered_names(headers.drop_last()), lower(headers.last().0));
    }
}

proof fn lemma_next_run(s: Seq<char>, i: int, n: int, white: bool)
    requires
        0 <= i,
        0 <= n,
        i + n <= s.len(),
        forall|k: int| i <= k < i + n ==> is_ascii_white(#[trigger] s[k]) != white,
        i + n == s.len() || is_ascii_white(s[i + n]) == white,
    ensures
        next_ascii(s, i, white) == i + n,
    decreases n,
{
    if n > 0 {
        assert(is_ascii_white(s[i]) != white);
        lemma_next_run(s, i + 1, n - 1, white);
    }
}

proof fn lemma_words_skip_space(s: Seq<char>, e: int)
    requires
        0 <= e < s.len(),
        is_ascii_white(s[e]),
    ensures
        ascii_words(s, e) == ascii_words(s, e + 1),
{
    assert(next_ascii(s, e, false) == next_ascii(s, e + 1, false));
}

/// Whether every word is listable.
pub open spec fn all_listable(words: Seq<Seq<char>>) -> bool {
    forall|k: int| 0 <= k < words.len() ==> is_listable_name(#[trigger] words[k])
}

proof fn lemma_words_of_spaced(s: Seq<char>, i: int, words: Seq<Seq<char>>)
    requires
        0 <= i <= s.len(),
        words.len() > 0,
        all_listable(words),
        s.subrange(i, s.len() as int) == spaced(words),
    ensures
        ascii_words(s, i) == words,
    decreases words.len(),
{
    reveal_strlit(" ");
    let w = words[0];
    let n = w.len() as int;
    assert(is_listable_name(w));
    if words.len() == 1 {
        assert(spaced(words) == w);
    } else {
        assert(spaced(words) == w + " "@ + spaced(words.drop_first()));
    }
    assert(s.subrange(i, i + n) =~= w);
    assert forall|k: int| i <= k < i + n implies is_ascii_white(#[trigger] s[k]) != true by {
        assert(s[k] == s.subrange(i, s.len() as int)[k - i]);
        assert(s[k] == w[k - i]);
    }
    assert(s[i] == w[0]);
    lemma_next_run(s, i, 0, false);
    if words.len() == 1 {
        lemma_next_run(s, i, n, true);
        assert(next_ascii(s, i + n, false) == i + n);
        assert(ascii_words(s, i + n) =~= Seq::<Seq<char>>::empty());
        assert(ascii_words(s, i) =~= seq![w]);
        assert(words =~= seq![w]);
    } else {
        let rest = words.drop_first();
        assert(s[i + n] == s.subrange(i, s.len() as int)[n]);
        assert(s[i + n] == ' ');
        lemma_next_run(s, i, n, true);
        lemma_words_skip_space(s, i + n);
        let t = s.subrange(i, s.len() as int);
        assert(t == w + " "@ + spaced(rest));
        assert(s.subrange(i + n + 1, s.len() as int) =~= t.subrange(n + 1, t.len() as int));
        assert(t.subrange(n + 1, t.len() as int) =~= spaced(rest));
        assert forall|k: int| 0 <= k < rest.len() implies is_listable_name(#[trigger] rest[k]) by {
            assert(rest[k] == words[k + 1]);
        }
        lemma_words_of_spaced(s, i + n + 1, rest);
        assert(ascii_words(s, i) =~= seq![w] + rest);
        assert(words =~= seq![w] + rest);
    }
}

proof fn lemma_lower_keeps_listable(name: Seq<char>)
    requires
        is_listable_name(name),
    ensures
        is_listable_name(lower(name)),
        lower(lower(name)) == lower(name),
{
    assert forall|k: int| 0 <= k < lower(name).len() implies is_plain(#[trigger] lower(name)[k])
        && !is_ascii_white(lower(name)[k]) by {
        assert(is_plain(name[k]));
        assert(!is_ascii_white(name[k]));
    }
    assert(lower(lower(name)) =~= lower(name));
}

proof fn lemma_spaced_plain(words: Seq<Seq<char>>)
    requires
        all_listable(words),
    ensures
        plain_text(spaced(words)),
    decreases words.len(),
{
    reveal_strlit(" ");
    if words.len() == 1 {
        assert(is_listable_name(words[0]));
    } else if words.len() > 1 {
        let rest = words.drop_first();
        assert forall|k: int| 0 <= k < rest.len() implies is_listable_name(#[trigger] rest[k]) by {
            assert(rest[k] == words[k + 1]);
        }
        lemma_spaced_plain(rest);
        assert(is_listable_name(words[0]));
        let t = words[0] + " "@ + spaced(rest);
        assert forall|k: int| 0 <= k < t.len() implies is_plain(#[trigger] t[k]) by {
            if k < words[0].len() {
                assert(t[k] == words[0][k]);
            } else if k > words[0].len() {
                assert(t[k] == spaced(rest)[k - words[0].len() - 1]);
            }
        }
    }
}

/// The signed header names as a signature lists them: `(request-target)`,
/// then each header's name, lowercased.
pub open spec fn listed_names(headers: Seq<(Seq<char>, Seq<char>)>) -> Seq<Seq<char>> {
    seq!["(request-target)"@] + lowered_names(headers)
}

/// Whether every header name can be listed in a signature.
pub open spec fn listable_headers(headers: Seq<(Seq<char>, Seq<char>)>) -> bool {
    forall|k: int| 0 <= k < headers.len() ==> is_listable_name(#[trigger] headers[k].0)
}

proof fn lemma_header_words(headers: Seq<(Seq<char>, Seq<char>)>)
    requires
        listable_headers(headers),
    ensures
        ascii_words("(request-target) "@ + joined_names(headers), 0).map_values(
            |w: Seq<char>| lower(w),
        ) == listed_names(headers),
        plain_text("(request-target) "@ + joined_names(headers)),
{
    reveal_strlit("(request-target) ");
    reveal_strlit("(request-target)");
    reveal_strlit(" ");
    let rt = "(request-target)"@;
    let names = lowered_names(headers);
    lemma_joined_names_spaced(headers);
    assert forall|k: int| 0 <= k < names.len() implies is_listable_name(#[trigger] names[k]) by {
        assert(names[k] == lower(headers[k].0));
        assert(is_listable_name(headers[k].0));
        lemma_lower_keeps_listable(headers[k].0);
    }
    let listed = listed_names(headers);
    assert(is_listable_name(rt));
    assert forall|k: int| 0 <= k < listed.len() implies is_listable_name(#[trigger] listed[k]) by {
        if k > 0 {
            assert(listed[k] == names[k - 1]);
        }
    }
    let hv = "(request-target) "@ + joined_names(headers);
    if headers.len() == 0 {
        assert(joined_names(headers) =~= Seq::<char>::empty());
        assert(hv =~= "(request-target) "@);
        lemma_next_run(hv, 0, 0, false);
        lemma_next_run(hv, 0, 16, true);
        lemma_words_skip_space(hv, 16);
        assert(next_ascii(hv, 17, false) == 17);
        assert(ascii_words(hv, 17) =~= Seq::<Seq<char>>::empty());
        assert(hv.subrange(0, 16) =~= rt);
        assert(ascii_words(hv, 0) =~= seq![rt]);
        assert(listed =~= seq![rt]);
    } else {
        assert(listed.drop_first() =~= names);
        assert(spaced(listed) == rt + " "@ + spaced(names));
        assert(hv =~= spaced(listed));
        assert(hv.subrange(0, hv.len() as int) =~= hv);
        lemma_words_of_spaced(hv, 0, listed);
        lemma_spaced_plain(listed);
    }
    assert(lower(rt) =~= rt);
    let lowered = ascii_words(hv, 0).map_values(|w: Seq<char>| lower(w));
    assert forall|k: int| 0 <= k < listed.len() implies #[trigger] lower(listed[k]) == listed[k] by {
        if k > 0 {
            assert(listed[k] == names[k - 1]);
            assert(names[k - 1] == lower(headers[k - 1].0));
            lemma_lower_keeps_listable(headers[k - 1].0);
        }
    }
    assert(lowered =~= listed);
    if headers.len() == 0 {
        assert forall|k: int| 0 <= k < hv.len() implies is_plain(#[trigger] hv[k]) by {}
    }
}

proof fn lemma_lookup(params: Seq<(Seq<char>, Seq<char>)>, k: int, name: Seq<char>)
    requires
        0 <= k < params.len(),
        params[k].0 == name,
        forall|j: int| 0 <= j < params.len() && j != k ==> #[trigger] params[j].0 != name,
    ensures
        parameter(params, name) == Some(params[k].1),
{
    assert(has_parameter(params, name));
    let c = choose|c: int| 0 <= c < params.len() && #[trigger] params[c].0 == name;
    assert(c == k);
}

proof fn lemma_header_layout(key_id: Seq<char>, j: Seq<char>, signature: Seq<char>)
    ensures
        ({
            let s = "keyId=\""@ + key_id + "\",algorithm=\"rsa-sha256\",headers=\"(request-target) "@
                + j + "\",signature=\""@ + signature + "\""@;
            let kl = key_id.len() as int;
            let jl = j.len() as int;
            let sl = signature.len() as int;
            &&& s.len() == 72 + kl + jl + sl
            &&& s.subrange(0, 5) == "keyId"@
            &&& s[5] == '='
            &&& s[6] == '"'
            &&& s.subrange(7, 7 + kl) == key_id
            &&& s[7 + kl] == '"'
            &&& s[8 + kl] == ','
            &&& s.subrange(9 + kl, 18 + kl) == "algorithm"@
            &&& s[18 + kl] == '='
            &&& s[19 + kl] == '"'
            &&& s.subrange(20 + kl, 30 + kl) == "rsa-sha256"@
            &&& s[30 + kl] == '"'
            &&& s[31 + kl] == ','
            &&& s.subrange(32 + kl, 39 + kl) == "headers"@
            &&& s[39 + kl] == '='
            &&& s[40 + kl] == '"'
            &&& s.subrange(41 + kl, 58 + kl + jl) == "(request-target) "@ + j
            &&& s[58 + kl + jl] == '"'
            &&& s[59 + kl + jl] == ','
            &&& s.subrange(60 + kl + jl, 69 + kl + jl) == "signature"@
            &&& s[69 + kl + jl] == '='
            &&& s[70 + kl + jl] == '"'
            &&& s.subrange(71 + kl + jl, 71 + kl + jl + sl) == signature
            &&& s[71 + kl + jl + sl] == '"'
        }),
{
    reveal_strlit("keyId=\"");
    reveal_strlit("\",algorithm=\"rsa-sha256\",headers=\"(request-target) ");
    reveal_strlit("\",signature=\"");
    reveal_strlit("\"");
    reveal_strlit("keyId");
    reveal_strlit("algorithm");
    reveal_strlit("rsa-sha256");
    reveal_strlit("headers");
    reveal_strlit("signature");
    reveal_strlit("(request-target) ");
    let p1 = "\",algorithm=\"rsa-sha256\",headers=\"(request-target) "@;
    let p2 = "\",signature=\""@;
    let a = "keyId=\""@ + key_id;
    let b = a + p1;
    let c = b + j;
    let d = c + p2;
    let e = d + signature;
    let s = e + "\""@;
    let kl = key_id.len() as int;
    let jl = j.len() as int;
    assert(s.subrange(0, 5) =~= "keyId"@);
    assert(s.subrange(7, 7 + kl) =~= key_id);
    assert(s.subrange(7 + kl, 58 + kl) =~= p1);
    assert(p1.subrange(2, 11) =~= "algorithm"@);
    assert(s.subrange(9 + kl, 18 + kl) =~= p1.subrange(2, 11));
    assert(p1.subrange(13, 23) =~= "rsa-sha256"@);
    assert(s.subrange(20 + kl, 30 + kl) =~= p1.subrange(13, 23));
    assert(p1.subrange(25, 32) =~= "headers"@);
    assert(s.subrange(32 + kl, 39 + kl) =~= p1.subrange(25, 32));
    assert(p1.subrange(34, 51) =~= "(request-target) "@);
    assert(s.subrange(41 + kl, 58 + kl + jl) =~= p1.subrange(34, 51) + j);
    assert(s.subrange(58 + kl + jl, 71 + kl + jl) =~= p2);
    assert(p2.subrange(2, 11) =~= "signature"@);
    assert(s.subrange(60 + kl + jl, 69 + kl + jl) =~= p2.subrange(2, 11));
    assert(s.subrange(71 + kl + jl, 71 + kl + jl + signature.len()) =~= signature);
}

proof fn lemma_four_parameters(key_id: Seq<char>, hv: Seq<char>, signature: Seq<char>)
    ensures
        ({
            let q = seq![
                ("keyid"@, key_id),
                ("algorithm"@, "rsa-sha256"@),
                ("headers"@, hv),
                ("signature"@, signature),
            ];
            &&& parameter(q, "keyid"@) == Some(key_id)
            &&& parameter(q, "algorithm"@) == Some("rsa-sha256"@)
            &&& parameter(q, "headers"@) == Some(hv)
            &&& parameter(q, "signature"@) == Some(signature)
        }),
{
    reveal_strlit("keyid");
    reveal_strlit("algorithm");
    reveal_strlit("headers");
    reveal_strlit("signature");
    let q = seq![
        ("keyid"@, key_id),
        ("algorithm"@, "rsa-sha256"@),
        ("headers"@, hv),
        ("signature"@, signature),
    ];
    assert("algorithm"@[0] != "signature"@[0]);
    assert("algorithm"@ != "signature"@);
    assert("keyid"@.len() == 5);
    assert("headers"@.len() == 7);
    assert("algorithm"@.len() == 9);
    assert("signature"@.len() == 9);
    lemma_lookup(q, 0, "keyid"@);
    lemma_lookup(q, 1, "algorithm"@);
    lemma_lookup(q, 2, "headers"@);
    lemma_lookup(q, 3, "signature"@);
}

/// The `Signature` header written for a key identifier, signed headers and
/// signature parses back to them: the algorithm `rsa-sha256`, the names
/// `(request-target)` and the lowercased header names, whenever the key
/// identifier and the signature are non-empty and carried as they are in a
/// quoted string, and every header name is listable.
pub proof fn lemma_signature_header_round_trip(
    key_id: Seq<char>,
    headers: Seq<(Seq<char>, Seq<char>)>,
    signature: Seq<char>,
)
    requires
        key_id.len() > 0,
        plain_text(key_id),
        signature.len() > 0,
        plain_text(signature),
        listable_headers(headers),
    ensures
        parsed_signature(signature_header(key_id, headers, signature)) == Some(
            ParsedSignatureView {
                key_id,
                algorithm: "rsa-sha256"@,
                signed_headers: listed_names(headers),
                signature,
            },
        ),
{
    let j = joined_names(headers);
    let s = signature_header(key_id, headers, signature);
    let kl = key_id.len() as int;
    let jl = j.len() as int;
    lemma_header_layout(key_id, j, signature);
    lemma_header_words(headers);
    let hv = "(request-target) "@ + j;
    lemma_names_step_facts();
    let q1 = Seq::<(Seq<char>, Seq<char>)>::empty().push(("keyid"@, key_id));
    lemma_parameter_step(s, 0, "keyId"@, key_id, Seq::empty());
    let q2 = q1.push(("algorithm"@, "rsa-sha256"@));
    lemma_parameter_step(s, 9 + kl, "algorithm"@, "rsa-sha256"@, q1);
    let q3 = q2.push(("headers"@, hv));
    lemma_parameter_step(s, 32 + kl, "headers"@, hv, q2);
    assert(q3 =~= seq![("keyid"@, key_id), ("algorithm"@, "rsa-sha256"@), ("headers"@, hv)]);
    assert(!has_parameter(
        seq![("keyid"@, key_id), ("algorithm"@, "rsa-sha256"@), ("headers"@, hv)],
        "signature"@,
    ));
    let q4 = q3.push(("signature"@, signature));
    lemma_parameter_step(s, 60 + kl + jl, "signature"@, signature, q3);
    assert(parameters_from(s, 0, Seq::empty()) == Some(q4));
    assert(q4 =~= seq![
        ("keyid"@, key_id),
        ("algorithm"@, "rsa-sha256"@),
        ("headers"@, hv),
        ("signature"@, signature),
    ]);
    lemma_four_parameters(key_id, hv, signature);
}

/// The facts about the four parameter names that parsing needs.
proof fn lemma_names_step_facts()
    ensures
        lower("keyId"@) == "keyid"@,
        lower("algorithm"@) == "algorithm"@,
        lower("headers"@) == "headers"@,
        lower("signature"@) == "signature"@,
        lower("rsa-sha256"@) == "rsa-sha256"@,
        forall|k: int| 0 <= k < "keyId"@.len() ==> is_name_char(#[trigger] "keyId"@[k]),
        forall|k: int| 0 <= k < "algorithm"@.len() ==> is_name_char(#[trigger] "algorithm"@[k]),
        forall|k: int| 0 <= k < "headers"@.len() ==> is_name_char(#[trigger] "headers"@[k]),
        forall|k: int| 0 <= k < "signature"@.len() ==> is_name_char(#[trigger] "signature"@[k]),
        plain_text("rsa-sha256"@),
        "keyId"@.len() == 5,
        "algorithm"@.len() == 9,
        "headers"@.len() == 7,
        "signature"@.len() == 9,
        "rsa-sha256"@.len() == 10,
        !has_parameter(seq![("keyid"@, Seq::<char>::empty())].take(0), "keyid"@),
        forall|v: Seq<char>| !has_parameter(seq![("keyid"@, v)], "algorithm"@),
        forall|v: Seq<char>, w: Seq<char>|
            !has_parameter(#[trigger] seq![("keyid"@, v), ("algorithm"@, w)], "headers"@),
        forall|v: Seq<char>, w: Seq<char>, x: Seq<char>|
            !has_parameter(
                #[trigger] seq![("keyid"@, v), ("algorithm"@, w), ("headers"@, x)],
                "signature"@,
            ),
{
    reveal_strlit("keyId");
    reveal_strlit("keyid");
    reveal_strlit("algorithm");
    reveal_strlit("headers");
    reveal_strlit("signature");
    reveal_strlit("rsa-sha256");
    assert(lower("keyId"@) =~= "keyid"@);
    assert(lower("algorithm"@) =~= "algorithm"@);
    assert(lower("headers"@) =~= "headers"@);
    assert(lower("signature"@) =~= "signature"@);
    assert(lower("rsa-sha256"@) =~= "rsa-sha256"@);
    assert("algorithm"@[0] != "signature"@[0]);
}

} // verus!
