//! Parsing of the draft-Cavage `Signature` request header.

use vstd::prelude::*;

use crate::text::{
    chars_of, find_char, find_from, lemma_find_from, lemma_skip_space_bounds, lower,
    push_char, skip_space, skip_whitespace, string_of, to_ascii_lowercase, trim, trim_span,
};

verus! {

/// Whether `c` is a control character (general category Cc), as
/// `char::is_control` decides.
pub open spec fn is_control(c: char) -> bool {
    let v = c as u32;
    v <= 0x1f || (0x7f <= v <= 0x9f)
}

/// Scans a quoted string whose opening quote precedes `s[i]`: a backslash
/// takes the next character literally, an unescaped quote ends the string,
/// and an unescaped control character or the end of input is an error. On
/// success: the unescaped value and the index just after the closing quote.
pub open spec fn quoted_scan(s: Seq<char>, i: int, escaped: bool, value: Seq<char>) -> Option<
    (Seq<char>, int),
>
    decreases s.len() - i,
{
    if i < 0 || i >= s.len() {
        None
    } else if escaped {
        quoted_scan(s, i + 1, false, value.push(s[i]))
    } else if s[i] == '\\' {
        quoted_scan(s, i + 1, true, value)
    } else if s[i] == '"' {
        Some((value, i + 1))
    } else if is_control(s[i]) {
        None
    } else {
        quoted_scan(s, i + 1, false, value.push(s[i]))
    }
}

/// The quoted string starting at `s[k]`, if `s[k]` opens one.
pub open spec fn quoted_at(s: Seq<char>, k: int) -> Option<(Seq<char>, int)> {
    if 0 <= k < s.len() && s[k] == '"' {
        quoted_scan(s, k + 1, false, Seq::empty())
    } else {
        None
    }
}

pub proof fn lemma_quoted_scan_end(s: Seq<char>, i: int, escaped: bool, value: Seq<char>)
    ensures
        quoted_scan(s, i, escaped, value) matches Some((_, e)) ==> i < e <= s.len(),
    decreases s.len() - i,
{
    if 0 <= i < s.len() {
        if escaped {
            lemma_quoted_scan_end(s, i + 1, false, value.push(s[i]));
        } else if s[i] == '\\' {
            lemma_quoted_scan_end(s, i + 1, true, value);
        } else if s[i] != '"' && !is_control(s[i]) {
            lemma_quoted_scan_end(s, i + 1, false, value.push(s[i]));
        }
    }
}

/// Parses the quoted string at the start of `input`: its unescaped value and
/// the text after the closing quote.
pub fn parse_quoted_parameter(input: &str) -> (parsed: Option<(String, &str)>)
    ensures
        match quoted_at(input@, 0) {
            Some((value, end)) => parsed matches Some((v, rest)) && v@ == value && rest@
                == input@.subrange(end, input@.len() as int),
            None => parsed is None,
        },
{
    let chars = chars_of(input);
    match parse_quoted_at(chars.as_slice(), 0) {
        Some((value, end)) => {
            proof {
                lemma_quoted_scan_end(input@, 1, false, Seq::empty());
            }
            let rest = input.substring_char(end, chars.len());
            Some((value, rest))
        },
        None => None,
    }
}

/// Parses the quoted string at `chars[k]`.
pub fn parse_quoted_at(chars: &[char], k: usize) -> (parsed: Option<(String, usize)>)
    ensures
        match quoted_at(chars@, k as int) {
            Some((value, end)) => parsed matches Some((v, e)) && v@ == value && e == end,
            None => parsed is None,
        },
{
    if k >= chars.len() || chars[k] != '"' {
        return None;
    }
    let mut value = String::new();
    let mut escaped = false;
    let mut i = k + 1;
    while i < chars.len()
        invariant
            k < i <= chars@.len(),
            chars@[k as int] == '"',
            quoted_at(chars@, k as int) == quoted_scan(chars@, i as int, escaped, value@),
        decreases chars@.len() - i,
    {
        let c = chars[i];
        if escaped {
            push_char(&mut value, c);
            escaped = false;
        } else if c == '\\' {
            escaped = true;
        } else if c == '"' {
            return Some((value, i + 1));
        } else if (c as u32) <= 0x1f || (0x7f <= (c as u32) && (c as u32) <= 0x9f) {
            return None;
        } else {
            push_char(&mut value, c);
        }
        i = i + 1;
    }
    None
}

/// Whether a parameter name holds only ASCII letters, digits, `-` and `_`,
/// and at least one of them.
pub open spec fn valid_parameter_name(name: Seq<char>) -> bool {
    name.len() > 0 && forall|k: int|
        0 <= k < name.len() ==> {
            let c = #[trigger] name[k];
            ('a' <= c <= 'z') || ('A' <= c <= 'Z') || ('0' <= c <= '9') || c == '-' || c == '_'
        }
}

/// Whether `params` already has a parameter named `name`.
pub open spec fn has_parameter(params: Seq<(Seq<char>, Seq<char>)>, name: Seq<char>) -> bool {
    exists|k: int| 0 <= k < params.len() && #[trigger] params[k].0 == name
}

/// The `name="value"` parameters of a header from `s[i]` on, appended to
/// `params`: names are trimmed, must be valid and distinct once lowercased,
/// and parameters are separated by commas with optional whitespace; a
/// trailing comma is allowed.
pub open spec fn parameters_from(
    s: Seq<char>,
    i: int,
    params: Seq<(Seq<char>, Seq<char>)>,
) -> Option<Seq<(Seq<char>, Seq<char>)>>
    decreases s.len() - i,
{
    if i < 0 || i > s.len() {
        None
    } else {
        let j = skip_space(s, i);
        if j >= s.len() {
            Some(params)
        } else {
            match find_from(s, '=', j) {
                None => None,
                Some(e) => {
                    let name = trim(s.subrange(j, e));
                    if !valid_parameter_name(name) {
                        None
                    } else {
                        match quoted_at(s, skip_space(s, e + 1)) {
                            None => None,
                            Some((value, after)) => if has_parameter(params, lower(name)) {
                                None
                            } else {
                                let next = params.push((lower(name), value));
                                let r = skip_space(s, after);
                                if r >= s.len() {
                                    Some(next)
                                } else if s[r] == ',' {
                                    proof {
                                        lemma_skip_space_bounds(s, i);
                                        lemma_find_from(s, '=', j);
                                        lemma_quoted_scan_end(
                                            s,
                                            skip_space(s, e + 1) + 1,
                                            false,
                                            Seq::empty(),
                                        );
                                        if 0 <= e + 1 <= s.len() {
                                            lemma_skip_space_bounds(s, e + 1);
                                        }
                                        if 0 <= after <= s.len() {
                                            lemma_skip_space_bounds(s, after);
                                        }
                                    }
                                    parameters_from(s, r + 1, next)
                                } else {
                                    None
                                }
                            },
                        }
                    }
                },
            }
        }
    }
}

/// The value of parameter `name`, if present.
pub open spec fn parameter(params: Seq<(Seq<char>, Seq<char>)>, name: Seq<char>) -> Option<
    Seq<char>,
> {
    if has_parameter(params, name) {
        Some(params[choose|k: int| 0 <= k < params.len() && #[trigger] params[k].0 == name].1)
    } else {
        None
    }
}

/// Whether `c` is ASCII whitespace, as `u8::is_ascii_whitespace` decides.
pub open spec fn is_ascii_white(c: char) -> bool {
    c == ' ' || c == '\t' || c == '\n' || c == '\x0C' || c == '\r'
}

/// The first index at or after `i` whose character is (`white`) or is not
/// (`!white`) ASCII whitespace, or `s.len()`.
pub open spec fn next_ascii(s: Seq<char>, i: int, white: bool) -> int
    decreases s.len() - i,
{
    if i < 0 || i >= s.len() || is_ascii_white(s[i]) == white {
        i
    } else {
        next_ascii(s, i + 1, white)
    }
}

pub proof fn lemma_next_ascii(s: Seq<char>, i: int, white: bool)
    requires
        0 <= i <= s.len(),
    ensures
        i <= next_ascii(s, i, white) <= s.len(),
        forall|k: int| i <= k < next_ascii(s, i, white) ==> is_ascii_white(#[trigger] s[k]) != white,
        next_ascii(s, i, white) < s.len() ==> is_ascii_white(s[next_ascii(s, i, white)]) == white,
    decreases s.len() - i,
{
    if i < s.len() && is_ascii_white(s[i]) != white {
        lemma_next_ascii(s, i + 1, white);
    }
}

/// The words of `s[i..]` separated by ASCII whitespace, as
/// `str::split_ascii_whitespace` yields them.
pub open spec fn ascii_words(s: Seq<char>, i: int) -> Seq<Seq<char>>
    decreases s.len() - i,
{
    if i < 0 || i > s.len() {
        Seq::empty()
    } else {
        let j = next_ascii(s, i, false);
        if j >= s.len() {
            Seq::empty()
        } else {
            let e = next_ascii(s, j, true);
            proof {
                lemma_next_ascii(s, i, false);
                lemma_next_ascii(s, j, true);
            }
            seq![s.subrange(j, e)] + ascii_words(s, e)
        }
    }
}

/// The model of a [`ParsedSignature`].
pub ghost struct ParsedSignatureView {
    pub key_id: Seq<char>,
    pub algorithm: Seq<char>,
    pub signed_headers: Seq<Seq<char>>,
    pub signature: Seq<char>,
}

/// The parameters of a `Signature` header that verification uses. The
/// algorithm and the header names are lowercased.
#[derive(Debug, PartialEq, Eq)]
pub struct ParsedSignature {
    pub key_id: String,
    pub algorithm: String,
    pub signed_headers: Vec<String>,
    pub signature: String,
}

impl View for ParsedSignature {
    type V = ParsedSignatureView;

    open spec fn view(&self) -> ParsedSignatureView {
        ParsedSignatureView {
            key_id: self.key_id@,
            algorithm: self.algorithm@,
            signed_headers: self.signed_headers@.map_values(|h: String| h@),
            signature: self.signature@,
        }
    }
}

/// What a `Signature` header means: its `keyId`, `algorithm`, `headers` and
/// `signature` parameters, of which none may be missing and `keyId`, the
/// header list and `signature` may not be empty.
pub open spec fn parsed_signature(header: Seq<char>) -> Option<ParsedSignatureView> {
    match parameters_from(header, 0, Seq::empty()) {
        None => None,
        Some(params) => match (
            parameter(params, "keyid"@),
            parameter(params, "algorithm"@),
            parameter(params, "headers"@),
            parameter(params, "signature"@),
        ) {
            (Some(key_id), Some(algorithm), Some(headers), Some(signature)) => {
                let names = ascii_words(headers, 0).map_values(|w: Seq<char>| lower(w));
                if key_id.len() == 0 || names.len() == 0 || signature.len() == 0 {
                    None
                } else {
                    Some(
                        ParsedSignatureView {
                            key_id,
                            algorithm: lower(algorithm),
                            signed_headers: names,
                            signature,
                        },
                    )
                }
            },
            _ => None,
        },
    }
}

fn valid_name_chars(chars: &[char], start: usize, end: usize) -> (valid: bool)
    requires
        start <= end <= chars@.len(),
    ensures
        valid == valid_parameter_name(chars@.subrange(start as int, end as int)),
{
    let ghost name = chars@.subrange(start as int, end as int);
    if start == end {
        return false;
    }
    let mut k = start;
    while k < end
        invariant
            start <= k <= end <= chars@.len(),
            name == chars@.subrange(start as int, end as int),
            forall|j: int|
                0 <= j < k - start ==> {
                    let c = #[trigger] name[j];
                    ('a' <= c <= 'z') || ('A' <= c <= 'Z') || ('0' <= c <= '9') || c == '-' || c
                        == '_'
                },
        decreases end - k,
    {
        let c = chars[k];
        if !(('a' <= c && c <= 'z') || ('A' <= c && c <= 'Z') || ('0' <= c && c <= '9') || c == '-'
            || c == '_') {
            assert(name[k - start] == c);
            return false;
        }
        assert(name[k - start] == c);
        k = k + 1;
    }
    true
}

fn find_parameter(params: &Vec<(String, String)>, name: &String) -> (index: Option<usize>)
    ensures
        match index {
            Some(k) => k < params@.len() && params@[k as int].0@ == name@,
            None => !has_parameter(params@.map_values(|p: (String, String)| (p.0@, p.1@)), name@),
        },
{
    let ghost pv = params@.map_values(|p: (String, String)| (p.0@, p.1@));
    let n = params.len();
    for k in 0..n
        invariant
            n == params@.len(),
            pv == params@.map_values(|p: (String, String)| (p.0@, p.1@)),
            forall|j: int| 0 <= j < k ==> #[trigger] pv[j].0 != name@,
    {
        if params[k].0 == *name {
            return Some(k);
        }
        assert(pv[k as int].0 == params@[k as int].0@);
    }
    None
}

/// Parses the parameters of a `Signature` header.
fn parse_parameters(chars: &[char]) -> (parsed: Option<Vec<(String, String)>>)
    ensures
        match parameters_from(chars@, 0, Seq::empty()) {
            Some(params) => parsed matches Some(p) && p@.map_values(
                |q: (String, String)| (q.0@, q.1@),
            ) == params,
            None => parsed is None,
        },
{
    let ghost s = chars@;
    let n = chars.len();
    assert(s.subrange(0, n as int) =~= s);
    let mut params: Vec<(String, String)> = Vec::new();
    let mut i: usize = 0;
    assert(params@.map_values(|q: (String, String)| (q.0@, q.1@)) =~= Seq::<
        (Seq<char>, Seq<char>),
    >::empty());
    loop
        invariant
            n == s.len(),
            s == chars@,
            i <= n,
            parameters_from(s, 0, Seq::empty()) == parameters_from(
                s,
                i as int,
                params@.map_values(|q: (String, String)| (q.0@, q.1@)),
            ),
        decreases n - i,
    {
        let ghost pv = params@.map_values(|q: (String, String)| (q.0@, q.1@));
        let j = skip_whitespace(chars, i, n);
        proof {
            assert(s.subrange(0, n as int) =~= s);
            lemma_skip_space_bounds(s, i as int);
        }
        if j >= n {
            return Some(params);
        }
        let e = match find_char(chars, '=', j, n) {
            Some(e) => e,
            None => {
                proof {
                    lemma_find_from(s, '=', j as int);
                    if find_from(s, '=', j as int) is Some {
                        let e = find_from(s, '=', j as int)->Some_0;
                        assert(s[e] == '=');
                    }
                }
                return None;
            },
        };
        proof {
            lemma_find_from(s, '=', j as int);
            let f = find_from(s, '=', j as int);
            if f != Some(e as int) {
                let g = f->Some_0;
                if g < e {
                    assert(s[g] == '=');
                }
                if g > e {
                    assert(s[e as int] == '=');
                }
            }
        }
        let (ns, ne) = trim_span(chars, j, e);
        if !valid_name_chars(chars, ns, ne) {
            return None;
        }
        let raw_name = string_of(chars, ns, ne);
        let name = to_ascii_lowercase(raw_name.as_str());
        let k = skip_whitespace(chars, e + 1, n);
        let (value, after) = match parse_quoted_at(chars, k) {
            Some(p) => p,
            None => {
                return None;
            },
        };
        proof {
            lemma_quoted_scan_end(s, k + 1, false, Seq::empty());
        }
        match find_parameter(&params, &name) {
            Some(m) => {
                proof {
                    assert(pv[m as int].0 == name@);
                }
                return None;
            },
            None => {},
        }
        params.push((name, value));
        let r = skip_whitespace(chars, after, n);
        proof {
            lemma_skip_space_bounds(s, after as int);
            lemma_skip_space_bounds(s, e + 1);
            assert(params@.map_values(|q: (String, String)| (q.0@, q.1@)) =~= pv.push(
                (lower(trim(s.subrange(j as int, e as int))), value@),
            ));
        }
        if r >= n {
            return Some(params);
        }
        if chars[r] != ',' {
            return None;
        }
        i = r + 1;
    }
}

fn parameter_value(params: &Vec<(String, String)>, name: &str) -> (value: Option<String>)
    requires
        distinct_names(params@.map_values(|q: (String, String)| (q.0@, q.1@))),
    ensures
        view_opt_string(value) == parameter(
            params@.map_values(|q: (String, String)| (q.0@, q.1@)),
            name@,
        ),
{
    let ghost pv = params@.map_values(|q: (String, String)| (q.0@, q.1@));
    let key = name.to_owned();
    match find_parameter(params, &key) {
        Some(k) => {
            proof {
                assert(pv[k as int].0 == name@);
                let c = choose|c: int| 0 <= c < pv.len() && #[trigger] pv[c].0 == name@;
                assert(c == k);
            }
            Some(params[k].1.clone())
        },
        None => None,
    }
}

/// The view of an optional string.
pub open spec fn view_opt_string(o: Option<String>) -> Option<Seq<char>> {
    match o {
        Some(s) => Some(s@),
        None => None,
    }
}

/// Whether no two parameters share a name.
pub open spec fn distinct_names(params: Seq<(Seq<char>, Seq<char>)>) -> bool {
    forall|a: int, b: int|
        0 <= a < params.len() && 0 <= b < params.len() && a != b ==> #[trigger] params[a].0
            != #[trigger] params[b].0
}

/// Parameters that [`parameters_from`] accepts have distinct names.
pub proof fn lemma_parameters_distinct(
    s: Seq<char>,
    i: int,
    params: Seq<(Seq<char>, Seq<char>)>,
)
    requires
        distinct_names(params),
    ensures
        parameters_from(s, i, params) matches Some(p) ==> distinct_names(p),
    decreases s.len() - i,
{
    if 0 <= i <= s.len() {
        let j = skip_space(s, i);
        if j < s.len() {
            match find_from(s, '=', j) {
                None => {},
                Some(e) => {
                    let name = trim(s.subrange(j, e));
                    if valid_parameter_name(name) {
                        match quoted_at(s, skip_space(s, e + 1)) {
                            None => {},
                            Some((value, after)) => {
                                if !has_parameter(params, lower(name)) {
                                    let next = params.push((lower(name), value));
                                    assert(distinct_names(next)) by {
                                        assert forall|a: int, b: int|
                                            0 <= a < next.len() && 0 <= b < next.len() && a
                                                != b implies #[trigger] next[a].0
                                            != #[trigger] next[b].0 by {
                                            if a == params.len() {
                                                assert(params[b].0 == next[b].0);
                                            } else if b == params.len() {
                                                assert(params[a].0 == next[a].0);
                                            }
                                        }
                                    }
                                    let r = skip_space(s, after);
                                    if r < s.len() && s[r] == ',' {
                                        lemma_skip_space_bounds(s, i);
                                        lemma_find_from(s, '=', j);
                                        lemma_quoted_scan_end(
                                            s,
                                            skip_space(s, e + 1) + 1,
                                            false,
                                            Seq::empty(),
                                        );
                                        if 0 <= e + 1 <= s.len() {
                                            lemma_skip_space_bounds(s, e + 1);
                                        }
                                        if 0 <= after <= s.len() {
                                            lemma_skip_space_bounds(s, after);
                                        }
                                        lemma_parameters_distinct(s, r + 1, next);
                                    }
                                }
                            },
                        }
                    }
                },
            }
        }
    }
}

/// Splits `chars` at ASCII whitespace and lowercases each word.
fn lowercase_words(chars: &[char]) -> (words: Vec<String>)
    ensures
        words@.map_values(|w: String| w@) == ascii_words(chars@, 0).map_values(
            |w: Seq<char>| lower(w),
        ),
{
    let ghost s = chars@;
    let n = chars.len();
    let mut words: Vec<String> = Vec::new();
    let mut i: usize = 0;
    loop
        invariant
            n == s.len(),
            s == chars@,
            i <= n,
            ascii_words(s, 0).map_values(|w: Seq<char>| lower(w)) == words@.map_values(
                |w: String| w@,
            ) + ascii_words(s, i as int).map_values(|w: Seq<char>| lower(w)),
        decreases n - i,
    {
        let ghost before = words@.map_values(|w: String| w@);
        let mut j = i;
        proof {
            lemma_next_ascii(s, i as int, false);
        }
        while j < n && (chars[j] == ' ' || chars[j] == '\t' || chars[j] == '\n' || chars[j]
            == '\x0C' || chars[j] == '\r')
            invariant
                i <= j <= n,
                n == s.len(),
                s == chars@,
                next_ascii(s, j as int, false) == next_ascii(s, i as int, false),
            decreases n - j,
        {
            j = j + 1;
        }
        if j >= n {
            assert(ascii_words(s, i as int) =~= Seq::<Seq<char>>::empty());
            assert(words@.map_values(|w: String| w@) + Seq::<Seq<char>>::empty().map_values(
                |w: Seq<char>| lower(w),
            ) =~= words@.map_values(|w: String| w@));
            return words;
        }
        let mut e = j;
        proof {
            lemma_next_ascii(s, j as int, true);
        }
        while e < n && !(chars[e] == ' ' || chars[e] == '\t' || chars[e] == '\n' || chars[e]
            == '\x0C' || chars[e] == '\r')
            invariant
                j <= e <= n,
                n == s.len(),
                s == chars@,
                next_ascii(s, e as int, true) == next_ascii(s, j as int, true),
            decreases n - e,
        {
            e = e + 1;
        }
        let word = string_of(chars, j, e);
        let lowered = to_ascii_lowercase(word.as_str());
        words.push(lowered);
        proof {
            let rest = ascii_words(s, e as int).map_values(|w: Seq<char>| lower(w));
            assert(ascii_words(s, i as int) == seq![s.subrange(j as int, e as int)] + ascii_words(
                s,
                e as int,
            ));
            assert(ascii_words(s, i as int).map_values(|w: Seq<char>| lower(w)) =~= seq![
                lower(s.subrange(j as int, e as int)),
            ] + rest);
            assert(words@.map_values(|w: String| w@) =~= before.push(
                lower(s.subrange(j as int, e as int)),
            ));
        }
        i = e;
    }
}

/// Parses a draft-Cavage `Signature` header.
pub fn parse_signature_header(header: &str) -> (parsed: Option<ParsedSignature>)
    ensures
        match parsed_signature(header@) {
            Some(v) => parsed matches Some(p) && p@ == v,
            None => parsed is None,
        },
{
    let chars = chars_of(header);
    let params = match parse_parameters(chars.as_slice()) {
        Some(p) => p,
        None => {
            return None;
        },
    };
    proof {
        lemma_parameters_distinct(header@, 0, Seq::empty());
    }
    let key_id = match parameter_value(&params, "keyid") {
        Some(v) => v,
        None => {
            return None;
        },
    };
    let algorithm = match parameter_value(&params, "algorithm") {
        Some(v) => v,
        None => {
            return None;
        },
    };
    let headers = match parameter_value(&params, "headers") {
        Some(v) => v,
        None => {
            return None;
        },
    };
    let signature = match parameter_value(&params, "signature") {
        Some(v) => v,
        None => {
            return None;
        },
    };
    let header_chars = chars_of(headers.as_str());
    let signed_headers = lowercase_words(header_chars.as_slice());
    if key_id.as_str().is_empty() || signed_headers.len() == 0 || signature.as_str().is_empty() {
        return None;
    }
    let algorithm = to_ascii_lowercase(algorithm.as_str());
    Some(ParsedSignature { key_id, algorithm, signed_headers, signature })
}

} // verus!
