//! Character-level text helpers shared by the parsers of this crate.
//!
//! Text is processed as sequences of characters; the spec functions here say
//! what the corresponding `str` methods of the standard library compute.

use vstd::prelude::*;

verus! {

/// Appends one character to a string.
///
/// Trusted: `String::push` appends `c` at the end of the string.
#[verifier::external_body]
pub(crate) fn push_char(s: &mut String, c: char)
    ensures
        final(s)@ == old(s)@.push(c),
{
    s.push(c);
}

/// The characters of `s`, in order.
pub fn chars_of(s: &str) -> (out: Vec<char>)
    ensures
        out@ == s@,
{
    let mut out: Vec<char> = Vec::new();
    for c in it: s.chars()
        invariant
            out@ == it.seq().take(it.index() as int),
            it.seq() == s@,
    {
        out.push(c);
    }
    out
}

/// A string holding the characters of `chars[start..end]`.
pub fn string_of(chars: &[char], start: usize, end: usize) -> (s: String)
    requires
        start <= end <= chars@.len(),
    ensures
        s@ == chars@.subrange(start as int, end as int),
{
    let mut s = String::new();
    let mut k = start;
    while k < end
        invariant
            start <= k <= end <= chars@.len(),
            s@ == chars@.subrange(start as int, k as int),
        decreases end - k,
    {
        push_char(&mut s, chars[k]);
        k = k + 1;
        assert(s@ =~= chars@.subrange(start as int, k as int));
    }
    s
}

/// A string holding all of `chars`.
pub fn string_from(chars: &[char]) -> (s: String)
    ensures
        s@ == chars@,
{
    let s = string_of(chars, 0, chars.len());
    assert(chars@.subrange(0, chars@.len() as int) =~= chars@);
    s
}

/// Whether `c` is an ASCII uppercase letter.
pub open spec fn is_ascii_upper(c: char) -> bool {
    'A' <= c <= 'Z'
}

/// `c` with ASCII uppercase letters mapped to lowercase, as
/// `char::to_ascii_lowercase` does.
pub open spec fn ascii_lower(c: char) -> char {
    if is_ascii_upper(c) {
        ((c as u32) + 32) as char
    } else {
        c
    }
}

/// `s` with every ASCII uppercase letter mapped to lowercase.
pub open spec fn lower(s: Seq<char>) -> Seq<char> {
    s.map_values(|c: char| ascii_lower(c))
}

/// Whether `a` and `b` are equal ignoring ASCII case, as
/// `str::eq_ignore_ascii_case` decides.
pub open spec fn eq_ignore_case(a: Seq<char>, b: Seq<char>) -> bool {
    lower(a) == lower(b)
}

pub fn char_to_ascii_lowercase(c: char) -> (l: char)
    ensures
        l == ascii_lower(c),
{
    if 'A' <= c && c <= 'Z' {
        let b = (c as u8) + 32;
        assert(b as char == ((c as u32) + 32) as char);
        b as char
    } else {
        c
    }
}

/// `s` with every ASCII uppercase letter mapped to lowercase.
pub fn to_ascii_lowercase(s: &str) -> (l: String)
    ensures
        l@ == lower(s@),
{
    let chars = chars_of(s);
    let mut out = String::new();
    let n = chars.len();
    for k in 0..n
        invariant
            n == chars@.len(),
            chars@ == s@,
            out@ == lower(s@.take(k as int)),
    {
        push_char(&mut out, char_to_ascii_lowercase(chars[k]));
        assert(lower(s@.take(k + 1)) =~= lower(s@.take(k as int)).push(ascii_lower(s@[k as int])));
    }
    assert(s@.take(n as int) =~= s@);
    out
}

/// Whether two character sequences are equal ignoring ASCII case.
pub fn chars_eq_ignore_case(a: &[char], b: &[char]) -> (equal: bool)
    ensures
        equal == eq_ignore_case(a@, b@),
{
    if a.len() != b.len() {
        proof {
            assert(lower(a@).len() != lower(b@).len());
        }
        return false;
    }
    let n = a.len();
    for k in 0..n
        invariant
            n == a@.len(),
            n == b@.len(),
            forall|j: int| 0 <= j < k ==> ascii_lower(#[trigger] a@[j]) == ascii_lower(b@[j]),
    {
        if char_to_ascii_lowercase(a[k]) != char_to_ascii_lowercase(b[k]) {
            proof {
                assert(lower(a@)[k as int] != lower(b@)[k as int]);
            }
            return false;
        }
    }
    assert(lower(a@) =~= lower(b@));
    true
}

/// Whether two character sequences are equal.
pub fn chars_eq(a: &[char], b: &[char]) -> (equal: bool)
    ensures
        equal == (a@ == b@),
{
    if a.len() != b.len() {
        return false;
    }
    let n = a.len();
    for k in 0..n
        invariant
            n == a@.len(),
            n == b@.len(),
            forall|j: int| 0 <= j < k ==> #[trigger] a@[j] == b@[j],
    {
        if a[k] != b[k] {
            return false;
        }
    }
    assert(a@ =~= b@);
    true
}

/// Whether two strings are equal.
pub fn str_eq(a: &str, b: &str) -> (equal: bool)
    ensures
        equal == (a@ == b@),
{
    let x = chars_of(a);
    let y = chars_of(b);
    chars_eq(x.as_slice(), y.as_slice())
}

/// Whether `c` has the Unicode `White_Space` property, as
/// `char::is_whitespace` decides.
pub open spec fn is_space(c: char) -> bool {
    let v = c as u32;
    (0x09 <= v <= 0x0d) || v == 0x20 || v == 0x85 || v == 0xa0 || v == 0x1680 || (0x2000 <= v
        <= 0x200a) || v == 0x2028 || v == 0x2029 || v == 0x202f || v == 0x205f || v == 0x3000
}

pub fn char_is_whitespace(c: char) -> (space: bool)
    ensures
        space == is_space(c),
{
    let v = c as u32;
    (0x09 <= v && v <= 0x0d) || v == 0x20 || v == 0x85 || v == 0xa0 || v == 0x1680 || (0x2000 <= v
        && v <= 0x200a) || v == 0x2028 || v == 0x2029 || v == 0x202f || v == 0x205f || v == 0x3000
}

/// The index of the first character of `s[start..]` that is not whitespace,
/// or `s.len()`.
pub open spec fn skip_space(s: Seq<char>, start: int) -> int
    decreases s.len() - start,
{
    if start >= s.len() || !is_space(s[start]) {
        start
    } else {
        skip_space(s, start + 1)
    }
}

/// The end of `s[start..end]` once trailing whitespace is removed.
pub open spec fn trim_end_at(s: Seq<char>, start: int, end: int) -> int
    decreases end - start,
{
    if end <= start || !is_space(s[end - 1]) {
        end
    } else {
        trim_end_at(s, start, end - 1)
    }
}

/// `s` without leading whitespace, as `str::trim_start` computes.
pub open spec fn trim_start(s: Seq<char>) -> Seq<char> {
    s.subrange(skip_space(s, 0), s.len() as int)
}

/// `s` without leading or trailing whitespace, as `str::trim` computes.
pub open spec fn trim(s: Seq<char>) -> Seq<char> {
    let a = skip_space(s, 0);
    s.subrange(a, trim_end_at(s, a, s.len() as int))
}

pub proof fn lemma_skip_space_bounds(s: Seq<char>, start: int)
    requires
        0 <= start <= s.len(),
    ensures
        start <= skip_space(s, start) <= s.len(),
        forall|k: int| start <= k < skip_space(s, start) ==> is_space(#[trigger] s[k]),
        skip_space(s, start) < s.len() ==> !is_space(s[skip_space(s, start)]),
    decreases s.len() - start,
{
    if start < s.len() && is_space(s[start]) {
        lemma_skip_space_bounds(s, start + 1);
    }
}

pub proof fn lemma_trim_end_bounds(s: Seq<char>, start: int, end: int)
    requires
        0 <= start <= end <= s.len(),
    ensures
        start <= trim_end_at(s, start, end) <= end,
        forall|k: int| trim_end_at(s, start, end) <= k < end ==> is_space(#[trigger] s[k]),
        trim_end_at(s, start, end) > start ==> !is_space(s[trim_end_at(s, start, end) - 1]),
    decreases end - start,
{
    if end > start && is_space(s[end - 1]) {
        lemma_trim_end_bounds(s, start, end - 1);
    }
}

/// The first index at or after `start` where whitespace ends, within
/// `chars[..end]`.
pub fn skip_whitespace(chars: &[char], start: usize, end: usize) -> (i: usize)
    requires
        start <= end <= chars@.len(),
    ensures
        i == skip_space(chars@.subrange(0, end as int), start as int),
        start <= i <= end,
{
    let ghost s = chars@.subrange(0, end as int);
    let mut i = start;
    proof {
        lemma_skip_space_bounds(s, start as int);
    }
    while i < end && char_is_whitespace(chars[i])
        invariant
            start <= i <= end <= chars@.len(),
            s == chars@.subrange(0, end as int),
            skip_space(s, i as int) == skip_space(s, start as int),
        decreases end - i,
    {
        assert(s[i as int] == chars@[i as int]);
        i = i + 1;
    }
    proof {
        if i < end {
            assert(s[i as int] == chars@[i as int]);
        }
    }
    i
}

/// The end of `chars[start..end]` once trailing whitespace is removed.
pub fn trim_whitespace_end(chars: &[char], start: usize, end: usize) -> (e: usize)
    requires
        start <= end <= chars@.len(),
    ensures
        e == trim_end_at(chars@, start as int, end as int),
        start <= e <= end,
{
    let mut e = end;
    proof {
        lemma_trim_end_bounds(chars@, start as int, end as int);
    }
    while e > start && char_is_whitespace(chars[e - 1])
        invariant
            start <= e <= end <= chars@.len(),
            trim_end_at(chars@, start as int, e as int) == trim_end_at(
                chars@,
                start as int,
                end as int,
            ),
        decreases e - start,
    {
        e = e - 1;
    }
    e
}

/// Two spans with the same characters trim to the same end.
pub proof fn lemma_trim_end_shift(s: Seq<char>, t: Seq<char>, a: int, b: int, off: int)
    requires
        0 <= a <= b <= s.len(),
        0 <= off,
        a + off >= 0,
        b + off <= t.len(),
        forall|k: int| a <= k < b ==> s[k] == t[k + off],
    ensures
        trim_end_at(t, a + off, b + off) == trim_end_at(s, a, b) + off,
    decreases b - a,
{
    if b > a && is_space(s[b - 1]) {
        assert(t[b - 1 + off] == s[b - 1]);
        lemma_trim_end_shift(s, t, a, b - 1, off);
    } else if b > a {
        assert(t[b - 1 + off] == s[b - 1]);
    }
}

/// `chars[start..end]` without leading or trailing whitespace, as a pair of
/// bounds.
pub fn trim_span(chars: &[char], start: usize, end: usize) -> (span: (usize, usize))
    requires
        start <= end <= chars@.len(),
    ensures
        start <= span.0 <= span.1 <= end,
        chars@.subrange(span.0 as int, span.1 as int) == trim(
            chars@.subrange(start as int, end as int),
        ),
{
    let ghost w = chars@.subrange(start as int, end as int);
    let a = skip_whitespace(chars, start, end);
    let e = trim_whitespace_end(chars, a, end);
    proof {
        let s = chars@.subrange(0, end as int);
        lemma_skip_space_bounds(w, 0);
        lemma_skip_space_bounds(s, start as int);
        lemma_skip_shift(w, s, 0, start as int);
        lemma_trim_end_bounds(w, skip_space(w, 0), w.len() as int);
        lemma_trim_end_shift(w, chars@, skip_space(w, 0), w.len() as int, start as int);
        assert(chars@.subrange(a as int, e as int) =~= trim(w));
    }
    (a, e)
}

/// Skipping whitespace in a window gives the same position as in the whole.
pub proof fn lemma_skip_shift(w: Seq<char>, s: Seq<char>, i: int, off: int)
    requires
        0 <= i <= w.len(),
        0 <= off,
        off + w.len() == s.len(),
        forall|k: int| 0 <= k < w.len() ==> w[k] == s[k + off],
    ensures
        skip_space(s, i + off) == skip_space(w, i) + off,
    decreases w.len() - i,
{
    if i < w.len() {
        assert(s[i + off] == w[i]);
        if is_space(w[i]) {
            lemma_skip_shift(w, s, i + 1, off);
        }
    }
}

/// `s` without leading or trailing whitespace.
pub fn trim_chars(s: &[char]) -> (t: Vec<char>)
    ensures
        t@ == trim(s@),
{
    let (a, e) = trim_span(s, 0, s.len());
    assert(s@.subrange(0, s@.len() as int) =~= s@);
    let mut t: Vec<char> = Vec::new();
    let mut k = a;
    while k < e
        invariant
            a <= k <= e <= s@.len(),
            t@ == s@.subrange(a as int, k as int),
        decreases e - k,
    {
        t.push(s[k]);
        k = k + 1;
        assert(t@ =~= s@.subrange(a as int, k as int));
    }
    t
}

/// The index of the first `c` in `s[start..]`, if any.
pub open spec fn find_from(s: Seq<char>, c: char, start: int) -> Option<int>
    decreases s.len() - start,
{
    if start >= s.len() {
        None
    } else if s[start] == c {
        Some(start)
    } else {
        find_from(s, c, start + 1)
    }
}

/// The index of the first `c` in `s`, if any.
pub open spec fn find(s: Seq<char>, c: char) -> Option<int> {
    find_from(s, c, 0)
}

pub proof fn lemma_find_from(s: Seq<char>, c: char, start: int)
    requires
        0 <= start <= s.len(),
    ensures
        find_from(s, c, start) matches Some(i) ==> start <= i < s.len() && s[i] == c && forall|
            k: int,
        |
            start <= k < i ==> #[trigger] s[k] != c,
        find_from(s, c, start) is None ==> forall|k: int| start <= k < s.len() ==> #[trigger] s[k]
            != c,
    decreases s.len() - start,
{
    if start < s.len() && s[start] != c {
        lemma_find_from(s, c, start + 1);
    }
}

/// The index of the first `c` in `chars[start..end]`, if any.
pub fn find_char(chars: &[char], c: char, start: usize, end: usize) -> (i: Option<usize>)
    requires
        start <= end <= chars@.len(),
    ensures
        match i {
            Some(i) => start <= i < end && chars@[i as int] == c && forall|k: int|
                start <= k < i ==> #[trigger] chars@[k] != c,
            None => forall|k: int| start <= k < end ==> #[trigger] chars@[k] != c,
        },
{
    let mut k = start;
    while k < end
        invariant
            start <= k <= end <= chars@.len(),
            forall|j: int| start <= j < k ==> #[trigger] chars@[j] != c,
        decreases end - k,
    {
        if chars[k] == c {
            return Some(k);
        }
        k = k + 1;
    }
    None
}

/// Relates [`find_char`]'s result to [`find`] on a window.
pub proof fn lemma_find_window(chars: Seq<char>, c: char, start: int, end: int, i: Option<int>)
    requires
        0 <= start <= end <= chars.len(),
        match i {
            Some(i) => start <= i < end && chars[i] == c && forall|k: int|
                start <= k < i ==> #[trigger] chars[k] != c,
            None => forall|k: int| start <= k < end ==> #[trigger] chars[k] != c,
        },
    ensures
        find(chars.subrange(start, end), c) == match i {
            Some(i) => Some(i - start),
            None => None::<int>,
        },
{
    let w = chars.subrange(start, end);
    lemma_find_from(w, c, 0);
    match find(w, c) {
        Some(j) => {
            assert(w[j] == chars[j + start]);
            match i {
                Some(i) => {
                    if i - start < j {
                        assert(w[i - start] == chars[i]);
                    }
                    if i - start > j {
                        assert(chars[j + start] != c);
                    }
                },
                None => {
                    assert(chars[j + start] != c);
                },
            }
        },
        None => {
            match i {
                Some(i) => {
                    assert(w[i - start] == chars[i]);
                },
                None => {},
            }
        },
    }
}

} // verus!
