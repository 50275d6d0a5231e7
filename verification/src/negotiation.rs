//! Content negotiation: whether a client asks for ActivityPub JSON rather
//! than HTML, and which content types carry ActivityPub documents.

use vstd::prelude::*;

use crate::text::{
    chars_eq_ignore_case, chars_of, eq_ignore_case, find, find_char, lemma_find_window, str_eq,
    string_of, trim, trim_span,
};

verus! {

/// What `mime` makes of a media range: its essence (`type/subtype`) and the
/// value of its `q` parameter, if the text parses as a media type.
pub uninterp spec fn mime_parse(text: Seq<char>) -> Option<(Seq<char>, Option<Seq<char>>)>;

/// The parts of a parsed media type that negotiation reads.
pub struct MediaTypeParts {
    pub essence: String,
    pub quality: Option<String>,
}

/// Parses a media type or media range.
///
/// Trusted: `<Mime as FromStr>::from_str` decides whether the text parses,
/// and on success `essence_str` and `get_param("q")` give the essence and
/// the `q` parameter; all of it depends on the text alone.
#[verifier::external_body]
fn parse_media_type(text: &str) -> (parts: Option<MediaTypeParts>)
    ensures
        match mime_parse(text@) {
            Some((essence, quality)) => parts matches Some(p) && p.essence@ == essence && match (
                p.quality,
                quality,
            ) {
                (Some(a), Some(b)) => a@ == b,
                (None, None) => true,
                _ => false,
            },
            None => parts is None,
        },
{
    let mime = text.parse::<mime::Mime>().ok()?;
    Some(
        MediaTypeParts {
            essence: mime.essence_str().to_string(),
            quality: mime.get_param("q").map(|value| value.as_str().to_string()),
        },
    )
}

/// Whether every character of `s` is an ASCII digit.
pub open spec fn all_digits(s: Seq<char>) -> bool {
    forall|k: int| 0 <= k < s.len() ==> '0' <= #[trigger] s[k] <= '9'
}

/// Whether every character of `s` is `0`.
pub open spec fn all_zeros(s: Seq<char>) -> bool {
    forall|k: int| 0 <= k < s.len() ==> #[trigger] s[k] == '0'
}

/// The decimal number that a string of ASCII digits spells.
pub open spec fn decimal(s: Seq<char>) -> nat
    decreases s.len(),
{
    if s.len() == 0 {
        0
    } else {
        decimal(s.drop_last()) * 10 + ((s.last() as u32) - ('0' as u32)) as nat
    }
}

/// The value of an HTTP quality value in thousandths: `0`, `0.` and up to
/// three decimal digits, or `1` followed by at most three zero decimals.
pub open spec fn quality_value(text: Seq<char>) -> Option<u16> {
    let (whole, fraction) = match find(text, '.') {
        Some(i) => (text.take(i), text.skip(i + 1)),
        None => (text, Seq::<char>::empty()),
    };
    if fraction.len() > 3 || !all_digits(fraction) {
        None
    } else if whole == seq!['0'] {
        Some(
            (decimal(fraction) * (if fraction.len() == 0 {
                1000nat
            } else if fraction.len() == 1 {
                100nat
            } else if fraction.len() == 2 {
                10nat
            } else {
                1nat
            })) as u16,
        )
    } else if whole == seq!['1'] && all_zeros(fraction) {
        Some(1000)
    } else {
        None
    }
}

pub proof fn lemma_decimal_bound(s: Seq<char>)
    requires
        all_digits(s),
    ensures
        decimal(s) < pow10(s.len()),
    decreases s.len(),
{
    if s.len() > 0 {
        assert(all_digits(s.drop_last())) by {
            assert forall|k: int| 0 <= k < s.drop_last().len() implies '0' <= #[trigger] s.drop_last()[k]
                <= '9' by {
                assert(s.drop_last()[k] == s[k]);
            }
        }
        lemma_decimal_bound(s.drop_last());
        assert(s.last() == s[s.len() - 1]);
    }
}

/// Ten to the power `n`.
pub open spec fn pow10(n: nat) -> nat
    decreases n,
{
    if n == 0 {
        1
    } else {
        10 * pow10((n - 1) as nat)
    }
}

/// Parses an HTTP quality value into thousandths.
pub fn parse_quality(value: &str) -> (quality: Option<u16>)
    ensures
        quality == quality_value(value@),
{
    let chars = chars_of(value);
    let n = chars.len();
    let (whole_end, fraction_start) = match find_char(chars.as_slice(), '.', 0, n) {
        Some(i) => (i, i + 1),
        None => (n, n),
    };
    let ghost found = match find_char_spec(chars@, n) {
        Some(i) => Some(i),
        None => None::<int>,
    };
    proof {
        assert(chars@.subrange(0, n as int) =~= chars@);
        lemma_find_window(
            chars@,
            '.',
            0,
            n as int,
            if whole_end < n {
                Some(whole_end as int)
            } else {
                None
            },
        );
        assert(chars@.take(whole_end as int) =~= chars@.subrange(0, whole_end as int));
        assert(chars@.skip(fraction_start as int) =~= chars@.subrange(
            fraction_start as int,
            n as int,
        ));
    }
    let ghost whole = chars@.subrange(0, whole_end as int);
    let ghost fraction = chars@.subrange(fraction_start as int, n as int);
    proof {
        if whole_end == n {
            assert(whole =~= value@);
            assert(fraction =~= Seq::<char>::empty());
        }
        assert(quality_value(value@) == quality_of_parts(whole, fraction));
        assert(fraction.len() == n - fraction_start);
    }
    let fraction_len = n - fraction_start;
    if fraction_len > 3 {
        assert(quality_of_parts(whole, fraction) is None);
        assert(quality_value(value@) is None);
        return None;
    }
    let mut k = fraction_start;
    let mut number: u16 = 0;
    while k < n
        invariant
            fraction_start <= k <= n,
            n == chars@.len(),
            n - fraction_start <= 3,
            fraction == chars@.subrange(fraction_start as int, n as int),
            quality_value(value@) == quality_of_parts(whole, fraction),
            all_digits(fraction.take(k - fraction_start)),
            number == decimal(fraction.take(k - fraction_start)),
            number < pow10((k - fraction_start) as nat),
        decreases n - k,
    {
        let c = chars[k];
        if !('0' <= c && c <= '9') {
            proof {
                assert(fraction[k - fraction_start] == c);
            }
            return None;
        }
        proof {
            let t = fraction.take(k - fraction_start + 1);
            assert(t.drop_last() =~= fraction.take(k - fraction_start));
            assert(t.last() == c);
            assert(all_digits(t)) by {
                assert forall|j: int| 0 <= j < t.len() implies '0' <= #[trigger] t[j] <= '9' by {
                    if j < t.len() - 1 {
                        assert(t[j] == fraction.take(k - fraction_start)[j]);
                    }
                }
            }
            assert(pow10((k - fraction_start) as nat) <= 100) by {
                reveal_with_fuel(pow10, 4);
            }
            reveal_with_fuel(pow10, 4);
        }
        number = number * 10 + ((c as u32) - ('0' as u32)) as u16;
        k = k + 1;
    }
    proof {
        assert(fraction.take(n - fraction_start) =~= fraction);
    }
    let whole_len = whole_end;
    if whole_len == 1 && chars[0] == '0' {
        assert(whole =~= seq!['0']);
        let scale: u16 = if fraction_len == 0 {
            1000
        } else if fraction_len == 1 {
            100
        } else if fraction_len == 2 {
            10
        } else {
            1
        };
        proof {
            reveal_with_fuel(pow10, 4);
        }
        return Some(number * scale);
    }
    if whole_len == 1 && chars[0] == '1' {
        assert(whole =~= seq!['1']);
        let ghost expected = quality_value(value@);
        assert(expected == (if all_zeros(fraction) {
            Some(1000u16)
        } else {
            None
        }));
        let mut z = fraction_start;
        while z < n
            invariant
                expected == (if all_zeros(fraction) {
                    Some(1000u16)
                } else {
                    None
                }),
                expected == quality_value(value@),
                fraction_start <= z <= n,
                n == chars@.len(),
                fraction == chars@.subrange(fraction_start as int, n as int),
                forall|j: int| 0 <= j < z - fraction_start ==> #[trigger] fraction[j] == '0',
            decreases n - z,
        {
            if chars[z] != '0' {
                assert(fraction[z - fraction_start] != '0');
                return None;
            }
            z = z + 1;
        }
        return Some(1000);
    }
    proof {
        if whole == seq!['0'] || whole == seq!['1'] {
            assert(whole.len() == 1);
            assert(whole[0] == chars@[0]);
        }
    }
    None
}

/// [`quality_value`] once the text is split at its first `.`.
pub open spec fn quality_of_parts(whole: Seq<char>, fraction: Seq<char>) -> Option<u16> {
    if fraction.len() > 3 || !all_digits(fraction) {
        None
    } else if whole == seq!['0'] {
        Some(
            (decimal(fraction) * (if fraction.len() == 0 {
                1000nat
            } else if fraction.len() == 1 {
                100nat
            } else if fraction.len() == 2 {
                10nat
            } else {
                1nat
            })) as u16,
        )
    } else if whole == seq!['1'] && all_zeros(fraction) {
        Some(1000)
    } else {
        None
    }
}

/// The index of the first `.` among the first `n` characters (ghost helper).
spec fn find_char_spec(s: Seq<char>, n: usize) -> Option<int> {
    find(s.subrange(0, n as int), '.')
}

/// How strongly, and how early, a client asked for a representation.
#[derive(Clone, Copy, Debug, PartialEq, Eq)]
pub struct Preference {
    pub quality: u16,
    pub order: usize,
}

/// Whether `left` is preferred to `right`: a higher quality, or the same
/// quality listed earlier.
pub open spec fn prefers_spec(left: Preference, right: Preference) -> bool {
    left.quality > right.quality || (left.quality == right.quality && left.order < right.order)
}

/// Whether `left` is preferred to `right`.
pub fn prefers(left: Preference, right: Preference) -> (preferred: bool)
    ensures
        preferred == prefers_spec(left, right),
{
    left.quality > right.quality || (left.quality == right.quality && left.order < right.order)
}

/// One acceptable media range of an `Accept` header.
#[derive(Debug, PartialEq, Eq)]
pub struct MediaRange {
    pub media_type: String,
    pub quality: u16,
    pub order: usize,
}

/// The model of a [`MediaRange`].
pub ghost struct MediaRangeView {
    pub essence: Seq<char>,
    pub quality: u16,
    pub order: int,
}

impl View for MediaRange {
    type V = MediaRangeView;

    open spec fn view(&self) -> MediaRangeView {
        MediaRangeView {
            essence: self.media_type@,
            quality: self.quality,
            order: self.order as int,
        }
    }
}

/// The comma-separated elements of `s`, as `str::split(',')` yields them.
pub open spec fn split_commas(s: Seq<char>) -> Seq<Seq<char>>
    decreases s.len(),
{
    match find(s, ',') {
        None => seq![s],
        Some(i) => {
            proof {
                crate::text::lemma_find_from(s, ',', 0);
            }
            seq![s.take(i)] + split_commas(s.skip(i + 1))
        },
    }
}

/// The comma-separated elements of all `Accept` header values, in order.
pub open spec fn accept_elements(values: Seq<Seq<char>>) -> Seq<Seq<char>>
    decreases values.len(),
{
    if values.len() == 0 {
        Seq::empty()
    } else {
        accept_elements(values.drop_last()) + split_commas(values.last())
    }
}

/// How many of `elements` parse as media ranges.
pub open spec fn parsed_count(elements: Seq<Seq<char>>) -> nat
    decreases elements.len(),
{
    if elements.len() == 0 {
        0
    } else {
        parsed_count(elements.drop_last()) + if mime_parse(trim(elements.last())) is Some {
            1nat
        } else {
            0nat
        }
    }
}

/// The acceptable media ranges among `elements`: each element is trimmed
/// and parsed; its order counts the parsed elements before it; its quality
/// is its `q` parameter (1000 when absent); an element whose quality does
/// not parse or is zero is dropped.
pub open spec fn media_ranges(elements: Seq<Seq<char>>) -> Seq<MediaRangeView>
    decreases elements.len(),
{
    if elements.len() == 0 {
        Seq::empty()
    } else {
        let before = media_ranges(elements.drop_last());
        match mime_parse(trim(elements.last())) {
            None => before,
            Some((essence, q)) => {
                let quality = match q {
                    None => Some(1000u16),
                    Some(v) => quality_value(v),
                };
                match quality {
                    Some(value) => if value > 0 {
                        before.push(
                            MediaRangeView {
                                essence,
                                quality: value,
                                order: parsed_count(elements.drop_last()) as int,
                            },
                        )
                    } else {
                        before
                    },
                    None => before,
                }
            },
        }
    }
}

/// The most preferred of `ranges` whose essence is in `types`, as a left
/// fold that keeps the current choice unless a later range is strictly
/// preferred.
pub open spec fn preferred_spec(types: Seq<Seq<char>>, ranges: Seq<MediaRangeView>) -> Option<
    Preference,
>
    decreases ranges.len(),
{
    if ranges.len() == 0 {
        None
    } else {
        let before = preferred_spec(types, ranges.drop_last());
        let r = ranges.last();
        if !types.contains(r.essence) {
            before
        } else {
            let candidate = Preference { quality: r.quality, order: r.order as usize };
            match before {
                None => Some(candidate),
                Some(current) => if prefers_spec(candidate, current) {
                    Some(candidate)
                } else {
                    Some(current)
                },
            }
        }
    }
}

/// The media types that carry ActivityPub documents.
pub open spec fn activitypub_media_types() -> Seq<Seq<char>> {
    seq!["application/activity+json"@, "application/ld+json"@, "application/json"@]
}

/// The media types that carry HTML documents.
pub open spec fn html_media_types() -> Seq<Seq<char>> {
    seq!["text/html"@, "application/xhtml+xml"@]
}

/// Whether a client with these `Accept` header values should receive
/// ActivityPub JSON: some ActivityPub type is acceptable and, if some HTML
/// type is acceptable too, the best ActivityPub type is preferred to the best
/// HTML type.
pub open spec fn accepts_activitypub_spec(values: Seq<Seq<char>>) -> bool {
    let ranges = media_ranges(accept_elements(values));
    match (
        preferred_spec(activitypub_media_types(), ranges),
        preferred_spec(html_media_types(), ranges),
    ) {
        (Some(activitypub), Some(html)) => prefers_spec(activitypub, html),
        (Some(_), None) => true,
        _ => false,
    }
}

/// The characters of all `values`, counting one more per value: a bound on
/// the number of comma-separated elements.
pub open spec fn total_len(values: Seq<Seq<char>>) -> nat
    decreases values.len(),
{
    if values.len() == 0 {
        0
    } else {
        total_len(values.drop_last()) + values.last().len() + 1
    }
}

pub proof fn lemma_split_commas_bound(s: Seq<char>)
    ensures
        split_commas(s).len() <= s.len() + 1,
    decreases s.len(),
{
    crate::text::lemma_find_from(s, ',', 0);
    match find(s, ',') {
        Some(i) => lemma_split_commas_bound(s.skip(i + 1)),
        None => {},
    }
}

pub proof fn lemma_elements_bound(values: Seq<Seq<char>>)
    ensures
        accept_elements(values).len() <= total_len(values),
    decreases values.len(),
{
    if values.len() > 0 {
        lemma_elements_bound(values.drop_last());
        lemma_split_commas_bound(values.last());
    }
}

pub proof fn lemma_total_len_prefix(values: Seq<Seq<char>>, i: int)
    requires
        0 <= i <= values.len(),
    ensures
        total_len(values.take(i)) <= total_len(values),
    decreases values.len() - i,
{
    if i < values.len() {
        lemma_total_len_prefix(values, i + 1);
        assert(values.take(i + 1).drop_last() =~= values.take(i));
    } else {
        assert(values.take(i) =~= values);
    }
}

pub proof fn lemma_parsed_count_bound(elements: Seq<Seq<char>>)
    ensures
        parsed_count(elements) <= elements.len(),
    decreases elements.len(),
{
    if elements.len() > 0 {
        lemma_parsed_count_bound(elements.drop_last());
    }
}

/// Splits `s` at commas.
pub fn split_at_commas(s: &str) -> (pieces: Vec<String>)
    ensures
        pieces@.map_values(|p: String| p@) == split_commas(s@),
{
    let chars = chars_of(s);
    let n = chars.len();
    let mut pieces: Vec<String> = Vec::new();
    let mut start: usize = 0;
    assert(s@.skip(0) =~= s@);
    assert(pieces@.map_values(|p: String| p@) =~= Seq::<Seq<char>>::empty());
    loop
        invariant
            n == chars@.len(),
            chars@ == s@,
            start <= n,
            split_commas(s@) == pieces@.map_values(|p: String| p@) + split_commas(
                s@.skip(start as int),
            ),
        decreases n - start,
    {
        let ghost rest = s@.skip(start as int);
        let ghost before = pieces@.map_values(|p: String| p@);
        let found = find_char(chars.as_slice(), ',', start, n);
        proof {
            lemma_find_window(
                chars@,
                ',',
                start as int,
                n as int,
                match found {
                    Some(i) => Some(i as int),
                    None => None,
                },
            );
            assert(chars@.subrange(start as int, n as int) =~= rest);
        }
        match found {
            Some(i) => {
                let piece = string_of(chars.as_slice(), start, i);
                pieces.push(piece);
                proof {
                    assert(rest.take(i - start) =~= chars@.subrange(start as int, i as int));
                    assert(rest.skip(i - start + 1) =~= s@.skip(i + 1));
                    assert(pieces@.map_values(|p: String| p@) =~= before.push(
                        rest.take(i - start),
                    ));
                }
                start = i + 1;
            },
            None => {
                let piece = string_of(chars.as_slice(), start, n);
                pieces.push(piece);
                proof {
                    assert(pieces@.map_values(|p: String| p@) =~= before + seq![rest]);
                }
                return pieces;
            },
        }
    }
}

fn in_list(essence: &str, types: &[&str]) -> (found: bool)
    ensures
        found == types@.map_values(|t: &str| t@).contains(essence@),
{
    let n = types.len();
    for k in 0..n
        invariant
            n == types@.len(),
            forall|j: int| 0 <= j < k ==> #[trigger] types@[j]@ != essence@,
    {
        if str_eq(types[k], essence) {
            assert(types@.map_values(|t: &str| t@)[k as int] == essence@);
            return true;
        }
    }
    proof {
        let m = types@.map_values(|t: &str| t@);
        if m.contains(essence@) {
            let j = choose|j: int| 0 <= j < m.len() && m[j] == essence@;
            assert(types@[j]@ == essence@);
        }
    }
    false
}

/// The acceptable media ranges of a list of `Accept` header values.
pub fn media_ranges_of(values: &[String]) -> (ranges: Vec<MediaRange>)
    requires
        total_len(values@.map_values(|v: String| v@)) <= usize::MAX,
    ensures
        ranges@.map_values(|r: MediaRange| r@) == media_ranges(
            accept_elements(values@.map_values(|v: String| v@)),
        ),
{
    let ghost vs = values@.map_values(|v: String| v@);
    let mut ranges: Vec<MediaRange> = Vec::new();
    let mut order: usize = 0;
    let n = values.len();
    assert(vs.take(0) =~= Seq::<Seq<char>>::empty());
    for i in 0..n
        invariant
            n == values@.len(),
            n == vs.len(),
            vs == values@.map_values(|v: String| v@),
            ranges@.map_values(|r: MediaRange| r@) == media_ranges(
                accept_elements(vs.take(i as int)),
            ),
            order == parsed_count(accept_elements(vs.take(i as int))),
            total_len(vs) <= usize::MAX,
    {
        let ghost prefix = accept_elements(vs.take(i as int));
        let pieces = split_at_commas(values[i].as_str());
        let ghost ps = pieces@.map_values(|p: String| p@);
        proof {
            assert(vs.take(i + 1).drop_last() =~= vs.take(i as int));
            assert(vs.take(i + 1).last() == values@[i as int]@);
            assert(prefix + ps.take(0) =~= prefix);
            assert(accept_elements(vs.take(i + 1)) == prefix + ps);
        }
        let m = pieces.len();
        for k in 0..m
            invariant
                m == pieces@.len(),
                ps == pieces@.map_values(|p: String| p@),
                ranges@.map_values(|r: MediaRange| r@) == media_ranges(prefix + ps.take(k as int)),
                order == parsed_count(prefix + ps.take(k as int)),
                prefix + ps == accept_elements(vs.take(i + 1)),
                i < n,
                n == vs.len(),
                total_len(vs) <= usize::MAX,
        {
            let ghost elems = prefix + ps.take(k + 1);
            proof {
                assert(elems.drop_last() =~= prefix + ps.take(k as int));
                assert(elems.last() == pieces@[k as int]@);
            }
            let piece_chars = chars_of(pieces[k].as_str());
            let (a, e) = trim_span(piece_chars.as_slice(), 0, piece_chars.len());
            proof {
                assert(piece_chars@.subrange(0, piece_chars@.len() as int) =~= piece_chars@);
            }
            let trimmed = string_of(piece_chars.as_slice(), a, e);
            match parse_media_type(trimmed.as_str()) {
                None => {},
                Some(parts) => {
                    let quality = match &parts.quality {
                        None => Some(1000u16),
                        Some(q) => parse_quality(q.as_str()),
                    };
                    match quality {
                        Some(q) => {
                            if q > 0 {
                                let ghost before = ranges@.map_values(|r: MediaRange| r@);
                                ranges.push(
                                    MediaRange { media_type: parts.essence, quality: q, order },
                                );
                                assert(ranges@.map_values(|r: MediaRange| r@) =~= before.push(
                                    ranges@[ranges@.len() - 1]@,
                                ));
                            }
                        },
                        None => {},
                    }
                    proof {
                        lemma_parsed_count_bound(prefix + ps.take(k as int));
                        assert((prefix + ps.take(k as int)).len() < (prefix + ps).len());
                        lemma_elements_bound(vs.take(i + 1));
                        lemma_total_len_prefix(vs, i + 1);
                    }
                    order = order + 1;
                },
            }
        }
        proof {
            assert(ps.take(m as int) =~= ps);
            assert(accept_elements(vs.take(i + 1)) == prefix + ps);
        }
    }
    assert(vs.take(n as int) =~= vs);
    ranges
}

/// The most preferred range among `ranges` whose media type is in `types`.
pub fn preferred(media_types: &[&str], ranges: &[MediaRange]) -> (best: Option<Preference>)
    ensures
        best == preferred_spec(
            media_types@.map_values(|t: &str| t@),
            ranges@.map_values(|r: MediaRange| r@),
        ),
{
    let ghost types = media_types@.map_values(|t: &str| t@);
    let ghost rs = ranges@.map_values(|r: MediaRange| r@);
    let mut best: Option<Preference> = None;
    let n = ranges.len();
    assert(rs.take(0) =~= Seq::<MediaRangeView>::empty());
    for i in 0..n
        invariant
            n == ranges@.len(),
            types == media_types@.map_values(|t: &str| t@),
            rs == ranges@.map_values(|r: MediaRange| r@),
            best == preferred_spec(types, rs.take(i as int)),
    {
        proof {
            assert(rs.take(i + 1).drop_last() =~= rs.take(i as int));
            assert(rs.take(i + 1).last() == ranges@[i as int]@);
        }
        let range = &ranges[i];
        if in_list(range.media_type.as_str(), media_types) {
            let candidate = Preference { quality: range.quality, order: range.order };
            best = match best {
                None => Some(candidate),
                Some(current) => if prefers(candidate, current) {
                    Some(candidate)
                } else {
                    Some(current)
                },
            };
        }
    }
    assert(rs.take(n as int) =~= rs);
    best
}

/// Whether a client sending these `Accept` header values should receive
/// ActivityPub JSON rather than HTML.
pub fn accepts_activitypub(accept_values: &[String]) -> (accepted: bool)
    requires
        total_len(accept_values@.map_values(|v: String| v@)) <= usize::MAX,
    ensures
        accepted == accepts_activitypub_spec(accept_values@.map_values(|v: String| v@)),
{
    let ranges = media_ranges_of(accept_values);
    let activitypub_types = ["application/activity+json", "application/ld+json", "application/json"];
    let html_types = ["text/html", "application/xhtml+xml"];
    proof {
        assert(activitypub_types@.map_values(|t: &str| t@) =~= activitypub_media_types());
        assert(html_types@.map_values(|t: &str| t@) =~= html_media_types());
    }
    let activitypub = preferred(activitypub_types.as_slice(), ranges.as_slice());
    let html = preferred(html_types.as_slice(), ranges.as_slice());
    match (activitypub, html) {
        (Some(a), Some(h)) => prefers(a, h),
        (Some(_), None) => true,
        _ => false,
    }
}

/// The media types of request bodies that carry ActivityPub activities.
pub open spec fn activitypub_body_types() -> Seq<Seq<char>> {
    seq!["application/activity+json"@, "application/ld+json"@]
}

/// Whether a request `Content-Type` parses as a media type whose essence
/// carries ActivityPub activities.
pub fn is_activitypub_body_type(content_type: Option<&str>) -> (accepted: bool)
    ensures
        accepted == (content_type matches Some(t) && mime_parse(t@) matches Some((essence, _))
            && activitypub_body_types().contains(essence)),
{
    let content_type = match content_type {
        Some(t) => t,
        None => {
            return false;
        },
    };
    let types = ["application/activity+json", "application/ld+json"];
    proof {
        assert(types@.map_values(|t: &str| t@) =~= activitypub_body_types());
    }
    match parse_media_type(content_type) {
        Some(parts) => in_list(parts.essence.as_str(), types.as_slice()),
        None => false,
    }
}

/// The media type of a `Content-Type` value: the text before the first `;`,
/// trimmed.
pub open spec fn declared_media_type(content_type: Seq<char>) -> Seq<char> {
    match find(content_type, ';') {
        Some(i) => trim(content_type.take(i)),
        None => trim(content_type),
    }
}

/// Whether a response `Content-Type` declares an ActivityPub document: its
/// media type is `application/activity+json` or `application/ld+json`,
/// ignoring ASCII case.
pub open spec fn is_activitypub_content_type_spec(content_type: Seq<char>) -> bool {
    eq_ignore_case(declared_media_type(content_type), "application/activity+json"@)
        || eq_ignore_case(declared_media_type(content_type), "application/ld+json"@)
}

/// Whether a response `Content-Type` declares an ActivityPub document.
pub fn is_activitypub_content_type(content_type: &str) -> (accepted: bool)
    ensures
        accepted == is_activitypub_content_type_spec(content_type@),
{
    let chars = chars_of(content_type);
    let n = chars.len();
    let end = match find_char(chars.as_slice(), ';', 0, n) {
        Some(i) => i,
        None => n,
    };
    proof {
        assert(chars@.subrange(0, n as int) =~= chars@);
        lemma_find_window(
            chars@,
            ';',
            0,
            n as int,
            if end < n {
                Some(end as int)
            } else {
                None
            },
        );
        assert(chars@.take(end as int) =~= chars@.subrange(0, end as int));
    }
    let (a, e) = trim_span(chars.as_slice(), 0, end);
    let media_type = string_of(chars.as_slice(), a, e);
    let media_chars = chars_of(media_type.as_str());
    let json = chars_of("application/activity+json");
    let ld = chars_of("application/ld+json");
    chars_eq_ignore_case(media_chars.as_slice(), json.as_slice()) || chars_eq_ignore_case(
        media_chars.as_slice(),
        ld.as_slice(),
    )
}

} // verus!
