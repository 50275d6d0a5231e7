//! IRIs with a scheme, used as ActivityPub identifiers.

use vstd::prelude::*;

verus! {

/// Whether `text` is an IRI with a scheme by the `IRI` rule of RFC 3987
/// (a fragment allowed), as the `iri_string` crate decides when parsing an
/// `IriString`.
pub uninterp spec fn is_absolute_iri(text: Seq<char>) -> bool;

/// Asks `iri_string` whether `text` parses as an `IriString`.
///
/// Trusted: `<IriString as FromStr>::from_str` succeeds exactly when the
/// text matches the RFC 3987 `IRI` rule, a scheme and an optional fragment
/// included; its result depends on the text alone.
#[verifier::external_body]
fn iri_string_accepts(text: &str) -> (accepted: bool)
    ensures
        accepted == is_absolute_iri(text@),
{
    text.parse::<iri_string::types::IriString>().is_ok()
}

/// An absolute ActivityPub/ActivityStreams identifier.
#[derive(Debug, PartialEq, Eq)]
pub struct Iri {
    text: String,
}

impl View for Iri {
    type V = Seq<char>;

    closed spec fn view(&self) -> Seq<char> {
        self.text@
    }
}

impl Clone for Iri {
    fn clone(&self) -> (copy: Self)
        ensures
            copy == *self,
    {
        Iri { text: self.text.clone() }
    }
}

impl Iri {
    /// Parses `text` as an IRI with a scheme.
    pub fn parse(text: &str) -> (iri: Option<Iri>)
        ensures
            iri is Some <==> is_absolute_iri(text@),
            iri matches Some(i) ==> i@ == text@,
    {
        if iri_string_accepts(text) {
            Some(Iri { text: text.to_owned() })
        } else {
            None
        }
    }

    /// An IRI from text that this crate knows to match the `IRI` rule, such
    /// as the Activity Streams context; it is not validated again.
    pub(crate) fn known(text: &str) -> (iri: Iri)
        ensures
            iri@ == text@,
    {
        Iri { text: text.to_owned() }
    }

    /// The IRI's text.
    pub fn as_str(&self) -> (text: &str)
        ensures
            text@ == self@,
    {
        self.text.as_str()
    }

    /// Compares two IRIs by their text, as `IriString` equality does.
    pub fn same(&self, other: &Iri) -> (equal: bool)
        ensures
            equal == (self@ == other@),
    {
        self.text == other.text
    }
}

} // verus!
