//! The single error a failed parse surfaces, and the spec-level shape of a
//! `Result` whose payloads are compared by their views.

use vstd::prelude::*;

verus! {

/// Why a document failed to parse. Each parse returns either a fully
/// populated record or exactly one of these, naming the offending element.
///
/// An unresolvable `contextRef`, `unitRef` or footnote id is never an error:
/// the referencing fact is dropped, or the optional field stays `None`.
#[derive(Debug, Clone, PartialEq, Eq)]
pub enum ParseError {
    /// The input is not well-formed XML; carries the reader's diagnostic.
    MalformedXml(String),
    /// A tag the active schema requires was absent.
    MissingRequiredElement(String),
    /// A required leaf's text did not parse to the expected type: the tag,
    /// and the text as it stood in the document.
    TypeCoercionFailure(String, String),
}

/// The mathematical shape of a [`ParseError`].
pub enum ParseErrorView {
    MalformedXml(Seq<char>),
    MissingRequiredElement(Seq<char>),
    TypeCoercionFailure(Seq<char>, Seq<char>),
}

impl DeepView for ParseError {
    type V = ParseErrorView;

    open spec fn deep_view(&self) -> ParseErrorView {
        match self {
            ParseError::MalformedXml(s) => ParseErrorView::MalformedXml(s@),
            ParseError::MissingRequiredElement(s) => ParseErrorView::MissingRequiredElement(s@),
            ParseError::TypeCoercionFailure(t, raw) => ParseErrorView::TypeCoercionFailure(
                t@,
                raw@,
            ),
        }
    }
}

/// The missing-element error for `tag`.
pub fn missing_element(tag: &str) -> (e: ParseError)
    ensures
        e.deep_view() == ParseErrorView::MissingRequiredElement(tag@),
{
    ParseError::MissingRequiredElement(tag.to_owned())
}

/// `r` with `a` in front of its items, or `r`'s error unchanged.
pub open spec fn prepend_items<T, E>(a: Seq<T>, r: Result<Seq<T>, E>) -> Result<Seq<T>, E> {
    match r {
        Ok(b) => Ok(a + b),
        Err(e) => Err(e),
    }
}

/// Whether the executable result `r` carries exactly the model `m`: same
/// variant, and a payload whose view is the model's payload.
pub open spec fn result_matches<T: DeepView, E: DeepView>(
    r: Result<T, E>,
    m: Result<T::V, E::V>,
) -> bool {
    match r {
        Ok(v) => m == Ok::<T::V, E::V>(v.deep_view()),
        Err(e) => m == Err::<T::V, E::V>(e.deep_view()),
    }
}

} // verus!
