//! The error taxonomy: every failure of URL assembly, transport, JSON
//! parsing or field decoding is reported as one `Error` value.

use vstd::prelude::*;
use crate::json::JsonValue;

verus! {

/// The error type used throughout the library.
///
/// Every failure is terminal for the request in progress; nothing is retried.
#[derive(Debug)]
pub enum Error {
    /// The HTTP layer failed; the payload is its message.
    Transport(String),
    /// Malformed JSON, or a field that fails type coercion: the field name
    /// (or a short context for body-level failures) and the offending raw
    /// value. A missing required field is reported with a `Null` raw value.
    Decode(String, JsonValue),
    /// An enumeration-coded field held a code outside the closed set: the
    /// field name and the offending code.
    InvalidEnumCode(String, String),
    /// The assembled request string is not a valid URI.
    InvalidUri(String),
}

/// The mathematical shape of an `Error`: strings by their character
/// sequences, the offending raw value as it stands.
pub enum ErrView {
    Transport(Seq<char>),
    Decode(Seq<char>, JsonValue),
    InvalidEnumCode(Seq<char>, Seq<char>),
    InvalidUri(Seq<char>),
}

impl View for Error {
    type V = ErrView;

    open spec fn view(&self) -> ErrView {
        match self {
            Error::Transport(m) => ErrView::Transport(m@),
            Error::Decode(f, v) => ErrView::Decode(f@, *v),
            Error::InvalidEnumCode(f, c) => ErrView::InvalidEnumCode(f@, c@),
            Error::InvalidUri(u) => ErrView::InvalidUri(u@),
        }
    }
}

/// Relates an executable decode result to its specification-level value:
/// payloads agree exactly, errors agree up to the view.
pub open spec fn decode_matches<T>(r: Result<T, Error>, s: Result<T, ErrView>) -> bool {
    match r {
        Ok(a) => s matches Ok(b) && a == b,
        Err(e) => s matches Err(ev) && e@ == ev,
    }
}

/// As `decode_matches`, for results carrying a vector of records.
pub open spec fn decode_matches_seq<T>(r: Result<Vec<T>, Error>, s: Result<Seq<T>, ErrView>) -> bool {
    match r {
        Ok(a) => s matches Ok(b) && a@ == b,
        Err(e) => s matches Err(ev) && e@ == ev,
    }
}

impl Error {
    /// A short, stable description of the error's kind, for reporting.
    pub fn kind_message(&self) -> (r: &'static str)
        ensures
            r@ == self.spec_kind_message(),
    {
        match self {
            Error::Transport(_) => "transport error",
            Error::Decode(_, _) => "decode error",
            Error::InvalidEnumCode(_, _) => "invalid enumeration code",
            Error::InvalidUri(_) => "invalid request uri",
        }
    }

    pub open spec fn spec_kind_message(&self) -> Seq<char> {
        match self {
            Error::Transport(_) => "transport error"@,
            Error::Decode(_, _) => "decode error"@,
            Error::InvalidEnumCode(_, _) => "invalid enumeration code"@,
            Error::InvalidUri(_) => "invalid request uri"@,
        }
    }
}

} // verus!
