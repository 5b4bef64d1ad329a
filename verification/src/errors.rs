//! The error taxonomy. Every error is terminal for the invocation: a failure
//! always means that no record was produced.

use vstd::prelude::*;

verus! {

/// Why an invocation produced no record.
#[derive(Debug, Clone)]
pub enum Error {
    /// The input string matches none of the recognized payment kinds.
    ParseFailure,
    /// The nostr bech32 re-encoding of an otherwise present key failed;
    /// carries the underlying cause text verbatim.
    EncodingFailure(String),
    /// The assembled record could not be rendered by the serializer; carries
    /// the underlying cause text verbatim.
    SerializationFailure(String),
}

/// The mathematical model of an `Error`.
pub enum ErrorView {
    ParseFailure,
    EncodingFailure(Seq<char>),
    SerializationFailure(Seq<char>),
}

impl View for Error {
    type V = ErrorView;

    open spec fn view(&self) -> ErrorView {
        match self {
            Error::ParseFailure => ErrorView::ParseFailure,
            Error::EncodingFailure(cause) => ErrorView::EncodingFailure(cause@),
            Error::SerializationFailure(cause) => ErrorView::SerializationFailure(cause@),
        }
    }
}

impl ErrorView {
    /// The user-visible diagnostic text of this error: the fixed diagnostic
    /// for a parse failure, the underlying cause text verbatim otherwise.
    pub open spec fn spec_message(self) -> Seq<char> {
        match self {
            ErrorView::ParseFailure => "not a known bitcoin string"@,
            ErrorView::EncodingFailure(cause) => cause,
            ErrorView::SerializationFailure(cause) => cause,
        }
    }
}

impl Error {
    /// Returns the user-visible diagnostic message.
    pub fn message(&self) -> (m: String)
        ensures
            m@ == self@.spec_message(),
    {
        match self {
            Error::ParseFailure => "not a known bitcoin string".to_owned(),
            Error::EncodingFailure(cause) => cause.clone(),
            Error::SerializationFailure(cause) => cause.clone(),
        }
    }
}

} // verus!
