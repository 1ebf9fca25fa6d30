//! The ways in which a search can fail.

use crate::models::PerPageError;
use crate::text::{decimal, push_decimal};
use vstd::prelude::*;
use vstd::std_specs::convert::FromSpecImpl;

verus! {

/// The error that a search ends with.
#[derive(Debug, Clone, PartialEq, Eq)]
pub enum SearchError {
    /// A page size outside the range from 1 to 50 was asked for.
    InvalidPageSize,
    /// The request did not reach the server, or no reply came back; the text
    /// is the transport's own account of it.
    TransportFailure(String),
    /// The server replied with a status other than 200.
    UnexpectedStatus(u16),
    /// The reply's body is not the JSON of a page of results; the text is
    /// the path of the place in the document at which decoding failed.
    MalformedResponse(String),
}

/// A `SearchError` with its texts as sequences of characters.
pub enum Failure {
    InvalidPageSize,
    TransportFailure(Seq<char>),
    UnexpectedStatus(u16),
    MalformedResponse(Seq<char>),
}

impl View for SearchError {
    type V = Failure;

    open spec fn view(&self) -> Failure {
        match self {
            SearchError::InvalidPageSize => Failure::InvalidPageSize,
            SearchError::TransportFailure(reason) => Failure::TransportFailure(reason@),
            SearchError::UnexpectedStatus(status) => Failure::UnexpectedStatus(*status),
            SearchError::MalformedResponse(path) => Failure::MalformedResponse(path@),
        }
    }
}

impl Failure {
    /// The sentence that reports the failure to a user.
    pub open spec fn message(self) -> Seq<char> {
        match self {
            Failure::InvalidPageSize => "page size must lie between 1 and 50"@,
            Failure::TransportFailure(reason) => "transport failure: "@ + reason,
            Failure::UnexpectedStatus(status) => "unexpected status: "@ + decimal(status as nat),
            Failure::MalformedResponse(path) => "malformed response at "@ + path,
        }
    }
}

impl SearchError {
    /// The sentence that reports the error to a user.
    pub fn message(&self) -> (text: String)
        ensures
            text@ == self@.message(),
    {
        match self {
            SearchError::InvalidPageSize => String::from_str("page size must lie between 1 and 50"),
            SearchError::TransportFailure(reason) => {
                let mut text = String::from_str("transport failure: ");
                text.append(reason.as_str());
                text
            },
            SearchError::UnexpectedStatus(status) => {
                let mut text = String::from_str("unexpected status: ");
                push_decimal(&mut text, *status as u64);
                text
            },
            SearchError::MalformedResponse(path) => {
                let mut text = String::from_str("malformed response at ");
                text.append(path.as_str());
                text
            },
        }
    }
}

impl From<PerPageError> for SearchError {
    fn from(error: PerPageError) -> (r: SearchError)
        ensures
            r@ == Failure::InvalidPageSize,
    {
        SearchError::InvalidPageSize
    }
}

impl FromSpecImpl<PerPageError> for SearchError {
    open spec fn obeys_from_spec() -> bool {
        true
    }

    open spec fn from_spec(error: PerPageError) -> SearchError {
        SearchError::InvalidPageSize
    }
}

} // verus!
