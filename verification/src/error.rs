//! What can go wrong with a search.
//!
//! A search ends in a typed result page or in exactly one [`Error`]: the
//! transport failed, the body could not be read as a result page, or the
//! service itself refused the request and said why.

use crate::text::{join, joined, views};
use vstd::prelude::*;
use vstd::std_specs::convert::FromSpecImpl;

verus! {

/// The transport could not deliver the request or the response body.
#[derive(Debug, Clone, PartialEq, Eq)]
pub struct TransportFailure {
    /// The transport's own account of the failure.
    pub reason: String,
}

/// A body could not be read against a schema.
#[derive(Debug, Clone, PartialEq, Eq)]
pub struct DecodeFailure {
    /// The decoder's account of the failure: the field at fault and what
    /// was wrong with it.
    pub reason: String,
}

/// One entry of the error list that the service returns in place of a
/// result page.
#[derive(Debug, Clone, PartialEq, Eq)]
pub struct ApiError {
    /// The service's code for the error.
    pub err_code: String,
    /// The request parameter at fault; for an error inside the query, the
    /// search key at fault.
    pub err_fld: String,
    /// The message for the user.
    pub err_msg: String,
}

impl ApiError {
    /// The entry as text: its message.
    pub fn to_string(&self) -> (text: String)
        ensures
            text@ == self.err_msg@,
    {
        self.err_msg.clone()
    }
}

/// The error list of a refused request, in the order in which the service
/// gave it.
#[derive(Debug, Clone, PartialEq, Eq)]
pub struct ApiErrors(pub Vec<ApiError>);

/// The messages of the entries, in the order of the entries.
pub open spec fn messages(entries: Seq<ApiError>) -> Seq<Seq<char>> {
    Seq::new(entries.len(), |i: int| entries[i].err_msg@)
}

/// The messages of the entries, each two neighbours separated by a comma
/// and a space.
pub open spec fn joined_messages(entries: Seq<ApiError>) -> Seq<char> {
    joined(messages(entries), seq![',', ' '])
}

impl ApiErrors {
    /// The list as text: the messages of all entries, in order, joined by
    /// `, `.
    pub fn to_string(&self) -> (text: String)
        ensures
            text@ == joined_messages(self.0@),
    {
        let mut all: Vec<String> = Vec::new();
        let mut i: usize = 0;
        while i < self.0.len()
            invariant
                i <= self.0@.len(),
                all@.len() == i,
                forall|k: int| 0 <= k < i ==> (#[trigger] all@[k])@ == self.0@[k].err_msg@,
            decreases self.0@.len() - i,
        {
            all.push(self.0[i].err_msg.clone());
            i += 1;
        }
        proof {
            reveal_strlit(", ");
            assert(", "@ =~= seq![',', ' ']);
            assert(views(all@) =~= messages(self.0@));
        }
        join(&all, ", ")
    }
}

/// Why a search gave no result page.
#[derive(Debug, Clone, PartialEq, Eq)]
pub enum Error {
    /// The request could not be sent, or no body came back.
    Request(TransportFailure),
    /// The body is neither a result page nor an error list. The failure is
    /// the one met while reading it as a result page.
    De(DecodeFailure),
    /// The service refused the request; these are its reasons.
    Api(ApiErrors),
}

impl From<TransportFailure> for Error {
    fn from(source: TransportFailure) -> (error: Error) {
        Error::Request(source)
    }
}

impl FromSpecImpl<TransportFailure> for Error {
    open spec fn obeys_from_spec() -> bool {
        true
    }

    open spec fn from_spec(source: TransportFailure) -> Error {
        Error::Request(source)
    }
}

impl From<DecodeFailure> for Error {
    fn from(source: DecodeFailure) -> (error: Error) {
        Error::De(source)
    }
}

impl FromSpecImpl<DecodeFailure> for Error {
    open spec fn obeys_from_spec() -> bool {
        true
    }

    open spec fn from_spec(source: DecodeFailure) -> Error {
        Error::De(source)
    }
}

impl From<ApiErrors> for Error {
    fn from(source: ApiErrors) -> (error: Error) {
        Error::Api(source)
    }
}

impl FromSpecImpl<ApiErrors> for Error {
    open spec fn obeys_from_spec() -> bool {
        true
    }

    open spec fn from_spec(source: ApiErrors) -> Error {
        Error::Api(source)
    }
}

} // verus!
