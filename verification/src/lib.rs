//! Typed access to the search interface of the Collaborative Reference
//! Database: a query expression algebra with its textual grammar, and the
//! rules by which a response body is resolved into a typed result page or
//! a service error.

pub mod cql;
pub mod date;
pub mod error;
pub mod field;
pub mod request;
pub mod response;
pub mod text;

use vstd::prelude::*;

verus! {

/// A builder with no parameter set.
pub fn builder() -> (builder: request::RequestBuilder)
    ensures
        builder@ == request::empty_request(),
{
    request::RequestBuilder::default()
}

} // verus!
