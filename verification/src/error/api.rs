//! Errors of calls to the server.

use vstd::prelude::*;

verus! {

#[derive(Debug, Clone, PartialEq, Eq)]
pub enum ApiError {
    Url(String),
    Http(String),
    Decode(String),
}

impl ApiError {
    /// The message that the error shows.
    pub open spec fn spec_message(self) -> Seq<char> {
        match self {
            ApiError::Url(e) => "invalid base url: "@ + e@,
            ApiError::Http(e) => "http error: "@ + e@,
            ApiError::Decode(e) => "decode error: "@ + e@,
        }
    }

    /// The message that the error shows.
    pub fn message(&self) -> (r: String)
        ensures
            r@ == self.spec_message(),
    {
        match self {
            ApiError::Url(e) => "invalid base url: ".to_string().concat(e.as_str()),
            ApiError::Http(e) => "http error: ".to_string().concat(e.as_str()),
            ApiError::Decode(e) => "decode error: ".to_string().concat(e.as_str()),
        }
    }
}

} // verus!
