//! Errors of the event stream.

use vstd::prelude::*;

verus! {

#[derive(Debug, Clone, PartialEq, Eq)]
pub enum EventsError {
    Http(String),
}

impl EventsError {
    /// The message that the error shows.
    pub open spec fn spec_message(self) -> Seq<char> {
        match self {
            EventsError::Http(e) => "http error: "@ + e@,
        }
    }

    /// The message that the error shows.
    pub fn message(&self) -> (r: String)
        ensures
            r@ == self.spec_message(),
    {
        match self {
            EventsError::Http(e) => "http error: ".to_string().concat(e.as_str()),
        }
    }
}

} // verus!
