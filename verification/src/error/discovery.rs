//! Errors of the search for a running server.

use vstd::prelude::*;

verus! {

#[derive(Debug, Clone, PartialEq, Eq)]
pub enum DiscoveryError {
    SystemQuery(String),
    NetworkQuery(String),
}

impl DiscoveryError {
    /// The message that the error shows.
    pub open spec fn spec_message(self) -> Seq<char> {
        match self {
            DiscoveryError::SystemQuery(e) => "failed to query system processes: "@ + e@,
            DiscoveryError::NetworkQuery(e) => "failed to query network sockets: "@ + e@,
        }
    }

    /// The message that the error shows.
    pub fn message(&self) -> (r: String)
        ensures
            r@ == self.spec_message(),
    {
        match self {
            DiscoveryError::SystemQuery(e) => "failed to query system processes: ".to_string().concat(
                e.as_str(),
            ),
            DiscoveryError::NetworkQuery(e) => "failed to query network sockets: ".to_string().concat(
                e.as_str(),
            ),
        }
    }
}

} // verus!
