//! Errors of starting a server.

use vstd::prelude::*;

verus! {

#[derive(Debug, Clone, PartialEq, Eq)]
pub enum SpawnError {
    Spawn(String),
    Parse,
    Timeout,
}

impl SpawnError {
    /// The message that the error shows.
    pub open spec fn spec_message(self) -> Seq<char> {
        match self {
            SpawnError::Spawn(e) => "failed to spawn opencode: "@ + e@,
            SpawnError::Parse => "failed to parse server url from output"@,
            SpawnError::Timeout => "server did not become ready within timeout"@,
        }
    }

    /// The message that the error shows.
    pub fn message(&self) -> (r: String)
        ensures
            r@ == self.spec_message(),
    {
        match self {
            SpawnError::Spawn(e) => "failed to spawn opencode: ".to_string().concat(e.as_str()),
            SpawnError::Parse => "failed to parse server url from output".to_string(),
            SpawnError::Timeout => "server did not become ready within timeout".to_string(),
        }
    }
}

} // verus!
