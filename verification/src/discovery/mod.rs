//! Finding the server: the port that the user asked for, the processes and
//! sockets of the machine, and the line in which a new server names its
//! address. Asking the machine and starting the server are the program's
//! part.

pub mod process;
pub mod spawn;

use crate::discovery::process::{ServerInfo, ServerInfoView};
use crate::error::discovery::DiscoveryError;
use crate::error::spawn::SpawnError;
use vstd::prelude::*;

verus! {

/// What the client does next on its way to a server.
#[derive(Debug, Clone, PartialEq, Eq)]
pub enum NextStep {
    /// Ask the server that was found whether it answers.
    CheckHealth(ServerInfo),
    /// Start a server.
    Spawn,
    /// Talk to this server.
    Connect(ServerInfo),
    /// Give up, with the reason.
    Fail(String),
}

/// A next step as a mathematical value.
pub enum NextStepView {
    CheckHealth(ServerInfoView),
    Spawn,
    Connect(ServerInfoView),
    Fail(Seq<char>),
}

impl View for NextStep {
    type V = NextStepView;

    open spec fn view(&self) -> NextStepView {
        match self {
            NextStep::CheckHealth(info) => NextStepView::CheckHealth(info@),
            NextStep::Spawn => NextStepView::Spawn,
            NextStep::Connect(info) => NextStepView::Connect(info@),
            NextStep::Fail(reason) => NextStepView::Fail(reason@),
        }
    }
}

/// What follows the search for a running server: a server that was found is
/// asked whether it answers, none found means starting one, and a search that
/// failed ends the attempt.
pub fn after_discovery(found: Result<Option<ServerInfo>, DiscoveryError>) -> (r: NextStep)
    ensures
        r@ == (match found {
            Ok(Some(info)) => NextStepView::CheckHealth(info@),
            Ok(None) => NextStepView::Spawn,
            Err(e) => NextStepView::Fail(e.spec_message()),
        }),
{
    match found {
        Ok(Some(info)) => NextStep::CheckHealth(info),
        Ok(None) => NextStep::Spawn,
        Err(e) => NextStep::Fail(e.message()),
    }
}

/// What follows the question whether a found server answers: one that does
/// is the server, and one that does not means starting another.
pub fn after_health_check(info: ServerInfo, healthy: bool) -> (r: NextStep)
    ensures
        r@ == (if healthy {
            NextStepView::Connect(info@)
        } else {
            NextStepView::Spawn
        }),
{
    if healthy {
        NextStep::Connect(info)
    } else {
        NextStep::Spawn
    }
}

/// What follows the start of a server: the new server is the server, and a
/// start that failed ends the attempt.
pub fn after_spawn(spawned: Result<ServerInfo, SpawnError>) -> (r: NextStep)
    ensures
        r@ == (match spawned {
            Ok(info) => NextStepView::Connect(info@),
            Err(e) => NextStepView::Fail(e.spec_message()),
        }),
{
    match spawned {
        Ok(info) => NextStep::Connect(info),
        Err(e) => NextStep::Fail(e.message()),
    }
}

/// Sets the port that the user asked for on the command line.
pub fn set_override_port(slot: &mut Option<u16>, port: u16)
    ensures
        *final(slot) == Some(port),
{
    *slot = Some(port);
}

/// The port that the user asked for on the command line, if any.
pub fn get_override_port(slot: &Option<u16>) -> (r: Option<u16>)
    ensures
        r == *slot,
{
    *slot
}

} // verus!
