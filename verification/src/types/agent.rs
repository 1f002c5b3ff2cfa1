//! The agents that the server offers.

use crate::text::copy_option;
use vstd::prelude::*;

verus! {

/// An agent as the server lists it.
#[derive(Debug, Clone, PartialEq, Eq)]
pub struct AgentInfo {
    pub name: String,
    pub description: Option<String>,
    /// "subagent" for an agent that other agents call.
    pub mode: Option<String>,
    pub built_in: bool,
    /// The agent's colour, as `#rrggbb`.
    pub color: Option<String>,
}

/// An agent as a mathematical value.
pub struct AgentInfoView {
    pub name: Seq<char>,
    pub description: Option<Seq<char>>,
    pub mode: Option<Seq<char>>,
    pub built_in: bool,
    pub color: Option<Seq<char>>,
}

impl View for AgentInfo {
    type V = AgentInfoView;

    open spec fn view(&self) -> AgentInfoView {
        AgentInfoView {
            name: self.name@,
            description: self.description.deep_view(),
            mode: self.mode.deep_view(),
            built_in: self.built_in,
            color: self.color.deep_view(),
        }
    }
}

impl DeepView for AgentInfo {
    type V = AgentInfoView;

    open spec fn deep_view(&self) -> AgentInfoView {
        self@
    }
}

impl AgentInfo {
    /// A copy of the agent.
    pub fn copy(&self) -> (r: AgentInfo)
        ensures
            r@ == self@,
    {
        AgentInfo {
            name: self.name.clone(),
            description: copy_option(&self.description),
            mode: copy_option(&self.mode),
            built_in: self.built_in,
            color: copy_option(&self.color),
        }
    }
}

} // verus!
