//! The agents that a conversation can choose from, and the choice of each
//! session.

use crate::session::{Session, SessionView};
use crate::text::same;
use crate::types::agent::{AgentInfo, AgentInfoView};
use vstd::prelude::*;

verus! {

/// The condition "this agent is one that the user calls": its mode is not
/// "subagent".
pub open spec fn is_primary() -> spec_fn(AgentInfoView) -> bool {
    |a: AgentInfoView| a.mode != Some("subagent"@)
}

/// The agents that the picker shows: all of them where subagents are shown,
/// else those that the user calls.
pub open spec fn shown(show_subagents: bool, agents: Seq<AgentInfoView>) -> Seq<AgentInfoView> {
    if show_subagents {
        agents
    } else {
        agents.filter(is_primary())
    }
}

/// The agents that the picker shows, in the order of the server's list.
pub fn filtered_agents(show_subagents: bool, agents: &[AgentInfo]) -> (r: Vec<AgentInfo>)
    ensures
        r.deep_view() == shown(show_subagents, agents.deep_view()),
{
    let ghost all = agents.deep_view();
    let ghost p = is_primary();
    let mut out: Vec<AgentInfo> = Vec::new();
    let mut i: usize = 0;
    proof {
        reveal(Seq::filter);
        assert(all.take(0) =~= Seq::empty());
        assert(out.deep_view() =~= Seq::empty());
    }
    while i < agents.len()
        invariant
            0 <= i <= agents.len(),
            all == agents.deep_view(),
            p == is_primary(),
            show_subagents ==> out.deep_view() == all.take(i as int),
            !show_subagents ==> out.deep_view() == all.take(i as int).filter(p),
        decreases agents.len() - i,
    {
        let ghost held = out.deep_view();
        proof {
            reveal(Seq::filter);
            assert(all.take(i as int + 1).drop_last() =~= all.take(i as int));
            assert(all.take(i as int + 1).last() == all[i as int]);
            assert(all[i as int] == agents[i as int]@);
        }
        let subagent = match &agents[i].mode {
            Some(mode) => same(mode.as_str(), "subagent"),
            None => false,
        };
        if show_subagents || !subagent {
            out.push(agents[i].copy());
            assert(out.deep_view() =~= held.push(all[i as int]));
            assert(show_subagents ==> out.deep_view() =~= all.take(i as int + 1));
        }
        i = i + 1;
    }
    assert(all.take(agents.len() as int) =~= all);
    out
}

/// Whether an agent called `name` is among `agents`.
pub open spec fn offers(agents: Seq<AgentInfoView>, name: Seq<char>) -> bool {
    exists|i: int| 0 <= i < agents.len() && (#[trigger] agents[i]).name == name
}

/// Whether an agent called `name` is among `agents`.
pub fn has_agent(agents: &[AgentInfo], name: &str) -> (r: bool)
    ensures
        r == offers(agents.deep_view(), name@),
{
    let mut i: usize = 0;
    while i < agents.len()
        invariant
            0 <= i <= agents.len(),
            forall|j: int| 0 <= j < i ==> (#[trigger] agents.deep_view()[j]).name != name@,
        decreases agents.len() - i,
    {
        if same(agents[i].name.as_str(), name) {
            assert(agents.deep_view()[i as int].name == name@);
            return true;
        }
        i = i + 1;
    }
    false
}

/// The agent of a session after the list of agents changed: the one it had
/// where that one is still offered, the default else.
pub open spec fn agent_kept(
    selected: Option<Seq<char>>,
    default_agent: Seq<char>,
    offered: Seq<AgentInfoView>,
) -> Option<Seq<char>> {
    if selected is Some && offers(offered, selected->0) {
        selected
    } else {
        Some(default_agent)
    }
}

/// Makes sure that the session's agent is one of those offered: a choice
/// that is no longer offered, or none, gives way to the default. Nothing
/// else changes.
pub fn ensure_tab_agent(default_agent: &str, tab: &mut Session, filtered: &[AgentInfo])
    ensures
        final(tab)@ == (SessionView {
            selected_agent: agent_kept(
                old(tab)@.selected_agent,
                default_agent@,
                filtered.deep_view(),
            ),
            ..old(tab)@
        }),
{
    if let Some(name) = &tab.selected_agent {
        if has_agent(filtered, name.as_str()) {
            return ;
        }
    }
    tab.selected_agent = Some(default_agent.to_string());
}

/// The agent that a session gets where it has chosen none: the first that
/// is offered, and "build" where none is.
pub fn default_agent_of(filtered: &[AgentInfo]) -> (r: String)
    ensures
        r@ == (if filtered.len() > 0 {
            filtered.deep_view()[0].name
        } else {
            "build"@
        }),
{
    if filtered.len() > 0 {
        filtered[0].name.clone()
    } else {
        "build".to_string()
    }
}

} // verus!
