//! The tabs of the window: opening, naming and closing sessions, the notices
//! that the client itself writes into a transcript, and what the pending
//! permission requests mean for a tab.

use crate::agents::{agent_kept, ensure_tab_agent};
use crate::clock::{unix_millis, unsigned_millis};
use crate::event::{PermissionRequest, PermissionRequestView};
use crate::registry::{Registry, RegistryView};
use crate::seqs::{any, first_index, lemma_first_index_is};
use crate::session::{Session, SessionView};
use crate::text::{decimal, decimal_of, same, same_optional, trim, trimmed};
use crate::transcript::{Message, MessageView, Role, TokenCounts};
use crate::types::agent::AgentInfo;
use vstd::prelude::*;

verus! {

/// The title of a session that the server has not created yet.
pub open spec fn creating_title() -> Seq<char> {
    "(creating\u{2026})"@
}

/// A session that was just opened.
pub open spec fn opened(model: Option<(Seq<char>, Seq<char>)>, agent: Seq<char>) -> SessionView {
    SessionView {
        title: creating_title(),
        selected_model: model,
        selected_agent: Some(agent),
        ..SessionView::empty()
    }
}

/// A session after the server created its conversation.
pub open spec fn created(
    s: SessionView,
    id: Seq<char>,
    title: Seq<char>,
    directory: Seq<char>,
    version: Option<Seq<char>>,
) -> SessionView {
    SessionView {
        title,
        session_id: Some(id),
        session_version: version,
        directory: Some(directory),
        ..s
    }
}

/// Which tab is shown and which is being renamed.
#[derive(Debug, Clone, Copy, PartialEq, Eq, Structural)]
pub struct TabBar {
    pub active: usize,
    pub renaming: Option<usize>,
}

/// The tab bar after the tab `index` was closed and `left` tabs are left:
/// the shown tab is the last one, or the first place where no tab is left,
/// where it would lie beyond the end; a rename of the closed tab ends, and one
/// of a later tab follows its tab.
pub open spec fn after_close(bar: TabBar, index: usize, left: usize) -> TabBar {
    TabBar {
        active: if bar.active < left {
            bar.active
        } else if left > 0 {
            (left - 1) as usize
        } else {
            0
        },
        renaming: match bar.renaming {
            Some(r) => if r == index {
                None
            } else if r > index {
                Some((r - 1) as usize)
            } else {
                Some(r)
            },
            None => None,
        },
    }
}

/// The message that a notice of the client makes: a system message with the
/// notice as its text, whose id is the kind of the notice and the time.
pub open spec fn notice(kind: Seq<char>, millis: u64, text: Seq<char>) -> MessageView {
    MessageView {
        message_id: kind + "_"@ + decimal(millis as nat),
        role: Role::System,
        text,
        reasoning: Seq::empty(),
        tokens: TokenCounts::spec_none(),
        tool_calls: Seq::empty(),
    }
}

/// The session after a notice was written into its transcript.
pub open spec fn noticed(s: SessionView, kind: Seq<char>, millis: u64, text: Seq<char>)
    -> SessionView {
    SessionView { messages: s.messages.push(notice(kind, millis, text)), ..s }
}

/// The condition "this request is of the session `session_id`".
pub open spec fn is_of_session(session_id: Seq<char>) -> spec_fn(PermissionRequestView) -> bool {
    |p: PermissionRequestView| p.session_id == session_id
}

/// The condition "this request is for the call `call_id` of the session
/// `session_id`".
pub open spec fn is_for_tool(session_id: Seq<char>, call_id: Seq<char>) -> spec_fn(
    PermissionRequestView,
) -> bool {
    |p: PermissionRequestView| p.session_id == session_id && p.call_id == Some(call_id)
}

/// The setting that a field of the settings window gives: none where the
/// field is blank, its whole text else.
pub open spec fn setting_in(field: Seq<char>) -> Option<Seq<char>> {
    if trimmed(field).len() == 0 {
        None
    } else {
        Some(field)
    }
}

/// Reads a setting from a field of the settings window.
pub fn optional_setting(field: &str) -> (r: Option<String>)
    ensures
        r.deep_view() == setting_in(field@),
{
    if trim(field).is_empty() {
        None
    } else {
        Some(field.to_string())
    }
}

/// Writes a notice of the client into the transcript.
pub fn push_notice_at(session: &mut Session, kind: &str, millis: u64, text: String)
    ensures
        final(session)@ == noticed(old(session)@, kind@, millis, text@),
{
    let mut message_id = kind.to_string();
    message_id.append("_");
    message_id.append(decimal_of(millis).as_str());
    let message = Message {
        message_id,
        role: Role::System,
        text,
        reasoning: String::new(),
        tokens: TokenCounts::none(),
        tool_calls: Vec::new(),
    };
    assert(message@.tool_calls =~= Seq::empty());
    session.messages.push(message);
    assert(session@.messages =~= old(session)@.messages.push(notice(kind@, millis, text@)));
}

/// Writes a notice of the client into the transcript, stamped with the wall
/// clock's present reading. The transcript gets one message more, which is
/// the notice for some time.
pub fn push_notice(session: &mut Session, kind: &str, text: String)
    ensures
        final(session)@.messages.len() == old(session)@.messages.len() + 1,
        exists|millis: u64|
            final(session)@ == #[trigger] noticed(old(session)@, kind@, millis, text@),
{
    let millis = unsigned_millis(unix_millis());
    push_notice_at(session, kind, millis, text);
}

impl Registry {
    /// Opens a session with the given model and agent, and returns its tab.
    pub fn open_session(&mut self, model: Option<(String, String)>, agent: &str) -> (r: usize)
        ensures
            r == old(self).sessions.len(),
            final(self)@ == (RegistryView {
                sessions: old(self)@.sessions.push(opened(model.deep_view(), agent@)),
                ..old(self)@
            }),
            old(self)@.wf() ==> final(self)@.wf(),
    {
        let index = self.sessions.len();
        let mut session = Session::new("(creating\u{2026})".to_string());
        session.selected_model = model;
        session.selected_agent = Some(agent.to_string());
        self.sessions.push(session);
        assert(self@.sessions =~= old(self)@.sessions.push(opened(model.deep_view(), agent@)));
        assert(opened(model.deep_view(), agent@).wf());
        index
    }

    /// Takes in that the server created the conversation of the tab `index`.
    /// Nothing happens where there is no such tab.
    pub fn session_created(
        &mut self,
        index: usize,
        id: String,
        title: String,
        directory: String,
        version: Option<String>,
    )
        ensures
            final(self)@ == (if index < old(self)@.sessions.len() {
                RegistryView {
                    sessions: old(self)@.sessions.update(
                        index as int,
                        created(
                            old(self)@.sessions[index as int],
                            id@,
                            title@,
                            directory@,
                            version.deep_view(),
                        ),
                    ),
                    ..old(self)@
                }
            } else {
                old(self)@
            }),
    {
        if index < self.sessions.len() {
            let tab = &mut self.sessions[index];
            tab.title = title;
            tab.session_id = Some(id);
            tab.session_version = version;
            tab.directory = Some(directory);
            assert(self@.sessions =~= old(self)@.sessions.update(
                index as int,
                created(
                    old(self)@.sessions[index as int],
                    id@,
                    title@,
                    directory@,
                    version.deep_view(),
                ),
            ));
        }
    }

    /// Gives the tab `index` a new title, unless the title is blank or there
    /// is no such tab.
    pub fn rename_session(&mut self, index: usize, title: &str)
        ensures
            final(self)@ == (if index < old(self)@.sessions.len() && trimmed(title@).len() != 0 {
                RegistryView {
                    sessions: old(self)@.sessions.update(
                        index as int,
                        SessionView { title: title@, ..old(self)@.sessions[index as int] },
                    ),
                    ..old(self)@
                }
            } else {
                old(self)@
            }),
    {
        if index < self.sessions.len() && !trim(title).is_empty() {
            self.sessions[index].title = title.to_string();
            assert(self@.sessions =~= old(self)@.sessions.update(
                index as int,
                SessionView { title: title@, ..old(self)@.sessions[index as int] },
            ));
        }
    }

    /// Closes the tab `index`: its session and transcript are gone, the tabs
    /// after it move up, and the tab bar follows. Nothing happens where there
    /// is no such tab.
    pub fn close_session(&mut self, bar: &mut TabBar, index: usize)
        ensures
            index >= old(self)@.sessions.len() ==> final(self)@ == old(self)@ && *final(bar)
                == *old(bar),
            index < old(self)@.sessions.len() ==> final(self)@ == (RegistryView {
                sessions: old(self)@.sessions.remove(index as int),
                ..old(self)@
            }) && *final(bar) == after_close(
                *old(bar),
                index,
                (old(self)@.sessions.len() - 1) as usize,
            ),
    {
        if index >= self.sessions.len() {
            return ;
        }
        self.sessions.remove(index);
        assert(self@.sessions =~= old(self)@.sessions.remove(index as int));
        let left = self.sessions.len();
        if bar.active >= left {
            bar.active = if left > 0 {
                left - 1
            } else {
                0
            };
        }
        bar.renaming = match bar.renaming {
            Some(r) => if r == index {
                None
            } else if r > index {
                Some(r - 1)
            } else {
                Some(r)
            },
            None => None,
        };
    }

    /// Whether a permission request of the session waits for the user, which
    /// blocks sending.
    pub fn is_blocked(&self, session_id: &str) -> (r: bool)
        ensures
            r == any(self@.pending_permissions, is_of_session(session_id@)),
    {
        let ghost p = is_of_session(session_id@);
        let ghost all = self@.pending_permissions;
        let mut i: usize = 0;
        while i < self.pending_permissions.len()
            invariant
                0 <= i <= self.pending_permissions.len(),
                all == self@.pending_permissions,
                p == is_of_session(session_id@),
                forall|j: int| 0 <= j < i ==> !p(#[trigger] all[j]),
            decreases self.pending_permissions.len() - i,
        {
            if same(self.pending_permissions[i].session_id.as_str(), session_id) {
                proof {
                    assert(p(all[i as int]));
                    lemma_first_index_is(all, p, i as int);
                }
                return true;
            }
            assert(!p(all[i as int]));
            i = i + 1;
        }
        proof {
            lemma_first_index_is(all, p, i as int);
        }
        false
    }

    /// The first pending request for the call `call_id` of the session
    /// `session_id`, which is shown with the tool call.
    pub fn permission_for(&self, session_id: &str, call_id: &str) -> (r: Option<&PermissionRequest>)
        ensures
            r is Some <==> any(self@.pending_permissions, is_for_tool(session_id@, call_id@)),
            r is Some ==> *r->Some_0 == self.pending_permissions[first_index(
                self@.pending_permissions,
                is_for_tool(session_id@, call_id@),
            )],
    {
        let ghost p = is_for_tool(session_id@, call_id@);
        let ghost all = self@.pending_permissions;
        let wanted = Some(call_id.to_string());
        let mut i: usize = 0;
        while i < self.pending_permissions.len()
            invariant
                0 <= i <= self.pending_permissions.len(),
                all == self@.pending_permissions,
                p == is_for_tool(session_id@, call_id@),
                wanted.deep_view() == Some(call_id@),
                forall|j: int| 0 <= j < i ==> !p(#[trigger] all[j]),
            decreases self.pending_permissions.len() - i,
        {
            if same(self.pending_permissions[i].session_id.as_str(), session_id) && same_optional(
                &self.pending_permissions[i].call_id,
                &wanted,
            ) {
                proof {
                    assert(p(all[i as int]));
                    lemma_first_index_is(all, p, i as int);
                }
                return Some(&self.pending_permissions[i]);
            }
            assert(!p(all[i as int]));
            i = i + 1;
        }
        proof {
            lemma_first_index_is(all, p, i as int);
        }
        None
    }

    /// Takes a request off the pending list once the user has answered it:
    /// the first with the id `permission_id`.
    pub fn answered(&mut self, permission_id: &str)
        ensures
            final(self)@ == ({
                let p = |q: PermissionRequestView| q.id == permission_id@;
                let k = first_index(old(self)@.pending_permissions, p);
                if k < old(self)@.pending_permissions.len() {
                    RegistryView {
                        pending_permissions: old(self)@.pending_permissions.remove(k),
                        ..old(self)@
                    }
                } else {
                    old(self)@
                }
            }),
    {
        let ghost p = |q: PermissionRequestView| q.id == permission_id@;
        let ghost all = self@.pending_permissions;
        let mut k: usize = 0;
        while k < self.pending_permissions.len()
            invariant
                0 <= k <= self.pending_permissions.len(),
                *self == *old(self),
                all == self@.pending_permissions,
                p == |q: PermissionRequestView| q.id == permission_id@,
                forall|j: int| 0 <= j < k ==> !p(#[trigger] all[j]),
            decreases self.pending_permissions.len() - k,
        {
            if same(self.pending_permissions[k].id.as_str(), permission_id) {
                proof {
                    assert(p(all[k as int]));
                    lemma_first_index_is(all, p, k as int);
                }
                self.pending_permissions.remove(k);
                assert(self@.pending_permissions =~= all.remove(k as int));
                return ;
            }
            assert(!p(all[k as int]));
            k = k + 1;
        }
        proof {
            lemma_first_index_is(all, p, k as int);
        }
    }

    /// Makes sure that every session's agent is one of those offered.
    pub fn ensure_agents(&mut self, default_agent: &str, filtered: &[AgentInfo])
        ensures
            final(self)@.pending_permissions == old(self)@.pending_permissions,
            final(self)@.sessions.len() == old(self)@.sessions.len(),
            forall|i: int|
                0 <= i < old(self)@.sessions.len() ==> #[trigger] final(self)@.sessions[i] == (
                SessionView {
                    selected_agent: agent_kept(
                        old(self)@.sessions[i].selected_agent,
                        default_agent@,
                        filtered.deep_view(),
                    ),
                    ..old(self)@.sessions[i]
                }),
    {
        let n = self.sessions.len();
        let mut i: usize = 0;
        while i < n
            invariant
                0 <= i <= n,
                n == self.sessions.len(),
                n == old(self).sessions.len(),
                self.pending_permissions == old(self).pending_permissions,
                forall|j: int|
                    0 <= j < i ==> #[trigger] self@.sessions[j] == (SessionView {
                        selected_agent: agent_kept(
                            old(self)@.sessions[j].selected_agent,
                            default_agent@,
                            filtered.deep_view(),
                        ),
                        ..old(self)@.sessions[j]
                    }),
                forall|j: int| i <= j < n ==> #[trigger] self@.sessions[j] == old(self)@.sessions[j],
            decreases n - i,
        {
            let ghost held = self.sessions@;
            let ghost held_view = self@.sessions;
            ensure_tab_agent(default_agent, &mut self.sessions[i], filtered);
            proof {
                assert forall|j: int| 0 <= j < i implies #[trigger] self@.sessions[j] == (
                SessionView {
                    selected_agent: agent_kept(
                        old(self)@.sessions[j].selected_agent,
                        default_agent@,
                        filtered.deep_view(),
                    ),
                    ..old(self)@.sessions[j]
                }) by {
                    assert(self.sessions@[j] == held[j]);
                    assert(held_view[j] == held[j]@);
                }
                assert forall|j: int| i < j < n implies #[trigger] self@.sessions[j] == old(
                    self,
                )@.sessions[j] by {
                    assert(self.sessions@[j] == held[j]);
                    assert(held_view[j] == held[j]@);
                }
                assert(held_view[i as int] == old(self)@.sessions[i as int]);
            }
            i = i + 1;
        }
    }
}

} // verus!
