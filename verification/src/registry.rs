//! The session registry: the set of open sessions and the list of permission
//! requests that wait for the user. It is the sole writer of both. Events
//! reach it one at a time, in the order of their delivery.

use crate::decode::{decode, decode_event, decoded, decoded_event};
use crate::event::{
    Envelope, EnvelopeView, Event, EventView, PermissionRequest, PermissionRequestView,
};
use crate::json::{json_of, jsons_of, Json};
use crate::permission::{classify, is_moot, Decision};
use crate::reconciler::{applied, apply};
use crate::seqs::{first_index, lemma_first_index_is};
use crate::session::{Session, SessionView};
use crate::text::same;
use vstd::prelude::*;

verus! {

/// A rejection that the caller owes the server: the answer to a permission
/// request that was moot when it arrived.
#[derive(Clone, Debug)]
pub struct AutoReject {
    pub session_id: String,
    pub permission_id: String,
}

/// A rejection as a mathematical value.
pub struct AutoRejectView {
    pub session_id: Seq<char>,
    pub permission_id: Seq<char>,
}

impl View for AutoReject {
    type V = AutoRejectView;

    open spec fn view(&self) -> AutoRejectView {
        AutoRejectView { session_id: self.session_id@, permission_id: self.permission_id@ }
    }
}

impl DeepView for AutoReject {
    type V = AutoRejectView;

    open spec fn deep_view(&self) -> AutoRejectView {
        self@
    }
}

/// The open sessions and the pending permission requests.
#[derive(Clone, Debug)]
pub struct Registry {
    pub sessions: Vec<Session>,
    pub pending_permissions: Vec<PermissionRequest>,
}

/// A registry as a mathematical value.
pub struct RegistryView {
    pub sessions: Seq<SessionView>,
    pub pending_permissions: Seq<PermissionRequestView>,
}

impl View for Registry {
    type V = RegistryView;

    open spec fn view(&self) -> RegistryView {
        RegistryView {
            sessions: self.sessions.deep_view(),
            pending_permissions: self.pending_permissions.deep_view(),
        }
    }
}

/// The condition "this session is backed by the conversation `id`".
pub open spec fn backed_by(id: Seq<char>) -> spec_fn(SessionView) -> bool {
    |s: SessionView| s.session_id == Some(id)
}

/// The condition "this is the request `permission_id` of the session
/// `session_id`".
pub open spec fn is_request(permission_id: Seq<char>, session_id: Seq<char>) -> spec_fn(
    PermissionRequestView,
) -> bool {
    |p: PermissionRequestView| p.id == permission_id && p.session_id == session_id
}

impl RegistryView {
    /// What every operation keeps: each session is well-formed.
    pub open spec fn wf(self) -> bool {
        forall|i: int| 0 <= i < self.sessions.len() ==> (#[trigger] self.sessions[i]).wf()
    }

    /// Where the session that `id` backs stands, or the number of sessions
    /// where there is none.
    pub open spec fn position(self, id: Seq<char>) -> int {
        first_index(self.sessions, backed_by(id))
    }

    /// Whether a request is moot on arrival: it names an open session, and is
    /// moot for that session.
    pub open spec fn moot(self, r: PermissionRequestView) -> bool {
        let i = self.position(r.session_id);
        i < self.sessions.len() && is_moot(self.sessions[i], r)
    }

    /// The registry after a permission request arrived: a moot request never
    /// enters the pending list, any other is added at its end.
    pub open spec fn requested(self, r: PermissionRequestView) -> RegistryView {
        if self.moot(r) {
            self
        } else {
            RegistryView { pending_permissions: self.pending_permissions.push(r), ..self }
        }
    }

    /// The rejection that a permission request gives rise to, if it is moot.
    pub open spec fn rejection(self, r: PermissionRequestView) -> Option<AutoRejectView> {
        if self.moot(r) {
            Some(AutoRejectView { session_id: r.session_id, permission_id: r.id })
        } else {
            None
        }
    }

    /// The registry after a reply to a permission request arrived: the first
    /// pending request with that id and session leaves the list; a reply to
    /// an unknown request changes nothing.
    pub open spec fn replied(self, permission_id: Seq<char>, session_id: Seq<char>)
        -> RegistryView {
        let k = first_index(self.pending_permissions, is_request(permission_id, session_id));
        if k < self.pending_permissions.len() {
            RegistryView { pending_permissions: self.pending_permissions.remove(k), ..self }
        } else {
            self
        }
    }

    /// The registry after a message event was handed to the session that the
    /// envelope names; unchanged where it names none that is open.
    pub open spec fn reconciled(self, session_id: Option<Seq<char>>, e: EventView)
        -> RegistryView {
        match session_id {
            Some(id) => {
                let i = self.position(id);
                if i < self.sessions.len() {
                    RegistryView {
                        sessions: self.sessions.update(i, applied(self.sessions[i], e)),
                        ..self
                    }
                } else {
                    self
                }
            },
            None => self,
        }
    }

    /// The registry after one envelope.
    pub open spec fn dispatched(self, env: EnvelopeView) -> RegistryView {
        match env.event {
            EventView::PermissionUpdated(r) => self.requested(r),
            EventView::PermissionReplied { permission_id, session_id } => self.replied(
                permission_id,
                session_id,
            ),
            EventView::MessageUpdated(_) => self.reconciled(env.session_id, env.event),
            EventView::PartUpdated(_) => self.reconciled(env.session_id, env.event),
            EventView::Ignored => self,
        }
    }

    /// The rejection that one envelope gives rise to.
    pub open spec fn rejection_of(self, env: EnvelopeView) -> Option<AutoRejectView> {
        match env.event {
            EventView::PermissionUpdated(r) => self.rejection(r),
            _ => None,
        }
    }

    /// The registry after a batch of envelopes, each applied to what the ones
    /// before it left.
    pub open spec fn drained(self, envs: Seq<EnvelopeView>) -> RegistryView
        decreases envs.len(),
    {
        if envs.len() == 0 {
            self
        } else {
            self.drained(envs.drop_last()).dispatched(envs.last())
        }
    }

    /// The rejections that a batch of envelopes gives rise to, in the order
    /// of the envelopes. Each is decided on the state that the envelopes
    /// before it left.
    pub open spec fn rejections(self, envs: Seq<EnvelopeView>) -> Seq<AutoRejectView>
        decreases envs.len(),
    {
        if envs.len() == 0 {
            Seq::empty()
        } else {
            let before = self.rejections(envs.drop_last());
            match self.drained(envs.drop_last()).rejection_of(envs.last()) {
                Some(r) => before.push(r),
                None => before,
            }
        }
    }
}

/// The envelopes that a batch of JSON documents decodes to.
pub open spec fn decoded_all(js: Seq<Json>) -> Seq<EnvelopeView> {
    js.map_values(|j: Json| decoded(j))
}

/// Decodes the event that a JSON envelope holds and applies it to the
/// session. An envelope that does not decode to a message event changes
/// nothing.
pub fn handle_event(session: &mut Session, payload: &serde_json::Value)
    ensures
        final(session)@ == applied(old(session)@, decoded_event(json_of(*payload))),
{
    apply(session, decode_event(payload));
}

impl Registry {
    /// A registry without sessions or pending requests.
    pub fn new() -> (r: Registry)
        ensures
            r@.sessions == Seq::<SessionView>::empty(),
            r@.pending_permissions == Seq::<PermissionRequestView>::empty(),
            r@.wf(),
    {
        let r = Registry { sessions: Vec::new(), pending_permissions: Vec::new() };
        assert(r@.sessions =~= Seq::empty());
        assert(r@.pending_permissions =~= Seq::empty());
        r
    }

    /// The index of the session that `id` backs, or the number of sessions.
    pub fn position(&self, id: &str) -> (r: usize)
        ensures
            r == self@.position(id@),
            r <= self.sessions.len(),
    {
        let ghost p = backed_by(id@);
        let mut i: usize = 0;
        while i < self.sessions.len()
            invariant
                0 <= i <= self.sessions.len(),
                p == backed_by(id@),
                forall|j: int| 0 <= j < i ==> !p(#[trigger] self.sessions.deep_view()[j]),
            decreases self.sessions.len() - i,
        {
            let hit = match &self.sessions[i].session_id {
                Some(sid) => same(sid.as_str(), id),
                None => false,
            };
            if hit {
                proof {
                    assert(p(self.sessions.deep_view()[i as int]));
                    lemma_first_index_is(self.sessions.deep_view(), p, i as int);
                }
                return i;
            }
            assert(!p(self.sessions.deep_view()[i as int]));
            i = i + 1;
        }
        proof {
            lemma_first_index_is(self.sessions.deep_view(), p, i as int);
        }
        i
    }

    /// Decides on a permission request without changing anything.
    pub fn decide(&self, request: &PermissionRequest) -> (r: Decision)
        ensures
            r == Decision::AutoReject <==> self@.moot(request@),
            r == Decision::Queue <==> !self@.moot(request@),
    {
        let i = self.position(request.session_id.as_str());
        if i < self.sessions.len() {
            classify(&self.sessions[i], request)
        } else {
            Decision::Queue
        }
    }

    /// Takes in a permission request. A moot one is handed back as the
    /// rejection that the caller is to send, and the pending list stays as it
    /// is; any other is added to the pending list.
    pub fn on_permission_request(&mut self, request: PermissionRequest) -> (r: Option<AutoReject>)
        ensures
            final(self)@ == old(self)@.requested(request@),
            r.deep_view() == old(self)@.rejection(request@),
    {
        match self.decide(&request) {
            Decision::AutoReject => Some(
                AutoReject { session_id: request.session_id, permission_id: request.id },
            ),
            Decision::Queue => {
                self.pending_permissions.push(request);
                assert(self@.pending_permissions =~= old(self)@.pending_permissions.push(
                    request@,
                ));
                None
            },
        }
    }

    /// Takes in the reply to a permission request: the request leaves the
    /// pending list. A reply to a request that is not pending is ignored.
    pub fn on_permission_reply(&mut self, session_id: &str, permission_id: &str)
        ensures
            final(self)@ == old(self)@.replied(permission_id@, session_id@),
    {
        let ghost p = is_request(permission_id@, session_id@);
        let mut k: usize = 0;
        while k < self.pending_permissions.len()
            invariant
                0 <= k <= self.pending_permissions.len(),
                *self == *old(self),
                p == is_request(permission_id@, session_id@),
                forall|j: int| 0 <= j < k ==> !p(#[trigger] self.pending_permissions.deep_view()[j]),
            decreases self.pending_permissions.len() - k,
        {
            if same(self.pending_permissions[k].id.as_str(), permission_id) && same(
                self.pending_permissions[k].session_id.as_str(),
                session_id,
            ) {
                proof {
                    assert(p(self.pending_permissions.deep_view()[k as int]));
                    lemma_first_index_is(self.pending_permissions.deep_view(), p, k as int);
                }
                self.pending_permissions.remove(k);
                assert(self@.pending_permissions =~= old(self)@.pending_permissions.remove(
                    k as int,
                ));
                return ;
            }
            assert(!p(self.pending_permissions.deep_view()[k as int]));
            k = k + 1;
        }
        proof {
            lemma_first_index_is(self.pending_permissions.deep_view(), p, k as int);
        }
    }

    /// Hands a message event to the session that the envelope names.
    pub fn reconcile(&mut self, session_id: &Option<String>, event: Event)
        ensures
            final(self)@ == old(self)@.reconciled(session_id.deep_view(), event@),
    {
        if let Some(id) = session_id {
            let i = self.position(id.as_str());
            if i < self.sessions.len() {
                apply(&mut self.sessions[i], event);
                assert(self@.sessions =~= old(self)@.sessions.update(
                    i as int,
                    applied(old(self)@.sessions[i as int], event@),
                ));
            }
        }
    }

    /// Takes in one envelope: routes a permission event, hands a message
    /// event to its session, ignores the rest. Returns the rejection that the
    /// caller is to send, if the envelope gave rise to one.
    pub fn dispatch(&mut self, envelope: Envelope) -> (r: Option<AutoReject>)
        ensures
            final(self)@ == old(self)@.dispatched(envelope@),
            r.deep_view() == old(self)@.rejection_of(envelope@),
            old(self)@.wf() ==> final(self)@.wf(),
    {
        proof {
            if self@.wf() {
                crate::laws::law_actions_keep_wf(self@, crate::laws::Action::Receive(envelope@));
            }
        }
        let Envelope { session_id, event } = envelope;
        match event {
            Event::PermissionUpdated(request) => self.on_permission_request(request),
            Event::PermissionReplied { permission_id, session_id } => {
                self.on_permission_reply(session_id.as_str(), permission_id.as_str());
                None
            },
            Event::MessageUpdated(info) => {
                self.reconcile(&session_id, Event::MessageUpdated(info));
                None
            },
            Event::PartUpdated(part) => {
                self.reconcile(&session_id, Event::PartUpdated(part));
                None
            },
            Event::Ignored => None,
        }
    }

    /// Takes in a batch of envelopes, in order, and returns the rejections
    /// that the caller is to send once the whole batch is in. Every decision
    /// is made on the state that the envelopes before it left; no rejection is
    /// sent, and so none can disturb a decision, before the last is made.
    pub fn drain(&mut self, envelopes: Vec<Envelope>) -> (r: Vec<AutoReject>)
        ensures
            final(self)@ == old(self)@.drained(envelopes.deep_view()),
            r.deep_view() == old(self)@.rejections(envelopes.deep_view()),
            old(self)@.wf() ==> final(self)@.wf(),
    {
        let ghost all = envelopes.deep_view();
        let mut rejects: Vec<AutoReject> = Vec::new();
        let mut envelopes = envelopes;
        let n = envelopes.len();
        let mut done: usize = 0;
        assert(rejects.deep_view() =~= Seq::empty());
        assert(all.take(0) =~= Seq::empty());
        while done < n
            invariant
                0 <= done <= n,
                n == all.len(),
                envelopes.len() == n,
                forall|j: int| done <= j < n ==> #[trigger] envelopes[j]@ == all[j],
                old(self)@.wf() ==> self@.wf(),
                self@ == old(self)@.drained(all.take(done as int)),
                rejects.deep_view() == old(self)@.rejections(all.take(done as int)),
            decreases n - done,
        {
            let ghost held = rejects.deep_view();
            let ghost rest = envelopes@;
            let mut envelope = Envelope { session_id: None, event: Event::Ignored };
            core::mem::swap(&mut envelopes[done], &mut envelope);
            proof {
                assert(envelope == rest[done as int]);
                assert(forall|j: int| done < j < n ==> envelopes@[j] == rest[j]);
                assert(all.take(done as int + 1).drop_last() =~= all.take(done as int));
                assert(all.take(done as int + 1).last() == all[done as int]);
            }
            if let Some(reject) = self.dispatch(envelope) {
                rejects.push(reject);
                assert(rejects.deep_view() =~= held.push(reject@));
            }
            done = done + 1;
        }
        assert(all.take(n as int) =~= all);
        rejects
    }

    /// Decodes one JSON envelope and takes it in. Returns the rejection that
    /// the caller is to send, if the envelope gave rise to one.
    pub fn receive(&mut self, payload: &serde_json::Value) -> (r: Option<AutoReject>)
        ensures
            final(self)@ == old(self)@.dispatched(decoded(json_of(*payload))),
            r.deep_view() == old(self)@.rejection_of(decoded(json_of(*payload))),
            old(self)@.wf() ==> final(self)@.wf(),
    {
        self.dispatch(decode(payload))
    }

    /// Decodes a batch of JSON envelopes and takes them in, in order. Returns
    /// the rejections that the caller is to send once the whole batch is in.
    pub fn receive_all(&mut self, payloads: &Vec<serde_json::Value>) -> (r: Vec<AutoReject>)
        ensures
            final(self)@ == old(self)@.drained(decoded_all(jsons_of(payloads@))),
            r.deep_view() == old(self)@.rejections(decoded_all(jsons_of(payloads@))),
            old(self)@.wf() ==> final(self)@.wf(),
    {
        let ghost all = decoded_all(jsons_of(payloads@));
        let mut rejects: Vec<AutoReject> = Vec::new();
        let mut done: usize = 0;
        assert(rejects.deep_view() =~= Seq::empty());
        assert(all.take(0) =~= Seq::empty());
        while done < payloads.len()
            invariant
                0 <= done <= payloads.len(),
                all == decoded_all(jsons_of(payloads@)),
                old(self)@.wf() ==> self@.wf(),
                self@ == old(self)@.drained(all.take(done as int)),
                rejects.deep_view() == old(self)@.rejections(all.take(done as int)),
            decreases payloads.len() - done,
        {
            let ghost held = rejects.deep_view();
            proof {
                assert(all[done as int] == decoded(json_of(payloads@[done as int])));
                assert(all.take(done as int + 1).drop_last() =~= all.take(done as int));
                assert(all.take(done as int + 1).last() == all[done as int]);
            }
            if let Some(reject) = self.receive(&payloads[done]) {
                rejects.push(reject);
                assert(rejects.deep_view() =~= held.push(reject@));
            }
            done = done + 1;
        }
        assert(all.take(payloads.len() as int) =~= all);
        rejects
    }
}

} // verus!
