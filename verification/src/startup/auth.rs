//! Handing the API keys of the environment to the server: which variables
//! hold a key, which keys are sent, and how the outcome is summed up. Sending
//! them is the program's part.

use crate::seqs::{distinct_keys, first_index, key_of, lemma_first_index, lemma_first_index_is};
use crate::text::{contains, lowercase, occurs_in, same, strip_suffix, to_lowercase};
use vstd::prelude::*;

verus! {

/// How far the hand-over has come.
#[derive(Debug, Clone, PartialEq, Eq)]
pub enum AuthSyncStatus {
    NotStarted,
    InProgress,
    Complete,
    Failed(String),
}

/// The hand-over as a mathematical value.
pub enum AuthSyncStatusView {
    NotStarted,
    InProgress,
    Complete,
    Failed(Seq<char>),
}

impl View for AuthSyncStatus {
    type V = AuthSyncStatusView;

    open spec fn view(&self) -> AuthSyncStatusView {
        match self {
            AuthSyncStatus::NotStarted => AuthSyncStatusView::NotStarted,
            AuthSyncStatus::InProgress => AuthSyncStatusView::InProgress,
            AuthSyncStatus::Complete => AuthSyncStatusView::Complete,
            AuthSyncStatus::Failed(e) => AuthSyncStatusView::Failed(e@),
        }
    }
}

/// The outcome of the hand-over, provider by provider.
#[derive(Debug, Clone, PartialEq, Eq)]
pub struct AuthSyncState {
    pub status: AuthSyncStatus,
    pub synced_providers: Vec<String>,
    /// The providers that failed, each with the reason.
    pub failed_providers: Vec<(String, String)>,
}

/// The outcome as a mathematical value.
pub struct AuthSyncStateView {
    pub status: AuthSyncStatusView,
    pub synced_providers: Seq<Seq<char>>,
    pub failed_providers: Seq<(Seq<char>, Seq<char>)>,
}

impl View for AuthSyncState {
    type V = AuthSyncStateView;

    open spec fn view(&self) -> AuthSyncStateView {
        AuthSyncStateView {
            status: self.status@,
            synced_providers: self.synced_providers.deep_view(),
            failed_providers: self.failed_providers.deep_view(),
        }
    }
}

impl Default for AuthSyncState {
    fn default() -> (r: AuthSyncState)
        ensures
            r@.status == AuthSyncStatusView::NotStarted,
            r@.synced_providers == Seq::<Seq<char>>::empty(),
            r@.failed_providers == Seq::<(Seq<char>, Seq<char>)>::empty(),
    {
        let r = AuthSyncState {
            status: AuthSyncStatus::NotStarted,
            synced_providers: Vec::new(),
            failed_providers: Vec::new(),
        };
        assert(r@.synced_providers =~= Seq::empty());
        assert(r@.failed_providers =~= Seq::empty());
        r
    }
}

/// Errors of the hand-over.
#[derive(Debug, Clone, PartialEq, Eq)]
pub enum AuthSyncError {
    EnvLoad(String),
    Http { provider: String, message: String },
    Parse(String),
}

impl AuthSyncError {
    /// The message that the error shows.
    pub open spec fn spec_message(self) -> Seq<char> {
        match self {
            AuthSyncError::EnvLoad(e) => "Failed to load .env file: "@ + e@,
            AuthSyncError::Http { provider, message } => "HTTP request failed for provider '"@
                + provider@ + "': "@ + message@,
            AuthSyncError::Parse(e) => "Failed to parse response from server: "@ + e@,
        }
    }

    /// The message that the error shows.
    pub fn message(&self) -> (r: String)
        ensures
            r@ == self.spec_message(),
    {
        match self {
            AuthSyncError::EnvLoad(e) => "Failed to load .env file: ".to_string().concat(
                e.as_str(),
            ),
            AuthSyncError::Http { provider, message } => {
                let mut out = "HTTP request failed for provider '".to_string();
                out.append(provider.as_str());
                out.append("': ");
                out.append(message.as_str());
                out
            },
            AuthSyncError::Parse(e) => "Failed to parse response from server: ".to_string().concat(
                e.as_str(),
            ),
        }
    }
}

/// The end of the name of a variable that holds an API key.
pub open spec fn key_suffix() -> Seq<char> {
    "_API_KEY"@
}

/// The provider that a variable of the environment holds the key of: the
/// part of its name before `_API_KEY`, in lowercase. `None` for a variable of
/// another name.
pub open spec fn provider_named_by(env_var: Seq<char>) -> Option<Seq<char>> {
    if key_suffix().is_suffix_of(env_var) {
        Some(lowercase(env_var.take(env_var.len() - key_suffix().len())))
    } else {
        None
    }
}

/// The provider that a variable of the environment holds the key of.
/// "OPENAI_API_KEY" gives "openai".
pub fn extract_provider_name(env_var: &str) -> (r: Option<String>)
    ensures
        r.deep_view() == provider_named_by(env_var@),
{
    match strip_suffix(env_var, "_API_KEY") {
        Some(provider) => Some(to_lowercase(provider)),
        None => None,
    }
}

/// Whether a value is a key worth sending: not empty, and not the
/// placeholder of an example file, which holds three dots.
pub open spec fn is_usable_key(value: Seq<char>) -> bool {
    value.len() != 0 && !occurs_in(value, "..."@)
}

/// Whether a value is a key worth sending.
pub fn usable_key(value: &str) -> (r: bool)
    ensures
        r == is_usable_key(value@),
{
    !value.is_empty() && !contains(value, "...")
}

/// The condition "this entry is for the provider `provider`".
pub open spec fn is_for(provider: Seq<char>) -> spec_fn((Seq<char>, Seq<char>)) -> bool {
    |entry: (Seq<char>, Seq<char>)| entry.0 == provider
}

/// The keys with one more: a provider that has a key gets the new one in its
/// place, any other is added at the end.
pub open spec fn with_key(
    keys: Seq<(Seq<char>, Seq<char>)>,
    provider: Seq<char>,
    key: Seq<char>,
) -> Seq<(Seq<char>, Seq<char>)> {
    let i = first_index(keys, is_for(provider));
    if i < keys.len() {
        keys.update(i, (provider, key))
    } else {
        keys.push((provider, key))
    }
}

/// Putting a key keeps the list a map: where no provider had two keys, none
/// has two afterwards.
pub proof fn lemma_with_key_keeps_distinct(
    keys: Seq<(Seq<char>, Seq<char>)>,
    provider: Seq<char>,
    key: Seq<char>,
)
    requires
        distinct_keys(keys),
    ensures
        distinct_keys(with_key(keys, provider, key)),
{
    let i = first_index(keys, is_for(provider));
    lemma_first_index(keys, is_for(provider));
    let after = with_key(keys, provider, key);
    assert forall|a: int, b: int| 0 <= a < b < after.len() implies key_of(#[trigger] after[a])
        != key_of(#[trigger] after[b]) by {
        if i < keys.len() {
            assert(is_for(provider)(keys[i]));
            assert(key_of(after[a]) == key_of(keys[a]));
            assert(key_of(after[b]) == key_of(keys[b]));
        } else {
            if b < keys.len() {
                assert(after[a] == keys[a]);
                assert(after[b] == keys[b]);
            } else {
                assert(after[a] == keys[a]);
                assert(!is_for(provider)(keys[a]));
            }
        }
    }
}

/// The keys that the variables of the environment hold are a map from
/// providers to keys: no provider occurs twice.
pub proof fn law_keys_are_distinct(vars: Seq<(Seq<char>, Seq<char>)>)
    ensures
        distinct_keys(keys_among(vars)),
    decreases vars.len(),
{
    if vars.len() > 0 {
        law_keys_are_distinct(vars.drop_last());
        let before = keys_among(vars.drop_last());
        let (name, value) = vars.last();
        if provider_named_by(name) is Some && is_usable_key(value) {
            lemma_with_key_keeps_distinct(before, provider_named_by(name)->0, value);
        }
    }
}

/// The keys that the variables of the environment hold, by provider: of each
/// variable that names a provider and holds a usable key, the last one for its
/// provider.
pub open spec fn keys_among(vars: Seq<(Seq<char>, Seq<char>)>) -> Seq<(Seq<char>, Seq<char>)>
    decreases vars.len(),
{
    if vars.len() == 0 {
        Seq::empty()
    } else {
        let before = keys_among(vars.drop_last());
        let (name, value) = vars.last();
        match provider_named_by(name) {
            Some(provider) => if is_usable_key(value) {
                with_key(before, provider, value)
            } else {
                before
            },
            None => before,
        }
    }
}

/// Puts a key in the list, in the place of the one that its provider has or
/// at the end.
pub fn put_key(keys: &mut Vec<(String, String)>, provider: String, key: String)
    ensures
        final(keys).deep_view() == with_key(old(keys).deep_view(), provider@, key@),
        distinct_keys(old(keys).deep_view()) ==> distinct_keys(final(keys).deep_view()),
{
    proof {
        if distinct_keys(keys.deep_view()) {
            lemma_with_key_keeps_distinct(keys.deep_view(), provider@, key@);
        }
    }
    let ghost all = keys.deep_view();
    let ghost p = is_for(provider@);
    let mut i: usize = 0;
    while i < keys.len()
        invariant
            0 <= i <= keys.len(),
            *keys == *old(keys),
            all == keys.deep_view(),
            p == is_for(provider@),
            forall|j: int| 0 <= j < i ==> !p(#[trigger] all[j]),
        decreases keys.len() - i,
    {
        if same(keys[i].0.as_str(), provider.as_str()) {
            proof {
                assert(p(all[i as int]));
                lemma_first_index_is(all, p, i as int);
            }
            keys[i] = (provider, key);
            assert(keys.deep_view() =~= all.update(i as int, (provider@, key@)));
            return ;
        }
        assert(!p(all[i as int]));
        i = i + 1;
    }
    proof {
        lemma_first_index_is(all, p, i as int);
    }
    keys.push((provider, key));
    assert(keys.deep_view() =~= all.push((provider@, key@)));
}

/// Collects the API keys that the variables of the environment hold, each
/// as provider and key.
pub fn collect_api_keys(vars: &Vec<(String, String)>) -> (r: Vec<(String, String)>)
    ensures
        r.deep_view() == keys_among(vars.deep_view()),
        distinct_keys(r.deep_view()),
{
    proof {
        law_keys_are_distinct(vars.deep_view());
    }
    let ghost all = vars.deep_view();
    let mut keys: Vec<(String, String)> = Vec::new();
    let mut i: usize = 0;
    proof {
        assert(all.take(0) =~= Seq::empty());
        assert(keys.deep_view() =~= Seq::empty());
    }
    while i < vars.len()
        invariant
            0 <= i <= vars.len(),
            all == vars.deep_view(),
            keys.deep_view() == keys_among(all.take(i as int)),
        decreases vars.len() - i,
    {
        proof {
            assert(all.take(i as int + 1).drop_last() =~= all.take(i as int));
            assert(all.take(i as int + 1).last() == all[i as int]);
            assert(all[i as int] == (vars[i as int].0@, vars[i as int].1@));
        }
        if let Some(provider) = extract_provider_name(vars[i].0.as_str()) {
            if usable_key(vars[i].1.as_str()) {
                put_key(&mut keys, provider, vars[i].1.clone());
            }
        }
        i = i + 1;
    }
    assert(all.take(vars.len() as int) =~= all);
    keys
}

/// Whether the key of a provider is held back: Anthropic's, where the server
/// holds OAuth tokens for it.
pub fn is_held_back(provider: &str, server_has_oauth: bool) -> (r: bool)
    ensures
        r == (provider@ == "anthropic"@ && server_has_oauth),
{
    same(provider, "anthropic") && server_has_oauth
}

/// What is said where every provider failed.
pub open spec fn all_failed_notice() -> Seq<char> {
    "All providers failed to sync"@
}

/// How a hand-over ends: as failed where some provider failed and none
/// succeeded, as complete else.
pub open spec fn concluded(s: AuthSyncStateView) -> AuthSyncStateView {
    AuthSyncStateView {
        status: if s.failed_providers.len() != 0 && s.synced_providers.len() == 0 {
            AuthSyncStatusView::Failed(all_failed_notice())
        } else {
            AuthSyncStatusView::Complete
        },
        ..s
    }
}

impl AuthSyncState {
    /// A hand-over that has begun.
    pub fn started() -> (r: AuthSyncState)
        ensures
            r@.status == AuthSyncStatusView::InProgress,
            r@.synced_providers == Seq::<Seq<char>>::empty(),
            r@.failed_providers == Seq::<(Seq<char>, Seq<char>)>::empty(),
    {
        let r = AuthSyncState {
            status: AuthSyncStatus::InProgress,
            synced_providers: Vec::new(),
            failed_providers: Vec::new(),
        };
        assert(r@.synced_providers =~= Seq::empty());
        assert(r@.failed_providers =~= Seq::empty());
        r
    }

    /// Gives the hand-over up for the given reason.
    pub fn fail(&mut self, reason: String)
        ensures
            final(self)@ == (AuthSyncStateView {
                status: AuthSyncStatusView::Failed(reason@),
                ..old(self)@
            }),
    {
        self.status = AuthSyncStatus::Failed(reason);
    }

    /// Records that the server took the key of a provider.
    pub fn record_synced(&mut self, provider: String)
        ensures
            final(self)@ == (AuthSyncStateView {
                synced_providers: old(self)@.synced_providers.push(provider@),
                ..old(self)@
            }),
    {
        self.synced_providers.push(provider);
        assert(self@.synced_providers =~= old(self)@.synced_providers.push(provider@));
    }

    /// Records that the key of a provider did not reach the server.
    pub fn record_failed(&mut self, provider: String, reason: String)
        ensures
            final(self)@ == (AuthSyncStateView {
                failed_providers: old(self)@.failed_providers.push((provider@, reason@)),
                ..old(self)@
            }),
    {
        self.failed_providers.push((provider, reason));
        assert(self@.failed_providers =~= old(self)@.failed_providers.push((provider@, reason@)));
    }

    /// Sums the hand-over up.
    pub fn conclude(&mut self)
        ensures
            final(self)@ == concluded(old(self)@),
    {
        if self.failed_providers.len() != 0 && self.synced_providers.len() == 0 {
            self.status = AuthSyncStatus::Failed("All providers failed to sync".to_string());
        } else {
            self.status = AuthSyncStatus::Complete;
        }
    }
}

} // verus!
