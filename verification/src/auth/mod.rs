//! The credentials of the Anthropic provider: what the server holds, what
//! the client caches beside its executable, and when a token runs out.

use crate::clock::{unix_millis, unsigned_millis};
use crate::decode::{text_at, unsigned_at};
use crate::json::{json_of, member, Json};
use crate::seqs::{any, first_index, lemma_first_index_is};
use crate::text::{
    decimal, decimal_of, join, joined, lines, lines_of, parse_unsigned, parsed_unsigned, same,
    starts_with, strip_prefix,
};
use vstd::prelude::*;

verus! {

/// How the server authenticates with a provider.
#[derive(Debug, Clone, PartialEq, Eq)]
pub enum AuthInfo {
    OAuth { access: String, refresh: String, expires: u64 },
    ApiKey { key: String },
}

/// Server-side credentials as a mathematical value.
pub enum AuthInfoView {
    OAuth { access: Seq<char>, refresh: Seq<char>, expires: u64 },
    ApiKey { key: Seq<char> },
}

impl View for AuthInfo {
    type V = AuthInfoView;

    open spec fn view(&self) -> AuthInfoView {
        match self {
            AuthInfo::OAuth { access, refresh, expires } => AuthInfoView::OAuth {
                access: access@,
                refresh: refresh@,
                expires: *expires,
            },
            AuthInfo::ApiKey { key } => AuthInfoView::ApiKey { key: key@ },
        }
    }
}

impl DeepView for AuthInfo {
    type V = AuthInfoView;

    open spec fn deep_view(&self) -> AuthInfoView {
        self@
    }
}

/// OAuth tokens, with the time at which they run out in milliseconds.
#[derive(Debug, Clone, PartialEq, Eq)]
pub struct OAuthTokens {
    pub access: String,
    pub refresh: String,
    pub expires: u64,
}

/// OAuth tokens as a mathematical value.
pub struct OAuthTokensView {
    pub access: Seq<char>,
    pub refresh: Seq<char>,
    pub expires: u64,
}

impl View for OAuthTokens {
    type V = OAuthTokensView;

    open spec fn view(&self) -> OAuthTokensView {
        OAuthTokensView { access: self.access@, refresh: self.refresh@, expires: self.expires }
    }
}

impl DeepView for OAuthTokens {
    type V = OAuthTokensView;

    open spec fn deep_view(&self) -> OAuthTokensView {
        self@
    }
}

/// What the client knows of its Anthropic credentials.
#[derive(Debug, Clone, PartialEq, Eq)]
pub struct AnthropicAuth {
    pub oauth: Option<OAuthTokens>,
    pub api_key: Option<String>,
}

/// What a token that has run out shows for its remaining time.
pub open spec fn expired_notice() -> Seq<char> {
    "\u{26a0}\u{fe0f} Expired"@
}

/// The time that is left at `now` of a token that runs out at `expires`,
/// both in milliseconds: hours and minutes where more than an hour is left,
/// minutes and seconds else.
pub open spec fn time_remaining(expires: u64, now: u64) -> Seq<char> {
    if expires <= now {
        expired_notice()
    } else {
        let seconds = ((expires - now) / 1000) as nat;
        let minutes = seconds / 60;
        if minutes > 60 {
            decimal(minutes / 60) + "h "@ + decimal(minutes % 60) + "m"@
        } else {
            decimal(minutes) + "m "@ + decimal(seconds % 60) + "s"@
        }
    }
}

/// The name under which the cache holds the access token, with its `=`.
pub open spec fn access_entry() -> Seq<char> {
    "ANTHROPIC_OAUTH_ACCESS="@
}

/// The name under which the cache holds the refresh token, with its `=`.
pub open spec fn refresh_entry() -> Seq<char> {
    "ANTHROPIC_OAUTH_REFRESH="@
}

/// The name under which the cache holds the time of expiry, with its `=`.
pub open spec fn expires_entry() -> Seq<char> {
    "ANTHROPIC_OAUTH_EXPIRES="@
}

/// The name under which the cache holds the API key, with its `=`.
pub open spec fn api_key_entry() -> Seq<char> {
    "ANTHROPIC_API_KEY="@
}

/// The condition "this line of the cache is none of the OAuth entries".
pub open spec fn is_no_oauth_entry() -> spec_fn(Seq<char>) -> bool {
    |line: Seq<char>|
        !access_entry().is_prefix_of(line) && !refresh_entry().is_prefix_of(line)
            && !expires_entry().is_prefix_of(line)
}

/// The condition "this line of the cache is the API key's entry".
pub open spec fn is_api_key_entry() -> spec_fn(Seq<char>) -> bool {
    |line: Seq<char>| api_key_entry().is_prefix_of(line)
}

/// The three lines that cache the tokens.
pub open spec fn oauth_entries(oauth: OAuthTokensView) -> Seq<Seq<char>> {
    seq![
        access_entry() + oauth.access,
        refresh_entry() + oauth.refresh,
        expires_entry() + decimal(oauth.expires as nat),
    ]
}

/// The lines of the cache after the tokens were written to it: the earlier
/// lines without any OAuth entry, then the three entries of the tokens.
pub open spec fn lines_with_oauth(earlier: Seq<Seq<char>>, oauth: OAuthTokensView) -> Seq<
    Seq<char>,
> {
    earlier.filter(is_no_oauth_entry()) + oauth_entries(oauth)
}

/// The tokens that two texts and a number make, where all three are there.
pub open spec fn tokens_of(
    access: Option<Seq<char>>,
    refresh: Option<Seq<char>>,
    expires: Option<u64>,
) -> Option<OAuthTokensView> {
    if access is Some && refresh is Some && expires is Some {
        Some(OAuthTokensView { access: access->0, refresh: refresh->0, expires: expires->0 })
    } else {
        None
    }
}

/// The tokens that three variables of the environment give: all three must
/// be set, and the time of expiry must be a number.
pub open spec fn tokens_from(
    access: Option<Seq<char>>,
    refresh: Option<Seq<char>>,
    expires: Option<Seq<char>>,
) -> Option<OAuthTokensView> {
    tokens_of(
        access,
        refresh,
        match expires {
            Some(e) => parsed_unsigned(e),
            None => None,
        },
    )
}

/// The API key among the lines of the cache: what follows
/// `ANTHROPIC_API_KEY=` on the first line that begins with it.
pub open spec fn api_key_among(lines: Seq<Seq<char>>) -> Option<Seq<char>> {
    let i = first_index(lines, is_api_key_entry());
    if i < lines.len() {
        Some(lines[i].skip(api_key_entry().len() as int))
    } else {
        None
    }
}

/// Whether a JSON document is well-formed as server-side credentials: an
/// object whose `type` is "oauth" and which holds both tokens and the time of
/// expiry, or one whose `type` is "api" and which holds the key.
pub open spec fn is_auth_info(j: Json) -> bool {
    match j.text_field("type"@) {
        Some(t) => if t == "oauth"@ {
            j.text_field("access"@) is Some && j.text_field("refresh"@) is Some
                && j.unsigned_field("expires"@) is Some
        } else if t == "api"@ {
            j.text_field("key"@) is Some
        } else {
            false
        },
        None => false,
    }
}

/// The credentials that a JSON document holds; meaningful where
/// `is_auth_info(j)`.
pub open spec fn decoded_auth_info(j: Json) -> AuthInfoView {
    if j.text_field("type"@) == Some("oauth"@) {
        AuthInfoView::OAuth {
            access: j.text_field("access"@)->0,
            refresh: j.text_field("refresh"@)->0,
            expires: j.unsigned_field("expires"@)->0,
        }
    } else {
        AuthInfoView::ApiKey { key: j.text_field("key"@)->0 }
    }
}

/// Decodes server-side credentials; `None` where the document is none.
pub fn decode_auth_info(v: &serde_json::Value) -> (r: Option<AuthInfo>)
    ensures
        r is Some <==> is_auth_info(json_of(*v)),
        r is Some ==> r->Some_0@ == decoded_auth_info(json_of(*v)),
{
    let kind = text_at(v, "type")?;
    if same(kind.as_str(), "oauth") {
        let access = text_at(v, "access")?;
        let refresh = text_at(v, "refresh")?;
        let expires = unsigned_at(v, "expires")?;
        Some(AuthInfo::OAuth { access, refresh, expires })
    } else if same(kind.as_str(), "api") {
        let key = text_at(v, "key")?;
        Some(AuthInfo::ApiKey { key })
    } else {
        None
    }
}

impl AnthropicAuth {
    /// Finds the Anthropic credentials in the server's file of credentials.
    /// `Ok(None)` where the file has no entry for Anthropic, `Err` where it
    /// has one that is no credentials.
    pub fn read_from_document(auth_data: &serde_json::Value) -> (r: Result<Option<AuthInfo>, ()>)
        ensures
            json_of(*auth_data).field("anthropic"@) is None ==> r == Ok::<Option<AuthInfo>, ()>(
                None,
            ),
            json_of(*auth_data).field("anthropic"@) is Some ==> (r is Ok <==> is_auth_info(
                json_of(*auth_data).field("anthropic"@)->0,
            )),
            json_of(*auth_data).field("anthropic"@) is Some && r is Ok ==> r->Ok_0 is Some
                && r->Ok_0->0@ == decoded_auth_info(json_of(*auth_data).field("anthropic"@)->0),
    {
        match member(auth_data, "anthropic") {
            Some(anthropic) => match decode_auth_info(anthropic) {
                Some(info) => Ok(Some(info)),
                None => Err(()),
            },
            None => Ok(None),
        }
    }

    /// The text of the cache after the tokens were written to it.
    pub fn cache_oauth_to_text(oauth: &OAuthTokens, existing: &str) -> (r: String)
        ensures
            r@ == joined(lines_with_oauth(lines_of(existing@), oauth@), "\n"@),
    {
        join(&Self::cache_oauth_to_lines(oauth, &lines(existing)), "\n")
    }

    /// The lines of the cache after the tokens were written to it.
    pub fn cache_oauth_to_lines(oauth: &OAuthTokens, earlier: &Vec<String>) -> (r: Vec<String>)
        ensures
            r.deep_view() == lines_with_oauth(earlier.deep_view(), oauth@),
    {
        let ghost all = earlier.deep_view();
        let ghost p = is_no_oauth_entry();
        let mut kept: Vec<String> = Vec::new();
        let mut i: usize = 0;
        proof {
            reveal(Seq::filter);
            assert(all.take(0) =~= Seq::empty());
            assert(kept.deep_view() =~= Seq::empty());
        }
        while i < earlier.len()
            invariant
                0 <= i <= earlier.len(),
                all == earlier.deep_view(),
                p == is_no_oauth_entry(),
                kept.deep_view() == all.take(i as int).filter(p),
            decreases earlier.len() - i,
        {
            let ghost held = kept.deep_view();
            proof {
                reveal(Seq::filter);
                assert(all.take(i as int + 1).drop_last() =~= all.take(i as int));
                assert(all.take(i as int + 1).last() == all[i as int]);
            }
            let line = earlier[i].as_str();
            if !starts_with(line, "ANTHROPIC_OAUTH_ACCESS=") && !starts_with(
                line,
                "ANTHROPIC_OAUTH_REFRESH=",
            ) && !starts_with(line, "ANTHROPIC_OAUTH_EXPIRES=") {
                kept.push(earlier[i].clone());
                assert(kept.deep_view() =~= held.push(all[i as int]));
            }
            i = i + 1;
        }
        assert(all.take(earlier.len() as int) =~= all);
        let ghost filtered = kept.deep_view();
        kept.push("ANTHROPIC_OAUTH_ACCESS=".to_string().concat(oauth.access.as_str()));
        kept.push("ANTHROPIC_OAUTH_REFRESH=".to_string().concat(oauth.refresh.as_str()));
        kept.push(
            "ANTHROPIC_OAUTH_EXPIRES=".to_string().concat(decimal_of(oauth.expires).as_str()),
        );
        assert(kept.deep_view() =~= filtered + oauth_entries(oauth@));
        kept
    }

    /// The tokens that the variables of the cache give, if they give any.
    pub fn read_oauth_from_vars(
        access: Option<String>,
        refresh: Option<String>,
        expires: Option<String>,
    ) -> (r: Option<OAuthTokens>)
        ensures
            r.deep_view() == tokens_from(
                access.deep_view(),
                refresh.deep_view(),
                expires.deep_view(),
            ),
    {
        let expires = match expires {
            Some(e) => parse_unsigned(e.as_str()),
            None => None,
        };
        Self::tokens_from_parts(access, refresh, expires)
    }

    /// The tokens that two texts and a number make, where all three are
    /// there.
    pub fn tokens_from_parts(
        access: Option<String>,
        refresh: Option<String>,
        expires: Option<u64>,
    ) -> (r: Option<OAuthTokens>)
        ensures
            r.deep_view() == tokens_of(access.deep_view(), refresh.deep_view(), expires),
    {
        match (access, refresh, expires) {
            (Some(access), Some(refresh), Some(expires)) => Some(
                OAuthTokens { access, refresh, expires },
            ),
            _ => None,
        }
    }

    /// The API key that the text of the cache holds: what follows
    /// `ANTHROPIC_API_KEY=` on the first line that begins with it.
    pub fn api_key_in(content: &str) -> (r: Option<String>)
        ensures
            r.deep_view() == api_key_among(lines_of(content@)),
    {
        Self::api_key_in_lines(&lines(content))
    }

    /// The API key among the lines of the cache.
    pub fn api_key_in_lines(all: &Vec<String>) -> (r: Option<String>)
        ensures
            r.deep_view() == api_key_among(all.deep_view()),
    {
        let ghost p = is_api_key_entry();
        let mut i: usize = 0;
        while i < all.len()
            invariant
                0 <= i <= all.len(),
                p == is_api_key_entry(),
                forall|j: int| 0 <= j < i ==> !p(#[trigger] all.deep_view()[j]),
            decreases all.len() - i,
        {
            if let Some(key) = strip_prefix(all[i].as_str(), "ANTHROPIC_API_KEY=") {
                proof {
                    assert(p(all.deep_view()[i as int]));
                    lemma_first_index_is(all.deep_view(), p, i as int);
                }
                return Some(key.to_string());
            }
            assert(!p(all.deep_view()[i as int]));
            i = i + 1;
        }
        proof {
            lemma_first_index_is(all.deep_view(), p, i as int);
        }
        None
    }

    /// Whether a token that runs out at `expires` has run out at `now`.
    pub fn is_oauth_expired_at(expires: u64, now: u64) -> (r: bool)
        ensures
            r == (expires <= now),
    {
        expires <= now
    }

    /// Whether a token that runs out at `expires` has run out by the wall
    /// clock. A clock that stands before the epoch reads as 0.
    pub fn is_oauth_expired(expires: u64) -> (r: bool)
        ensures
            expires == 0 ==> r,
    {
        Self::is_oauth_expired_at(expires, unsigned_millis(unix_millis()))
    }

    /// The time that is left at `now` of a token that runs out at `expires`.
    pub fn format_time_remaining_at(expires: u64, now: u64) -> (r: String)
        ensures
            r@ == time_remaining(expires, now),
    {
        if expires <= now {
            return "\u{26a0}\u{fe0f} Expired".to_string();
        }
        let seconds = (expires - now) / 1000;
        let minutes = seconds / 60;
        if minutes > 60 {
            let mut out = decimal_of(minutes / 60);
            out.append("h ");
            out.append(decimal_of(minutes % 60).as_str());
            out.append("m");
            out
        } else {
            let mut out = decimal_of(minutes);
            out.append("m ");
            out.append(decimal_of(seconds % 60).as_str());
            out.append("s");
            out
        }
    }

    /// The time that is left by the wall clock of a token that runs out at
    /// `expires`. A clock that stands before the epoch reads as 0.
    pub fn format_time_remaining(expires: u64) -> (r: String)
        ensures
            expires == 0 ==> r@ == expired_notice(),
    {
        Self::format_time_remaining_at(expires, unsigned_millis(unix_millis()))
    }
}

} // verus!
