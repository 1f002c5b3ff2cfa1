//! The routes of the server, and the requests that go to them.

use crate::error::api::ApiError;
use crate::types::models::{
    MessagePart, MessageRequest, MessageRequestView, ModelIdentifier, ModelIdentifierView,
};
use vstd::prelude::*;

verus! {

/// When a conversation was created and last changed, in milliseconds.
#[derive(Debug, Clone, Copy, PartialEq, Eq, Structural)]
pub struct SessionTime {
    pub created: i64,
    pub updated: i64,
}

/// A conversation as the server lists it.
#[derive(Debug, Clone, PartialEq, Eq)]
pub struct SessionInfo {
    pub id: String,
    pub title: String,
    pub directory: String,
    pub version: Option<String>,
    pub time: Option<SessionTime>,
}

/// The providers that the server holds credentials for.
#[derive(Debug, Clone, PartialEq, Eq)]
pub struct ProviderStatus {
    pub connected: Vec<String>,
}

/// The route of one conversation.
pub open spec fn session_path(id: Seq<char>) -> Seq<char> {
    "session/"@ + id
}

/// The route that takes the messages of a conversation.
pub open spec fn message_path(session_id: Seq<char>) -> Seq<char> {
    "session/"@ + session_id + "/message"@
}

/// The route that takes the answer to a permission request.
pub open spec fn permission_path(session_id: Seq<char>, permission_id: Seq<char>) -> Seq<char> {
    "session/"@ + session_id + "/permissions/"@ + permission_id
}

/// The route that stops the response of a conversation.
pub open spec fn abort_path(session_id: Seq<char>) -> Seq<char> {
    "session/"@ + session_id + "/abort"@
}

/// The route of one conversation.
pub fn session_route(id: &str) -> (r: String)
    ensures
        r@ == session_path(id@),
{
    "session/".to_string().concat(id)
}

/// The route that takes the messages of a conversation.
pub fn message_route(session_id: &str) -> (r: String)
    ensures
        r@ == message_path(session_id@),
{
    let mut out = "session/".to_string();
    out.append(session_id);
    out.append("/message");
    out
}

/// The route that takes the answer to a permission request.
pub fn permission_route(session_id: &str, permission_id: &str) -> (r: String)
    ensures
        r@ == permission_path(session_id@, permission_id@),
{
    let mut out = "session/".to_string();
    out.append(session_id);
    out.append("/permissions/");
    out.append(permission_id);
    out
}

/// The route that stops the response of a conversation.
pub fn abort_route(session_id: &str) -> (r: String)
    ensures
        r@ == abort_path(session_id@),
{
    let mut out = "session/".to_string();
    out.append(session_id);
    out.append("/abort");
    out
}

/// The headers that every request to the server carries: the working
/// directory where one is set, then the bearer token where one is set.
pub open spec fn headers_for(directory: Option<Seq<char>>, token: Option<Seq<char>>) -> Seq<
    (Seq<char>, Seq<char>),
> {
    let first = match directory {
        Some(d) => seq![("x-opencode-directory"@, d)],
        None => Seq::empty(),
    };
    match token {
        Some(t) => first.push(("Authorization"@, "Bearer "@ + t)),
        None => first,
    }
}

/// The headers that every request to the server carries.
pub fn request_headers(directory: &Option<String>, oauth_token: &Option<String>) -> (r: Vec<
    (String, String),
>)
    ensures
        r.deep_view() == headers_for(directory.deep_view(), oauth_token.deep_view()),
{
    let mut out: Vec<(String, String)> = Vec::new();
    assert(out.deep_view() =~= Seq::empty());
    if let Some(d) = directory {
        out.push(("x-opencode-directory".to_string(), d.clone()));
        assert(out.deep_view() =~= seq![("x-opencode-directory"@, d@)]);
    }
    let ghost first = out.deep_view();
    if let Some(t) = oauth_token {
        out.push(("Authorization".to_string(), "Bearer ".to_string().concat(t.as_str())));
        assert(out.deep_view() =~= first.push(("Authorization"@, "Bearer "@ + t@)));
    }
    out
}

/// The body of the request that sends a message.
pub fn message_request(
    parts: Vec<MessagePart>,
    model: Option<(String, String)>,
    agent: Option<String>,
) -> (r: MessageRequest)
    ensures
        r@ == (MessageRequestView {
            parts: parts.deep_view(),
            model: match model {
                Some((provider_id, model_id)) => Some(
                    ModelIdentifierView { provider_id: provider_id@, model_id: model_id@ },
                ),
                None => None,
            },
            agent: agent.deep_view(),
        }),
{
    let model = match model {
        Some((provider_id, model_id)) => Some(ModelIdentifier { provider_id, model_id }),
        None => None,
    };
    MessageRequest { parts, model, agent }
}

/// The error for an answer of the server that is no success, by its status.
pub fn status_error(status: &str) -> (r: ApiError)
    ensures
        r matches ApiError::Http(e) && e@ == "Status "@ + status@,
{
    ApiError::Http("Status ".to_string().concat(status))
}

} // verus!
