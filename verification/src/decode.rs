//! Decoding of the event envelopes that the server pushes as JSON:
//!
//! ```text
//! { "type": <string>, "properties": { ... } }
//! ```
//!
//! An envelope of an unknown type, or one that lacks what its type requires,
//! decodes to an event that every consumer ignores. Nothing here fails.

use crate::event::{
    Envelope, EnvelopeView, Event, EventView, MessageInfo, MessageInfoView, Part, PartKind,
    PartKindView, PartView, PermissionRequest, PermissionRequestView, ToolUpdate, ToolUpdateView,
};
use crate::json::{
    as_elements, as_members, as_signed, as_text, as_unsigned, entries_of, json_of, jsons_of,
    member, no_entries, null, Json,
};
use crate::reconciler::unknown;
use crate::text::same;
use crate::transcript::{Role, TokenCounts};
use vstd::prelude::*;

verus! {

/// The role that a role's name stands for.
pub open spec fn role_named(name: Seq<char>) -> Role {
    if name == "user"@ {
        Role::User
    } else if name == "assistant"@ {
        Role::Assistant
    } else if name == "system"@ {
        Role::System
    } else {
        Role::Other
    }
}

/// The strings among the elements of an array, in order.
pub open spec fn texts_among(js: Seq<Json>) -> Seq<Seq<char>>
    decreases js.len(),
{
    if js.len() == 0 {
        Seq::empty()
    } else {
        let before = texts_among(js.drop_last());
        match js.last() {
            Json::Str(t) => before.push(t),
            _ => before,
        }
    }
}

/// Whether every element of an array is a string.
pub open spec fn all_texts(js: Seq<Json>) -> bool {
    forall|i: int| 0 <= i < js.len() ==> (#[trigger] js[i]) is Str
}

/// The counters that a `tokens` object holds.
pub open spec fn decoded_tokens(tokens: Json) -> TokenCounts {
    TokenCounts {
        input: tokens.unsigned_field("input"@),
        output: tokens.unsigned_field("output"@),
        reasoning: tokens.unsigned_field("reasoning"@),
    }
}

/// The creation time that an object holds under `time.created`, where it is
/// a signed integer.
pub open spec fn created_signed(j: Json) -> Option<i64> {
    match j.field("time"@) {
        Some(t) => t.signed_field("created"@),
        None => None,
    }
}

/// The creation time that an object holds under `time.created`, where it is
/// an unsigned integer.
pub open spec fn created_unsigned(j: Json) -> Option<u64> {
    match j.field("time"@) {
        Some(t) => t.unsigned_field("created"@),
        None => None,
    }
}

/// The event that the `info` of a `message.updated` decodes to. The id, the
/// role and the creation time are required. A `finish` marker is a string
/// under `finish`. Counters are read for the assistant only.
pub open spec fn decoded_message(info: Json) -> EventView {
    let id = info.text_field("id"@);
    let role = info.text_field("role"@);
    let created = created_signed(info);
    if id is Some && role is Some && created is Some {
        let role = role_named(role->0);
        EventView::MessageUpdated(
            MessageInfoView {
                id: id->0,
                role,
                created: created->0,
                finished: info.text_field("finish"@) is Some,
                tokens: if role == Role::Assistant && info.field("tokens"@) is Some {
                    decoded_tokens(info.field("tokens"@)->0)
                } else {
                    TokenCounts::spec_none()
                },
            },
        )
    } else {
        EventView::Ignored
    }
}

/// The member of the part's `state` under `key`.
pub open spec fn state_field(part: Json, key: Seq<char>) -> Option<Json> {
    match part.field("state"@) {
        Some(state) => state.field(key),
        None => None,
    }
}

/// The input that a tool part carries: the part's own `input` where it has
/// one, else that of its `state`, else `null`.
pub open spec fn decoded_input(part: Json) -> Json {
    match part.field("input"@) {
        Some(j) => j,
        None => match state_field(part, "input"@) {
            Some(j) => j,
            None => Json::Null,
        },
    }
}

/// The text under `key` of the part's `state`.
pub open spec fn state_text(part: Json, key: Seq<char>) -> Option<Seq<char>> {
    match state_field(part, key) {
        Some(j) => j.text(),
        None => None,
    }
}

/// The signed integer under `key` of the part's `state`.
pub open spec fn state_signed(part: Json, key: Seq<char>) -> Option<i64> {
    match state_field(part, key) {
        Some(j) => j.signed(),
        None => None,
    }
}

/// The log lines of the part's `state`: the strings of the array `logs`.
pub open spec fn decoded_logs(part: Json) -> Seq<Seq<char>> {
    match state_field(part, "logs"@) {
        Some(Json::Array(js)) => texts_among(js),
        _ => Seq::empty(),
    }
}

/// The metadata of the part's `state`: the members of the object `metadata`.
pub open spec fn decoded_metadata(part: Json) -> Map<Seq<char>, Json> {
    match state_field(part, "metadata"@) {
        Some(Json::Object(m)) => m,
        _ => Map::empty(),
    }
}

/// What a part of type `tool` says about its tool call.
pub open spec fn decoded_tool(part: Json) -> ToolUpdateView {
    ToolUpdateView {
        id: match part.text_field("id"@) {
            Some(id) => id,
            None => unknown(),
        },
        name: part.text_field("tool"@),
        status: state_text(part, "status"@),
        input: decoded_input(part),
        output: state_text(part, "output"@),
        error: state_text(part, "error"@),
        metadata: decoded_metadata(part),
        started_at: state_signed(part, "started_at"@),
        finished_at: state_signed(part, "finished_at"@),
        logs: decoded_logs(part),
    }
}

/// The text that a text or reasoning part carries; empty where it has none.
pub open spec fn decoded_text(part: Json) -> Seq<char> {
    match part.text_field("text"@) {
        Some(t) => t,
        None => Seq::empty(),
    }
}

/// The content of a part, by its `type`.
pub open spec fn decoded_kind(part: Json) -> PartKindView {
    match part.text_field("type"@) {
        Some(t) => if t == "text"@ {
            PartKindView::Text(decoded_text(part))
        } else if t == "reasoning"@ {
            PartKindView::Reasoning(decoded_text(part))
        } else if t == "tool"@ {
            PartKindView::Tool(decoded_tool(part))
        } else {
            PartKindView::Other
        },
        None => PartKindView::Other,
    }
}

/// The part of a `message.part.updated`.
pub open spec fn decoded_part(part: Json) -> PartView {
    PartView {
        message_id: part.text_field("messageID"@),
        call_id: part.text_field("callID"@),
        kind: decoded_kind(part),
    }
}

/// Whether a member that may be left out is well-formed as an optional
/// string: absent, `null` or a string.
pub open spec fn is_optional_text(j: Option<Json>) -> bool {
    j is None || j->0 is Null || j->0 is Str
}

/// The value of an optional string member.
pub open spec fn optional_text(j: Option<Json>) -> Option<Seq<char>> {
    match j {
        Some(Json::Str(t)) => Some(t),
        _ => None,
    }
}

/// Whether a member that may be left out is well-formed as an optional list
/// of strings: absent, `null` or an array of strings.
pub open spec fn is_optional_texts(j: Option<Json>) -> bool {
    j is None || j->0 is Null || (j->0 is Array && all_texts(j->0->Array_0))
}

/// The value of an optional list of strings.
pub open spec fn optional_texts(j: Option<Json>) -> Option<Seq<Seq<char>>> {
    match j {
        Some(Json::Array(js)) => Some(texts_among(js)),
        _ => None,
    }
}

/// Whether the properties of a `permission.updated` hold all that a request
/// requires, in the required form.
pub open spec fn is_permission(props: Json) -> bool {
    &&& props.text_field("id"@) is Some
    &&& props.text_field("type"@) is Some
    &&& is_optional_texts(props.field("pattern"@))
    &&& props.text_field("sessionID"@) is Some
    &&& props.text_field("messageID"@) is Some
    &&& is_optional_text(props.field("callID"@))
    &&& props.text_field("title"@) is Some
    &&& props.field("metadata"@) is Some
    &&& created_unsigned(props) is Some
}

/// The request that the properties of a `permission.updated` hold;
/// meaningful where `is_permission(props)`.
pub open spec fn decoded_permission(props: Json) -> PermissionRequestView {
    PermissionRequestView {
        id: props.text_field("id"@)->0,
        perm_type: props.text_field("type"@)->0,
        pattern: optional_texts(props.field("pattern"@)),
        session_id: props.text_field("sessionID"@)->0,
        message_id: props.text_field("messageID"@)->0,
        call_id: optional_text(props.field("callID"@)),
        title: props.text_field("title"@)->0,
        metadata: props.field("metadata"@)->0,
        created: created_unsigned(props)->0,
    }
}

/// The event that the properties of a `permission.replied` decode to: both
/// ids are required.
pub open spec fn decoded_reply(props: Json) -> EventView {
    let permission_id = props.text_field("permissionID"@);
    let session_id = props.text_field("sessionID"@);
    if permission_id is Some && session_id is Some {
        EventView::PermissionReplied { permission_id: permission_id->0, session_id: session_id->0 }
    } else {
        EventView::Ignored
    }
}

/// The event that an envelope holds.
pub open spec fn decoded_event(j: Json) -> EventView {
    let props = j.field("properties"@);
    match j.text_field("type"@) {
        Some(t) => if props is None {
            EventView::Ignored
        } else if t == "message.updated"@ {
            match props->0.field("info"@) {
                Some(info) => decoded_message(info),
                None => EventView::Ignored,
            }
        } else if t == "message.part.updated"@ {
            match props->0.field("part"@) {
                Some(part) => EventView::PartUpdated(decoded_part(part)),
                None => EventView::Ignored,
            }
        } else if t == "permission.updated"@ {
            if is_permission(props->0) {
                EventView::PermissionUpdated(decoded_permission(props->0))
            } else {
                EventView::Ignored
            }
        } else if t == "permission.replied"@ {
            decoded_reply(props->0)
        } else {
            EventView::Ignored
        },
        None => EventView::Ignored,
    }
}

/// The text under `properties.<holder>.sessionID`.
pub open spec fn session_under(j: Json, holder: Seq<char>) -> Option<Seq<char>> {
    match j.field("properties"@) {
        Some(props) => match props.field(holder) {
            Some(h) => h.text_field("sessionID"@),
            None => None,
        },
        None => None,
    }
}

/// The session that an envelope is addressed to: the one that its part
/// names, else the one that its info names.
pub open spec fn addressed_session(j: Json) -> Option<Seq<char>> {
    match session_under(j, "part"@) {
        Some(id) => Some(id),
        None => session_under(j, "info"@),
    }
}

/// The envelope that a JSON document decodes to.
pub open spec fn decoded(j: Json) -> EnvelopeView {
    EnvelopeView { session_id: addressed_session(j), event: decoded_event(j) }
}

/// The document behind an optional reference to a value.
pub open spec fn json_behind(v: Option<&serde_json::Value>) -> Option<Json> {
    match v {
        Some(v) => Some(json_of(*v)),
        None => None,
    }
}

/// The member under `key`, as a value.
pub fn field_at<'a>(v: &'a serde_json::Value, key: &str) -> (r: Option<&'a serde_json::Value>)
    ensures
        json_behind(r) == json_of(*v).field(key@),
{
    member(v, key)
}

/// The text of the member under `key`.
pub fn text_at(v: &serde_json::Value, key: &str) -> (r: Option<String>)
    ensures
        r.deep_view() == json_of(*v).text_field(key@),
{
    match member(v, key) {
        Some(j) => match as_text(j) {
            Some(t) => Some(t.to_string()),
            None => None,
        },
        None => None,
    }
}

/// The signed integer of the member under `key`.
pub fn signed_at(v: &serde_json::Value, key: &str) -> (r: Option<i64>)
    ensures
        r == json_of(*v).signed_field(key@),
{
    match member(v, key) {
        Some(j) => as_signed(j),
        None => None,
    }
}

/// The unsigned integer of the member under `key`.
pub fn unsigned_at(v: &serde_json::Value, key: &str) -> (r: Option<u64>)
    ensures
        r == json_of(*v).unsigned_field(key@),
{
    match member(v, key) {
        Some(j) => as_unsigned(j),
        None => None,
    }
}

/// The role that a role's name stands for.
pub fn role_of_name(name: &str) -> (r: Role)
    ensures
        r == role_named(name@),
{
    if same(name, "user") {
        Role::User
    } else if same(name, "assistant") {
        Role::Assistant
    } else if same(name, "system") {
        Role::System
    } else {
        Role::Other
    }
}

/// Decodes the counters of a `tokens` object.
pub fn decode_tokens(tokens: &serde_json::Value) -> (r: TokenCounts)
    ensures
        r == decoded_tokens(json_of(*tokens)),
{
    TokenCounts {
        input: unsigned_at(tokens, "input"),
        output: unsigned_at(tokens, "output"),
        reasoning: unsigned_at(tokens, "reasoning"),
    }
}

/// Decodes the `info` of a `message.updated`.
pub fn decode_message(info: &serde_json::Value) -> (r: Event)
    ensures
        r@ == decoded_message(json_of(*info)),
{
    let id = text_at(info, "id");
    let role = text_at(info, "role");
    let created = match member(info, "time") {
        Some(t) => signed_at(t, "created"),
        None => None,
    };
    match (id, role, created) {
        (Some(id), Some(role), Some(created)) => {
            let role = role_of_name(role.as_str());
            let finished = text_at(info, "finish").is_some();
            let tokens = if role == Role::Assistant {
                match member(info, "tokens") {
                    Some(t) => decode_tokens(t),
                    None => TokenCounts::none(),
                }
            } else {
                TokenCounts::none()
            };
            Event::MessageUpdated(MessageInfo { id, role, created, finished, tokens })
        },
        _ => Event::Ignored,
    }
}

/// Collects the strings among the elements of an array.
pub fn texts_of(items: &Vec<serde_json::Value>) -> (r: Vec<String>)
    ensures
        r.deep_view() == texts_among(jsons_of(items@)),
{
    let ghost js = jsons_of(items@);
    let mut out: Vec<String> = Vec::new();
    let mut i: usize = 0;
    assert(js.take(0) =~= Seq::empty());
    assert(out.deep_view() =~= Seq::empty());
    while i < items.len()
        invariant
            0 <= i <= items.len(),
            js == jsons_of(items@),
            out.deep_view() == texts_among(js.take(i as int)),
        decreases items.len() - i,
    {
        proof {
            assert(js.take(i as int + 1).drop_last() =~= js.take(i as int));
            assert(js.take(i as int + 1).last() == json_of(items@[i as int]));
        }
        let ghost held = out.deep_view();
        if let Some(t) = as_text(&items[i]) {
            out.push(t.to_string());
            assert(out.deep_view() =~= held.push(t@));
        }
        i = i + 1;
    }
    assert(js.take(items.len() as int) =~= js);
    out
}

/// Whether every element of an array is a string.
pub fn only_texts(items: &Vec<serde_json::Value>) -> (r: bool)
    ensures
        r == all_texts(jsons_of(items@)),
{
    let ghost js = jsons_of(items@);
    let mut i: usize = 0;
    while i < items.len()
        invariant
            0 <= i <= items.len(),
            js == jsons_of(items@),
            forall|k: int| 0 <= k < i ==> (#[trigger] js[k]) is Str,
        decreases items.len() - i,
    {
        if as_text(&items[i]).is_none() {
            assert(!(js[i as int] is Str));
            return false;
        }
        assert(js[i as int] is Str);
        i = i + 1;
    }
    true
}

/// Decodes the log lines of a tool part.
pub fn decode_logs(part: &serde_json::Value) -> (r: Vec<String>)
    ensures
        r.deep_view() == decoded_logs(json_of(*part)),
{
    if let Some(state) = member(part, "state") {
        if let Some(logs) = member(state, "logs") {
            if let Some(items) = as_elements(logs) {
                return texts_of(items);
            }
        }
    }
    let out: Vec<String> = Vec::new();
    assert(out.deep_view() =~= Seq::empty());
    out
}

/// Decodes the metadata of a tool part.
pub fn decode_metadata(part: &serde_json::Value) -> (r: crate::json::Object)
    ensures
        entries_of(r) == decoded_metadata(json_of(*part)),
{
    if let Some(state) = member(part, "state") {
        if let Some(metadata) = member(state, "metadata") {
            if let Some(members) = as_members(metadata) {
                return members.clone();
            }
        }
    }
    no_entries()
}

/// Decodes the input of a tool part.
pub fn decode_input(part: &serde_json::Value) -> (r: serde_json::Value)
    ensures
        json_of(r) == decoded_input(json_of(*part)),
{
    if let Some(input) = member(part, "input") {
        return input.clone();
    }
    if let Some(state) = member(part, "state") {
        if let Some(input) = member(state, "input") {
            return input.clone();
        }
    }
    null()
}

/// The text under `key` of the part's `state`.
pub fn state_text_at(part: &serde_json::Value, key: &str) -> (r: Option<String>)
    ensures
        r.deep_view() == state_text(json_of(*part), key@),
{
    match member(part, "state") {
        Some(state) => text_at(state, key),
        None => None,
    }
}

/// The signed integer under `key` of the part's `state`.
pub fn state_signed_at(part: &serde_json::Value, key: &str) -> (r: Option<i64>)
    ensures
        r == state_signed(json_of(*part), key@),
{
    match member(part, "state") {
        Some(state) => signed_at(state, key),
        None => None,
    }
}

/// Decodes what a part of type `tool` says about its tool call.
pub fn decode_tool(part: &serde_json::Value) -> (r: ToolUpdate)
    ensures
        r@ == decoded_tool(json_of(*part)),
{
    let id = match text_at(part, "id") {
        Some(id) => id,
        None => "unknown".to_string(),
    };
    ToolUpdate {
        id,
        name: text_at(part, "tool"),
        status: state_text_at(part, "status"),
        input: decode_input(part),
        output: state_text_at(part, "output"),
        error: state_text_at(part, "error"),
        metadata: decode_metadata(part),
        started_at: state_signed_at(part, "started_at"),
        finished_at: state_signed_at(part, "finished_at"),
        logs: decode_logs(part),
    }
}

/// Decodes the `part` of a `message.part.updated`.
pub fn decode_part(part: &serde_json::Value) -> (r: Part)
    ensures
        r@ == decoded_part(json_of(*part)),
{
    let kind = match text_at(part, "type") {
        Some(t) => {
            if same(t.as_str(), "text") {
                PartKind::Text(
                    match text_at(part, "text") {
                        Some(t) => t,
                        None => String::new(),
                    },
                )
            } else if same(t.as_str(), "reasoning") {
                PartKind::Reasoning(
                    match text_at(part, "text") {
                        Some(t) => t,
                        None => String::new(),
                    },
                )
            } else if same(t.as_str(), "tool") {
                PartKind::Tool(decode_tool(part))
            } else {
                PartKind::Other
            }
        },
        None => PartKind::Other,
    };
    Part { message_id: text_at(part, "messageID"), call_id: text_at(part, "callID"), kind }
}

/// Decodes a member that may be left out as an optional string. `Err` where
/// it is there and neither `null` nor a string.
pub fn decode_optional_text(j: Option<&serde_json::Value>) -> (r: Result<Option<String>, ()>)
    ensures
        r is Ok <==> is_optional_text(json_behind(j)),
        r is Ok ==> r->Ok_0.deep_view() == optional_text(json_behind(j)),
{
    match j {
        None => Ok(None),
        Some(v) => match as_text(v) {
            Some(t) => Ok(Some(t.to_string())),
            None => if crate::json::is_null(v) {
                Ok(None)
            } else {
                Err(())
            },
        },
    }
}

/// Decodes a member that may be left out as an optional list of strings.
/// `Err` where it is there and neither `null` nor an array of strings.
pub fn decode_optional_texts(j: Option<&serde_json::Value>) -> (r: Result<
    Option<Vec<String>>,
    (),
>)
    ensures
        r is Ok <==> is_optional_texts(json_behind(j)),
        r is Ok ==> r->Ok_0.deep_view() == optional_texts(json_behind(j)),
{
    match j {
        None => Ok(None),
        Some(v) => match as_elements(v) {
            Some(items) => if only_texts(items) {
                Ok(Some(texts_of(items)))
            } else {
                Err(())
            },
            None => if crate::json::is_null(v) {
                Ok(None)
            } else {
                Err(())
            },
        },
    }
}

/// Decodes the properties of a `permission.updated`; `None` where they lack
/// what a request requires.
pub fn decode_permission(props: &serde_json::Value) -> (r: Option<PermissionRequest>)
    ensures
        r is Some <==> is_permission(json_of(*props)),
        r is Some ==> r->Some_0@ == decoded_permission(json_of(*props)),
{
    let id = text_at(props, "id")?;
    let perm_type = text_at(props, "type")?;
    let pattern = match decode_optional_texts(member(props, "pattern")) {
        Ok(p) => p,
        Err(_) => {
            return None;
        },
    };
    let session_id = text_at(props, "sessionID")?;
    let message_id = text_at(props, "messageID")?;
    let call_id = match decode_optional_text(member(props, "callID")) {
        Ok(c) => c,
        Err(_) => {
            return None;
        },
    };
    let title = text_at(props, "title")?;
    let metadata = member(props, "metadata")?.clone();
    let created = match member(props, "time") {
        Some(t) => unsigned_at(t, "created")?,
        None => {
            return None;
        },
    };
    Some(
        PermissionRequest {
            id,
            perm_type,
            pattern,
            session_id,
            message_id,
            call_id,
            title,
            metadata,
            created,
        },
    )
}

/// Decodes the properties of a `permission.replied`.
pub fn decode_reply(props: &serde_json::Value) -> (r: Event)
    ensures
        r@ == decoded_reply(json_of(*props)),
{
    match (text_at(props, "permissionID"), text_at(props, "sessionID")) {
        (Some(permission_id), Some(session_id)) => Event::PermissionReplied {
            permission_id,
            session_id,
        },
        _ => Event::Ignored,
    }
}

/// Decodes the event that an envelope holds.
pub fn decode_event(payload: &serde_json::Value) -> (r: Event)
    ensures
        r@ == decoded_event(json_of(*payload)),
{
    let kind = match text_at(payload, "type") {
        Some(t) => t,
        None => {
            return Event::Ignored;
        },
    };
    let props = match member(payload, "properties") {
        Some(p) => p,
        None => {
            return Event::Ignored;
        },
    };
    if same(kind.as_str(), "message.updated") {
        match member(props, "info") {
            Some(info) => decode_message(info),
            None => Event::Ignored,
        }
    } else if same(kind.as_str(), "message.part.updated") {
        match member(props, "part") {
            Some(part) => Event::PartUpdated(decode_part(part)),
            None => Event::Ignored,
        }
    } else if same(kind.as_str(), "permission.updated") {
        match decode_permission(props) {
            Some(request) => Event::PermissionUpdated(request),
            None => Event::Ignored,
        }
    } else if same(kind.as_str(), "permission.replied") {
        decode_reply(props)
    } else {
        Event::Ignored
    }
}

/// The text under `properties.<holder>.sessionID`.
pub fn session_at(payload: &serde_json::Value, holder: &str) -> (r: Option<String>)
    ensures
        r.deep_view() == session_under(json_of(*payload), holder@),
{
    match member(payload, "properties") {
        Some(props) => match member(props, holder) {
            Some(h) => text_at(h, "sessionID"),
            None => None,
        },
        None => None,
    }
}

/// Decodes one envelope of the stream. Total: what cannot be decoded is an
/// event that every consumer ignores.
pub fn decode(payload: &serde_json::Value) -> (r: Envelope)
    ensures
        r@ == decoded(json_of(*payload)),
{
    let session_id = match session_at(payload, "part") {
        Some(id) => Some(id),
        None => session_at(payload, "info"),
    };
    Envelope { session_id, event: decode_event(payload) }
}

} // verus!
