//! The stream of events: where it is found, and what one message of it
//! holds.

use crate::decode::{field_at, text_at};
use crate::json::{json_of, parse, parsed_json, Json};
use crate::text::{trim_end_matches, without_trailing};
use vstd::prelude::*;

verus! {

/// One message of the stream: an envelope, and the directory that it is
/// about.
#[derive(Debug, Clone)]
pub struct GlobalEvent {
    pub directory: String,
    pub payload: serde_json::Value,
}

/// A message of the stream as a mathematical value.
pub struct GlobalEventView {
    pub directory: Seq<char>,
    pub payload: Json,
}

impl View for GlobalEvent {
    type V = GlobalEventView;

    open spec fn view(&self) -> GlobalEventView {
        GlobalEventView { directory: self.directory@, payload: json_of(self.payload) }
    }
}

impl DeepView for GlobalEvent {
    type V = GlobalEventView;

    open spec fn deep_view(&self) -> GlobalEventView {
        self@
    }
}

/// The address of the stream of the server at `base_url`.
pub open spec fn stream_url(base_url: Seq<char>) -> Seq<char> {
    without_trailing(base_url, '/') + "/global/event"@
}

/// The address of the stream of the server at `base_url`.
pub fn events_url(base_url: &str) -> (r: String)
    ensures
        r@ == stream_url(base_url@),
{
    trim_end_matches(base_url, '/').to_string().concat("/global/event")
}

/// The message of the stream that a JSON document is: an object with a
/// `directory`, which is a string, and a `payload`.
pub open spec fn global_event_of(j: Json) -> Option<GlobalEventView> {
    if j.text_field("directory"@) is Some && j.field("payload"@) is Some {
        Some(
            GlobalEventView {
                directory: j.text_field("directory"@)->0,
                payload: j.field("payload"@)->0,
            },
        )
    } else {
        None
    }
}

/// What the data of a message of the stream holds.
pub open spec fn global_event_in(data: Seq<char>) -> Option<GlobalEventView> {
    match parsed_json(data) {
        Some(j) => global_event_of(j),
        None => None,
    }
}

/// Reads a message of the stream from a JSON document; `None` for a document
/// that is no such message.
pub fn global_event_from(document: &serde_json::Value) -> (r: Option<GlobalEvent>)
    ensures
        r.deep_view() == global_event_of(json_of(*document)),
{
    let directory = text_at(document, "directory")?;
    let payload = field_at(document, "payload")?.clone();
    Some(GlobalEvent { directory, payload })
}

/// Decodes the data of a message of the stream; `None` for data that is no
/// such message.
pub fn decode_global_event(data: &str) -> (r: Option<GlobalEvent>)
    ensures
        r.deep_view() == global_event_in(data@),
{
    let document = parse(data)?;
    global_event_from(&document)
}

} // verus!
