//! The events that the backend reports on its stream.

use vstd::prelude::*;
use crate::json::{
    is_null, json_document, json_is_null, json_member, json_string, json_string_member, member,
    parse_document, string_member, string_of,
};
use crate::text::same_text;

verus! {

/// One event of the stream: the `type` of a text frame, and from its `data`
/// the `node` and the `prompt_id`.
#[derive(Clone, Debug, PartialEq, Eq)]
pub struct StreamEvent {
    /// The event's `type`.
    pub kind: String,
    /// The node that the event is about; `None` where `data.node` is `null`
    /// or absent.
    pub node: Option<String>,
    /// The job that the event is about.
    pub prompt_id: String,
}

/// What a [`StreamEvent`] holds, as plain values.
pub struct StreamEventView {
    pub kind: Seq<char>,
    pub node: Option<Seq<char>>,
    pub prompt_id: Seq<char>,
}

impl View for StreamEvent {
    type V = StreamEventView;

    open spec fn view(&self) -> StreamEventView {
        StreamEventView {
            kind: self.kind@,
            node: match self.node {
                Some(node) => Some(node@),
                None => None,
            },
            prompt_id: self.prompt_id@,
        }
    }
}

impl StreamEventView {
    /// Whether this event reports that the job `job_id` has finished: its
    /// type is `executing`, it names no node, and it is about that job.
    pub open spec fn completes(self, job_id: Seq<char>) -> bool {
        &&& self.kind == "executing"@
        &&& self.node is None
        &&& self.prompt_id == job_id
    }
}

/// The `node` of an event whose `data` is `data`: `Some(None)` where the
/// member is `null` or absent, `Some(Some(..))` where it is a string, and
/// `None` where it is anything else.
pub open spec fn node_of_data(data: serde_json::Value) -> Option<Option<Seq<char>>> {
    match json_member(data, "node"@) {
        None => Some(None),
        Some(node) => if json_is_null(node) {
            Some(None)
        } else {
            match json_string(node) {
                Some(name) => Some(Some(name)),
                None => None,
            }
        },
    }
}

/// The event that a parsed frame holds, where it has the shape of one: a
/// string `type`, and a `data` with a string `prompt_id` and a `node` that is
/// a string, `null` or absent.
pub open spec fn event_of_document(document: serde_json::Value) -> Option<StreamEventView> {
    match json_string_member(document, "type"@) {
        None => None,
        Some(kind) => match json_member(document, "data"@) {
            None => None,
            Some(data) => match json_string_member(data, "prompt_id"@) {
                None => None,
                Some(prompt_id) => match node_of_data(data) {
                    None => None,
                    Some(node) => Some(StreamEventView { kind, node, prompt_id }),
                },
            },
        },
    }
}

/// The event that the text of a frame holds, where the text is JSON and has
/// the shape of an event.
pub open spec fn event_of_text(text: Seq<char>) -> Option<StreamEventView> {
    match json_document(text) {
        Some(document) => event_of_document(document),
        None => None,
    }
}

impl StreamEvent {
    /// Whether this event reports that the job `job_id` has finished.
    pub fn completes(&self, job_id: &str) -> (r: bool)
        ensures
            r == self@.completes(job_id@),
    {
        same_text(self.kind.as_str(), "executing") && self.node.is_none() && same_text(
            self.prompt_id.as_str(),
            job_id,
        )
    }
}

/// Reads the `node` of an event from its `data`.
fn decode_node(data: &serde_json::Value) -> (r: Option<Option<String>>)
    ensures
        r matches Some(Some(name)) ==> node_of_data(*data) == Some(Some(name@)),
        r matches Some(None) ==> node_of_data(*data) == Some(None::<Seq<char>>),
        r is None <==> node_of_data(*data) is None,
{
    match member(data, "node") {
        None => Some(None),
        Some(node) => {
            if is_null(node) {
                Some(None)
            } else {
                match string_of(node) {
                    Some(name) => Some(Some(name.to_owned())),
                    None => None,
                }
            }
        },
    }
}

/// Reads an event from the text of a frame.
///
/// The result is `None` where the text is not JSON or lacks the shape of an
/// event; such frames are expected on the stream and are no error.
pub fn decode_event(text: &str) -> (r: Option<StreamEvent>)
    ensures
        r matches Some(event) ==> event_of_text(text@) == Some(event@),
        r is None <==> event_of_text(text@) is None,
{
    let document = match parse_document(text) {
        Ok(document) => document,
        Err(_) => {
            return None;
        },
    };
    let kind = match string_member(&document, "type") {
        Some(kind) => kind,
        None => {
            return None;
        },
    };
    let data = match member(&document, "data") {
        Some(data) => data,
        None => {
            return None;
        },
    };
    let prompt_id = match string_member(data, "prompt_id") {
        Some(prompt_id) => prompt_id,
        None => {
            return None;
        },
    };
    match decode_node(data) {
        None => None,
        Some(node) => Some(
            StreamEvent { kind: kind.to_owned(), node, prompt_id: prompt_id.to_owned() },
        ),
    }
}

} // verus!
