//! The answer of the service that describes images.

use vstd::prelude::*;
use vstd::string::StringExecFns;
use crate::error::ClientError;
use crate::json::{
    elements_of, json_document, json_elements, json_member, json_string_member, json_u64, member,
    parse_document, string_member, u64_of,
};

verus! {

/// What the client reads of a description: how many tokens it was charged
/// for, and its text.
#[derive(Clone, Debug, PartialEq, Eq)]
pub struct Completion {
    /// The tokens that the request took.
    pub prompt_tokens: u64,
    /// The tokens that the answer took.
    pub completion_tokens: u64,
    /// The description.
    pub content: String,
}

/// What a [`Completion`] holds, as plain values.
pub struct CompletionView {
    pub prompt_tokens: u64,
    pub completion_tokens: u64,
    pub content: Seq<char>,
}

impl View for Completion {
    type V = CompletionView;

    open spec fn view(&self) -> CompletionView {
        CompletionView {
            prompt_tokens: self.prompt_tokens,
            completion_tokens: self.completion_tokens,
            content: self.content@,
        }
    }
}

/// The integer member of `value` under `key`, where there is one.
pub open spec fn json_u64_member(value: serde_json::Value, key: Seq<char>) -> Option<u64> {
    match json_member(value, key) {
        Some(found) => json_u64(found),
        None => None,
    }
}

/// The text of the first choice of an answer: the string `content` of the
/// `message` of the first element of `choices`.
pub open spec fn first_content(document: serde_json::Value) -> Option<Seq<char>> {
    match json_member(document, "choices"@) {
        None => None,
        Some(list) => match json_elements(list) {
            None => None,
            Some(choices) => if choices.len() == 0 {
                None
            } else {
                match json_member(choices[0], "message"@) {
                    Some(message) => json_string_member(message, "content"@),
                    None => None,
                }
            },
        },
    }
}

/// The description that a parsed answer holds: its `usage` gives the two
/// token counts, and its first choice gives the text.
pub open spec fn completion_of_document(document: serde_json::Value) -> Option<CompletionView> {
    match json_member(document, "usage"@) {
        None => None,
        Some(usage) => match json_u64_member(usage, "prompt_tokens"@) {
            None => None,
            Some(prompt_tokens) => match json_u64_member(usage, "completion_tokens"@) {
                None => None,
                Some(completion_tokens) => match first_content(document) {
                    None => None,
                    Some(content) => Some(
                        CompletionView { prompt_tokens, completion_tokens, content },
                    ),
                },
            },
        },
    }
}

/// The description that the text of an answer holds, where the text is JSON
/// and holds one.
pub open spec fn completion_of_text(text: Seq<char>) -> Option<CompletionView> {
    match json_document(text) {
        Some(document) => completion_of_document(document),
        None => None,
    }
}

/// The reason that the text of a refusal gives: the string `message` of its
/// `error`. A text that is not JSON and a refusal that gives no reason each
/// have a fixed notice in its place.
pub open spec fn refusal_of_text(text: Seq<char>) -> Seq<char> {
    match json_document(text) {
        None => "Failed to parse error response from OpenAI API."@,
        Some(document) => match json_member(document, "error"@) {
            None => "Unknown error occurred."@,
            Some(error) => match json_string_member(error, "message"@) {
                Some(message) => message,
                None => "Unknown error occurred."@,
            },
        },
    }
}

/// The question that is asked of an image: the user's, or a fixed one where
/// the user wrote nothing.
pub open spec fn question_of(message: Seq<char>) -> Seq<char> {
    if message.len() == 0 {
        "What is in this image?"@
    } else {
        message
    }
}

/// The integer member of `value` under `key`, where there is one.
fn u64_member(value: &serde_json::Value, key: &str) -> (r: Option<u64>)
    ensures
        r == json_u64_member(*value, key@),
{
    match member(value, key) {
        Some(found) => u64_of(found),
        None => None,
    }
}

/// Reads the text of the first choice of an answer.
fn decode_first_content(document: &serde_json::Value) -> (r: Option<String>)
    ensures
        r matches Some(content) ==> first_content(*document) == Some(content@),
        r is None <==> first_content(*document) is None,
{
    let list = match member(document, "choices") {
        Some(list) => list,
        None => {
            return None;
        },
    };
    let choices = match elements_of(list) {
        Some(choices) => choices,
        None => {
            return None;
        },
    };
    if choices.len() == 0 {
        return None;
    }
    let message = match member(&choices[0], "message") {
        Some(message) => message,
        None => {
            return None;
        },
    };
    match string_member(message, "content") {
        Some(content) => Some(content.to_owned()),
        None => None,
    }
}

/// Reads a description from the text of an answer.
///
/// The call fails with [`ClientError::Protocol`] where the text is not JSON,
/// where it lacks one of the two token counts, and where its first choice
/// gives no text.
pub fn decode_completion(text: &str) -> (r: Result<Completion, ClientError>)
    ensures
        r matches Ok(completion) ==> completion_of_text(text@) == Some(completion@),
        r matches Err(e) ==> e == ClientError::Protocol && completion_of_text(text@) is None,
{
    let document = match parse_document(text) {
        Ok(document) => document,
        Err(_) => {
            return Err(ClientError::Protocol);
        },
    };
    let usage = match member(&document, "usage") {
        Some(usage) => usage,
        None => {
            return Err(ClientError::Protocol);
        },
    };
    let prompt_tokens = match u64_member(usage, "prompt_tokens") {
        Some(count) => count,
        None => {
            return Err(ClientError::Protocol);
        },
    };
    let completion_tokens = match u64_member(usage, "completion_tokens") {
        Some(count) => count,
        None => {
            return Err(ClientError::Protocol);
        },
    };
    match decode_first_content(&document) {
        Some(content) => Ok(Completion { prompt_tokens, completion_tokens, content }),
        None => Err(ClientError::Protocol),
    }
}

/// Reads the reason from the text of a refusal.
pub fn decode_refusal(text: &str) -> (r: String)
    ensures
        r@ == refusal_of_text(text@),
{
    let document = match parse_document(text) {
        Ok(document) => document,
        Err(_) => {
            return String::from_str("Failed to parse error response from OpenAI API.");
        },
    };
    let error = match member(&document, "error") {
        Some(error) => error,
        None => {
            return String::from_str("Unknown error occurred.");
        },
    };
    match string_member(error, "message") {
        Some(message) => message.to_owned(),
        None => String::from_str("Unknown error occurred."),
    }
}

/// The question that is asked of an image.
pub fn question(message: &str) -> (r: String)
    ensures
        r@ == question_of(message@),
{
    if message.is_empty() {
        String::from_str("What is in this image?")
    } else {
        message.to_owned()
    }
}

} // verus!
