//! The backend's answer to a job submission.

use vstd::prelude::*;
use crate::error::ClientError;
use crate::json::{json_document, json_string_member, parse_document, string_member};

verus! {

/// The job identifier that the text of a submission response gives: the text
/// is JSON and holds a string member `prompt_id`.
pub open spec fn job_id_of_text(text: Seq<char>) -> Option<Seq<char>> {
    match json_document(text) {
        Some(document) => json_string_member(document, "prompt_id"@),
        None => None,
    }
}

/// Reads the job identifier from the text of a submission response.
///
/// The call fails with [`ClientError::Protocol`] where the text is not JSON
/// or holds no string member `prompt_id`.
pub fn decode_submission(text: &str) -> (r: Result<String, ClientError>)
    ensures
        r matches Ok(job_id) ==> job_id_of_text(text@) == Some(job_id@),
        r matches Err(e) ==> e == ClientError::Protocol && job_id_of_text(text@) is None,
{
    let document = match parse_document(text) {
        Ok(document) => document,
        Err(_) => {
            return Err(ClientError::Protocol);
        },
    };
    match string_member(&document, "prompt_id") {
        Some(job_id) => Ok(job_id.to_owned()),
        None => Err(ClientError::Protocol),
    }
}

} // verus!
