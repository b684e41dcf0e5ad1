use duckgpt::event::{decode_event, StreamEvent};
use duckgpt::submit::decode_submission;
use duckgpt::error::ClientError;

fn event(kind: &str, node: Option<&str>, prompt_id: &str) -> StreamEvent {
    StreamEvent {
        kind: kind.to_string(),
        node: node.map(|n| n.to_string()),
        prompt_id: prompt_id.to_string(),
    }
}

#[test]
fn completion_event_is_decoded() {
    let text = r#"{"type":"executing","data":{"node":null,"prompt_id":"X"}}"#;
    assert_eq!(decode_event(text), Some(event("executing", None, "X")));
}

#[test]
fn event_with_a_node_is_decoded() {
    let text = r#"{"type":"executing","data":{"node":"3","prompt_id":"X","extra":[1,2]}}"#;
    assert_eq!(decode_event(text), Some(event("executing", Some("3"), "X")));
}

#[test]
fn absent_node_reads_as_null() {
    let text = r#"{"type":"progress","data":{"prompt_id":"abc"}}"#;
    assert_eq!(decode_event(text), Some(event("progress", None, "abc")));
}

#[test]
fn frames_without_the_shape_of_an_event_hold_none() {
    assert_eq!(decode_event(r#"{"type":"status"}"#), None);
    assert_eq!(decode_event(r#"{"type":"status","data":{"sid":"s"}}"#), None);
    assert_eq!(decode_event(r#"{"data":{"node":null,"prompt_id":"X"}}"#), None);
    assert_eq!(decode_event(r#"{"type":7,"data":{"node":null,"prompt_id":"X"}}"#), None);
    assert_eq!(decode_event(r#"{"type":"executing","data":{"node":5,"prompt_id":"X"}}"#), None);
    assert_eq!(decode_event(r#"{"type":"executing","data":{"node":null,"prompt_id":9}}"#), None);
    assert_eq!(decode_event(r#"{"type":"executing","data":"text"}"#), None);
    assert_eq!(decode_event(r#"["executing"]"#), None);
}

#[test]
fn text_that_is_not_json_holds_no_event() {
    assert_eq!(decode_event(""), None);
    assert_eq!(decode_event("not json"), None);
    assert_eq!(decode_event(r#"{"type":"executing","data":{"node":null,"prompt_id":"X"}"#), None);
}

#[test]
fn completes_asks_for_type_node_and_job() {
    assert!(event("executing", None, "X").completes("X"));
    assert!(!event("executing", None, "Y").completes("X"));
    assert!(!event("executing", Some("3"), "X").completes("X"));
    assert!(!event("executed", None, "X").completes("X"));
    assert!(!event("status", None, "X").completes("X"));
    assert!(!event("executing", None, "X").completes(""));
    assert!(!event("executing", None, "x").completes("X"));
}

#[test]
fn submission_answer_gives_the_job_id() {
    assert_eq!(
        decode_submission(r#"{"prompt_id":"8f2c","number":4,"node_errors":{}}"#),
        Ok("8f2c".to_string())
    );
}

#[test]
fn submission_answer_without_job_id_is_a_protocol_error() {
    assert_eq!(decode_submission(r#"{"number":4}"#), Err(ClientError::Protocol));
    assert_eq!(decode_submission(r#"{"prompt_id":4}"#), Err(ClientError::Protocol));
    assert_eq!(decode_submission(r#"{"prompt_id":null}"#), Err(ClientError::Protocol));
    assert_eq!(decode_submission("oops"), Err(ClientError::Protocol));
    assert_eq!(decode_submission(r#""8f2c""#), Err(ClientError::Protocol));
}
