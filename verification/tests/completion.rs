use duckgpt::completion::{decode_completion, decode_refusal, question, Completion};
use duckgpt::error::ClientError;

#[test]
fn description_is_read_from_the_answer() {
    let text = r#"{"id":"c1","usage":{"prompt_tokens":812,"completion_tokens":40,"total_tokens":852},
        "choices":[{"message":{"role":"assistant","content":"A duck."}},{"message":{"content":"no"}}]}"#;
    assert_eq!(
        decode_completion(text),
        Ok(Completion { prompt_tokens: 812, completion_tokens: 40, content: "A duck.".to_string() })
    );
}

#[test]
fn answer_that_lacks_a_part_is_a_protocol_error() {
    let cases = [
        r#"{"choices":[{"message":{"content":"A duck."}}]}"#,
        r#"{"usage":{"completion_tokens":40},"choices":[{"message":{"content":"A duck."}}]}"#,
        r#"{"usage":{"prompt_tokens":1},"choices":[{"message":{"content":"A duck."}}]}"#,
        r#"{"usage":{"prompt_tokens":-1,"completion_tokens":40},"choices":[{"message":{"content":"x"}}]}"#,
        r#"{"usage":{"prompt_tokens":1.5,"completion_tokens":40},"choices":[{"message":{"content":"x"}}]}"#,
        r#"{"usage":{"prompt_tokens":1,"completion_tokens":40},"choices":[]}"#,
        r#"{"usage":{"prompt_tokens":1,"completion_tokens":40},"choices":{}}"#,
        r#"{"usage":{"prompt_tokens":1,"completion_tokens":40}}"#,
        r#"{"usage":{"prompt_tokens":1,"completion_tokens":40},"choices":[{"message":{"content":null}}]}"#,
        r#"{"usage":{"prompt_tokens":1,"completion_tokens":40},"choices":[{"text":"x"}]}"#,
        "not json",
    ];
    for text in cases {
        assert_eq!(decode_completion(text), Err(ClientError::Protocol), "{}", text);
    }
}

#[test]
fn refusal_gives_its_reason() {
    assert_eq!(
        decode_refusal(r#"{"error":{"message":"Rate limit reached","type":"requests"}}"#),
        "Rate limit reached"
    );
}

#[test]
fn refusal_without_a_reason_has_a_notice() {
    assert_eq!(decode_refusal(r#"{"error":{"code":42}}"#), "Unknown error occurred.");
    assert_eq!(decode_refusal(r#"{"error":"boom"}"#), "Unknown error occurred.");
    assert_eq!(decode_refusal("{}"), "Unknown error occurred.");
    assert_eq!(
        decode_refusal("<html>502</html>"),
        "Failed to parse error response from OpenAI API."
    );
}

#[test]
fn empty_message_asks_the_default_question() {
    assert_eq!(question(""), "What is in this image?");
    assert_eq!(question("Who painted this?"), "Who painted this?");
    assert_eq!(question(" "), " ");
}
