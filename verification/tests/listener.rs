use duckgpt::error::ClientError;
use duckgpt::event::StreamEvent;
use duckgpt::listener::{observe, Listener, ListenerState, Observation, StreamSignal};

fn text(s: &str) -> StreamSignal {
    StreamSignal::Text(s.to_string())
}

fn listening(job_id: &str) -> Listener {
    let mut listener = Listener::new(job_id.to_string());
    listener.advance(&Observation::Opened);
    listener
}

#[test]
fn new_listener_is_connecting() {
    let listener = Listener::new("X".to_string());
    assert_eq!(listener.state(), ListenerState::Connecting);
    assert_eq!(listener.job_id(), "X");
    assert!(!listener.is_done());
    assert_eq!(listener.outcome(), None);
}

#[test]
fn stream_of_four_events_matches_only_the_fourth() {
    let signals = vec![
        text(r#"{"type":"status"}"#),
        text(r#"{"type":"executing","data":{"node":"3","prompt_id":"X"}}"#),
        text(r#"{"type":"executing","data":{"node":null,"prompt_id":"Y"}}"#),
        text(r#"{"type":"executing","data":{"node":null,"prompt_id":"X"}}"#),
    ];
    let mut listener = listening("X");
    for signal in &signals[..3] {
        listener.receive(signal);
        assert_eq!(listener.state(), ListenerState::Listening);
    }
    listener.receive(&signals[3]);
    assert_eq!(listener.state(), ListenerState::Completed);
    assert_eq!(listener.outcome(), Some(Ok(())));

    let mut again = listening("X");
    assert_eq!(again.listen(&signals), 4);
    assert_eq!(again.state(), ListenerState::Completed);
}

#[test]
fn listen_stops_at_the_first_match() {
    let done = r#"{"type":"executing","data":{"node":null,"prompt_id":"X"}}"#;
    let signals = vec![
        StreamSignal::Opened,
        StreamSignal::Other,
        text("garbage"),
        text(done),
        text(done),
        StreamSignal::Closed,
    ];
    let mut listener = Listener::new("X".to_string());
    assert_eq!(listener.listen(&signals), 4);
    assert_eq!(listener.state(), ListenerState::Completed);
}

#[test]
fn many_unrelated_events_leave_the_listener_listening() {
    let mut signals = Vec::new();
    for i in 0..50 {
        signals.push(text(&format!(
            r#"{{"type":"executing","data":{{"node":null,"prompt_id":"job{}"}}}}"#,
            i
        )));
        signals.push(text(r#"{"type":"executing","data":{"node":"7","prompt_id":"X"}}"#));
        signals.push(text(r#"{"type":"progress","data":{"node":null,"prompt_id":"X"}}"#));
        signals.push(StreamSignal::Other);
    }
    let mut listener = listening("X");
    assert_eq!(listener.listen(&signals), signals.len());
    assert_eq!(listener.state(), ListenerState::Listening);
    assert!(!listener.is_done());
}

#[test]
fn stream_that_ends_before_a_match_fails_the_wait() {
    let mut listener = listening("X");
    let signals = vec![StreamSignal::Other, StreamSignal::Closed, StreamSignal::Other];
    assert_eq!(listener.listen(&signals), 2);
    assert_eq!(listener.state(), ListenerState::Failed(ClientError::StreamClosed));
    assert_eq!(listener.outcome(), Some(Err(ClientError::StreamClosed)));
    assert!(listener.is_done());
}

#[test]
fn wait_that_takes_too_long_times_out() {
    let mut listener = listening("X");
    listener.receive(&StreamSignal::TimedOut);
    assert_eq!(listener.state(), ListenerState::Failed(ClientError::Timeout));
    let mut connecting = Listener::new("X".to_string());
    connecting.receive(&StreamSignal::TimedOut);
    assert_eq!(connecting.state(), ListenerState::Failed(ClientError::Timeout));
}

#[test]
fn connection_that_cannot_be_opened_is_a_transport_error() {
    let mut listener = Listener::new("X".to_string());
    listener.receive(&StreamSignal::Closed);
    assert_eq!(listener.state(), ListenerState::Failed(ClientError::Transport));
}

#[test]
fn frames_before_the_connection_is_open_are_ignored() {
    let mut listener = Listener::new("X".to_string());
    listener.receive(&text(r#"{"type":"executing","data":{"node":null,"prompt_id":"X"}}"#));
    assert_eq!(listener.state(), ListenerState::Connecting);
    listener.receive(&StreamSignal::Other);
    assert_eq!(listener.state(), ListenerState::Connecting);
}

#[test]
fn ended_wait_does_not_change() {
    let mut listener = listening("X");
    listener.advance(&Observation::Event(StreamEvent {
        kind: "executing".to_string(),
        node: None,
        prompt_id: "X".to_string(),
    }));
    assert_eq!(listener.state(), ListenerState::Completed);
    for seen in [Observation::Closed, Observation::TimedOut, Observation::Noise, Observation::Opened]
    {
        listener.advance(&seen);
        assert_eq!(listener.state(), ListenerState::Completed);
    }
    let mut failed = listening("X");
    failed.advance(&Observation::Closed);
    failed.advance(&Observation::Event(StreamEvent {
        kind: "executing".to_string(),
        node: None,
        prompt_id: "X".to_string(),
    }));
    assert_eq!(failed.state(), ListenerState::Failed(ClientError::StreamClosed));
}

#[test]
fn observe_reads_text_frames() {
    assert_eq!(observe(&StreamSignal::Opened), Observation::Opened);
    assert_eq!(observe(&StreamSignal::Other), Observation::Noise);
    assert_eq!(observe(&StreamSignal::Closed), Observation::Closed);
    assert_eq!(observe(&StreamSignal::TimedOut), Observation::TimedOut);
    assert_eq!(observe(&text("{")), Observation::Noise);
    assert_eq!(
        observe(&text(r#"{"type":"executed","data":{"node":"9","prompt_id":"p"}}"#)),
        Observation::Event(StreamEvent {
            kind: "executed".to_string(),
            node: Some("9".to_string()),
            prompt_id: "p".to_string(),
        })
    );
}
