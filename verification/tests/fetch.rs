use duckgpt::error::ClientError;
use duckgpt::fetch::{FetchInput, FetchReply, FetchRequest, Fetcher};
use duckgpt::history::{HistoryRecord, ImageDescriptor, NodeOutput};

fn record(names: &[&str]) -> HistoryRecord {
    HistoryRecord {
        outputs: vec![NodeOutput {
            node: "9".to_string(),
            images: names.iter().map(|n| ImageDescriptor { filename: n.to_string() }).collect(),
        }],
    }
}

#[test]
fn fetcher_asks_for_the_history_first() {
    let fetcher = Fetcher::new("J".to_string());
    assert_eq!(fetcher.request(), Some(FetchRequest::History("J".to_string())));
    assert!(!fetcher.is_done());
    assert!(fetcher.into_outcome().is_none());
}

#[test]
fn fetcher_asks_for_each_asset_in_turn() {
    let fetcher = Fetcher::new("J".to_string());
    let fetcher = fetcher.advance(FetchInput::Record(record(&["a.png", "b.png"])));
    assert_eq!(fetcher.request(), Some(FetchRequest::Asset("a.png".to_string())));
    let fetcher = fetcher.advance(FetchInput::Asset(vec![1]));
    assert_eq!(fetcher.request(), Some(FetchRequest::Asset("b.png".to_string())));
    assert!(!fetcher.is_done());
    let fetcher = fetcher.advance(FetchInput::Asset(vec![2, 3]));
    assert_eq!(fetcher.request(), None);
    assert!(fetcher.is_done());
    let results = fetcher.into_outcome().unwrap().unwrap();
    assert_eq!(results.len(), 2);
    assert_eq!(results.get("a.png"), Some(&vec![1]));
    assert_eq!(results.get("b.png"), Some(&vec![2, 3]));
}

#[test]
fn zero_byte_downloads_are_never_in_the_results() {
    let fetcher = Fetcher::new("J".to_string());
    let fetcher = fetcher.advance(FetchInput::Record(record(&["a.png", "b.png", "c.png"])));
    let fetcher = fetcher.advance(FetchInput::Asset(vec![]));
    let fetcher = fetcher.advance(FetchInput::Asset(vec![7]));
    let fetcher = fetcher.advance(FetchInput::Asset(vec![]));
    let results = fetcher.into_outcome().unwrap().unwrap();
    assert_eq!(results.len(), 1);
    assert!(!results.contains_key("a.png"));
    assert!(!results.contains_key("c.png"));
    assert_eq!(results.get("b.png"), Some(&vec![7]));
    for asset in results.into_entries() {
        assert!(!asset.bytes.is_empty());
    }
}

#[test]
fn later_download_under_a_name_wins() {
    let fetcher = Fetcher::new("J".to_string());
    let fetcher = fetcher.advance(FetchInput::Record(record(&["a.png", "a.png", "a.png"])));
    let fetcher = fetcher.advance(FetchInput::Asset(vec![1]));
    let fetcher = fetcher.advance(FetchInput::Asset(vec![2]));
    let fetcher = fetcher.advance(FetchInput::Asset(vec![]));
    let results = fetcher.into_outcome().unwrap().unwrap();
    assert_eq!(results.len(), 1);
    assert_eq!(results.get("a.png"), Some(&vec![2]));
}

#[test]
fn record_without_images_ends_the_fetch_at_once() {
    let fetcher = Fetcher::new("J".to_string());
    let fetcher = fetcher.advance(FetchInput::Record(HistoryRecord { outputs: vec![] }));
    assert!(fetcher.is_done());
    assert!(fetcher.into_outcome().unwrap().unwrap().is_empty());
}

#[test]
fn failed_download_ends_the_fetch() {
    let fetcher = Fetcher::new("J".to_string());
    let fetcher = fetcher.receive(FetchReply::Text(
        r#"{"J":{"outputs":{"9":{"images":[{"filename":"a.png"},{"filename":"b.png"}]}}}}"#
            .to_string(),
    ));
    let fetcher = fetcher.receive(FetchReply::Bytes(vec![1]));
    let fetcher = fetcher.receive(FetchReply::Failed);
    assert!(fetcher.is_done());
    assert_eq!(fetcher.request(), None);
    let fetcher = fetcher.receive(FetchReply::Bytes(vec![2]));
    assert_eq!(fetcher.into_outcome().unwrap().unwrap_err(), ClientError::Transport);
}

#[test]
fn failed_history_request_ends_the_fetch() {
    let fetcher = Fetcher::new("J".to_string()).receive(FetchReply::Failed);
    assert_eq!(fetcher.into_outcome().unwrap().unwrap_err(), ClientError::Transport);
}

#[test]
fn history_of_another_job_is_a_protocol_error() {
    let fetcher = Fetcher::new("J".to_string())
        .receive(FetchReply::Text(r#"{"K":{"outputs":{}}}"#.to_string()));
    assert_eq!(fetcher.into_outcome().unwrap().unwrap_err(), ClientError::Protocol);
}

#[test]
fn reply_that_answers_nothing_changes_nothing() {
    let fetcher = Fetcher::new("J".to_string());
    let fetcher = fetcher.receive(FetchReply::Bytes(vec![1, 2]));
    assert_eq!(fetcher.request(), Some(FetchRequest::History("J".to_string())));
    let fetcher = fetcher.advance(FetchInput::Record(record(&["a.png"])));
    let fetcher = fetcher.receive(FetchReply::Text("{}".to_string()));
    assert_eq!(fetcher.request(), Some(FetchRequest::Asset("a.png".to_string())));
    let fetcher = fetcher.advance(FetchInput::Record(record(&["z.png"])));
    assert_eq!(fetcher.request(), Some(FetchRequest::Asset("a.png".to_string())));
}

#[test]
fn fetch_through_replies_collects_the_assets() {
    let fetcher = Fetcher::new("J".to_string());
    let fetcher = fetcher.receive(FetchReply::Text(
        r#"{"J":{"outputs":{"9":{"images":[{"filename":"a.png"}]},"4":{"images":[{"filename":"b.png"}]}}}}"#
            .to_string(),
    ));
    let first = match fetcher.request() {
        Some(FetchRequest::Asset(name)) => name,
        other => panic!("unexpected request {:?}", other),
    };
    let fetcher = fetcher.receive(FetchReply::Bytes(first.clone().into_bytes()));
    let second = match fetcher.request() {
        Some(FetchRequest::Asset(name)) => name,
        other => panic!("unexpected request {:?}", other),
    };
    assert_ne!(first, second);
    let fetcher = fetcher.receive(FetchReply::Bytes(second.clone().into_bytes()));
    let results = fetcher.into_outcome().unwrap().unwrap();
    assert_eq!(results.get("a.png"), Some(&b"a.png".to_vec()));
    assert_eq!(results.get("b.png"), Some(&b"b.png".to_vec()));
}
