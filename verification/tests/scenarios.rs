//! End-to-end scenarios for one request, driven with hand-made events.

use custom_emojikun::config::Config;
use custom_emojikun::pipeline::{Action, Event, Pipeline};

fn test_config() -> Config {
    Config { workspace_name: String::from("myws"), api_token: String::from("token123") }
}

fn respond_body(action: Action) -> String {
    match action {
        Action::Respond { body } => body,
        other => panic!("expected a response, got {:?}", other),
    }
}

#[test]
fn scenario_successful_upload() {
    let (p, a) = Pipeline::start(test_config(), 7, Some("https://example.com/img.png my_emoji"));
    let url = match a {
        Action::Fetch { url } => url,
        other => panic!("expected a fetch, got {:?}", other),
    };
    assert_eq!(url, "https://example.com/img.png");

    let (p, a) = p.on_event(Event::FetchDone(Ok(vec![1u8, 2, 3])));
    let (path, bytes) = match a {
        Action::Stage { path, bytes } => (path, bytes),
        other => panic!("expected staging, got {:?}", other),
    };
    assert_eq!(path, "emoji_7.png");
    assert_eq!(bytes, vec![1u8, 2, 3]);

    let (p, a) = p.on_event(Event::StageDone(Ok(())));
    match a {
        Action::Upload { url, path, emoji_name, api_token } => {
            assert_eq!(url, "https://myws.slack.com/api/emoji.add");
            assert_eq!(path, "emoji_7.png");
            assert_eq!(emoji_name, "my_emoji");
            assert_eq!(api_token, "token123");
        },
        other => panic!("expected an upload, got {:?}", other),
    }

    let (p, a) = p.on_event(Event::UploadDone(Ok(String::from("{\"ok\": true}"))));
    match a {
        Action::DeleteStaged { path } => assert_eq!(path, "emoji_7.png"),
        other => panic!("expected cleanup, got {:?}", other),
    }
    assert!(p.staged_once);
    assert!(p.release_issued);

    let (_, a) = p.on_event(Event::CleanupDone(Ok(())));
    let body = respond_body(a);
    assert!(body.contains("my_emoji"));
    assert_eq!(body, "\"emoji upload succeeded: :my_emoji:\"");
}

#[test]
fn scenario_endpoint_rejects_name() {
    let (p, _) = Pipeline::start(test_config(), 8, Some("https://example.com/img.png my_emoji"));
    let (p, _) = p.on_event(Event::FetchDone(Ok(vec![0u8; 16])));
    let (p, a) = p.on_event(Event::StageDone(Ok(())));
    assert!(matches!(a, Action::Upload { .. }));
    let reply = String::from("{\"ok\": false, \"error\": \"invalid_name\"}");
    let (p, a) = p.on_event(Event::UploadDone(Ok(reply)));
    assert!(matches!(a, Action::DeleteStaged { .. }));
    let (_, a) = p.on_event(Event::CleanupDone(Ok(())));
    let body = respond_body(a);
    assert!(body.contains("invalid_name"));
    assert_eq!(body, "\"emoji upload failed (slack api error): invalid_name\"");
}

#[test]
fn scenario_missing_name_rejected_without_network() {
    let (p, a) = Pipeline::start(test_config(), 9, Some("https://example.com/img.png"));
    // rejected at once: the one action is the response itself, so no network
    // call is ever asked for
    let body = respond_body(a);
    assert!(body.contains("validation error"));
    assert!(!p.staged_once);
}

#[test]
fn scenario_unreachable_image() {
    let (p, a) = Pipeline::start(test_config(), 10, Some("https://example.com/img.png my_emoji"));
    assert!(matches!(a, Action::Fetch { .. }));
    let (p, a) = p.on_event(Event::FetchDone(Err(String::from("connection refused"))));
    // no upload was attempted and nothing was staged
    let body = respond_body(a);
    assert_eq!(body, "\"emoji upload failed (fetch error): connection refused\"");
    assert!(!p.staged_once);
}

#[test]
fn scenario_staging_failure() {
    let (p, _) = Pipeline::start(test_config(), 11, Some("https://example.com/img.png my_emoji"));
    let (p, _) = p.on_event(Event::FetchDone(Ok(vec![5u8])));
    let (p, a) = p.on_event(Event::StageDone(Err(String::from("disk full"))));
    let body = respond_body(a);
    assert_eq!(body, "\"emoji upload failed (io error): disk full\"");
    assert!(!p.staged_once);
}

#[test]
fn scenario_upload_transport_failure_still_cleans_up() {
    let (p, _) = Pipeline::start(test_config(), 12, Some("https://example.com/img.png my_emoji"));
    let (p, _) = p.on_event(Event::FetchDone(Ok(vec![5u8])));
    let (p, _) = p.on_event(Event::StageDone(Ok(())));
    let (p, a) = p.on_event(Event::UploadDone(Err(String::from("timed out"))));
    // the staged file is released even though the upload failed
    match a {
        Action::DeleteStaged { path } => assert_eq!(path, "emoji_12.png"),
        other => panic!("expected cleanup, got {:?}", other),
    }
    assert!(p.release_issued);
    // and a failed delete is reported but never changes the outcome
    let (_, a) = p.on_event(Event::CleanupDone(Err(String::from("permission denied"))));
    let body = respond_body(a);
    assert_eq!(body, "\"emoji upload failed (upload transport error): timed out\"");
}

#[test]
fn scenario_unparseable_reply() {
    let (p, _) = Pipeline::start(test_config(), 13, Some("https://example.com/img.png my_emoji"));
    let (p, _) = p.on_event(Event::FetchDone(Ok(vec![5u8])));
    let (p, _) = p.on_event(Event::StageDone(Ok(())));
    let (p, _) = p.on_event(Event::UploadDone(Ok(String::from("<html>oops</html>"))));
    let (_, a) = p.on_event(Event::CleanupDone(Ok(())));
    let body = respond_body(a);
    assert_eq!(body, "\"emoji upload failed (parse error): <html>oops</html>\"");
}

#[test]
fn scenario_response_body_is_json_encoded() {
    let (p, _) = Pipeline::start(test_config(), 14, Some("https://example.com/img.png my_emoji"));
    let (_, a) = p.on_event(Event::FetchDone(Err(String::from("say \"hi\""))));
    let body = respond_body(a);
    // the quote inside the detail is escaped by the JSON encoding
    assert_eq!(body, "\"emoji upload failed (fetch error): say \\\"hi\\\"\"");
}

#[test]
fn response_is_independent_of_the_credentials() {
    let run = |token: &str| {
        let cfg = Config { workspace_name: String::from("myws"), api_token: String::from(token) };
        let (p, _) = Pipeline::start(cfg, 21, Some("https://example.com/img.png my_emoji"));
        let (p, _) = p.on_event(Event::FetchDone(Ok(vec![1u8])));
        let (p, _) = p.on_event(Event::StageDone(Ok(())));
        let (p, _) = p.on_event(Event::UploadDone(Ok(String::from("{\"ok\": true}"))));
        let (_, a) = p.on_event(Event::CleanupDone(Ok(())));
        respond_body(a)
    };
    let first = run("token_a");
    let second = run("token_b");
    assert_eq!(first, second);
    assert!(!first.contains("token_a"));
}

#[test]
fn concurrent_requests_use_distinct_staging_paths() {
    let mut paths: Vec<String> = Vec::new();
    for id in 0..5u64 {
        let (p, _) = Pipeline::start(test_config(), id, Some("https://example.com/i.png name"));
        let (_, a) = p.on_event(Event::FetchDone(Ok(vec![1u8])));
        match a {
            Action::Stage { path, .. } => paths.push(path),
            other => panic!("expected staging, got {:?}", other),
        }
    }
    for i in 0..paths.len() {
        for j in 0..paths.len() {
            if i != j {
                assert_ne!(paths[i], paths[j]);
            }
        }
    }
}
