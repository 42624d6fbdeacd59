//! Interpretation of the endpoint's JSON reply, against the real decoder.

use custom_emojikun::errors::{failure_message, success_message, ErrorKind};
use custom_emojikun::reply::reply_message;

#[test]
fn ok_true_is_success() {
    let m = reply_message("party", "{\"ok\": true}");
    assert_eq!(m, "emoji upload succeeded: :party:");
}

#[test]
fn ok_false_reports_the_error_field() {
    let m = reply_message("party", "{\"ok\": false, \"error\": \"invalid_name\"}");
    assert_eq!(m, "emoji upload failed (slack api error): invalid_name");
}

#[test]
fn ok_false_without_error_field_is_unknown() {
    let m = reply_message("party", "{\"ok\": false}");
    assert_eq!(m, "emoji upload failed (slack api error): unknown error");
}

#[test]
fn ok_false_with_non_string_error_is_unknown() {
    let m = reply_message("party", "{\"ok\": false, \"error\": 5}");
    assert_eq!(m, "emoji upload failed (slack api error): unknown error");
}

#[test]
fn non_json_reply_is_a_parse_failure() {
    let m = reply_message("party", "definitely not json");
    assert_eq!(m, "emoji upload failed (parse error): definitely not json");
}

#[test]
fn unexpected_shape_is_a_parse_failure() {
    let m = reply_message("party", "{\"ok\": \"yes\"}");
    assert_eq!(m, "emoji upload failed (parse error): {\"ok\": \"yes\"}");
    let m = reply_message("party", "[1, 2, 3]");
    assert_eq!(m, "emoji upload failed (parse error): [1, 2, 3]");
}

#[test]
fn interpretation_is_repeatable() {
    let reply = "{\"ok\": false, \"error\": \"ratelimited\"}";
    let first = reply_message("party", reply);
    let second = reply_message("party", reply);
    assert_eq!(first, second);
}

#[test]
fn message_builders() {
    assert_eq!(success_message("cat"), "emoji upload succeeded: :cat:");
    assert_eq!(
        failure_message(ErrorKind::Validation, "d"),
        "emoji upload failed (validation error): d"
    );
    assert_eq!(failure_message(ErrorKind::Fetch, "d"), "emoji upload failed (fetch error): d");
    assert_eq!(failure_message(ErrorKind::Io, "d"), "emoji upload failed (io error): d");
    assert_eq!(
        failure_message(ErrorKind::UploadTransport, "d"),
        "emoji upload failed (upload transport error): d"
    );
    assert_eq!(failure_message(ErrorKind::Parse, "d"), "emoji upload failed (parse error): d");
    assert_eq!(
        failure_message(ErrorKind::SlackApi, "d"),
        "emoji upload failed (slack api error): d"
    );
}
