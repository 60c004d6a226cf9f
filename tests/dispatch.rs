use std::cell::RefCell;

use vlive_backend::dispatch::{complete, dispatch, handle, Response, Step, STATUS_BAD_REQUEST, STATUS_OK};
use vlive_backend::json::{json_string, not_found_body};
use vlive_backend::route::{route, Operation};
use vlive_backend::text::str_eq;

fn call_log() -> RefCell<Vec<(Operation, Vec<u8>)>> {
    RefCell::new(Vec::new())
}

fn never_called(_op: Operation, _body: Vec<u8>) -> Result<Vec<u8>, Vec<u8>> {
    panic!("no domain operation may be called here")
}

fn answer(path: &str, body: Option<Vec<u8>>, log: &RefCell<Vec<(Operation, Vec<u8>)>>) -> Response {
    handle(path, body, |op, bytes| {
        log.borrow_mut().push((op, bytes.clone()));
        if op == Operation::ListChannel {
            Ok(b"{\"channels\":[]}".to_vec())
        } else {
            Err(b"{\"error\":\"denied\"}".to_vec())
        }
    })
}

#[test]
fn list_channel_scenario() {
    let log = call_log();
    let resp = answer("/channel/list", Some(b"{}".to_vec()), &log);
    assert_eq!(resp.status, STATUS_OK);
    assert_eq!(resp.body, b"{\"channels\":[]}".to_vec());
    assert_eq!(log.into_inner(), vec![(Operation::ListChannel, b"{}".to_vec())]);
}

#[test]
fn each_known_path_calls_its_operation_once() {
    let cases = [
        ("/user/reg", Operation::Register),
        ("/channel/join", Operation::JoinChannel),
        ("/channel/leave", Operation::LeaveChannel),
        ("/channel/list", Operation::ListChannel),
    ];
    for (path, op) in cases {
        let log = call_log();
        let body = b"{\"user\":\"ann\"}".to_vec();
        answer(path, Some(body.clone()), &log);
        assert_eq!(log.into_inner(), vec![(op, body)]);
    }
}

#[test]
fn dispatch_invokes_with_exact_bytes() {
    let body = vec![0u8, 255, 10, b'x'];
    match dispatch("/channel/join", Some(body.clone())) {
        Step::Invoke(op, bytes) => {
            assert_eq!(op, Operation::JoinChannel);
            assert_eq!(bytes, body);
        }
        _ => panic!("expected a call of the join operation"),
    }
}

#[test]
fn unknown_path_scenario() {
    let resp = handle("/unknown/x", Some(b"anything".to_vec()), never_called);
    assert_eq!(resp.status, STATUS_OK);
    assert_eq!(resp.body, b"{\"error\":\"not_found\",\"path\":\"/unknown/x\"}".to_vec());
}

#[test]
fn body_read_failure_scenario() {
    let resp = handle("/channel/list", None, never_called);
    assert_eq!(resp.status, STATUS_BAD_REQUEST);
    assert!(resp.body.is_empty());
    let resp = handle("/unknown/x", None, never_called);
    assert_eq!(resp.status, 400);
    assert_eq!(resp.body.len(), 0);
}

#[test]
fn routing_is_exact_and_case_sensitive() {
    assert_eq!(route("/channel/List"), None);
    assert_eq!(route("/channel/list/"), None);
    assert_eq!(route("channel/list"), None);
    assert_eq!(route(""), None);
    assert_eq!(route("/channel/list"), Some(Operation::ListChannel));
    let resp = handle("/channel/List", Some(b"{}".to_vec()), never_called);
    assert_eq!(resp.body, b"{\"error\":\"not_found\",\"path\":\"/channel/List\"}".to_vec());
    let resp = handle("/channel/list/", Some(b"{}".to_vec()), never_called);
    assert_eq!(resp.body, b"{\"error\":\"not_found\",\"path\":\"/channel/list/\"}".to_vec());
}

#[test]
fn same_request_twice_gives_same_bytes() {
    let log = call_log();
    let first = answer("/channel/list", Some(b"{}".to_vec()), &log);
    let second = answer("/channel/list", Some(b"{}".to_vec()), &log);
    assert_eq!(first.status, second.status);
    assert_eq!(first.body, second.body);
    let first = handle("/nowhere", Some(Vec::new()), never_called);
    let second = handle("/nowhere", Some(Vec::new()), never_called);
    assert_eq!(first.body, second.body);
}

#[test]
fn domain_error_keeps_default_status() {
    let log = call_log();
    let resp = answer("/user/reg", Some(b"{}".to_vec()), &log);
    assert_eq!(resp.status, 200);
    assert_eq!(resp.body, b"{\"error\":\"denied\"}".to_vec());
}

#[test]
fn complete_passes_documents_through() {
    let ok = complete(Ok(b"[1,2]".to_vec()));
    assert_eq!(ok.status, 200);
    assert_eq!(ok.body, b"[1,2]".to_vec());
    let err = complete(Err(b"\"bad\"".to_vec()));
    assert_eq!(err.status, 200);
    assert_eq!(err.body, b"\"bad\"".to_vec());
}

#[test]
fn json_string_escapes_text() {
    assert_eq!(json_string("a\"b\\c\n"), b"\"a\\\"b\\\\c\\n\"".to_vec());
    assert_eq!(json_string(""), b"\"\"".to_vec());
    assert_eq!(json_string("é"), "\"é\"".as_bytes().to_vec());
}

#[test]
fn not_found_body_escapes_path() {
    let body = not_found_body("/a\"b");
    assert_eq!(body, b"{\"error\":\"not_found\",\"path\":\"/a\\\"b\"}".to_vec());
    let parsed: serde_json::Value = serde_json::from_slice(&body).unwrap();
    assert_eq!(parsed["path"], serde_json::Value::String("/a\"b".to_string()));
    assert_eq!(parsed["error"], serde_json::Value::String("not_found".to_string()));
}

#[test]
fn not_found_body_is_valid_json_for_odd_paths() {
    for path in ["", "/", "/x\ty", "/\u{1}", "/ünï/código", "/a b?c=d"] {
        let body = not_found_body(path);
        let parsed: serde_json::Value = serde_json::from_slice(&body).unwrap();
        assert_eq!(parsed["path"], serde_json::Value::String(path.to_string()));
    }
}

#[test]
fn operation_paths() {
    assert_eq!(Operation::Register.path(), "/user/reg");
    assert_eq!(Operation::JoinChannel.path(), "/channel/join");
    assert_eq!(Operation::LeaveChannel.path(), "/channel/leave");
    assert_eq!(Operation::ListChannel.path(), "/channel/list");
    for op in [Operation::Register, Operation::JoinChannel, Operation::LeaveChannel, Operation::ListChannel] {
        assert_eq!(route(op.path()), Some(op));
    }
}

#[test]
fn str_eq_compares_characters() {
    assert!(str_eq("", ""));
    assert!(str_eq("/user/reg", "/user/reg"));
    assert!(!str_eq("/user/reg", "/user/Reg"));
    assert!(!str_eq("/user/reg", "/user/re"));
    assert!(!str_eq("ü", "u"));
}

#[test]
fn json_string_escapes_controls() {
    assert_eq!(json_string("\u{8}\u{c}\r\t"), b"\"\\b\\f\\r\\t\"".to_vec());
    assert_eq!(json_string("\u{1}\u{1f}"), b"\"\\u0001\\u001f\"".to_vec());
    assert_eq!(json_string("/\u{7f}"), b"\"/\x7f\"".to_vec());
}
