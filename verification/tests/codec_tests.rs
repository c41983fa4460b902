use extension_adapter::codec::{decode_request, encode_request};
use extension_adapter::model::{AdapterError, Request, SubmissionEntry};

fn le8(n: u64) -> Vec<u8> {
    n.to_le_bytes().to_vec()
}

fn str_bytes(s: &str) -> Vec<u8> {
    let mut out = le8(s.chars().count() as u64);
    for c in s.chars() {
        out.extend_from_slice(&(c as u32).to_le_bytes());
    }
    out
}

#[test]
fn encode_fetch_results_exact_bytes() {
    assert_eq!(encode_request(&Request::FetchResults), vec![0u8]);
}

#[test]
fn encode_run_action_exact_bytes() {
    let request = Request::RunAction {
        action: "a".to_string(),
        args: Vec::new(),
        submission: Vec::new(),
    };
    let mut expected = vec![1u8];
    expected.extend_from_slice(&str_bytes("a"));
    expected.extend_from_slice(&le8(0));
    expected.extend_from_slice(&le8(0));
    assert_eq!(encode_request(&request), expected);
}

#[test]
fn round_trip_fetch_results() {
    let request = Request::FetchResults;
    let bytes = encode_request(&request);
    assert_eq!(decode_request(&bytes), Ok(request));
}

#[test]
fn round_trip_run_action() {
    let request = Request::RunAction {
        action: "notify-starter".to_string(),
        args: vec!["first".to_string(), String::new()],
        submission: vec![
            SubmissionEntry { key: "trainer-name".to_string(), value: "Ash ⚡".to_string() },
            SubmissionEntry { key: "notes".to_string(), value: "multi\nline".to_string() },
        ],
    };
    let bytes = encode_request(&request);
    assert_eq!(decode_request(&bytes), Ok(request));
}

#[test]
fn decode_rejects_empty_input() {
    let bytes: Vec<u8> = Vec::new();
    assert_eq!(decode_request(&bytes), Err(AdapterError::MalformedRequest));
}

#[test]
fn decode_rejects_unknown_tag() {
    let bytes = vec![7u8];
    assert_eq!(decode_request(&bytes), Err(AdapterError::MalformedRequest));
}

#[test]
fn decode_rejects_trailing_bytes() {
    let bytes = vec![0u8, 0u8];
    assert_eq!(decode_request(&bytes), Err(AdapterError::MalformedRequest));
}

#[test]
fn decode_rejects_truncated_payload() {
    let request = Request::RunAction {
        action: "abc".to_string(),
        args: Vec::new(),
        submission: Vec::new(),
    };
    let mut bytes = encode_request(&request);
    bytes.pop();
    assert_eq!(decode_request(&bytes), Err(AdapterError::MalformedRequest));
}

#[test]
fn decode_rejects_surrogate_code_point() {
    let mut bytes = vec![1u8];
    bytes.extend_from_slice(&le8(1));
    bytes.extend_from_slice(&0xD800u32.to_le_bytes());
    bytes.extend_from_slice(&le8(0));
    bytes.extend_from_slice(&le8(0));
    assert_eq!(decode_request(&bytes), Err(AdapterError::MalformedRequest));
}
