use r2pipe::{decode_json_response, Error};

#[test]
fn empty_text_is_empty_response() {
    let r = decode_json_response("");
    assert!(matches!(r, Err(Error::EmptyResponse)));
}

#[test]
fn json_object_matches_direct_parse() {
    let text = "{\"arch\":\"x86\",\"bits\":64}";
    let v = decode_json_response(text).unwrap();
    let direct: serde_json::Value = serde_json::from_str(text).unwrap();
    assert_eq!(v, direct);
}

#[test]
fn json_array_matches_direct_parse() {
    let text = "[1, 2, 3]";
    let v = decode_json_response(text).unwrap();
    let direct: serde_json::Value = serde_json::from_str(text).unwrap();
    assert_eq!(v, direct);
}

#[test]
fn json_null_text_is_null_value_not_error() {
    let v = decode_json_response("null").unwrap();
    assert_eq!(v, serde_json::Value::Null);
}

#[test]
fn plaintext_banner_is_malformed_json() {
    let r = decode_json_response("Type 'q' to quit");
    match r {
        Err(Error::MalformedJson(msg)) => assert!(!msg.is_empty()),
        other => panic!("expected a malformed-JSON failure, got {:?}", other),
    }
}

#[test]
fn truncated_json_is_malformed_json() {
    let r = decode_json_response("{\"arch\":");
    assert!(matches!(r, Err(Error::MalformedJson(_))));
}
