use slack::error::{Error, SchemaError};

fn check_wrapping(e: &Error, tag: &str) {
    let shown = e.display_string();
    assert!(!shown.is_empty());
    assert!(shown.starts_with(tag));
    assert!(e.cause_debug().is_some());
    assert!(!e.description().is_empty());
}

fn check_string_carrying(e: &Error, tag: &str) {
    let shown = e.display_string();
    assert!(!shown.is_empty());
    assert!(shown.starts_with(tag));
    assert!(e.cause_debug().is_none());
}

#[test]
fn http_error_with_url_parse_cause_is_retagged() {
    let source = reqwest::Client::new().get("http://[bad").build().unwrap_err();
    let e = Error::from_http(source);
    assert!(matches!(e, Error::Url(_)));
    check_wrapping(&e, "Url Error: ");
}

#[test]
fn http_error_without_url_parse_cause_stays_http() {
    let source = reqwest::Client::new()
        .get("http://example.invalid/")
        .header("x-test", "bad\nvalue")
        .build()
        .unwrap_err();
    let e = Error::from_http(source);
    assert!(matches!(e, Error::Http(_)));
    check_wrapping(&e, "Http (reqwest) Error: ");
}

#[test]
fn websocket_error_converts() {
    let source = websocket::result::WebSocketError::ProtocolError("handshake out of order");
    let e = Error::from(source);
    assert!(matches!(e, Error::WebSocket(_)));
    check_wrapping(&e, "Websocket Error: ");
}

#[test]
fn utf8_error_converts() {
    let source = String::from_utf8(vec![0xC3, 0x28]).unwrap_err();
    let e = Error::from(source);
    assert!(matches!(e, Error::Utf8(_)));
    check_wrapping(&e, "Utf8 decode Error: ");
}

#[test]
fn json_parse_error_converts() {
    let source = rustc_serialize::json::Json::from_str("{ not json").unwrap_err();
    let e = Error::from(source);
    assert!(matches!(e, Error::JsonParse(_)));
    check_wrapping(&e, "Json Parse Error: ");
}

#[test]
fn json_encode_error_converts() {
    let source = rustc_serialize::json::EncoderError::BadHashmapKey;
    let e = Error::from(source);
    assert!(matches!(e, Error::JsonEncode(_)));
    check_wrapping(&e, "Json Encode Error: ");
}

#[test]
fn json_decoder_error_converts() {
    let source = rustc_serialize::json::DecoderError::MissingFieldError("ok".to_string());
    let e = Error::from_decoder(source);
    match &e {
        Error::JsonDecode(SchemaError::MissingField(k)) => assert_eq!(k, "ok"),
        _ => panic!("wrong error variant"),
    }
    check_wrapping(&e, "Json Decode Error: ");
    assert!(e.display_string().contains("missing field: ok"));
}

#[test]
fn io_error_converts_to_internal() {
    let source = std::io::Error::new(std::io::ErrorKind::BrokenPipe, "stream closed");
    let e = Error::from_io(source);
    assert!(matches!(e, Error::Internal(_)));
    check_string_carrying(&e, "Internal Error: ");
}

#[test]
fn api_error_carries_its_string() {
    let e = Error::Api("channel_not_found".to_string());
    check_string_carrying(&e, "Slack Api Error: ");
    assert!(e.display_string().contains("channel_not_found"));
    assert_eq!(e.description(), "channel_not_found");
}

#[test]
fn schema_error_messages_are_exact() {
    let e = Error::JsonDecode(SchemaError::Expected {
        expected: "string".to_string(),
        found: "array".to_string(),
    });
    assert_eq!(e.display_string(), "Json Decode Error: expected string, found array");
    let e = Error::JsonDecode(SchemaError::UnknownVariant("weird".to_string()));
    assert_eq!(e.display_string(), "Json Decode Error: unknown variant: weird");
    let e = Error::JsonDecode(SchemaError::EndOfInput);
    assert_eq!(e.display_string(), "Json Decode Error: unexpected end of input");
}
