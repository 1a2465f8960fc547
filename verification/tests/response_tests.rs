use viper_client::error::ViperError;
use viper_client::response::RawResponse;
use viper_client::response::extract_json;

fn response_with_window(window: &[u8]) -> RawResponse {
    let mut data = vec![0u8; 256];
    for (i, b) in window.iter().enumerate() {
        data[8 + i] = *b;
    }
    RawResponse::new(data, 8 + window.len()).unwrap()
}

#[test]
fn json_window_is_extracted() {
    let resp = response_with_window(b"{\"user-token\":\"ok\",\"n\":3}");
    let v = extract_json(&resp).unwrap();
    let expected: serde_json::Value =
        serde_json::from_str("{\"user-token\":\"ok\",\"n\":3}").unwrap();
    assert_eq!(v, expected);
    assert_eq!(v["n"], serde_json::Value::from(3));
}

#[test]
fn header_bytes_are_not_parsed() {
    let mut data = vec![0u8; 256];
    // Garbage before the window must not reach the parser.
    for (i, b) in [0xde, 0xad, 0xbe, 0xef, 0x00, 0x01, 0x02, 0x03].iter().enumerate() {
        data[i] = *b;
    }
    let window = b"true";
    for (i, b) in window.iter().enumerate() {
        data[8 + i] = *b;
    }
    let resp = RawResponse::new(data, 8 + window.len()).unwrap();
    assert_eq!(extract_json(&resp).unwrap(), serde_json::Value::Bool(true));
}

#[test]
fn non_utf8_window_is_malformed() {
    let resp = response_with_window(&[0xff, 0xfe, 0x41]);
    assert_eq!(extract_json(&resp), Err(ViperError::MalformedResponse));
}

#[test]
fn non_json_window_is_malformed() {
    let resp = response_with_window(b"hello there");
    assert_eq!(extract_json(&resp), Err(ViperError::MalformedResponse));
}

#[test]
fn truncated_reply_is_malformed() {
    let data = vec![0u8; 256];
    let resp = RawResponse::new(data, 5).unwrap();
    assert_eq!(extract_json(&resp), Err(ViperError::MalformedResponse));
}

#[test]
fn empty_window_is_malformed() {
    let resp = response_with_window(b"");
    assert_eq!(extract_json(&resp), Err(ViperError::MalformedResponse));
}

#[test]
fn wrong_capacity_buffer_is_rejected() {
    assert!(RawResponse::new(vec![0u8; 16], 5).is_err());
    assert!(RawResponse::new(vec![0u8; 256], 300).is_err());
    assert!(RawResponse::new(vec![0u8; 256], 256).is_ok());
}
