use viper_client::error::ViperError;
use viper_client::frame::build_auth_frame;
use viper_client::frame::build_generic_frame;
use viper_client::frame::check_keyword;

const PREAMBLE: [u8; 16] = [
    0x00, 0x06, 0x20, 0x00, 0xab, 0xcd, 0x00, 0x01, 0x10, 0x00, 0x00, 0x20, 0x00, 0x00, 0x00,
    0x00,
];

const AUTH_HEAD: [u8; 5] = [0x00, 0x06, 0x6a, 0x00, 0xe0];

#[test]
fn generic_frame_starts_with_preamble() {
    let f = build_generic_frame(b"UAUT", 0x01, 0x00, 0x02, b"xyz").unwrap();
    assert_eq!(&f[..16], &PREAMBLE[..]);
}

#[test]
fn generic_frame_exact_layout() {
    let f = build_generic_frame(b"UCFG", 0x07, 0x00, 0x01, b"all").unwrap();
    let mut expected = PREAMBLE.to_vec();
    expected.extend_from_slice(b"UCFG");
    expected.extend_from_slice(&[0x07, 0x00, 0x01]);
    expected.extend_from_slice(b"all");
    assert_eq!(f, expected);
}

#[test]
fn generic_frame_empty_payload() {
    let f = build_generic_frame(b"CTPP", 0x02, 0x00, 0x03, b"").unwrap();
    assert_eq!(f.len(), 16 + 4 + 3);
}

#[test]
fn short_keyword_is_rejected() {
    let r = build_generic_frame(b"UA", 0x00, 0x00, 0x01, b"");
    assert_eq!(r, Err(ViperError::EncodingError));
}

#[test]
fn long_keyword_is_rejected_not_truncated() {
    let r = build_generic_frame(b"UAUTX", 0x00, 0x00, 0x01, b"");
    assert_eq!(r, Err(ViperError::EncodingError));
}

#[test]
fn non_ascii_keyword_is_rejected() {
    let r = build_generic_frame(&[0x80, 0x81, 0x82, 0x83], 0x00, 0x00, 0x01, b"");
    assert_eq!(r, Err(ViperError::EncodingError));
}

#[test]
fn keyword_check() {
    assert!(check_keyword(b"UAUT"));
    assert!(check_keyword(b"CTPP"));
    assert!(!check_keyword(b"UAU"));
    assert!(!check_keyword(b""));
    assert!(!check_keyword(&[0x41, 0x42, 0x43, 0xff]));
}

#[test]
fn auth_frame_starts_with_fixed_prefix() {
    let f = build_auth_frame(0x09, 0x08, 0x02, b"{\"k\":\"v\"}");
    assert_eq!(&f[..5], &AUTH_HEAD[..]);
    assert_eq!(&f[5..8], &[0x09, 0x08, 0x02]);
    assert_eq!(&f[8..], b"{\"k\":\"v\"}");
}

#[test]
fn auth_frame_differs_from_generic_shape() {
    let auth = build_auth_frame(0x01, 0x00, 0x02, b"{}");
    let generic = build_generic_frame(b"UAUT", 0x01, 0x00, 0x02, b"{}").unwrap();
    assert_ne!(&auth[..5], &generic[..5]);
}
