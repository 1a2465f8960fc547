use viper_client::error::ViperError;
use viper_client::response::RawResponse;
use viper_client::session::ReadOutcome;
use viper_client::session::Session;
use viper_client::session::SessionConfig;
use viper_client::session::WriteOutcome;

fn config() -> SessionConfig {
    SessionConfig {
        ip: "192.168.1.2".to_string(),
        port: "12345".to_string(),
        token: "abc123".to_string(),
    }
}

#[test]
fn fresh_session_is_usable_with_default_timeout() {
    let s = Session::new(config());
    assert_eq!(s.timeout_ms, 5000);
    assert!(s.check_usable().is_ok());
}

#[test]
fn successful_write_keeps_session_usable() {
    let mut s = Session::new(config());
    assert_eq!(s.record_write(&WriteOutcome::Sent), Ok(()));
    assert!(s.check_usable().is_ok());
}

#[test]
fn write_timeout_poisons_session() {
    let mut s = Session::new(config());
    assert_eq!(s.record_write(&WriteOutcome::TimedOut), Err(ViperError::Timeout));
    // A later execute starts at the usability gate and must itself fail.
    assert_eq!(s.check_usable(), Err(ViperError::ConnectFailed));
    assert_eq!(s.record_write(&WriteOutcome::Sent), Ok(())); // gate, not recording, rejects
    assert_eq!(s.check_usable(), Err(ViperError::ConnectFailed));
}

#[test]
fn read_timeout_poisons_session() {
    let mut s = Session::new(config());
    match s.record_read(ReadOutcome::TimedOut) {
        Err(e) => assert_eq!(e, ViperError::Timeout),
        Ok(_) => panic!("read timeout must surface an error"),
    }
    assert_eq!(s.check_usable(), Err(ViperError::ConnectFailed));
}

#[test]
fn transport_failure_surfaces_connect_failed() {
    let mut s = Session::new(config());
    assert_eq!(s.record_write(&WriteOutcome::Failed), Err(ViperError::ConnectFailed));
    assert_eq!(s.check_usable(), Err(ViperError::ConnectFailed));
}

#[test]
fn received_reply_is_handed_through() {
    let mut s = Session::new(config());
    let resp = RawResponse::new(vec![7u8; 256], 12).unwrap();
    let got = s.record_read(ReadOutcome::Received(resp)).unwrap();
    assert_eq!(got.filled, 12);
    assert_eq!(got.data[0], 7);
    assert!(s.check_usable().is_ok());
}

#[test]
fn shutdown_makes_session_unusable() {
    let mut s = Session::new(config());
    s.shutdown();
    assert_eq!(s.check_usable(), Err(ViperError::ConnectFailed));
}

#[test]
fn channels_get_fresh_selectors() {
    let mut s = Session::new(config());
    let a = s.channel("UAUT").unwrap();
    let b = s.channel("UCFG").unwrap();
    let c = s.ctpp_channel();
    assert_eq!(a.id0, 0);
    assert_eq!(b.id0, 1);
    assert_eq!(c.ch.id0, 2);
    assert_eq!(a.kw, b"UAUT".to_vec());
    assert_eq!(b.kw, b"UCFG".to_vec());
    assert_eq!(c.ch.kw, b"CTPP".to_vec());
}

#[test]
fn bad_channel_keyword_is_rejected() {
    let mut s = Session::new(config());
    let r = s.channel("TOOLONG");
    assert!(r.is_err());
    // The counter did not advance on the failed request.
    assert_eq!(s.channel("UAUT").unwrap().id0, 0);
}
