use viper_client::handshake::HandshakeParams;
use viper_client::handshake::HandshakeState;
use viper_client::handshake::next_transition;
use viper_client::session::Session;
use viper_client::session::SessionConfig;

fn params() -> HandshakeParams {
    let mut s = Session::new(SessionConfig {
        ip: "192.168.1.2".to_string(),
        port: "12345".to_string(),
        token: "abc123".to_string(),
    });
    let auth = s.channel("UAUT").unwrap();
    let ctpp = s.ctpp_channel();
    HandshakeParams {
        ctpp,
        auth,
        sub: "SB0000062".to_string(),
        act: "SB1000001".to_string(),
        addr: "SB000006".to_string(),
    }
}

#[test]
fn states_are_passed_in_fixed_order() {
    let p = params();
    let mut state = HandshakeState::Idle;
    let mut visited = vec![state];
    while let Some(t) = next_transition(&state, &p) {
        state = t.next;
        visited.push(state);
    }
    assert_eq!(
        visited,
        vec![
            HandshakeState::Idle,
            HandshakeState::ChannelOpen,
            HandshakeState::HandshakeSent,
            HandshakeState::ActuatorsLinked0,
            HandshakeState::ActuatorsLinked1,
            HandshakeState::LinkRequested,
            HandshakeState::Released,
            HandshakeState::ChannelClosed,
        ]
    );
}

#[test]
fn writes_follow_the_fixed_order_with_exact_reply_counts() {
    let p = params();
    let mut state = HandshakeState::Idle;
    let mut frames: Vec<Vec<u8>> = Vec::new();
    let mut replies: Vec<u8> = Vec::new();
    while let Some(t) = next_transition(&state, &p) {
        for step in t.steps {
            frames.push(step.frame);
            replies.push(step.expected_replies);
        }
        state = t.next;
    }
    let expected_frames = vec![
        p.ctpp.open("SB0000062"),
        p.ctpp.connect_hs("SB0000062", "SB000006"),
        p.ctpp.connect_actuators(0, "SB0000062", "SB000006"),
        p.ctpp.connect_actuators(1, "SB0000062", "SB000006"),
        p.ctpp.link_actuators("SB1000001", "SB0000062"),
        p.ctpp.connect_actuators(0, "SB1000001", "SB0000062"),
        p.ctpp.connect_actuators(1, "SB1000001", "SB0000062"),
        p.auth.close(),
        p.ctpp.close(),
    ];
    assert_eq!(frames, expected_frames);
    // Two reads after the connect handshake and after the link request, none
    // after the actuator connects, one after the open and after each close.
    assert_eq!(replies, vec![1, 2, 0, 0, 2, 0, 0, 1, 1]);
}

#[test]
fn shutdown_happens_only_on_the_closing_transition() {
    let p = params();
    let mut state = HandshakeState::Idle;
    let mut shutdowns = Vec::new();
    while let Some(t) = next_transition(&state, &p) {
        shutdowns.push(t.shutdown_after);
        state = t.next;
    }
    assert_eq!(shutdowns, vec![false, false, false, false, false, false, true]);
}

#[test]
fn closed_state_is_terminal() {
    let p = params();
    assert!(next_transition(&HandshakeState::ChannelClosed, &p).is_none());
}

#[test]
fn second_actuator_pass_targets_the_linked_identifier() {
    let p = params();
    let first = p.ctpp.connect_actuators(0, "SB0000062", "SB000006");
    let second = p.ctpp.connect_actuators(0, "SB1000001", "SB0000062");
    assert_ne!(first, second);
}
