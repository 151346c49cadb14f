use concert::frame::Frame;
use concert::frame::Op;
use concert::msg::Msg;
use concert::session::Session;
use concert::session::SessionAction;
use concert::session::SessionEvent;
use concert::session::SessionState;

fn open_session(id: u64) -> Session {
    let mut s = Session::new();
    let actions = s.step(SessionEvent::HandshakeOk);
    assert_eq!(actions, vec![SessionAction::RegisterWithHub]);
    assert_eq!(s.state, SessionState::Open);
    let actions = s.step(SessionEvent::AssignedId(id));
    assert!(actions.is_empty());
    s
}

#[test]
fn test_handshake_failure_never_opens() {
    let mut s = Session::new();
    let actions = s.step(SessionEvent::HandshakeFailed);
    assert!(actions.is_empty());
    assert_eq!(s.state, SessionState::Closed);
}

#[test]
fn test_text_frame_goes_to_hub_unmasked() {
    let mut s = open_session(7);
    // the masked "Hello" of RFC 6455
    let f = Frame::parse(&[0x81, 0x85, 0x37, 0xfa, 0x21, 0x3d, 0x7f, 0x9f, 0x4d, 0x51, 0x58])
        .expect("parse");
    let actions = s.step(SessionEvent::FrameIn(f));
    assert_eq!(actions, vec![SessionAction::ToHub(7, Msg::Text(b"Hello".to_vec()))]);
    assert_eq!(s.state, SessionState::Open);
}

#[test]
fn test_ping_answered_locally_with_same_payload() {
    let mut s = open_session(3);
    let ping = Frame { fin: true, op: Op::Ping, masking_key: None, raw_payload: b"tick".to_vec() };
    let actions = s.step(SessionEvent::FrameIn(ping));
    let pong = Frame { fin: true, op: Op::Pong, masking_key: None, raw_payload: b"tick".to_vec() };
    assert_eq!(actions, vec![SessionAction::SendFrame(pong)]);
    assert_eq!(s.state, SessionState::Open);
}

#[test]
fn test_close_from_peer_forwarded_and_session_closing() {
    let mut s = open_session(9);
    let close = Frame { fin: true, op: Op::Close, masking_key: None, raw_payload: Vec::new() };
    let actions = s.step(SessionEvent::FrameIn(close));
    assert_eq!(actions, vec![SessionAction::ToHub(9, Msg::Close)]);
    assert_eq!(s.state, SessionState::Closing);

    // closing still drains pending hub events
    let actions = s.step(SessionEvent::FromHub(Msg::Text(b"bye".to_vec())));
    assert_eq!(
        actions,
        vec![SessionAction::SendFrame(Frame {
            fin: true,
            op: Op::Text,
            masking_key: None,
            raw_payload: b"bye".to_vec(),
        })]
    );
    assert_eq!(s.state, SessionState::Closing);

    let actions = s.step(SessionEvent::HubGone);
    assert!(actions.is_empty());
    assert_eq!(s.state, SessionState::Closed);
}

#[test]
fn test_binary_frame_is_nonfatal() {
    let mut s = open_session(4);
    let f = Frame { fin: true, op: Op::Binary, masking_key: None, raw_payload: vec![1, 2, 3] };
    let actions = s.step(SessionEvent::FrameIn(f));
    assert_eq!(actions, vec![SessionAction::ReportUnsupported]);
    assert_eq!(s.state, SessionState::Open, "the session goes on");
}

#[test]
fn test_non_final_frame_is_nonfatal() {
    let mut s = open_session(4);
    let f = Frame { fin: false, op: Op::Text, masking_key: None, raw_payload: b"fra".to_vec() };
    let actions = s.step(SessionEvent::FrameIn(f));
    assert_eq!(actions, vec![SessionAction::ReportUnsupported]);
    assert_eq!(s.state, SessionState::Open);
}

#[test]
fn test_pong_from_peer_ignored() {
    let mut s = open_session(4);
    let f = Frame { fin: true, op: Op::Pong, masking_key: None, raw_payload: b"tock".to_vec() };
    let actions = s.step(SessionEvent::FrameIn(f));
    assert!(actions.is_empty());
    assert_eq!(s.state, SessionState::Open);
}

#[test]
fn test_hub_close_sent_and_session_ends() {
    let mut s = open_session(2);
    let actions = s.step(SessionEvent::FromHub(Msg::Close));
    assert_eq!(
        actions,
        vec![SessionAction::SendFrame(Frame {
            fin: true,
            op: Op::Close,
            masking_key: None,
            raw_payload: Vec::new(),
        })]
    );
    assert_eq!(s.state, SessionState::Closed);

    // terminal: everything after is ignored
    let actions = s.step(SessionEvent::FromHub(Msg::Text(b"late".to_vec())));
    assert!(actions.is_empty());
    assert_eq!(s.state, SessionState::Closed);
}

#[test]
fn test_hub_text_written_out_as_frame() {
    let mut s = open_session(2);
    let actions = s.step(SessionEvent::FromHub(Msg::Text(b"fan-out".to_vec())));
    assert_eq!(
        actions,
        vec![SessionAction::SendFrame(Frame {
            fin: true,
            op: Op::Text,
            masking_key: None,
            raw_payload: b"fan-out".to_vec(),
        })]
    );
    assert_eq!(s.state, SessionState::Open);
}

#[test]
fn test_socket_error_closes_and_notifies() {
    let mut s = open_session(11);
    let actions = s.step(SessionEvent::SocketError);
    assert_eq!(actions, vec![SessionAction::NotifyDisconnect(11)]);
    assert_eq!(s.state, SessionState::Closed);
}

#[test]
fn test_malformed_input_closes_silently() {
    let mut s = Session::new();
    let actions = s.step(SessionEvent::HandshakeOk);
    assert_eq!(actions, vec![SessionAction::RegisterWithHub]);
    // no id assigned yet: nothing to notify, the connection just drops
    let actions = s.step(SessionEvent::Malformed);
    assert!(actions.is_empty());
    assert_eq!(s.state, SessionState::Closed);
}
