//! The per-connection session: a state machine from `Handshaking`
//! through `Open` and `Closing` to `Closed`.  The running server owns the
//! socket and the channels; it feeds every observation to
//! [`Session::step`] and performs the returned actions (socket writes,
//! messages to the hub).

use vstd::prelude::*;
use crate::frame::Frame;
use crate::frame::FrameView;
use crate::frame::Op;
use crate::frame::spec_payload;
use crate::msg::Msg;

verus! {

/// Where a session stands in its lifecycle.
#[derive(Clone, Copy, Debug, PartialEq, Eq, Structural)]
pub enum SessionState {
    /// The opening handshake is still being exchanged.
    Handshaking,
    /// Frames flow in both directions.
    Open,
    /// A `Close` went to the hub; only pending hub events still drain.
    Closing,
    /// Terminal: socket and channels are released.
    Closed,
}

/// One observation the session's loop makes.
pub enum SessionEvent {
    /// The opening handshake succeeded and the socket is upgraded.
    HandshakeOk,
    /// The opening handshake failed; the error response went out.
    HandshakeFailed,
    /// One well-formed frame arrived from the peer.
    FrameIn(Frame),
    /// Bytes from the peer did not parse as a frame (a protocol error,
    /// fatal to this connection only).
    Malformed,
    /// The hub handed back the id assigned at admission.
    AssignedId(u64),
    /// The hub enqueued a message for the peer.
    FromHub(Msg),
    /// The hub's outbound channel to this session closed.
    HubGone,
    /// The socket failed to read or write.
    SocketError,
}

/// One effect the session's loop must perform.
#[derive(Debug, PartialEq)]
pub enum SessionAction {
    /// Ask the hub for admission (a new-client event with this session's
    /// reply channel).
    RegisterWithHub,
    /// Relay a message to the hub, tagged with this session's id.
    ToHub(u64, Msg),
    /// Write a frame to the peer's socket; the session never masks.
    SendFrame(Frame),
    /// Tell the hub, best effort, that this session is gone.
    NotifyDisconnect(u64),
    /// A frame the engine does not relay arrived (a non-final frame, or
    /// an opcode it does not support): reported, the session goes on.
    ReportUnsupported,
}

/// The `Pong` answered locally to a `Ping`: the same payload, unmasked,
/// never masked on the way out.
pub open spec fn spec_pong_reply(f: FrameView) -> FrameView {
    FrameView { fin: true, op: Op::Pong, masking_key: None, raw_payload: spec_payload(f) }
}

/// The unmasked `Close` frame the session sends to the peer.
pub open spec fn spec_close_frame() -> FrameView {
    FrameView { fin: true, op: Op::Close, masking_key: None, raw_payload: Seq::empty() }
}

/// The unmasked frame that carries a hub message to the peer.
pub open spec fn spec_msg_frame(m: Msg) -> FrameView {
    match m {
        Msg::Text(t) => FrameView { fin: true, op: Op::Text, masking_key: None, raw_payload: t@ },
        Msg::Binary(b) => FrameView {
            fin: true,
            op: Op::Binary,
            masking_key: None,
            raw_payload: b@,
        },
        Msg::Ping(p) => FrameView { fin: true, op: Op::Ping, masking_key: None, raw_payload: p@ },
        Msg::Pong(p) => FrameView { fin: true, op: Op::Pong, masking_key: None, raw_payload: p@ },
        Msg::Close => spec_close_frame(),
    }
}

/// One session: its lifecycle state and the id the hub assigned it, once
/// one arrived.
pub struct Session {
    pub state: SessionState,
    pub id: Option<u64>,
}

/// Exactly how one step of the session behaves: the state after and the
/// actions, for every state and event.
///
/// - `Handshaking`: success opens the session and registers with the
///   hub; failure, or a socket error, closes it.  Nothing else happens
///   before the upgrade.
/// - `Open`: a final `Text` frame goes to the hub (unmasked); a `Ping`
///   is answered locally with a `Pong` carrying the same payload; a
///   `Pong` is accepted silently; a `Close` goes to the hub and the
///   session starts closing; a non-final frame or an opcode the engine
///   does not relay (`Binary`, `Continuation`) is reported and the
///   session goes on.  Hub messages are written out as frames; a hub
///   `Close` is written and ends the session.  Malformed input or a
///   socket error closes the session at once, telling the hub, best
///   effort, when an id was assigned.
/// - `Closing`: inbound frames are no longer relayed; pending hub
///   messages still drain; a hub `Close`, the hub channel closing, a
///   socket error or malformed input end the session.
/// - `Closed`: terminal; everything is ignored.
pub open spec fn spec_session_step(
    pre: Session,
    event: SessionEvent,
    post: Session,
    actions: Seq<SessionAction>,
) -> bool {
    match pre.state {
        SessionState::Handshaking => match event {
            SessionEvent::HandshakeOk => {
                &&& post.state is Open
                &&& post.id == pre.id
                &&& actions.len() == 1
                &&& actions[0] is RegisterWithHub
            },
            SessionEvent::HandshakeFailed => {
                &&& post.state is Closed
                &&& post.id == pre.id
                &&& actions.len() == 0
            },
            SessionEvent::SocketError => {
                &&& post.state is Closed
                &&& post.id == pre.id
                &&& actions.len() == 0
            },
            _ => post == pre && actions.len() == 0,
        },
        SessionState::Open => match event {
            SessionEvent::FrameIn(f) => if !f.fin {
                post == pre && actions.len() == 1 && actions[0] is ReportUnsupported
            } else {
                match f.op {
                    Op::Text => {
                        &&& post.state is Open
                        &&& post.id == pre.id
                        &&& actions.len() == 1
                        &&& (actions[0] matches SessionAction::ToHub(i, m) && i == pre.id->0 && (
                        m matches Msg::Text(t) && t@ == spec_payload(f@)))
                    },
                    Op::Ping => {
                        &&& post == pre
                        &&& actions.len() == 1
                        &&& (actions[0] matches SessionAction::SendFrame(g) && g@
                            == spec_pong_reply(f@))
                    },
                    Op::Pong => post == pre && actions.len() == 0,
                    Op::Close => {
                        &&& post.state is Closing
                        &&& post.id == pre.id
                        &&& actions.len() == 1
                        &&& (actions[0] matches SessionAction::ToHub(i, m) && i == pre.id->0
                            && m is Close)
                    },
                    _ => post == pre && actions.len() == 1 && actions[0] is ReportUnsupported,
                }
            },
            SessionEvent::AssignedId(i) => {
                &&& post.state is Open
                &&& post.id == Some(i)
                &&& actions.len() == 0
            },
            SessionEvent::FromHub(m) => if m is Close {
                &&& post.state is Closed
                &&& post.id == pre.id
                &&& actions.len() == 1
                &&& (actions[0] matches SessionAction::SendFrame(g) && g@ == spec_close_frame())
            } else {
                &&& post == pre
                &&& actions.len() == 1
                &&& (actions[0] matches SessionAction::SendFrame(g) && g@ == spec_msg_frame(m))
            },
            SessionEvent::Malformed | SessionEvent::SocketError => {
                &&& post.state is Closed
                &&& post.id == pre.id
                &&& (match pre.id {
                    Some(i) => actions.len() == 1 && (actions[0]
                        matches SessionAction::NotifyDisconnect(j) && j == i),
                    None => actions.len() == 0,
                })
            },
            SessionEvent::HubGone => {
                &&& post.state is Closed
                &&& post.id == pre.id
                &&& actions.len() == 0
            },
            _ => post == pre && actions.len() == 0,
        },
        SessionState::Closing => match event {
            SessionEvent::FromHub(m) => if m is Close {
                &&& post.state is Closed
                &&& post.id == pre.id
                &&& actions.len() == 1
                &&& (actions[0] matches SessionAction::SendFrame(g) && g@ == spec_close_frame())
            } else {
                &&& post == pre
                &&& actions.len() == 1
                &&& (actions[0] matches SessionAction::SendFrame(g) && g@ == spec_msg_frame(m))
            },
            SessionEvent::HubGone | SessionEvent::SocketError | SessionEvent::Malformed => {
                &&& post.state is Closed
                &&& post.id == pre.id
                &&& actions.len() == 0
            },
            _ => post == pre && actions.len() == 0,
        },
        SessionState::Closed => post == pre && actions.len() == 0,
    }
}

impl Session {
    /// A session that still has its handshake ahead of it.
    pub fn new() -> (r: Session)
        ensures
            r.state is Handshaking,
            r.id is None,
    {
        Session { state: SessionState::Handshaking, id: None }
    }

    /// Consumes one observation and returns the actions the caller must
    /// perform; [`spec_session_step`] says exactly what happens.
    ///
    /// An open session relays `Text` and `Close` to the hub under its
    /// assigned id, so one must have arrived before such a frame is fed
    /// in.
    pub fn step(&mut self, event: SessionEvent) -> (actions: Vec<SessionAction>)
        requires
            (old(self).state is Open && (event matches SessionEvent::FrameIn(f) && f.fin && (f.op
                is Text || f.op is Close))) ==> old(self).id is Some,
        ensures
            spec_session_step(*old(self), event, *final(self), actions@),
    {
        match self.state {
            SessionState::Handshaking => match event {
                SessionEvent::HandshakeOk => {
                    self.state = SessionState::Open;
                    let mut actions: Vec<SessionAction> = Vec::new();
                    actions.push(SessionAction::RegisterWithHub);
                    actions
                },
                SessionEvent::HandshakeFailed => {
                    self.state = SessionState::Closed;
                    Vec::new()
                },
                SessionEvent::SocketError => {
                    self.state = SessionState::Closed;
                    Vec::new()
                },
                _ => Vec::new(),
            },
            SessionState::Open => match event {
                SessionEvent::FrameIn(f) => {
                    if !f.fin {
                        let mut actions: Vec<SessionAction> = Vec::new();
                        actions.push(SessionAction::ReportUnsupported);
                        actions
                    } else {
                        match f.op {
                            Op::Text => {
                                let id = match self.id {
                                    Some(i) => i,
                                    None => vstd::pervasive::unreached(),
                                };
                                let payload = f.payload();
                                let mut actions: Vec<SessionAction> = Vec::new();
                                actions.push(SessionAction::ToHub(id, Msg::Text(payload)));
                                actions
                            },
                            Op::Ping => {
                                let payload = f.payload();
                                let pong = Frame {
                                    fin: true,
                                    op: Op::Pong,
                                    masking_key: None,
                                    raw_payload: payload,
                                };
                                let mut actions: Vec<SessionAction> = Vec::new();
                                actions.push(SessionAction::SendFrame(pong));
                                actions
                            },
                            Op::Pong => Vec::new(),
                            Op::Close => {
                                let id = match self.id {
                                    Some(i) => i,
                                    None => vstd::pervasive::unreached(),
                                };
                                self.state = SessionState::Closing;
                                let mut actions: Vec<SessionAction> = Vec::new();
                                actions.push(SessionAction::ToHub(id, Msg::Close));
                                actions
                            },
                            _ => {
                                let mut actions: Vec<SessionAction> = Vec::new();
                                actions.push(SessionAction::ReportUnsupported);
                                actions
                            },
                        }
                    }
                },
                SessionEvent::AssignedId(i) => {
                    self.id = Some(i);
                    Vec::new()
                },
                SessionEvent::FromHub(m) => {
                    let is_close = matches!(m, Msg::Close);
                    let frame = msg_to_frame(m);
                    if is_close {
                        self.state = SessionState::Closed;
                    }
                    let mut actions: Vec<SessionAction> = Vec::new();
                    actions.push(SessionAction::SendFrame(frame));
                    actions
                },
                SessionEvent::Malformed | SessionEvent::SocketError => {
                    self.state = SessionState::Closed;
                    match self.id {
                        Some(i) => {
                            let mut actions: Vec<SessionAction> = Vec::new();
                            actions.push(SessionAction::NotifyDisconnect(i));
                            actions
                        },
                        None => Vec::new(),
                    }
                },
                SessionEvent::HubGone => {
                    self.state = SessionState::Closed;
                    Vec::new()
                },
                _ => Vec::new(),
            },
            SessionState::Closing => match event {
                SessionEvent::FromHub(m) => {
                    let is_close = matches!(m, Msg::Close);
                    let frame = msg_to_frame(m);
                    if is_close {
                        self.state = SessionState::Closed;
                    }
                    let mut actions: Vec<SessionAction> = Vec::new();
                    actions.push(SessionAction::SendFrame(frame));
                    actions
                },
                SessionEvent::HubGone | SessionEvent::SocketError | SessionEvent::Malformed => {
                    self.state = SessionState::Closed;
                    Vec::new()
                },
                _ => Vec::new(),
            },
            SessionState::Closed => Vec::new(),
        }
    }
}

/// Builds the unmasked frame that carries a hub message to the peer.
fn msg_to_frame(m: Msg) -> (r: Frame)
    ensures
        r@ == spec_msg_frame(m),
{
    match m {
        Msg::Text(t) => Frame { fin: true, op: Op::Text, masking_key: None, raw_payload: t },
        Msg::Binary(b) => Frame { fin: true, op: Op::Binary, masking_key: None, raw_payload: b },
        Msg::Ping(p) => Frame { fin: true, op: Op::Ping, masking_key: None, raw_payload: p },
        Msg::Pong(p) => Frame { fin: true, op: Op::Pong, masking_key: None, raw_payload: p },
        Msg::Close => {
            let empty: Vec<u8> = Vec::new();
            proof {
                assert(empty@ =~= Seq::<u8>::empty());
            }
            Frame { fin: true, op: Op::Close, masking_key: None, raw_payload: empty }
        },
    }
}

} // verus!
