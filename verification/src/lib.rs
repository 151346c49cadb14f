//! A verified WebSocket protocol engine: an RFC 6455 frame codec, the
//! opening-handshake validator, and the state machines of a connection
//! session and of the central hub that relays messages between sessions.
//!
//! The running server around this engine owns sockets, channels and
//! tasks; the engine decides.  It parses and serializes frames, computes
//! and checks the handshake, and says, for every event a session or the
//! hub observes, what the new state is and which sends must happen.

pub mod frame;
pub mod handshake;
pub mod hub;
pub mod msg;
pub mod session;

pub use frame::Frame;
pub use frame::FrameView;
pub use frame::Op;
pub use frame::ParseError;
pub use handshake::HandshakeError;
pub use handshake::UpgradeResponse;
pub use handshake::mk_accept_header;
pub use handshake::validate_upgrade;
pub use hub::Hub;
pub use hub::HubAction;
pub use hub::HubEvent;
pub use hub::Shutdown;
pub use msg::Msg;
pub use session::Session;
pub use session::SessionAction;
pub use session::SessionEvent;
pub use session::SessionState;
