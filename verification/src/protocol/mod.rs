//! The KVM sharing protocol: messages, sessions, transport decisions and the
//! session registry.

pub mod messages;
pub mod session;
pub mod manager;
pub mod transport;
pub mod websocket;
pub mod endpoint;

use vstd::prelude::*;
use crate::text::{append_str, string_from};

verus! {

/// Protocol errors. A serialization error carries the message of the
/// underlying error.
#[derive(Debug, Clone)]
pub enum ProtocolError {
    Transport(String),
    Serialization(String),
    WebSocket(String),
    Authentication(String),
    Session(String),
    Timeout,
    VersionMismatch { expected: String, got: String },
    InvalidMessageType(String),
    Generic(String),
}

/// The text of a protocol error, as its `Display` writes it.
pub open spec fn protocol_error_text(e: ProtocolError) -> Seq<char> {
    match e {
        ProtocolError::Transport(m) => "Transport error: "@ + m@,
        ProtocolError::Serialization(m) => "Serialization error: "@ + m@,
        ProtocolError::WebSocket(m) => "WebSocket error: "@ + m@,
        ProtocolError::Authentication(m) => "Authentication error: "@ + m@,
        ProtocolError::Session(m) => "Session error: "@ + m@,
        ProtocolError::Timeout => "Timeout error"@,
        ProtocolError::VersionMismatch { expected, got } => "Protocol version mismatch: expected "@ + expected@
            + ", got "@ + got@,
        ProtocolError::InvalidMessageType(m) => "Invalid message type: "@ + m@,
        ProtocolError::Generic(m) => "Generic protocol error: "@ + m@,
    }
}

impl ProtocolError {
    /// The error's text (see `protocol_error_text`).
    pub fn to_text(&self) -> (r: String)
        ensures
            r@ == protocol_error_text(*self),
    {
        let (head, tail) = match self {
            ProtocolError::Transport(m) => ("Transport error: ", m.as_str()),
            ProtocolError::Serialization(m) => ("Serialization error: ", m.as_str()),
            ProtocolError::WebSocket(m) => ("WebSocket error: ", m.as_str()),
            ProtocolError::Authentication(m) => ("Authentication error: ", m.as_str()),
            ProtocolError::Session(m) => ("Session error: ", m.as_str()),
            ProtocolError::Timeout => ("Timeout error", ""),
            ProtocolError::VersionMismatch { expected, got } => {
                let mut t = string_from("Protocol version mismatch: expected ");
                append_str(&mut t, expected.as_str());
                append_str(&mut t, ", got ");
                append_str(&mut t, got.as_str());
                return t;
            },
            ProtocolError::InvalidMessageType(m) => ("Invalid message type: ", m.as_str()),
            ProtocolError::Generic(m) => ("Generic protocol error: ", m.as_str()),
        };
        let mut t = string_from(head);
        append_str(&mut t, tail);
        proof {
            reveal_strlit("");
        }
        assert(t@ =~= protocol_error_text(*self));
        t
    }
}

/// Protocol result type.
pub type ProtocolResult<T> = Result<T, ProtocolError>;

/// Protocol version.
pub const PROTOCOL_VERSION: &'static str = "1.0.0";

/// Protocol configuration. Intervals and timeouts are in seconds.
#[derive(Debug, Clone)]
pub struct ProtocolConfig {
    pub version: String,
    pub max_message_size: usize,
    pub heartbeat_interval: u64,
    pub session_timeout: u64,
    pub compression_enabled: bool,
}

impl Default for ProtocolConfig {
    /// Version 1.0.0, 1 MiB messages, a heartbeat every 30 s, sessions time
    /// out after 5 minutes, compression on.
    fn default() -> (r: Self)
        ensures
            r.version@ == PROTOCOL_VERSION@,
            r.max_message_size == 1024 * 1024,
            r.heartbeat_interval == 30,
            r.session_timeout == 300,
            r.compression_enabled,
    {
        ProtocolConfig {
            version: string_from(PROTOCOL_VERSION),
            max_message_size: 1024 * 1024,
            heartbeat_interval: 30,
            session_timeout: 300,
            compression_enabled: true,
        }
    }
}

} // verus!
