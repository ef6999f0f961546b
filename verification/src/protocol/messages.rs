//! Protocol message definitions. Fields that hold free-form JSON carry it
//! as JSON text; the header and the metrics carry UTC moments, a video
//! frame its timestamp as a count.

use vstd::prelude::*;
use crate::bridge::{new_uuid, uuid_hyphenated, uuid_text};
use crate::kvm_core::types::{NetworkAddress, ServiceType, Timestamp, VideoResolution};

verus! {

/// Message types.
#[derive(Debug, Clone, Copy, PartialEq, Eq, Structural)]
pub enum MessageType {
    Hello,
    Welcome,
    Goodbye,
    Heartbeat,
    Error,
    AuthRequest,
    AuthResponse,
    VideoStart,
    VideoStop,
    VideoFrame,
    InputEvent,
    ClipboardData,
    ServiceAnnouncement,
    ServiceQuery,
    ServiceResponse,
    MetricsRequest,
    MetricsResponse,
    Ping,
    Pong,
}

/// Protocol message header.
#[derive(Debug, Clone)]
pub struct MessageHeader {
    pub message_type: MessageType,
    pub message_id: String,
    pub timestamp: Timestamp,
    pub session_id: Option<String>,
    pub compression: bool,
    pub payload_size: usize,
}

/// Protocol message.
#[derive(Debug, Clone)]
pub struct ProtocolMessage {
    pub header: MessageHeader,
    pub payload: MessagePayload,
}

/// Message payload types.
#[derive(Debug, Clone)]
pub enum MessagePayload {
    Hello(HelloPayload),
    Welcome(WelcomePayload),
    Goodbye(GoodbyePayload),
    Heartbeat(HeartbeatPayload),
    Error(ErrorPayload),
    AuthRequest(AuthRequestPayload),
    AuthResponse(AuthResponsePayload),
    VideoStart(VideoStartPayload),
    VideoStop,
    VideoFrame(VideoFramePayload),
    InputEvent(InputEventPayload),
    ClipboardData(ClipboardPayload),
    ServiceAnnouncement(ServiceAnnouncementPayload),
    ServiceQuery(ServiceQueryPayload),
    ServiceResponse(ServiceResponsePayload),
    MetricsRequest,
    MetricsResponse(MetricsPayload),
    Ping,
    Pong,
}

/// Hello message payload.
#[derive(Debug, Clone)]
pub struct HelloPayload {
    pub protocol_version: String,
    pub client_info: ClientInfo,
    pub capabilities: Vec<String>,
}

/// Client information.
#[derive(Debug, Clone)]
pub struct ClientInfo {
    pub client_id: String,
    pub client_name: String,
    pub platform: String,
    pub version: String,
}

/// Welcome message payload.
#[derive(Debug, Clone)]
pub struct WelcomePayload {
    pub server_info: ServerInfo,
    pub session_id: String,
    pub negotiated_capabilities: Vec<String>,
}

/// Server information.
#[derive(Debug, Clone)]
pub struct ServerInfo {
    pub server_id: String,
    pub server_name: String,
    pub protocol_version: String,
}

/// Goodbye message payload.
#[derive(Debug, Clone)]
pub struct GoodbyePayload {
    pub reason: String,
    pub code: u32,
}

/// Heartbeat payload.
#[derive(Debug, Clone, Copy)]
pub struct HeartbeatPayload {
    pub sequence_number: u64,
}

/// Error payload.
#[derive(Debug, Clone)]
pub struct ErrorPayload {
    pub error_code: u32,
    pub error_message: String,
    pub details: Option<String>,
}

/// Authentication request payload; the credentials are JSON text.
#[derive(Debug, Clone)]
pub struct AuthRequestPayload {
    pub auth_method: String,
    pub credentials: String,
}

/// Authentication response payload.
#[derive(Debug, Clone)]
pub struct AuthResponsePayload {
    pub success: bool,
    pub session_token: Option<String>,
    pub error_message: Option<String>,
}

/// Video start payload.
#[derive(Debug, Clone)]
pub struct VideoStartPayload {
    pub resolution: VideoResolution,
    pub fps: u32,
    pub quality: String,
    pub codec: String,
}

/// Video frame payload.
#[derive(Debug, Clone)]
pub struct VideoFramePayload {
    pub frame_number: u64,
    pub timestamp: u64,
    pub width: u32,
    pub height: u32,
    pub format: String,
    pub data: Vec<u8>,
}

/// Input event payload; the event data is JSON text.
#[derive(Debug, Clone)]
pub struct InputEventPayload {
    pub event_type: String,
    pub data: String,
}

/// Clipboard payload.
#[derive(Debug, Clone)]
pub struct ClipboardPayload {
    pub data_type: String,
    pub data: Vec<u8>,
}

/// Service announcement payload.
#[derive(Debug, Clone)]
pub struct ServiceAnnouncementPayload {
    pub service_id: String,
    pub service_name: String,
    pub service_type: ServiceType,
    pub address: NetworkAddress,
    pub capabilities: Vec<String>,
}

/// Service query payload; the filters are JSON text.
#[derive(Debug, Clone)]
pub struct ServiceQueryPayload {
    pub query_type: String,
    pub filters: Option<String>,
}

/// Service response payload.
#[derive(Debug, Clone)]
pub struct ServiceResponsePayload {
    pub services: Vec<ServiceAnnouncementPayload>,
}

/// Metrics payload; the metrics are JSON text.
#[derive(Debug, Clone)]
pub struct MetricsPayload {
    pub timestamp: Timestamp,
    pub metrics: String,
}

/// Whether `id` is the text of some UUID.
pub open spec fn is_uuid_text(id: Seq<char>) -> bool {
    exists|v: u128| id == uuid_hyphenated(v)
}

/// A fresh header: a random message id, the current time, no session, no
/// compression, payload size 0.
pub open spec fn fresh_header(h: MessageHeader, message_type: MessageType) -> bool {
    &&& h.message_type == message_type
    &&& is_uuid_text(h.message_id@)
    &&& h.session_id is None
    &&& !h.compression
    &&& h.payload_size == 0
}

/// A message of type `t` with payload `payload`, made fresh and bound to
/// the session `sid`.
pub open spec fn session_message(
    m: ProtocolMessage,
    t: MessageType,
    payload: MessagePayload,
    sid: Seq<char>,
) -> bool {
    &&& m.header.message_type == t
    &&& is_uuid_text(m.header.message_id@)
    &&& (m.header.session_id matches Some(s) && s@ == sid)
    &&& !m.header.compression
    &&& m.header.payload_size == 0
    &&& m.payload == payload
}

impl ProtocolMessage {
    /// A new message of type `t` bound to the session `sid`.
    pub fn for_session(t: MessageType, payload: MessagePayload, sid: String) -> (r: Self)
        ensures
            session_message(r, t, payload, sid@),
    {
        ProtocolMessage::new(t, payload).with_session(sid)
    }

    /// A new message of the given type, with a fresh header.
    pub fn new(message_type: MessageType, payload: MessagePayload) -> (r: Self)
        ensures
            fresh_header(r.header, message_type),
            r.payload == payload,
    {
        let id = new_uuid();
        let message_id = uuid_text(id);
        let header = MessageHeader {
            message_type,
            message_id,
            timestamp: Timestamp::now(),
            session_id: None,
            compression: false,
            payload_size: 0,
        };
        ProtocolMessage { header, payload }
    }

    /// The message, bound to the given session.
    pub fn with_session(self, session_id: String) -> (r: Self)
        ensures
            r.header == (MessageHeader { session_id: Some(session_id), ..self.header }),
            r.payload == self.payload,
    {
        let mut m = self;
        m.header.session_id = Some(session_id);
        m
    }

    /// The message, with the compression flag set as given.
    pub fn with_compression(self, compression: bool) -> (r: Self)
        ensures
            r.header == (MessageHeader { compression, ..self.header }),
            r.payload == self.payload,
    {
        let mut m = self;
        m.header.compression = compression;
        m
    }

    /// The message type.
    pub fn message_type(&self) -> (r: &MessageType)
        ensures
            *r == self.header.message_type,
    {
        &self.header.message_type
    }

    /// The session the message is bound to, if any.
    pub fn session_id(&self) -> (r: Option<&String>)
        ensures
            match self.header.session_id {
                Some(s) => r matches Some(t) && *t == s,
                None => r is None,
            },
    {
        match &self.header.session_id {
            Some(s) => Some(s),
            None => None,
        }
    }

    /// Whether the message is compressed.
    pub fn is_compressed(&self) -> (r: bool)
        ensures
            r == self.header.compression,
    {
        self.header.compression
    }
}

impl Default for MessageHeader {
    /// A fresh header of a `Hello` message.
    fn default() -> (r: Self)
        ensures
            fresh_header(r, MessageType::Hello),
    {
        MessageHeader {
            message_type: MessageType::Hello,
            message_id: uuid_text(new_uuid()),
            timestamp: Timestamp::now(),
            session_id: None,
            compression: false,
            payload_size: 0,
        }
    }
}

} // verus!
