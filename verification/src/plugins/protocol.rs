//! The protocol plugin: the shell's commands to set up the protocol, open
//! sessions with servers, send messages and report the state. The shell
//! parses socket addresses and hands the outcome in.

use vstd::prelude::*;
use crate::kvm_core::types::{NetworkAddress, Timestamp};
use crate::protocol::manager::ProtocolManager;
use crate::protocol::messages::{
    ClientInfo, HeartbeatPayload, HelloPayload, MessagePayload, MessageType, ProtocolMessage,
};
use crate::protocol::session::{send_effect, PeerInfo};
use crate::protocol::{protocol_error_text, ProtocolConfig};
use crate::text::{append_str, decimal, push_decimal, string_from, views};

verus! {

/// The protocol settings the shell hands in. Intervals and timeouts are in
/// seconds.
#[derive(Debug, Clone)]
pub struct ProtocolPluginConfig {
    pub version: String,
    pub max_message_size: usize,
    pub heartbeat_interval: u64,
    pub session_timeout: u64,
    pub compression_enabled: bool,
}

impl Default for ProtocolPluginConfig {
    /// Version 1.0.0, 1 MiB messages, a heartbeat every 30 s, sessions time
    /// out after 5 minutes, compression on.
    fn default() -> (r: Self)
        ensures
            r.version@ == "1.0.0"@,
            r.max_message_size == 1024 * 1024,
            r.heartbeat_interval == 30,
            r.session_timeout == 300,
            r.compression_enabled,
    {
        ProtocolPluginConfig {
            version: string_from("1.0.0"),
            max_message_size: 1024 * 1024,
            heartbeat_interval: 30,
            session_timeout: 300,
            compression_enabled: true,
        }
    }
}

/// What the plugin reports: whether the protocol is set up, the sessions
/// open, and the sessions opened so far.
#[derive(Debug, Clone, Copy, PartialEq, Eq, Structural)]
pub struct ProtocolStatus {
    pub is_initialized: bool,
    pub active_sessions: usize,
    pub total_sessions: u64,
}

/// The protocol configuration of the plugin's settings, field for field.
pub fn protocol_config_of(config: &ProtocolPluginConfig) -> (r: ProtocolConfig)
    ensures
        r.version@ == config.version@,
        r.max_message_size == config.max_message_size,
        r.heartbeat_interval == config.heartbeat_interval,
        r.session_timeout == config.session_timeout,
        r.compression_enabled == config.compression_enabled,
{
    ProtocolConfig {
        version: config.version.clone(),
        max_message_size: config.max_message_size,
        heartbeat_interval: config.heartbeat_interval,
        session_timeout: config.session_timeout,
        compression_enabled: config.compression_enabled,
    }
}

/// The message types the plugin knows by name.
pub open spec fn named_message_type(name: Seq<char>) -> Option<MessageType> {
    if name == "hello"@ {
        Some(MessageType::Hello)
    } else if name == "heartbeat"@ {
        Some(MessageType::Heartbeat)
    } else if name == "video_start"@ {
        Some(MessageType::VideoStart)
    } else if name == "input_event"@ {
        Some(MessageType::InputEvent)
    } else {
        None
    }
}

/// Whether `p` is the hello the plugin sends: protocol 1.0.0, the client
/// `client` named `Soft KVM Client` on an unknown platform at version
/// 1.0.0, offering video and input.
pub open spec fn is_plugin_hello(p: MessagePayload) -> bool {
    p matches MessagePayload::Hello(h) && {
        &&& h.protocol_version@ == "1.0.0"@
        &&& h.client_info.client_id@ == "client"@
        &&& h.client_info.client_name@ == "Soft KVM Client"@
        &&& h.client_info.platform@ == "unknown"@
        &&& h.client_info.version@ == "1.0.0"@
        &&& views(h.capabilities@) == seq!["video"@, "input"@]
    }
}

/// The two capabilities the plugin offers.
fn video_and_input() -> (r: Vec<String>)
    ensures
        views(r@) == seq!["video"@, "input"@],
{
    let mut v: Vec<String> = Vec::new();
    v.push(string_from("video"));
    v.push(string_from("input"));
    assert(views(v@) =~= seq!["video"@, "input"@]);
    v
}

/// Whether the plugin sends messages of the named type.
pub open spec fn sendable(name: Seq<char>) -> bool {
    named_message_type(name) == Some(MessageType::Hello) || named_message_type(name) == Some(MessageType::Heartbeat)
}

/// The message the plugin sends for a message type name, bound to the
/// session: a hello or a heartbeat (sequence 1). Another known type cannot
/// be sent; an unknown name is an error.
pub fn plugin_message(message_type: &str, session_id: String) -> (r: Result<ProtocolMessage, String>)
    ensures
        match named_message_type(message_type@) {
            None => r matches Err(e) && e@ == "Unknown message type: "@ + message_type@,
            Some(MessageType::Hello) => r matches Ok(m) && m.header.message_type == MessageType::Hello
                && (m.header.session_id matches Some(s) && s@ == session_id@) && is_plugin_hello(m.payload),
            Some(MessageType::Heartbeat) => r matches Ok(m) && m.header.message_type == MessageType::Heartbeat
                && (m.header.session_id matches Some(s) && s@ == session_id@) && m.payload == MessagePayload::Heartbeat(
                HeartbeatPayload { sequence_number: 1 },
            ),
            Some(_) => r matches Err(e) && e@ == "Unsupported message type for sending: "@ + message_type@,
        },
{
    let name = string_from(message_type);
    let msg_type = if name == string_from("hello") {
        MessageType::Hello
    } else if name == string_from("heartbeat") {
        MessageType::Heartbeat
    } else if name == string_from("video_start") {
        MessageType::VideoStart
    } else if name == string_from("input_event") {
        MessageType::InputEvent
    } else {
        let mut e = string_from("Unknown message type: ");
        append_str(&mut e, message_type);
        return Err(e);
    };
    let payload = match msg_type {
        MessageType::Hello => MessagePayload::Hello(
            HelloPayload {
                protocol_version: string_from("1.0.0"),
                client_info: ClientInfo {
                    client_id: string_from("client"),
                    client_name: string_from("Soft KVM Client"),
                    platform: string_from("unknown"),
                    version: string_from("1.0.0"),
                },
                capabilities: video_and_input(),
            },
        ),
        MessageType::Heartbeat => MessagePayload::Heartbeat(HeartbeatPayload { sequence_number: 1 }),
        _ => {
            let mut e = string_from("Unsupported message type for sending: ");
            append_str(&mut e, message_type);
            return Err(e);
        },
    };
    Ok(ProtocolMessage::new(msg_type, payload).with_session(session_id))
}

/// The peer the plugin records for a server it connects to: the client
/// `client` named `Soft KVM Client`, offering video and input, not yet
/// authenticated, at the server's address.
pub open spec fn is_plugin_peer(p: PeerInfo, ip: Seq<char>, port: u16) -> bool {
    &&& p.peer_id@ == "client"@
    &&& p.peer_name@ == "Soft KVM Client"@
    &&& p.address.ip@ == ip
    &&& p.address.port == port
    &&& views(p.capabilities@) == seq!["video"@, "input"@]
    &&& !p.authenticated
}

/// The plugin's state: the protocol manager once set up, its settings, and
/// the number of sessions opened.
pub struct ProtocolPluginState {
    manager: Option<ProtocolManager>,
    config: Option<ProtocolPluginConfig>,
    session_counter: u64,
}

impl ProtocolPluginState {
    pub closed spec fn manager_spec(&self) -> Option<ProtocolManager> {
        self.manager
    }

    pub closed spec fn counter(&self) -> u64 {
        self.session_counter
    }

    /// The state's internal invariant.
    pub closed spec fn wf(&self) -> bool {
        self.manager matches Some(m) ==> m.wf()
    }

    /// Nothing set up, no session opened.
    pub fn new() -> (r: Self)
        ensures
            r.wf(),
            r.manager_spec() is None,
            r.counter() == 0,
    {
        ProtocolPluginState { manager: None, config: None, session_counter: 0 }
    }

    /// Sets the protocol up with the given settings (replacing an earlier
    /// set-up).
    pub fn init_protocol(&mut self, config: ProtocolPluginConfig) -> (r: Result<String, String>)
        requires
            old(self).wf(),
        ensures
            final(self).wf(),
            r matches Ok(m) && m@ == "Protocol initialized successfully"@,
            final(self).manager_spec() matches Some(m) && m.sessions().is_empty() && m.config_spec().version@
                == config.version@ && m.config_spec().max_message_size == config.max_message_size
                && m.config_spec().heartbeat_interval == config.heartbeat_interval
                && m.config_spec().session_timeout == config.session_timeout
                && m.config_spec().compression_enabled == config.compression_enabled,
            final(self).counter() == old(self).counter(),
    {
        let manager = ProtocolManager::new(protocol_config_of(&config));
        match manager.start() {
            Ok(()) => {},
            Err(e) => {
                let mut m = string_from("Failed to start protocol manager: ");
                append_str(&mut m, e.to_text().as_str());
                return Err(m);
            },
        }
        self.manager = Some(manager);
        self.config = Some(config);
        Ok(string_from("Protocol initialized successfully"))
    }

    /// Starts serving at an address, given how the shell read it (its text,
    /// or why it is not an address).
    pub fn start_protocol_server(&self, address: Result<String, String>) -> (r: Result<String, String>)
        ensures
            self.manager_spec() is None ==> (r matches Err(e) && e@ == "Protocol not initialized"@),
            self.manager_spec() is Some ==> match address {
                Ok(a) => r matches Ok(m) && m@ == "Protocol server started on "@ + a@,
                Err(e) => r matches Err(m) && m@ == "Invalid address: "@ + e@,
            },
    {
        if self.manager.is_none() {
            return Err(string_from("Protocol not initialized"));
        }
        match address {
            Ok(a) => {
                let mut m = string_from("Protocol server started on ");
                append_str(&mut m, a.as_str());
                Ok(m)
            },
            Err(e) => {
                let mut m = string_from("Invalid address: ");
                append_str(&mut m, e.as_str());
                Err(m)
            },
        }
    }

    /// Opens a session with a server, given how the shell read its address
    /// (the IP text and port, or why it is not an address): the session is
    /// named `session-` and the number of sessions opened so far, counting
    /// this one.
    pub fn connect_to_protocol_server(&mut self, address: Result<(String, u16), String>) -> (r: Result<
        String,
        String,
    >)
        requires
            old(self).wf(),
            old(self).counter() < u64::MAX,
        ensures
            final(self).wf(),
            old(self).manager_spec() is None ==> (r matches Err(e) && e@ == "Protocol not initialized"@)
                && final(self).counter() == old(self).counter() && final(self).manager_spec() == old(self).manager_spec(),
            old(self).manager_spec() is Some && address is Err ==> (r matches Err(m) && m@ == "Invalid address: "@
                + address->Err_0@) && final(self).counter() == old(self).counter() && final(self).manager_spec() == old(
                self,
            ).manager_spec(),
            old(self).manager_spec() is Some && address is Ok ==> {
                let old_m = old(self).manager_spec()->0;
                let ip = address->Ok_0.0;
                let port = address->Ok_0.1;
                let sid = "session-"@ + decimal((old(self).counter() + 1) as nat);
                &&& final(self).counter() == old(self).counter() + 1
                &&& r matches Ok(m) && m@ == "Connected to server, session: "@ + sid
                &&& final(self).manager_spec() matches Some(new_m) && {
                    &&& new_m.config_spec() == old_m.config_spec()
                    &&& new_m.sessions().dom() == old_m.sessions().dom().insert(sid)
                    &&& is_plugin_peer(new_m.sessions()[sid]@.peer, ip@, port)
                    &&& forall|k: Seq<char>|
                        k != sid && #[trigger] old_m.sessions().contains_key(k) ==> new_m.sessions()[k]
                            == old_m.sessions()[k]
                }
            },
    {
        let mut manager = match self.manager.take() {
            Some(m) => m,
            None => {
                return Err(string_from("Protocol not initialized"));
            },
        };
        let (ip, port) = match address {
            Ok(a) => a,
            Err(e) => {
                self.manager = Some(manager);
                let mut m = string_from("Invalid address: ");
                append_str(&mut m, e.as_str());
                return Err(m);
            },
        };
        self.session_counter = self.session_counter + 1;
        let mut session_id = string_from("session-");
        push_decimal(&mut session_id, self.session_counter);
        let peer_info = PeerInfo {
            peer_id: string_from("client"),
            peer_name: string_from("Soft KVM Client"),
            address: NetworkAddress { ip, port },
            capabilities: video_and_input(),
            authenticated: false,
            last_seen: Timestamp::now(),
        };
        let mut reply = string_from("Connected to server, session: ");
        append_str(&mut reply, session_id.as_str());
        let created = manager.create_session(session_id, peer_info);
        self.manager = Some(manager);
        match created {
            Ok(()) => Ok(reply),
            Err(e) => {
                let mut m = string_from("Failed to create session: ");
                append_str(&mut m, e.to_text().as_str());
                Err(m)
            },
        }
    }

    /// Sends a message of a named type through a session (see
    /// `plugin_message`); a session the manager does not have, or one that
    /// refuses the message, is an error that quotes the protocol error.
    pub fn send_protocol_message(&mut self, session_id: String, message_type: &str) -> (r: Result<
        String,
        String,
    >)
        requires
            old(self).wf(),
        ensures
            final(self).wf(),
            final(self).counter() == old(self).counter(),
            old(self).manager_spec() is None ==> (r matches Err(e) && e@ == "Protocol not initialized"@),
            old(self).manager_spec() is Some && named_message_type(message_type@) is None ==> (r matches Err(e)
                && e@ == "Unknown message type: "@ + message_type@),
            old(self).manager_spec() is Some && !old(self).manager_spec()->0.sessions().contains_key(session_id@)
                && sendable(message_type@) ==> (r matches Err(e) && e@ == "Failed to send message: "@
                + "Session error: "@ + "Session not found: "@ + session_id@) && final(self).manager_spec() is Some
                && final(self).manager_spec()->0.sessions() == old(self).manager_spec()->0.sessions(),
            old(self).manager_spec() is Some && old(self).manager_spec()->0.sessions().contains_key(session_id@)
                && sendable(message_type@) ==> ({
                let m = old(self).manager_spec()->0;
                let n = final(self).manager_spec()->0;
                &&& final(self).manager_spec() is Some
                &&& n.config_spec() == m.config_spec()
                &&& n.sessions().dom() == m.sessions().dom()
                &&& forall|k: Seq<char>|
                    k != session_id@ && #[trigger] m.sessions().contains_key(k) ==> n.sessions()[k] == m.sessions()[k]
                &&& exists|msg: ProtocolMessage, res: crate::protocol::ProtocolResult<()>|
                    {
                        &&& #[trigger] send_effect(m.sessions()[session_id@]@, n.sessions()[session_id@]@, msg, res)
                        &&& msg.header.message_type == named_message_type(message_type@)->0
                        &&& (msg.header.session_id matches Some(s) && s@ == session_id@)
                        &&& (res is Ok ==> (r matches Ok(t) && t@ == "Message sent to session "@ + session_id@))
                        &&& (res matches Err(e) ==> (r matches Err(t) && t@ == "Failed to send message: "@
                            + protocol_error_text(e)))
                    }
            }),
            !sendable(message_type@) ==> final(self).manager_spec() == old(self).manager_spec(),
    {
        let mut manager = match self.manager.take() {
            Some(m) => m,
            None => {
                return Err(string_from("Protocol not initialized"));
            },
        };
        let ghost old_m = manager;
        let key = session_id.clone();
        let message = match plugin_message(message_type, session_id) {
            Ok(m) => m,
            Err(e) => {
                self.manager = Some(manager);
                return Err(e);
            },
        };
        let ghost msg = message;
        let res = manager.send_message(key.as_str(), message);
        self.manager = Some(manager);
        proof {
            assert(key@ == session_id@);
            if old_m.sessions().contains_key(key@) {
                assert(send_effect(old_m.sessions()[key@]@, manager.sessions()[key@]@, msg, res));
                assert(msg.header.message_type == named_message_type(message_type@)->0);
                assert(msg.header.session_id matches Some(s) && s@ == session_id@);
            }
        }
        let r = match res {
            Ok(()) => {
                let mut reply = string_from("Message sent to session ");
                append_str(&mut reply, key.as_str());
                Ok(reply)
            },
            Err(e) => {
                let mut m = string_from("Failed to send message: ");
                append_str(&mut m, e.to_text().as_str());
                proof {
                    if !old_m.sessions().contains_key(key@) {
                        assert(m@ =~= "Failed to send message: "@ + "Session error: "@ + "Session not found: "@
                            + key@);
                    }
                }
                Err(m)
            },
        };
        proof {
            if old_m.sessions().contains_key(session_id@) && sendable(message_type@) {
                let m = old(self).manager_spec()->0;
                let n = self.manager_spec()->0;
                assert(m == old_m);
                assert(n == manager);
                assert(send_effect(m.sessions()[session_id@]@, n.sessions()[session_id@]@, msg, res));
                assert(res is Ok ==> (r matches Ok(t) && t@ == "Message sent to session "@ + session_id@));
                assert(res matches Err(e) ==> (r matches Err(t) && t@ == "Failed to send message: "@
                    + protocol_error_text(e)));
            }
        }
        r
    }

    /// The plugin's status.
    pub fn get_protocol_status(&self) -> (r: ProtocolStatus)
        requires
            self.wf(),
        ensures
            r.is_initialized == self.manager_spec() is Some,
            r.active_sessions == match self.manager_spec() {
                Some(m) => m.sessions().len(),
                None => 0,
            },
            r.total_sessions == self.counter(),
    {
        let active_sessions = match &self.manager {
            Some(m) => m.active_sessions(),
            None => 0,
        };
        ProtocolStatus {
            is_initialized: self.manager.is_some(),
            active_sessions,
            total_sessions: self.session_counter,
        }
    }

    /// Takes the protocol down: its sessions are closed.
    pub fn shutdown_protocol(&mut self) -> (r: Result<String, String>)
        requires
            old(self).wf(),
        ensures
            final(self).wf(),
            final(self).manager_spec() is None,
            final(self).counter() == old(self).counter(),
            old(self).manager_spec() is Some ==> (r matches Ok(m) && m@ == "Protocol shutdown successfully"@),
            old(self).manager_spec() is None ==> (r matches Ok(m) && m@ == "Protocol was not running"@),
    {
        match self.manager.take() {
            Some(mut manager) => {
                match manager.stop() {
                    Ok(()) => Ok(string_from("Protocol shutdown successfully")),
                    Err(e) => {
                        let mut m = string_from("Failed to stop protocol manager: ");
                        append_str(&mut m, e.to_text().as_str());
                        Err(m)
                    },
                }
            },
            None => Ok(string_from("Protocol was not running")),
        }
    }
}

} // verus!
