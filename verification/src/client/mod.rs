//! The KVM client: its configuration, the state of its connection to a
//! server, the messages it sends, how it answers the server, and a
//! registry of clients.

pub mod config;
pub mod handler;
pub mod manager;

use vstd::prelude::*;
use crate::bridge::{current_username, new_uuid, uuid_text};
use crate::kvm_core::types::NetworkAddress;
use crate::platform::PlatformError;
use crate::protocol::endpoint::ProtocolClient;
use crate::protocol::manager::ProtocolManager;
use crate::protocol::messages::{
    ClientInfo, GoodbyePayload, HelloPayload, InputEventPayload, MessagePayload, MessageType,
    ProtocolMessage, fresh_header, is_uuid_text, session_message,
};
use crate::protocol::session::ProtocolSession;
use crate::protocol::{ProtocolConfig, ProtocolError, PROTOCOL_VERSION};
use crate::text::{append_str, string_from};

verus! {

/// Client errors. I/O and serialization errors carry the message of the
/// underlying error.
#[derive(Debug, Clone)]
pub enum ClientError {
    Protocol(ProtocolError),
    Platform(PlatformError),
    Io(String),
    Serialization(String),
    Config(String),
    Connection(String),
    Authentication(String),
    Generic(String),
}

/// Client result type.
pub type ClientResult<T> = Result<T, ClientError>;

/// KVM client configuration. The reconnect delay, timeout and interval are
/// in seconds.
#[derive(Debug, Clone)]
pub struct ClientConfig {
    pub client_name: String,
    pub server_address: NetworkAddress,
    pub auto_connect: bool,
    pub reconnect_attempts: u32,
    pub reconnect_delay: u64,
    pub session_timeout: u64,
    pub heartbeat_interval: u64,
    pub enable_discovery: bool,
    pub enable_security: bool,
}

impl Default for ClientConfig {
    /// "Soft KVM Client (user)", after the user running the process, for the
    /// server at 127.0.0.1:8080; no automatic connection, three reconnect
    /// attempts 5 s apart, 300 s sessions, a 30 s heartbeat, discovery and
    /// security on.
    fn default() -> (r: Self)
        ensures
            exists|user: Seq<char>| r.client_name@ == "Soft KVM Client ("@ + user + ")"@,
            r.server_address.ip@ == "127.0.0.1"@,
            r.server_address.port == 8080,
            !r.auto_connect,
            r.reconnect_attempts == 3,
            r.reconnect_delay == 5,
            r.session_timeout == 300,
            r.heartbeat_interval == 30,
            r.enable_discovery,
            r.enable_security,
    {
        let user = current_username();
        let mut name = string_from("Soft KVM Client (");
        append_str(&mut name, user.as_str());
        append_str(&mut name, ")");
        ClientConfig {
            client_name: name,
            server_address: NetworkAddress::localhost(8080),
            auto_connect: false,
            reconnect_attempts: 3,
            reconnect_delay: 5,
            session_timeout: 300,
            heartbeat_interval: 30,
            enable_discovery: true,
            enable_security: true,
        }
    }
}

/// Client status information.
#[derive(Debug, Clone)]
pub struct ClientStatus {
    pub is_connected: bool,
    pub client_name: String,
    pub server_address: NetworkAddress,
    pub session_id: Option<String>,
    pub platform_supported: bool,
}

/// Whether `m` is the hello of a client named `name`: protocol 1.0.0, a
/// fresh UUID as client id, the given platform and version, video and
/// input.
pub open spec fn is_hello(m: ProtocolMessage, name: Seq<char>, platform: Seq<char>, version: Seq<char>) -> bool {
    &&& fresh_header(m.header, MessageType::Hello)
    &&& m.payload matches MessagePayload::Hello(h) && {
        &&& h.protocol_version@ == PROTOCOL_VERSION@
        &&& is_uuid_text(h.client_info.client_id@)
        &&& h.client_info.client_name@ == name
        &&& h.client_info.platform@ == platform
        &&& h.client_info.version@ == version
        &&& h.capabilities@.len() == 2
        &&& h.capabilities@[0]@ == "video"@
        &&& h.capabilities@[1]@ == "input"@
    }
}

/// What disconnecting a client involves.
#[derive(Debug, Clone)]
pub enum DisconnectPlan {
    /// The client is not connected: nothing to do.
    NotConnected,
    /// Send the goodbye, if any, then drop the connection.
    Proceed { goodbye: Option<ProtocolMessage> },
}

/// A KVM client: its configuration, its protocol sessions, the link to the
/// server, whether the platform can capture input, whether it is
/// connected, and the session the server gave it. The caller runs the
/// network side and the platform capture.
pub struct KvmClient {
    config: ClientConfig,
    protocol: ProtocolManager,
    link: Option<ProtocolClient>,
    platform_supported: bool,
    is_connected: bool,
    session_id: Option<String>,
}

impl KvmClient {
    pub closed spec fn config_spec(&self) -> ClientConfig {
        self.config
    }

    pub closed spec fn protocol_spec(&self) -> ProtocolManager {
        self.protocol
    }

    pub closed spec fn link_spec(&self) -> Option<ProtocolClient> {
        self.link
    }

    pub closed spec fn platform_supported_spec(&self) -> bool {
        self.platform_supported
    }

    pub closed spec fn is_connected(&self) -> bool {
        self.is_connected
    }

    pub closed spec fn session_id_spec(&self) -> Option<String> {
        self.session_id
    }

    /// The client's internal invariant.
    pub closed spec fn wf(&self) -> bool {
        self.protocol.wf()
    }

    /// A client that is not connected, with no link and no session, whose
    /// protocol settings follow its configuration.
    pub fn new(config: ClientConfig, platform_supported: bool) -> (r: ClientResult<Self>)
        ensures
            r matches Ok(c) && {
                &&& c.wf()
                &&& c.config_spec() == config
                &&& c.platform_supported_spec() == platform_supported
                &&& !c.is_connected()
                &&& c.link_spec() is None
                &&& c.session_id_spec() is None
                &&& c.protocol_spec().config_spec().version@ == PROTOCOL_VERSION@
                &&& c.protocol_spec().config_spec().max_message_size == 1024 * 1024
                &&& c.protocol_spec().config_spec().heartbeat_interval == config.heartbeat_interval
                &&& c.protocol_spec().config_spec().session_timeout == config.session_timeout
                &&& c.protocol_spec().config_spec().compression_enabled
                &&& c.protocol_spec().sessions() == Map::<Seq<char>, ProtocolSession>::empty()
            },
    {
        let protocol_config = ProtocolConfig {
            version: string_from(PROTOCOL_VERSION),
            max_message_size: 1024 * 1024,
            heartbeat_interval: config.heartbeat_interval,
            session_timeout: config.session_timeout,
            compression_enabled: true,
        };
        Ok(KvmClient {
            config,
            protocol: ProtocolManager::new(protocol_config),
            link: None,
            platform_supported,
            is_connected: false,
            session_id: None,
        })
    }

    /// Whether a connection may be opened: not while connected.
    pub fn begin_connect(&self) -> (r: ClientResult<()>)
        ensures
            self.is_connected() ==> (r matches Err(ClientError::Generic(m))
                && m@ == "Client already connected"@),
            !self.is_connected() ==> r is Ok,
    {
        if self.is_connected {
            Err(ClientError::Generic(string_from("Client already connected")))
        } else {
            Ok(())
        }
    }

    /// The transport connection to the server at `ip`:`port` is up: the
    /// client gets a new link with its session (see
    /// `ProtocolClient::on_connected`).
    pub fn attach_link(&mut self, ip: String, port: u16)
        ensures
            final(self).config_spec() == old(self).config_spec(),
            final(self).protocol_spec() == old(self).protocol_spec(),
            final(self).platform_supported_spec() == old(self).platform_supported_spec(),
            final(self).is_connected() == old(self).is_connected(),
            final(self).session_id_spec() == old(self).session_id_spec(),
            final(self).link_spec() matches Some(l) && l.is_connected() && l.config_spec()
                == old(self).protocol_spec().config_spec() && l.session_spec() is Some,
    {
        let mut link = ProtocolClient::new(self.protocol.config().duplicate());
        link.on_connected(ip, port);
        self.link = Some(link);
    }

    /// Whether a message may be sent to the server: there must be a link,
    /// and it must be connected.
    pub fn check_link(&self) -> (r: ClientResult<()>)
        ensures
            match self.link_spec() {
                None => r matches Err(ClientError::Protocol(ProtocolError::Transport(m)))
                    && m@ == "Client not connected"@,
                Some(l) => if l.is_connected() {
                    r is Ok
                } else {
                    r matches Err(ClientError::Protocol(ProtocolError::Transport(m)))
                        && m@ == "Not connected"@
                },
            },
    {
        match &self.link {
            None => Err(ClientError::Protocol(ProtocolError::Transport(string_from("Client not connected")))),
            Some(l) => match l.check_connected() {
                Ok(()) => Ok(()),
                Err(e) => Err(ClientError::Protocol(e)),
            },
        }
    }

    /// The hello the client sends once connected, naming its platform and
    /// version.
    pub fn hello_message(&self, platform: &str, version: &str) -> (r: ProtocolMessage)
        ensures
            is_hello(r, self.config_spec().client_name@, platform@, version@),
    {
        let mut caps: Vec<String> = Vec::new();
        caps.push(string_from("video"));
        caps.push(string_from("input"));
        let hello = HelloPayload {
            protocol_version: string_from(PROTOCOL_VERSION),
            client_info: ClientInfo {
                client_id: uuid_text(new_uuid()),
                client_name: self.config.client_name.clone(),
                platform: string_from(platform),
                version: string_from(version),
            },
            capabilities: caps,
        };
        ProtocolMessage::new(MessageType::Hello, MessagePayload::Hello(hello))
    }

    /// The hello went out: the client is connected.
    pub fn finish_connect(&mut self)
        ensures
            final(self).config_spec() == old(self).config_spec(),
            final(self).protocol_spec() == old(self).protocol_spec(),
            final(self).link_spec() == old(self).link_spec(),
            final(self).platform_supported_spec() == old(self).platform_supported_spec(),
            final(self).session_id_spec() == old(self).session_id_spec(),
            final(self).is_connected(),
    {
        self.is_connected = true;
    }

    /// What disconnecting involves: nothing when not connected; otherwise a
    /// goodbye ("Client disconnecting", code 1000) for the session, if the
    /// client has one.
    pub fn disconnect_plan(&self) -> (r: DisconnectPlan)
        ensures
            !self.is_connected() ==> r is NotConnected,
            self.is_connected() ==> (r matches DisconnectPlan::Proceed { goodbye } && match self.session_id_spec() {
                None => goodbye is None,
                Some(sid) => goodbye matches Some(m) && session_message(
                    m,
                    MessageType::Goodbye,
                    MessagePayload::Goodbye(
                        GoodbyePayload { reason: (m.payload->Goodbye_0).reason, code: 1000 },
                    ),
                    sid@,
                ) && (m.payload->Goodbye_0).reason@ == "Client disconnecting"@,
            }),
    {
        if !self.is_connected {
            return DisconnectPlan::NotConnected;
        }
        match &self.session_id {
            None => DisconnectPlan::Proceed { goodbye: None },
            Some(sid) => {
                let payload = MessagePayload::Goodbye(
                    GoodbyePayload { reason: string_from("Client disconnecting"), code: 1000 },
                );
                let m = ProtocolMessage::for_session(MessageType::Goodbye, payload, sid.clone());
                DisconnectPlan::Proceed { goodbye: Some(m) }
            },
        }
    }

    /// Takes the link, for the caller to close its transport connection.
    pub fn detach_link(&mut self) -> (r: Option<ProtocolClient>)
        ensures
            r == old(self).link_spec(),
            final(self).config_spec() == old(self).config_spec(),
            final(self).protocol_spec() == old(self).protocol_spec(),
            final(self).platform_supported_spec() == old(self).platform_supported_spec(),
            final(self).is_connected() == old(self).is_connected(),
            final(self).session_id_spec() == old(self).session_id_spec(),
            final(self).link_spec() is None,
    {
        let mut link = None;
        std::mem::swap(&mut link, &mut self.link);
        link
    }

    /// The connection is gone: the protocol sessions are closed and
    /// dropped, and the client is neither connected nor in a session.
    pub fn finish_disconnect(&mut self)
        requires
            old(self).wf(),
        ensures
            final(self).wf(),
            !final(self).is_connected(),
            final(self).session_id_spec() is None,
            final(self).protocol_spec().sessions() == Map::<Seq<char>, ProtocolSession>::empty(),
            final(self).protocol_spec().config_spec() == old(self).protocol_spec().config_spec(),
            final(self).config_spec() == old(self).config_spec(),
            final(self).link_spec() == old(self).link_spec(),
            final(self).platform_supported_spec() == old(self).platform_supported_spec(),
    {
        let _ = self.protocol.stop();
        self.is_connected = false;
        self.session_id = None;
    }

    /// The message that carries an input event (its JSON text) of the given
    /// type name to the server. Refused when not connected, and when there
    /// is no session.
    fn input_event_message(&self, event_type: &str, data: String) -> (r: ClientResult<ProtocolMessage>)
        ensures
            !self.is_connected() ==> (r matches Err(ClientError::Connection(m))
                && m@ == "Not connected to server"@),
            self.is_connected() && self.session_id_spec() is None ==> (r matches Err(
                ClientError::Connection(m),
            ) && m@ == "No active session"@),
            self.is_connected() && self.session_id_spec() is Some ==> (r matches Ok(m) && session_message(
                m,
                MessageType::InputEvent,
                MessagePayload::InputEvent(InputEventPayload {
                    event_type: (m.payload->InputEvent_0).event_type,
                    data: (m.payload->InputEvent_0).data,
                }),
                self.session_id_spec()->0@,
            ) && (m.payload->InputEvent_0).event_type@ == event_type@ && (m.payload->InputEvent_0).data@
                == data@),
    {
        if !self.is_connected {
            return Err(ClientError::Connection(string_from("Not connected to server")));
        }
        match &self.session_id {
            None => Err(ClientError::Connection(string_from("No active session"))),
            Some(sid) => {
                let payload = MessagePayload::InputEvent(
                    InputEventPayload { event_type: string_from(event_type), data },
                );
                Ok(ProtocolMessage::for_session(MessageType::InputEvent, payload, sid.clone()))
            },
        }
    }

    /// The message that carries a keyboard event (its JSON text) to the
    /// server, as the `keyboard` input type.
    pub fn keyboard_event_message(&self, event_json: String) -> (r: ClientResult<ProtocolMessage>)
        ensures
            !self.is_connected() ==> (r matches Err(ClientError::Connection(m))
                && m@ == "Not connected to server"@),
            self.is_connected() && self.session_id_spec() is None ==> (r matches Err(
                ClientError::Connection(m),
            ) && m@ == "No active session"@),
            self.is_connected() && self.session_id_spec() is Some ==> (r matches Ok(m) && {
                &&& m.header.message_type == MessageType::InputEvent
                &&& m.header.session_id matches Some(s) && s@ == self.session_id_spec()->0@
                &&& m.payload matches MessagePayload::InputEvent(p) && p.event_type@ == "keyboard"@
                    && p.data@ == event_json@
            }),
    {
        self.input_event_message("keyboard", event_json)
    }

    /// The message that carries a mouse event (its JSON text) to the
    /// server, as the `mouse` input type.
    pub fn mouse_event_message(&self, event_json: String) -> (r: ClientResult<ProtocolMessage>)
        ensures
            !self.is_connected() ==> (r matches Err(ClientError::Connection(m))
                && m@ == "Not connected to server"@),
            self.is_connected() && self.session_id_spec() is None ==> (r matches Err(
                ClientError::Connection(m),
            ) && m@ == "No active session"@),
            self.is_connected() && self.session_id_spec() is Some ==> (r matches Ok(m) && {
                &&& m.header.message_type == MessageType::InputEvent
                &&& m.header.session_id matches Some(s) && s@ == self.session_id_spec()->0@
                &&& m.payload matches MessagePayload::InputEvent(p) && p.event_type@ == "mouse"@
                    && p.data@ == event_json@
            }),
    {
        self.input_event_message("mouse", event_json)
    }

    /// The client's status.
    pub fn status(&self) -> (r: ClientResult<ClientStatus>)
        ensures
            r matches Ok(st) && {
                &&& st.is_connected == self.is_connected()
                &&& st.client_name@ == self.config_spec().client_name@
                &&& st.server_address.ip@ == self.config_spec().server_address.ip@
                &&& st.server_address.port == self.config_spec().server_address.port
                &&& match self.session_id_spec() {
                    Some(s) => st.session_id matches Some(t) && t@ == s@,
                    None => st.session_id is None,
                }
                &&& st.platform_supported == self.platform_supported_spec()
            },
    {
        let session_id = match &self.session_id {
            Some(s) => Some(s.clone()),
            None => None,
        };
        Ok(ClientStatus {
            is_connected: self.is_connected,
            client_name: self.config.client_name.clone(),
            server_address: NetworkAddress {
                ip: self.config.server_address.ip.clone(),
                port: self.config.server_address.port,
            },
            session_id,
            platform_supported: self.platform_supported,
        })
    }

    /// The client configuration.
    pub fn config(&self) -> (r: &ClientConfig)
        ensures
            *r == self.config_spec(),
    {
        &self.config
    }

    /// Sets the session the server gave the client, or clears it.
    pub fn set_session_id(&mut self, session_id: Option<String>)
        ensures
            final(self).config_spec() == old(self).config_spec(),
            final(self).protocol_spec() == old(self).protocol_spec(),
            final(self).link_spec() == old(self).link_spec(),
            final(self).platform_supported_spec() == old(self).platform_supported_spec(),
            final(self).is_connected() == old(self).is_connected(),
            final(self).session_id_spec() == session_id,
    {
        self.session_id = session_id;
    }
}

} // verus!
