//! The KVM server: its configuration, its lifecycle, the handling of client
//! messages and a registry of servers.

pub mod config;
pub mod handler;
pub mod manager;

use vstd::prelude::*;
use crate::kvm_core::types::{InputConfig, NetworkAddress, VideoConfig};
use crate::kvm_core::utils::{default_input_config, default_video_config, UNIT_SENSITIVITY_BITS};
use crate::platform::PlatformError;
use crate::protocol::manager::ProtocolManager;
use crate::protocol::{ProtocolConfig, ProtocolError, PROTOCOL_VERSION};
use crate::text::string_from;

verus! {

/// Server errors. I/O and serialization errors carry the message of the
/// underlying error.
#[derive(Debug, Clone)]
pub enum ServerError {
    Protocol(ProtocolError),
    Platform(PlatformError),
    Io(String),
    Config(String),
    Authentication(String),
    Session(String),
    Serialization(String),
    Generic(String),
}

/// Server result type.
pub type ServerResult<T> = Result<T, ServerError>;

/// KVM server configuration. Timeouts and intervals are in seconds.
#[derive(Debug, Clone)]
pub struct ServerConfig {
    pub server_name: String,
    pub bind_address: NetworkAddress,
    pub max_clients: usize,
    pub session_timeout: u64,
    pub heartbeat_interval: u64,
    pub enable_discovery: bool,
    pub enable_security: bool,
    pub video_config: VideoConfig,
    pub input_config: InputConfig,
}

impl Default for ServerConfig {
    /// "Soft KVM Server" on 127.0.0.1:8080, five clients, sessions time out
    /// after 5 minutes, a heartbeat every 30 s, discovery and security on,
    /// the default video and input settings.
    fn default() -> (r: Self)
        ensures
            r.server_name@ == "Soft KVM Server"@,
            r.bind_address.ip@ == "127.0.0.1"@,
            r.bind_address.port == 8080,
            r.max_clients == 5,
            r.session_timeout == 300,
            r.heartbeat_interval == 30,
            r.enable_discovery,
            r.enable_security,
            r.video_config.resolution.width == 1920,
            r.video_config.resolution.height == 1080,
            r.video_config.fps == 30,
            r.video_config.quality.resolution@ == "1920x1080"@,
            r.video_config.quality.fps == 30,
            r.video_config.quality.bitrate == 5000,
            r.video_config.compression,
            r.input_config.enable_keyboard,
            r.input_config.enable_mouse,
            r.input_config.keyboard_layout@ == "us"@,
            r.input_config.mouse_sensitivity_bits == UNIT_SENSITIVITY_BITS,
    {
        ServerConfig {
            server_name: string_from("Soft KVM Server"),
            bind_address: NetworkAddress::localhost(8080),
            max_clients: 5,
            session_timeout: 300,
            heartbeat_interval: 30,
            enable_discovery: true,
            enable_security: true,
            video_config: default_video_config(),
            input_config: default_input_config(),
        }
    }
}

/// The protocol settings a server runs with: the protocol version, 1 MiB
/// messages, compression, and the server's heartbeat and session timeout.
pub open spec fn server_protocol_config(p: ProtocolConfig, config: ServerConfig) -> bool {
    &&& p.version@ == PROTOCOL_VERSION@
    &&& p.max_message_size == 1024 * 1024
    &&& p.heartbeat_interval == config.heartbeat_interval
    &&& p.session_timeout == config.session_timeout
    &&& p.compression_enabled
}

/// Server status information.
#[derive(Debug, Clone)]
pub struct ServerStatus {
    pub is_running: bool,
    pub server_name: String,
    pub bind_address: NetworkAddress,
    pub active_sessions: usize,
    pub max_clients: usize,
    pub platform_supported: bool,
}

/// A KVM server: its configuration, its protocol sessions, whether the
/// platform can capture input, and whether it runs. The caller starts and
/// stops the platform capture and the network listener.
pub struct KvmServer {
    config: ServerConfig,
    protocol: ProtocolManager,
    platform_supported: bool,
    is_running: bool,
}

impl KvmServer {
    pub closed spec fn config_spec(&self) -> ServerConfig {
        self.config
    }

    pub closed spec fn protocol_spec(&self) -> ProtocolManager {
        self.protocol
    }

    pub closed spec fn platform_supported_spec(&self) -> bool {
        self.platform_supported
    }

    pub closed spec fn is_running(&self) -> bool {
        self.is_running
    }

    /// The server's internal invariant.
    pub closed spec fn wf(&self) -> bool {
        self.protocol.wf()
    }

    /// A stopped server with no session, whose protocol settings follow its
    /// configuration.
    pub fn new(config: ServerConfig, platform_supported: bool) -> (r: ServerResult<Self>)
        ensures
            r matches Ok(s) && {
                &&& s.wf()
                &&& s.config_spec() == config
                &&& s.platform_supported_spec() == platform_supported
                &&& !s.is_running()
                &&& server_protocol_config(s.protocol_spec().config_spec(), config)
                &&& s.protocol_spec().sessions() == Map::<Seq<char>, crate::protocol::session::ProtocolSession>::empty()
            },
    {
        let protocol_config = ProtocolConfig {
            version: string_from(PROTOCOL_VERSION),
            max_message_size: 1024 * 1024,
            heartbeat_interval: config.heartbeat_interval,
            session_timeout: config.session_timeout,
            compression_enabled: true,
        };
        Ok(KvmServer {
            config,
            protocol: ProtocolManager::new(protocol_config),
            platform_supported,
            is_running: false,
        })
    }

    /// Marks the server running. A server that already runs is refused.
    pub fn begin_start(&mut self) -> (r: ServerResult<()>)
        ensures
            final(self).config_spec() == old(self).config_spec(),
            final(self).protocol_spec() == old(self).protocol_spec(),
            final(self).platform_supported_spec() == old(self).platform_supported_spec(),
            final(self).is_running(),
            old(self).is_running() ==> (r matches Err(ServerError::Generic(m))
                && m@ == "Server already running"@),
            !old(self).is_running() ==> r is Ok,
    {
        if self.is_running {
            return Err(ServerError::Generic(string_from("Server already running")));
        }
        self.is_running = true;
        Ok(())
    }

    /// Marks the server stopped and drops its sessions; returns whether it
    /// was running, that is whether the caller has a capture and a listener
    /// to stop. A stopped server is left as it is.
    pub fn begin_stop(&mut self) -> (r: bool)
        requires
            old(self).wf(),
        ensures
            final(self).wf(),
            r == old(self).is_running(),
            !final(self).is_running(),
            final(self).config_spec() == old(self).config_spec(),
            final(self).platform_supported_spec() == old(self).platform_supported_spec(),
            final(self).protocol_spec().config_spec() == old(self).protocol_spec().config_spec(),
            r ==> final(self).protocol_spec().sessions() == Map::<
                Seq<char>,
                crate::protocol::session::ProtocolSession,
            >::empty(),
            !r ==> final(self).protocol_spec() == old(self).protocol_spec(),
    {
        if !self.is_running {
            return false;
        }
        self.is_running = false;
        let _ = self.protocol.stop();
        true
    }

    /// The server's status.
    pub fn status(&self) -> (r: ServerResult<ServerStatus>)
        requires
            self.wf(),
        ensures
            r matches Ok(st) && {
                &&& st.is_running == self.is_running()
                &&& st.server_name@ == self.config_spec().server_name@
                &&& st.bind_address.ip@ == self.config_spec().bind_address.ip@
                &&& st.bind_address.port == self.config_spec().bind_address.port
                &&& st.active_sessions == self.protocol_spec().sessions().len()
                &&& st.max_clients == self.config_spec().max_clients
                &&& st.platform_supported == self.platform_supported_spec()
            },
    {
        Ok(ServerStatus {
            is_running: self.is_running,
            server_name: self.config.server_name.clone(),
            bind_address: NetworkAddress {
                ip: self.config.bind_address.ip.clone(),
                port: self.config.bind_address.port,
            },
            active_sessions: self.protocol.active_sessions(),
            max_clients: self.config.max_clients,
            platform_supported: self.platform_supported,
        })
    }

    /// The server configuration.
    pub fn config(&self) -> (r: &ServerConfig)
        ensures
            *r == self.config_spec(),
    {
        &self.config
    }

    /// The protocol sessions.
    pub fn protocol(&self) -> (r: &ProtocolManager)
        ensures
            *r == self.protocol_spec(),
    {
        &self.protocol
    }

    /// The protocol sessions, to change.
    pub fn protocol_mut(&mut self) -> (r: &mut ProtocolManager)
        ensures
            *r == old(self).protocol_spec(),
            final(self).protocol_spec() == *final(r),
            final(self).config_spec() == old(self).config_spec(),
            final(self).platform_supported_spec() == old(self).platform_supported_spec(),
            final(self).is_running() == old(self).is_running(),
    {
        &mut self.protocol
    }
}

} // verus!
