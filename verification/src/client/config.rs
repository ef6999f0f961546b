//! The client's configuration file, and its conversions to and from the
//! client configuration.

use vstd::prelude::*;
use crate::client::{ClientConfig, ClientResult};
use crate::kvm_core::types::NetworkAddress;
use crate::text::string_from;

verus! {

/// Client configuration file.
#[derive(Debug, Clone)]
pub struct ClientConfigFile {
    pub client: ClientConfigData,
}

/// Client configuration data.
#[derive(Debug, Clone)]
pub struct ClientConfigData {
    pub name: String,
    pub server_address: String,
    pub server_port: u16,
    pub auto_connect: bool,
    pub reconnect_attempts: u32,
    pub reconnect_delay: u64,
    pub session_timeout: u64,
    pub heartbeat_interval: u64,
    pub enable_discovery: bool,
    pub enable_security: bool,
}

/// Whether the file data `d` and the client configuration `c` say the same.
pub open spec fn client_config_agrees(d: ClientConfigData, c: ClientConfig) -> bool {
    &&& d.name@ == c.client_name@
    &&& d.server_address@ == c.server_address.ip@
    &&& d.server_port == c.server_address.port
    &&& d.auto_connect == c.auto_connect
    &&& d.reconnect_attempts == c.reconnect_attempts
    &&& d.reconnect_delay == c.reconnect_delay
    &&& d.session_timeout == c.session_timeout
    &&& d.heartbeat_interval == c.heartbeat_interval
    &&& d.enable_discovery == c.enable_discovery
    &&& d.enable_security == c.enable_security
}

impl Default for ClientConfigFile {
    /// "Soft KVM Client" for the server at 127.0.0.1:8080; no automatic
    /// connection, three reconnect attempts 5 s apart, 300 s sessions, a
    /// 30 s heartbeat, discovery and security on.
    fn default() -> (r: Self)
        ensures
            r.client.name@ == "Soft KVM Client"@,
            r.client.server_address@ == "127.0.0.1"@,
            r.client.server_port == 8080,
            !r.client.auto_connect,
            r.client.reconnect_attempts == 3,
            r.client.reconnect_delay == 5,
            r.client.session_timeout == 300,
            r.client.heartbeat_interval == 30,
            r.client.enable_discovery,
            r.client.enable_security,
    {
        ClientConfigFile {
            client: ClientConfigData {
                name: string_from("Soft KVM Client"),
                server_address: string_from("127.0.0.1"),
                server_port: 8080,
                auto_connect: false,
                reconnect_attempts: 3,
                reconnect_delay: 5,
                session_timeout: 300,
                heartbeat_interval: 30,
                enable_discovery: true,
                enable_security: true,
            },
        }
    }
}

impl ClientConfigFile {
    /// The client configuration the file describes; this does not fail.
    pub fn to_client_config(&self) -> (r: ClientResult<ClientConfig>)
        ensures
            r matches Ok(c) && client_config_agrees(self.client, c),
    {
        Ok(ClientConfig {
            client_name: self.client.name.clone(),
            server_address: NetworkAddress {
                ip: self.client.server_address.clone(),
                port: self.client.server_port,
            },
            auto_connect: self.client.auto_connect,
            reconnect_attempts: self.client.reconnect_attempts,
            reconnect_delay: self.client.reconnect_delay,
            session_timeout: self.client.session_timeout,
            heartbeat_interval: self.client.heartbeat_interval,
            enable_discovery: self.client.enable_discovery,
            enable_security: self.client.enable_security,
        })
    }

    /// The file that describes a client configuration.
    pub fn from(config: ClientConfig) -> (r: Self)
        ensures
            client_config_agrees(r.client, config),
    {
        ClientConfigFile {
            client: ClientConfigData {
                name: config.client_name,
                server_address: config.server_address.ip,
                server_port: config.server_address.port,
                auto_connect: config.auto_connect,
                reconnect_attempts: config.reconnect_attempts,
                reconnect_delay: config.reconnect_delay,
                session_timeout: config.session_timeout,
                heartbeat_interval: config.heartbeat_interval,
                enable_discovery: config.enable_discovery,
                enable_security: config.enable_security,
            },
        }
    }
}

/// The client configuration file and the client configuration hold the
/// same information: a file read into a configuration and written back, and
/// a configuration written to a file and read back, come out as they went
/// in, field by field.
pub proof fn client_config_round_trip(
    d: ClientConfigData,
    c: ClientConfig,
    d2: ClientConfigData,
    c2: ClientConfig,
)
    requires
        client_config_agrees(d, c),
        client_config_agrees(d2, c),
        client_config_agrees(d, c2),
    ensures
        d2.name@ == d.name@ && d2.server_address@ == d.server_address@ && d2.server_port == d.server_port
            && d2.auto_connect == d.auto_connect && d2.reconnect_attempts == d.reconnect_attempts
            && d2.reconnect_delay == d.reconnect_delay && d2.session_timeout == d.session_timeout
            && d2.heartbeat_interval == d.heartbeat_interval && d2.enable_discovery
            == d.enable_discovery && d2.enable_security == d.enable_security,
        c2.client_name@ == c.client_name@ && c2.server_address.ip@ == c.server_address.ip@
            && c2.server_address.port == c.server_address.port && c2.auto_connect == c.auto_connect
            && c2.reconnect_attempts == c.reconnect_attempts && c2.reconnect_delay == c.reconnect_delay
            && c2.session_timeout == c.session_timeout && c2.heartbeat_interval == c.heartbeat_interval
            && c2.enable_discovery == c.enable_discovery && c2.enable_security == c.enable_security,
{
}

} // verus!
