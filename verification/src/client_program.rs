//! The client program: which server it connects to (an address given on
//! the command line, else a server found by name on the LAN, else the local
//! host) and what it lists of the servers it has seen.

use vstd::prelude::*;
use crate::discovery::resolver::{available_at, address_from_text, parse_address_text, ServiceResolver};
use crate::discovery::service::{expired_at, ServiceInfo, ServiceType};
use crate::kvm_common::network::{ip_text, push_ip};
use crate::kvm_common::types::{IpAddress, NetworkAddress};
use crate::text::{append_str, decimal, push_char, push_decimal, string_from};

use crate::kvm_core::types::Timestamp;

verus! {

/// How the client program runs: where the server is (an address, or a name
/// to look for on the LAN), its own name, and what it does.
#[derive(Debug, Clone)]
pub struct ClientConfig {
    pub server_address: Option<NetworkAddress>,
    pub server_name: Option<String>,
    pub client_name: String,
    pub auto_discovery: bool,
    pub video_enabled: bool,
    pub input_enabled: bool,
}

impl ClientConfig {
    /// The defaults under a client name: no server address or name, with
    /// discovery, video and input.
    pub fn named(client_name: String) -> (r: Self)
        ensures
            r.server_address is None,
            r.server_name is None,
            r.client_name == client_name,
            r.auto_discovery,
            r.video_enabled,
            r.input_enabled,
    {
        ClientConfig {
            server_address: None,
            server_name: None,
            client_name,
            auto_discovery: true,
            video_enabled: true,
            input_enabled: true,
        }
    }
}

/// The server address a `--server` argument gives: `ip:port` with a
/// dotted IPv4 address and a `u16` port, else none.
pub open spec fn server_argument(s: Seq<char>) -> Option<NetworkAddress> {
    match address_from_text(s) {
        Ok(a) => Some(a),
        Err(_) => None,
    }
}

/// Reads a `--server` argument.
pub fn parse_server_argument(arg: &str) -> (r: Option<NetworkAddress>)
    ensures
        r == server_argument(arg@),
{
    match parse_address_text(arg) {
        Ok(a) => Some(a),
        Err(_) => None,
    }
}

/// Whether a service is a server of the given name.
pub open spec fn is_server_named(s: ServiceInfo, name: Seq<char>) -> bool {
    s.name@ == name && s.service_type == ServiceType::Server
}

/// The address the client connects to: the address it was given; else the
/// first server of the given name among the services seen (where there
/// are); else the local host on port 8080.
pub open spec fn chosen_address(
    direct: Option<NetworkAddress>,
    name: Option<String>,
    services: Option<Seq<ServiceInfo>>,
    r: NetworkAddress,
) -> bool {
    match direct {
        Some(a) => r == a,
        None => {
            if name is Some && services is Some && exists|i: int|
                0 <= i < services->0.len() && #[trigger] is_server_named(services->0[i], name->0@) {
                exists|i: int|
                    0 <= i < services->0.len() && #[trigger] is_server_named(services->0[i], name->0@) && r
                        == services->0[i].address && forall|j: int|
                        0 <= j < i ==> !is_server_named(#[trigger] services->0[j], name->0@)
            } else {
                r == NetworkAddress { ip: IpAddress::V4(127, 0, 0, 1), port: 8080 }
            }
        },
    }
}

/// Picks the address to connect to (see `chosen_address`).
pub fn choose_server_address(config: &ClientConfig, services: Option<&Vec<ServiceInfo>>) -> (r: NetworkAddress)
    ensures
        chosen_address(
            config.server_address,
            config.server_name,
            match services {
                Some(v) => Some(v@),
                None => None,
            },
            r,
        ),
{
    match &config.server_address {
        Some(a) => {
            return *a;
        },
        None => {},
    }
    match services {
        Some(v) => match &config.server_name {
            Some(name) => {
                let mut i: usize = 0;
                while i < v.len()
                    invariant
                        i <= v.len(),
                        services == Some(v),
                        config.server_name == Some(*name),
                        config.server_address is None,
                        forall|j: int| 0 <= j < i ==> !is_server_named(#[trigger] v@[j], name@),
                    decreases v.len() - i,
                {
                    if v[i].name == *name && v[i].service_type == ServiceType::Server {
                        assert(is_server_named(v@[i as int], name@));
                        return v[i].address;
                    }
                    i += 1;
                }
            },
            None => {},
        },
        None => {},
    }
    NetworkAddress::localhost(8080)
}

/// The line listing one server.
pub open spec fn server_line(s: ServiceInfo, now: Timestamp) -> Seq<char> {
    "  - "@ + s.name@ + " at "@ + ip_text(s.address.ip) + seq![':'] + decimal(s.address.port as nat) + " ("@ + (
    if expired_at(s.last_seen, s.ttl_secs, now) {
        "expired"@
    } else {
        "active"@
    }) + seq![')']
}

/// The lines listing the servers among `services`, in order.
pub open spec fn server_lines(services: Seq<ServiceInfo>, now: Timestamp) -> Seq<Seq<char>>
    decreases services.len(),
{
    if services.len() == 0 {
        Seq::empty()
    } else {
        let rest = server_lines(services.drop_last(), now);
        if services.last().service_type == ServiceType::Server {
            rest.push(server_line(services.last(), now))
        } else {
            rest
        }
    }
}

/// What the client lists of the services seen: a heading, a line for each
/// server, and a note where nothing was seen.
pub open spec fn listing(services: Seq<ServiceInfo>, now: Timestamp) -> Seq<Seq<char>> {
    seq!["Available servers:"@] + server_lines(services, now) + if services.len() == 0 {
        seq!["  No servers found"@]
    } else {
        Seq::empty()
    }
}

/// The line listing one server at `now`.
fn format_server_line(s: &ServiceInfo, now: Timestamp) -> (r: String)
    ensures
        r@ == server_line(*s, now),
{
    let mut line = string_from("  - ");
    append_str(&mut line, s.name.as_str());
    append_str(&mut line, " at ");
    push_ip(&mut line, &s.address.ip);
    push_char(&mut line, ':');
    push_decimal(&mut line, s.address.port as u64);
    append_str(&mut line, " (");
    if s.is_expired_at(now) {
        append_str(&mut line, "expired");
    } else {
        append_str(&mut line, "active");
    }
    push_char(&mut line, ')');
    line
}

/// The lines listing `services` at `now` (see `listing`).
pub fn listing_lines(services: &Vec<ServiceInfo>, now: Timestamp) -> (r: Vec<String>)
    ensures
        r@.map_values(|l: String| l@) == listing(services@, now),
{
    let mut lines: Vec<String> = Vec::new();
    lines.push(string_from("Available servers:"));
    let mut i: usize = 0;
    while i < services.len()
        invariant
            i <= services.len(),
            lines@.map_values(|l: String| l@) == seq!["Available servers:"@] + server_lines(
                services@.take(i as int),
                now,
            ),
        decreases services.len() - i,
    {
        let ghost before = lines@.map_values(|l: String| l@);
        assert(services@.take(i as int + 1).drop_last() =~= services@.take(i as int));
        assert(services@.take(i as int + 1).last() == services@[i as int]);
        if services[i].service_type == ServiceType::Server {
            let line = format_server_line(&services[i], now);
            lines.push(line);
            assert(lines@.map_values(|l: String| l@) =~= before.push(server_line(services@[i as int], now)));
        }
        i += 1;
    }
    assert(services@.take(services.len() as int) =~= services@);
    if services.len() == 0 {
        let ghost before = lines@.map_values(|l: String| l@);
        lines.push(string_from("  No servers found"));
        assert(lines@.map_values(|l: String| l@) =~= before.push("  No servers found"@));
    }
    assert(lines@.map_values(|l: String| l@) =~= listing(services@, now));
    lines
}

/// The client program: its settings and, with discovery, the cache of the
/// services it has seen.
pub struct KvmClient {
    config: ClientConfig,
    discovery_resolver: Option<ServiceResolver>,
}

impl KvmClient {
    pub closed spec fn config_spec(&self) -> ClientConfig {
        self.config
    }

    pub closed spec fn resolver(&self) -> Option<ServiceResolver> {
        self.discovery_resolver
    }

    /// The program's internal invariant.
    pub closed spec fn wf(&self) -> bool {
        self.discovery_resolver matches Some(r) ==> r.wf()
    }

    /// The client program; with discovery it keeps a cache of the services
    /// seen, empty at first.
    pub fn new(config: ClientConfig) -> (r: Self)
        ensures
            r.wf(),
            r.config_spec() == config,
            config.auto_discovery ==> (r.resolver() matches Some(res) && res.services().is_empty()
                && res.service_type_spec() == ServiceType::Client),
            !config.auto_discovery ==> r.resolver() is None,
    {
        let discovery_resolver = if config.auto_discovery {
            Some(ServiceResolver::new(ServiceType::Client))
        } else {
            None
        };
        KvmClient { config, discovery_resolver }
    }

    /// The mDNS service name to browse, with discovery.
    pub fn browse_name(&self) -> (r: Option<&'static str>)
        ensures
            r is Some == self.resolver() is Some,
    {
        match &self.discovery_resolver {
            Some(res) => Some(res.start_discovery()),
            None => None,
        }
    }

    /// The service cache, to record what browsing finds.
    pub fn resolver_mut(&mut self) -> (r: Option<&mut ServiceResolver>)
        ensures
            r is Some == old(self).resolver() is Some,
    {
        match &mut self.discovery_resolver {
            Some(res) => Some(res),
            None => None,
        }
    }

    /// The address to connect to, looking among the services available now
    /// where the program has discovery and a server name.
    pub fn resolve_server_address(&self) -> (r: NetworkAddress)
        requires
            self.wf(),
        ensures
            match (self.resolver(), self.config_spec().server_name) {
                (Some(res), Some(_)) => self.config_spec().server_address is None ==> exists|s: Seq<ServiceInfo>, now: Timestamp|
                    #[trigger] available_at(res.services(), s, now) && chosen_address(
                        self.config_spec().server_address,
                        self.config_spec().server_name,
                        Some(s),
                        r,
                    ),
                _ => chosen_address(self.config_spec().server_address, self.config_spec().server_name, None, r),
            },
            self.config_spec().server_address matches Some(a) ==> r == a,
    {
        match &self.config.server_address {
            Some(a) => {
                return *a;
            },
            None => {},
        }
        match (&self.discovery_resolver, &self.config.server_name) {
            (Some(res), Some(_)) => {
                let services = res.get_available_services();
                choose_server_address(&self.config, Some(&services))
            },
            _ => choose_server_address(&self.config, None),
        }
    }

    /// What the program lists of the servers at `now`: without discovery,
    /// that it is not enabled; else the listing of the services available.
    pub fn list_servers_at(&self, now: Timestamp) -> (r: Vec<String>)
        requires
            self.wf(),
        ensures
            self.resolver() is None ==> r@.map_values(|l: String| l@) == seq!["mDNS discovery not enabled"@],
            self.resolver() matches Some(res) ==> exists|s: Seq<ServiceInfo>|
                #[trigger] available_at(res.services(), s, now) && r@.map_values(|l: String| l@) == listing(s, now),
    {
        match &self.discovery_resolver {
            Some(res) => {
                let services = res.get_available_services_at(now);
                let r = listing_lines(&services, now);
                assert(available_at(res.services(), services@, now));
                r
            },
            None => {
                let mut v: Vec<String> = Vec::new();
                v.push(string_from("mDNS discovery not enabled"));
                assert(v@.map_values(|l: String| l@) =~= seq!["mDNS discovery not enabled"@]);
                v
            },
        }
    }

    /// What the program lists of the servers now.
    pub fn list_servers(&self) -> (r: Vec<String>)
        requires
            self.wf(),
        ensures
            self.resolver() is None ==> r@.map_values(|l: String| l@) == seq!["mDNS discovery not enabled"@],
            self.resolver() matches Some(res) ==> exists|s: Seq<ServiceInfo>, now: Timestamp|
                #[trigger] available_at(res.services(), s, now) && r@.map_values(|l: String| l@) == listing(s, now),
    {
        let now = Timestamp::now();
        self.list_servers_at(now)
    }

    /// The program's settings.
    pub fn config(&self) -> (r: &ClientConfig)
        ensures
            *r == self.config_spec(),
    {
        &self.config
    }
}

} // verus!
