//! The discovery plugin: the shell's commands to set up discovery, start
//! and stop it, register the local service and report what was found. The
//! shell runs the mDNS tasks under the names these commands hand back.

use vstd::prelude::*;
use crate::discovery::registry::{advertised_type, browse_name, registry_available_at, ServiceInfo, ServiceResolver};

use crate::kvm_core::types::{NetworkAddress, ServiceId, ServiceType, Timestamp};
use crate::text::{append_str, decimal, push_char, push_decimal, string_from};

verus! {

/// How discovery is set up: the type of service looked for, whether
/// browsing starts at once, and how often it repeats (seconds).
#[derive(Debug, Clone, Copy, PartialEq, Eq, Structural)]
pub struct DiscoveryConfig {
    pub service_type: ServiceType,
    pub auto_discovery: bool,
    pub discovery_interval: u64,
}

/// What the plugin reports.
#[derive(Debug, Clone)]
pub struct DiscoveryStatus {
    pub is_discovering: bool,
    pub is_registered: bool,
    pub available_services: Vec<ServiceInfo>,
    pub registered_service: Option<ServiceInfo>,
}

/// The name of a service type, as `{:?}` writes it.
pub open spec fn service_type_name(t: ServiceType) -> Seq<char> {
    match t {
        ServiceType::Server => "Server"@,
        ServiceType::Client => "Client"@,
    }
}

/// The plugin's state: the registry once set up, its settings, and the
/// service registered here.
pub struct DiscoveryState {
    resolver: Option<ServiceResolver>,
    config: Option<DiscoveryConfig>,
    registered_service: Option<ServiceInfo>,
}

impl DiscoveryState {
    pub closed spec fn resolver_spec(&self) -> Option<ServiceResolver> {
        self.resolver
    }

    pub closed spec fn config_spec(&self) -> Option<DiscoveryConfig> {
        self.config
    }

    pub closed spec fn registered(&self) -> Option<ServiceInfo> {
        self.registered_service
    }

    /// The state's internal invariant.
    pub closed spec fn wf(&self) -> bool {
        self.resolver matches Some(r) ==> r.wf()
    }

    /// Nothing set up or registered.
    pub fn new() -> (r: Self)
        ensures
            r.wf(),
            r.resolver_spec() is None,
            r.config_spec() is None,
            r.registered() is None,
    {
        DiscoveryState { resolver: None, config: None, registered_service: None }
    }

    /// Sets discovery up (replacing an earlier set-up): a new registry for
    /// the service type, browsing at once where the settings say so. Returns
    /// the reply and the mDNS name to browse, if browsing starts.
    pub fn init_discovery(&mut self, config: DiscoveryConfig) -> (r: (Result<String, String>, Option<String>))
        requires
            old(self).wf(),
        ensures
            final(self).wf(),
            r.0 matches Ok(m) && m@ == "Discovery initialized successfully"@,
            final(self).config_spec() == Some(config),
            final(self).registered() == old(self).registered(),
            final(self).resolver_spec() matches Some(res) && res.services().is_empty() && res.service_type_spec()
                == config.service_type && res.discovering() == config.auto_discovery && !res.advertising(),
            config.auto_discovery ==> (r.1 matches Some(n) && n@ == browse_name(config.service_type)),
            !config.auto_discovery ==> r.1 is None,
    {
        let mut resolver = ServiceResolver::new(config.service_type);
        let mut browse: Option<String> = None;
        if config.auto_discovery {
            match resolver.start_discovery() {
                Ok(name) => {
                    browse = name;
                },
                Err(e) => {
                    let mut m = string_from("Failed to start discovery: ");
                    append_str(&mut m, e.to_text().as_str());
                    return (Err(m), None);
                },
            }
        }
        self.resolver = Some(resolver);
        self.config = Some(config);
        (Ok(string_from("Discovery initialized successfully")), browse)
    }

    /// Starts browsing. Returns the reply and the mDNS name to browse, where
    /// browsing was not running yet.
    pub fn start_discovery(&mut self) -> (r: (Result<String, String>, Option<String>))
        requires
            old(self).wf(),
        ensures
            final(self).wf(),
            final(self).registered() == old(self).registered(),
            final(self).config_spec() == old(self).config_spec(),
            old(self).resolver_spec() is None ==> (r.0 matches Err(e) && e@ == "Discovery not initialized"@)
                && r.1 is None && final(self).resolver_spec() is None,
            old(self).resolver_spec() matches Some(res) ==> (r.0 matches Ok(m) && m@
                == "Service discovery started"@) && (final(self).resolver_spec() matches Some(new_res)
                && new_res.discovering() && new_res.services() == res.services()
                && new_res.advertising() == res.advertising() && new_res.service_type_spec()
                == res.service_type_spec()) && (res.discovering() ==> r.1 is None) && (!res.discovering() ==> (
            r.1 matches Some(n) && n@ == browse_name(res.service_type_spec()))),
    {
        match &mut self.resolver {
            Some(resolver) => match resolver.start_discovery() {
                Ok(name) => (Ok(string_from("Service discovery started")), name),
                Err(e) => {
                    let mut m = string_from("Failed to start discovery: ");
                    append_str(&mut m, e.to_text().as_str());
                    (Err(m), None)
                },
            },
            None => (Err(string_from("Discovery not initialized")), None),
        }
    }

    /// Stops browsing.
    pub fn stop_discovery(&mut self) -> (r: Result<String, String>)
        requires
            old(self).wf(),
        ensures
            final(self).wf(),
            final(self).registered() == old(self).registered(),
            final(self).config_spec() == old(self).config_spec(),
            old(self).resolver_spec() is None ==> (r matches Err(e) && e@ == "Discovery not initialized"@)
                && final(self).resolver_spec() is None,
            old(self).resolver_spec() matches Some(res) ==> (r matches Ok(m) && m@ == "Service discovery stopped"@)
                && (final(self).resolver_spec() matches Some(new_res) && !new_res.discovering()
                && new_res.services() == res.services() && new_res.advertising() == res.advertising()
                && new_res.service_type_spec() == res.service_type_spec()),
    {
        match &mut self.resolver {
            Some(resolver) => match resolver.stop_discovery() {
                Ok(()) => Ok(string_from("Service discovery stopped")),
                Err(e) => {
                    let mut m = string_from("Failed to stop discovery: ");
                    append_str(&mut m, e.to_text().as_str());
                    Err(m)
                },
            },
            None => Err(string_from("Discovery not initialized")),
        }
    }

    /// Registers the local service under a fresh id, seen now. Returns the
    /// reply (naming the service, its type and address) and the name to
    /// advertise it under, where nothing was advertised yet.
    pub fn register_service(&mut self, service_name: String, service_type: ServiceType, address: NetworkAddress) -> (r: (
        Result<String, String>,
        Option<String>,
    ))
        requires
            old(self).wf(),
        ensures
            final(self).wf(),
            final(self).config_spec() == old(self).config_spec(),
            old(self).resolver_spec() is None ==> (r.0 matches Err(e) && e@ == "Discovery not initialized"@)
                && r.1 is None && final(self).resolver_spec() is None && final(self).registered()
                == old(self).registered(),
            old(self).resolver_spec() matches Some(res) ==> {
                &&& r.0 matches Ok(m) && m@ == "Service registered: "@ + service_name@ + " ("@ + service_type_name(
                    service_type,
                ) + ") at "@ + address.ip@ + seq![':'] + decimal(address.port as nat)
                &&& final(self).registered() matches Some(info) && {
                    &&& info.name == service_name
                    &&& info.service_type == service_type
                    &&& info.address == address
                    &&& final(self).resolver_spec() matches Some(new_res) && {
                        &&& new_res.services() == res.services().insert(info.id.0, info)
                        &&& new_res.advertising()
                        &&& new_res.discovering() == res.discovering()
                        &&& new_res.service_type_spec() == res.service_type_spec()
                        &&& res.advertising() ==> r.1 is None
                        &&& !res.advertising() ==> (r.1 matches Some(n) && n@ == service_name@ + "."@
                            + advertised_type(service_type))
                    }
                }
            },
    {
        let resolver = match &mut self.resolver {
            Some(r) => r,
            None => {
                return (Err(string_from("Discovery not initialized")), None);
            },
        };
        let info = ServiceInfo {
            id: ServiceId::new(),
            name: service_name,
            service_type,
            address,
            last_seen: Timestamp::now(),
        };
        let mut reply = string_from("Service registered: ");
        append_str(&mut reply, info.name.as_str());
        append_str(&mut reply, " (");
        match service_type {
            ServiceType::Server => append_str(&mut reply, "Server"),
            ServiceType::Client => append_str(&mut reply, "Client"),
        }
        append_str(&mut reply, ") at ");
        append_str(&mut reply, info.address.ip.as_str());
        push_char(&mut reply, ':');
        push_decimal(&mut reply, info.address.port as u64);
        let kept = info.duplicate();
        match resolver.register_service(info) {
            Ok(name) => {
                self.registered_service = Some(kept);
                (Ok(reply), name)
            },
            Err(e) => {
                let mut m = string_from("Failed to register service: ");
                append_str(&mut m, e.to_text().as_str());
                (Err(m), None)
            },
        }
    }

    /// Unregisters the local service.
    pub fn unregister_service(&mut self) -> (r: Result<String, String>)
        requires
            old(self).wf(),
        ensures
            final(self).wf(),
            final(self).config_spec() == old(self).config_spec(),
            old(self).registered() is None ==> (r matches Err(e) && e@ == "No service registered"@)
                && final(self).resolver_spec() == old(self).resolver_spec(),
            old(self).registered() is Some && old(self).resolver_spec() is None ==> (r matches Err(e) && e@
                == "Discovery not initialized"@) && final(self).registered() == old(self).registered(),
            old(self).registered() is Some && old(self).resolver_spec() is Some ==> {
                let res = old(self).resolver_spec()->0;
                let info = old(self).registered()->0;
                &&& r matches Ok(m) && m@ == "Service unregistered"@
                &&& final(self).registered() is None
                &&& final(self).resolver_spec() matches Some(new_res) && new_res.services() == res.services().remove(
                    info.id.0,
                ) && !new_res.advertising() && new_res.discovering() == res.discovering()
                    && new_res.service_type_spec() == res.service_type_spec()
            },
    {
        let id = match &self.registered_service {
            Some(info) => info.id,
            None => {
                return Err(string_from("No service registered"));
            },
        };
        match &mut self.resolver {
            Some(resolver) => match resolver.unregister_service(&id) {
                Ok(()) => {
                    self.registered_service = None;
                    Ok(string_from("Service unregistered"))
                },
                Err(e) => {
                    let mut m = string_from("Failed to unregister service: ");
                    append_str(&mut m, e.to_text().as_str());
                    Err(m)
                },
            },
            None => Err(string_from("Discovery not initialized")),
        }
    }

    /// The services available now.
    pub fn get_available_services(&self) -> (r: Result<Vec<ServiceInfo>, String>)
        requires
            self.wf(),
        ensures
            self.resolver_spec() is None ==> (r matches Err(e) && e@ == "Discovery not initialized"@),
            self.resolver_spec() is Some ==> r is Ok && exists|now: Timestamp|
                #[trigger] registry_available_at(self.resolver_spec()->0.services(), r->Ok_0@, now),
    {
        match &self.resolver {
            Some(resolver) => {
                let now = Timestamp::now();
                let v = resolver.get_available_services_at(now);
                assert(self.resolver_spec()->0 == *resolver);
                let r: Result<Vec<ServiceInfo>, String> = Ok(v);
                assert(registry_available_at(self.resolver_spec()->0.services(), r->Ok_0@, now));
                r
            },
            None => Err(string_from("Discovery not initialized")),
        }
    }

    /// The plugin's status.
    pub fn get_discovery_status(&self) -> (r: DiscoveryStatus)
        requires
            self.wf(),
        ensures
            r.is_discovering == self.resolver_spec() is Some,
            r.is_registered == self.registered() is Some,
            self.resolver_spec() is None ==> r.available_services@.len() == 0,
            self.resolver_spec() is Some ==> exists|now: Timestamp|
                #[trigger] registry_available_at(self.resolver_spec()->0.services(), r.available_services@, now),
            r.registered_service == self.registered(),
    {
        let now = Timestamp::now();
        let available_services = match &self.resolver {
            Some(resolver) => {
                let v = resolver.get_available_services_at(now);
                assert(self.resolver_spec()->0 == *resolver);
                v
            },
            None => Vec::new(),
        };
        let registered_service = match &self.registered_service {
            Some(info) => Some(info.duplicate()),
            None => None,
        };
        let r = DiscoveryStatus {
            is_discovering: self.resolver.is_some(),
            is_registered: self.registered_service.is_some(),
            available_services,
            registered_service,
        };
        proof {
            if self.resolver_spec() is Some {
                assert(registry_available_at(self.resolver_spec()->0.services(), r.available_services@, now));
            }
        }
        r
    }
}

} // verus!
