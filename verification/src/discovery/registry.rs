//! The registry of services by id: services registered locally or found on
//! the network, whether discovery runs, and whether a service is being
//! advertised. The caller runs the mDNS tasks.

use vstd::prelude::*;
use crate::id_map::IdMap;
use crate::kvm_core::error::KvmResult;
use crate::kvm_core::types::{epoch_nanos, NetworkAddress, ServiceId, ServiceType, Timestamp};
use crate::text::{append_str, string_from};

verus! {

/// A service known to the registry, and when it was last seen.
#[derive(Debug, Clone)]
pub struct ServiceInfo {
    pub id: ServiceId,
    pub name: String,
    pub service_type: ServiceType,
    pub address: NetworkAddress,
    pub last_seen: Timestamp,
}

/// Whether a service last seen at `last_seen` has expired at `now`: more
/// than five minutes have passed.
pub open spec fn registry_expired_at(last_seen: Timestamp, now: Timestamp) -> bool {
    epoch_nanos(now) - epoch_nanos(last_seen) > 300_000_000_000
}

impl ServiceInfo {
    /// Whether the service has expired at `now`.
    pub fn is_expired_at(&self, now: Timestamp) -> (r: bool)
        ensures
            r == registry_expired_at(self.last_seen, now),
    {
        let elapsed: i128 = now.nanos_since(&self.last_seen);
        elapsed > 300_000_000_000
    }

    /// Whether the service has expired now.
    pub fn is_expired(&self) -> (r: bool)
        ensures
            exists|now: Timestamp| r == #[trigger] registry_expired_at(self.last_seen, now),
    {
        let now = Timestamp::now();
        self.is_expired_at(now)
    }

    /// A field-by-field copy.
    pub fn duplicate(&self) -> (r: Self)
        ensures
            r == *self,
    {
        ServiceInfo {
            id: self.id,
            name: self.name.clone(),
            service_type: self.service_type,
            address: NetworkAddress { ip: self.address.ip.clone(), port: self.address.port },
            last_seen: self.last_seen,
        }
    }
}

/// The mDNS name under which services of a type are browsed.
pub open spec fn browse_name(t: ServiceType) -> Seq<char> {
    match t {
        ServiceType::Server => "_soft-kvm-server._tcp.local."@,
        ServiceType::Client => "_soft-kvm-client._tcp.local."@,
    }
}

/// The mDNS service type under which a service of a type is advertised.
pub open spec fn advertised_type(t: ServiceType) -> Seq<char> {
    match t {
        ServiceType::Server => "_soft-kvm-server._tcp"@,
        ServiceType::Client => "_soft-kvm-client._tcp"@,
    }
}

/// Whether `new` is `old` without the services expired at `now`.
pub open spec fn registry_cleaned_at(old: Map<u128, ServiceInfo>, new: Map<u128, ServiceInfo>, now: Timestamp) -> bool {
    &&& forall|k: u128|
        #[trigger] new.contains_key(k) <==> old.contains_key(k) && !registry_expired_at(old[k].last_seen, now)
    &&& forall|k: u128| #[trigger] new.contains_key(k) ==> new[k] == old[k]
}

/// Whether `r` lists, each once, the services of `services` that have not
/// expired at `now`.
pub open spec fn registry_available_at(services: Map<u128, ServiceInfo>, r: Seq<ServiceInfo>, now: Timestamp) -> bool {
    &&& forall|i: int|
        0 <= i < r.len() ==> services.contains_key(#[trigger] r[i].id.0) && services[r[i].id.0] == r[i]
            && !registry_expired_at(r[i].last_seen, now)
    &&& forall|k: u128|
        #[trigger] services.contains_key(k) && !registry_expired_at(services[k].last_seen, now)
            ==> exists|i: int| 0 <= i < r.len() && r[i].id.0 == k
    &&& forall|i: int, j: int| 0 <= i < j < r.len() ==> r[i].id.0 != r[j].id.0
}

/// The registry of services, by id.
pub struct ServiceResolver {
    services: IdMap<ServiceInfo>,
    service_type: ServiceType,
    discovery_running: bool,
    registration_running: bool,
}

impl ServiceResolver {
    /// The services, by id.
    pub closed spec fn services(&self) -> Map<u128, ServiceInfo> {
        self.services@
    }

    pub closed spec fn service_type_spec(&self) -> ServiceType {
        self.service_type
    }

    pub closed spec fn discovering(&self) -> bool {
        self.discovery_running
    }

    pub closed spec fn advertising(&self) -> bool {
        self.registration_running
    }

    /// The registry's internal invariant.
    pub closed spec fn wf(&self) -> bool {
        &&& self.services.wf()
        &&& forall|k: u128| #[trigger] self.services@.contains_key(k) ==> self.services@[k].id.0 == k
    }

    /// An empty registry for services of the given type; nothing runs.
    pub fn new(service_type: ServiceType) -> (r: Self)
        ensures
            r.wf(),
            r.service_type_spec() == service_type,
            r.services() == Map::<u128, ServiceInfo>::empty(),
            !r.discovering(),
            !r.advertising(),
    {
        ServiceResolver {
            services: IdMap::new(),
            service_type,
            discovery_running: false,
            registration_running: false,
        }
    }

    /// Starts discovery: where it already runs, nothing happens (`None`);
    /// otherwise it is marked running and the mDNS name to browse is
    /// returned.
    pub fn start_discovery(&mut self) -> (r: KvmResult<Option<String>>)
        ensures
            final(self).discovering(),
            final(self).services() == old(self).services(),
            final(self).wf() == old(self).wf(),
            final(self).service_type_spec() == old(self).service_type_spec(),
            final(self).advertising() == old(self).advertising(),
            old(self).discovering() ==> r matches Ok(None),
            !old(self).discovering() ==> (r matches Ok(Some(n)) && n@ == browse_name(old(self).service_type_spec())),
    {
        if self.discovery_running {
            return Ok(None);
        }
        self.discovery_running = true;
        let name = match self.service_type {
            ServiceType::Server => string_from("_soft-kvm-server._tcp.local."),
            ServiceType::Client => string_from("_soft-kvm-client._tcp.local."),
        };
        Ok(Some(name))
    }

    /// Stops discovery.
    pub fn stop_discovery(&mut self) -> (r: KvmResult<()>)
        ensures
            r is Ok,
            !final(self).discovering(),
            final(self).services() == old(self).services(),
            final(self).wf() == old(self).wf(),
            final(self).service_type_spec() == old(self).service_type_spec(),
            final(self).advertising() == old(self).advertising(),
    {
        self.discovery_running = false;
        Ok(())
    }

    /// Drops the services that have expired at `now`.
    pub fn cleanup_expired_services_at(&mut self, now: Timestamp)
        requires
            old(self).wf(),
        ensures
            final(self).wf(),
            registry_cleaned_at(old(self).services(), final(self).services(), now),
            final(self).service_type_spec() == old(self).service_type_spec(),
            final(self).discovering() == old(self).discovering(),
            final(self).advertising() == old(self).advertising(),
    {
        let ids = self.services.ids();
        let ghost orig = self.services();
        let mut i: usize = 0;
        while i < ids.len()
            invariant
                self.wf(),
                self.service_type_spec() == old(self).service_type_spec(),
                self.discovering() == old(self).discovering(),
                self.advertising() == old(self).advertising(),
                orig == old(self).services(),
                i <= ids.len(),
                forall|j: int| 0 <= j < ids.len() ==> orig.contains_key(#[trigger] ids@[j]),
                forall|a: int, b: int| 0 <= a < b < ids.len() ==> ids@[a] != ids@[b],
                forall|k: u128| #[trigger] orig.contains_key(k) ==> exists|a: int| 0 <= a < ids.len() && ids@[a] == k,
                forall|k: u128| #[trigger] self.services().contains_key(k) ==> orig.contains_key(k) && self.services()[k] == orig[k],
                forall|k: u128|
                    #[trigger] self.services().contains_key(k) ==> !registry_expired_at(orig[k].last_seen, now)
                        || exists|a: int| i <= a < ids.len() && ids@[a] == k,
                forall|k: u128|
                    #[trigger] orig.contains_key(k) && !registry_expired_at(orig[k].last_seen, now)
                        ==> self.services().contains_key(k),
                forall|k: u128|
                    #[trigger] orig.contains_key(k) && !(exists|a: int| 0 <= a < i && ids@[a] == k)
                        ==> self.services().contains_key(k),
            decreases ids.len() - i,
        {
            let id = ids[i];
            let expired = match self.services.get(id) {
                Some(s) => s.is_expired_at(now),
                None => false,
            };
            if expired {
                self.services.remove(id);
            }
            proof {
                assert forall|k: u128|
                    #[trigger] self.services().contains_key(k) implies !registry_expired_at(orig[k].last_seen, now)
                        || exists|a: int| i + 1 <= a < ids.len() && ids@[a] == k by {
                    if registry_expired_at(orig[k].last_seen, now) {
                        let a = choose|a: int| i <= a < ids.len() && ids@[a] == k;
                        if a == i {
                            assert(!expired);
                        }
                    }
                }
                assert forall|k: u128|
                    #[trigger] orig.contains_key(k) && !(exists|a: int| 0 <= a < i + 1 && ids@[a] == k)
                        implies self.services().contains_key(k) by {
                    assert(!(exists|a: int| 0 <= a < i && ids@[a] == k));
                    assert(ids@[i as int] != k);
                }
            }
            i += 1;
        }
        proof {
            assert forall|k: u128|
                #[trigger] self.services().contains_key(k) <==> orig.contains_key(k) && !registry_expired_at(
                    orig[k].last_seen,
                    now,
                ) by {
                if self.services().contains_key(k) {
                    assert(!(exists|a: int| ids.len() <= a < ids.len() && ids@[a] == k));
                }
            }
        }
    }

    /// Drops the services that have expired now.
    pub fn cleanup_expired_services(&mut self)
        requires
            old(self).wf(),
        ensures
            final(self).wf(),
            exists|now: Timestamp| #[trigger] registry_cleaned_at(old(self).services(), final(self).services(), now),
            final(self).service_type_spec() == old(self).service_type_spec(),
            final(self).discovering() == old(self).discovering(),
            final(self).advertising() == old(self).advertising(),
    {
        let now = Timestamp::now();
        self.cleanup_expired_services_at(now);
    }

    /// The services that have not expired at `now`, each once.
    pub fn get_available_services_at(&self, now: Timestamp) -> (r: Vec<ServiceInfo>)
        requires
            self.wf(),
        ensures
            registry_available_at(self.services(), r@, now),
    {
        let ids = self.services.ids();
        let mut out: Vec<ServiceInfo> = Vec::new();
        let mut i: usize = 0;
        while i < ids.len()
            invariant
                self.wf(),
                i <= ids.len(),
                forall|j: int| 0 <= j < ids.len() ==> self.services().contains_key(#[trigger] ids@[j]),
                forall|a: int, b: int| 0 <= a < b < ids.len() ==> ids@[a] != ids@[b],
                forall|k: u128| #[trigger] self.services().contains_key(k) ==> exists|a: int| 0 <= a < ids.len() && ids@[a] == k,
                forall|j: int| 0 <= j < out.len() ==> exists|a: int| 0 <= a < i && #[trigger] out@[j].id.0 == ids@[a],
                forall|j: int|
                    0 <= j < out.len() ==> self.services().contains_key(#[trigger] out@[j].id.0) && self.services()[out@[j].id.0]
                        == out@[j] && !registry_expired_at(out@[j].last_seen, now),
                forall|a: int|
                    0 <= a < i && !registry_expired_at(self.services()[#[trigger] ids@[a]].last_seen, now)
                        ==> exists|j: int| 0 <= j < out.len() && out@[j].id.0 == ids@[a],
                forall|a: int, b: int| 0 <= a < b < out.len() ==> out@[a].id.0 != out@[b].id.0,
            decreases ids.len() - i,
        {
            match self.services.get(ids[i]) {
                Some(s) => {
                    if !s.is_expired_at(now) {
                        let ghost before = out@;
                        out.push(s.duplicate());
                        proof {
                            assert(out@[out.len() - 1].id.0 == ids@[i as int]);
                            assert forall|j: int| 0 <= j < out.len() implies exists|a: int| 0 <= a < i + 1 && #[trigger] out@[j].id.0 == ids@[a] by {
                                if j < out.len() - 1 {
                                    assert(out@[j] == before[j]);
                                }
                            }
                            assert forall|a: int|
                                0 <= a < i + 1 && !registry_expired_at(self.services()[#[trigger] ids@[a]].last_seen, now)
                                    implies exists|j: int| 0 <= j < out.len() && out@[j].id.0 == ids@[a] by {
                                if a < i {
                                    let j = choose|j: int| 0 <= j < before.len() && before[j].id.0 == ids@[a];
                                    assert(out@[j] == before[j]);
                                } else {
                                    assert(out@[out.len() - 1].id.0 == ids@[a]);
                                }
                            }
                            assert forall|a: int, b: int| 0 <= a < b < out.len() implies out@[a].id.0 != out@[b].id.0 by {
                                assert(out@[a] == before[a]);
                                if b == out.len() - 1 {
                                    let c = choose|c: int| 0 <= c < i && #[trigger] before[a].id.0 == ids@[c];
                                } else {
                                    assert(out@[b] == before[b]);
                                }
                            }
                        }
                    }
                },
                None => {},
            }
            i += 1;
        }
        proof {
            assert forall|k: u128|
                #[trigger] self.services().contains_key(k) && !registry_expired_at(self.services()[k].last_seen, now)
                    implies exists|j: int| 0 <= j < out.len() && out@[j].id.0 == k by {
                let a = choose|a: int| 0 <= a < ids.len() && ids@[a] == k;
                assert(self.services().contains_key(ids@[a]));
            }
        }
        out
    }

    /// The services that have not expired now, each once.
    pub fn get_available_services(&self) -> (r: Vec<ServiceInfo>)
        requires
            self.wf(),
        ensures
            exists|now: Timestamp| #[trigger] registry_available_at(self.services(), r@, now),
    {
        let now = Timestamp::now();
        self.get_available_services_at(now)
    }

    /// Registers a service under its id (replacing any service with that
    /// id). Where no service is advertised yet, advertising is marked
    /// running and the name to advertise the service under is returned:
    /// its name, a dot, and the mDNS service type of its type.
    pub fn register_service(&mut self, info: ServiceInfo) -> (r: KvmResult<Option<String>>)
        requires
            old(self).wf(),
        ensures
            final(self).wf(),
            final(self).services() == old(self).services().insert(info.id.0, info),
            final(self).service_type_spec() == old(self).service_type_spec(),
            final(self).discovering() == old(self).discovering(),
            final(self).advertising(),
            old(self).advertising() ==> r matches Ok(None),
            !old(self).advertising() ==> (r matches Ok(Some(n)) && n@ == info.name@ + "."@ + advertised_type(
                info.service_type,
            )),
    {
        let mut name = info.name.clone();
        let service_type = info.service_type;
        self.services.insert(info.id.0, info);
        if self.registration_running {
            return Ok(None);
        }
        self.registration_running = true;
        append_str(&mut name, ".");
        match service_type {
            ServiceType::Server => append_str(&mut name, "_soft-kvm-server._tcp"),
            ServiceType::Client => append_str(&mut name, "_soft-kvm-client._tcp"),
        }
        Ok(Some(name))
    }

    /// Whether a service is registered under the id; the advertising task
    /// stops once it is not.
    pub fn is_registered(&self, id: &ServiceId) -> (r: bool)
        requires
            self.wf(),
        ensures
            r == self.services().contains_key(id.0),
    {
        self.services.contains_key(id.0)
    }

    /// Unregisters the service with the id, if any, and stops advertising.
    pub fn unregister_service(&mut self, id: &ServiceId) -> (r: KvmResult<()>)
        requires
            old(self).wf(),
        ensures
            r is Ok,
            final(self).wf(),
            final(self).services() == old(self).services().remove(id.0),
            final(self).service_type_spec() == old(self).service_type_spec(),
            final(self).discovering() == old(self).discovering(),
            !final(self).advertising(),
    {
        self.services.remove(id.0);
        self.registration_running = false;
        Ok(())
    }
}

/// A service that was registered is among the services available at any
/// time before it expires.
pub proof fn registered_service_is_available(
    before: ServiceResolver,
    after: ServiceResolver,
    info: ServiceInfo,
    available: Seq<ServiceInfo>,
    now: Timestamp,
)
    requires
        after.services() == before.services().insert(info.id.0, info),
        registry_available_at(after.services(), available, now),
        !registry_expired_at(info.last_seen, now),
    ensures
        exists|i: int| 0 <= i < available.len() && available[i] == info,
{
    let k = info.id.0;
    assert(after.services().contains_key(k));
    let i = choose|i: int| 0 <= i < available.len() && available[i].id.0 == k;
    assert(after.services()[available[i].id.0] == available[i]);
}

/// Unregistering a service undoes its registration: the registry holds the
/// services it held before, where no service had that id.
pub proof fn unregister_undoes_register(
    before: ServiceResolver,
    registered: ServiceResolver,
    unregistered: ServiceResolver,
    info: ServiceInfo,
)
    requires
        !before.services().contains_key(info.id.0),
        registered.services() == before.services().insert(info.id.0, info),
        unregistered.services() == registered.services().remove(info.id.0),
    ensures
        unregistered.services() == before.services(),
{
    assert(unregistered.services() =~= before.services());
}

} // verus!
