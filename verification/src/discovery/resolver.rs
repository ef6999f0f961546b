//! Reading services back from TXT record metadata, and the cache of the
//! services a node has seen, by name.

use vstd::prelude::*;
use crate::kvm_core::types::Timestamp;
use crate::discovery::service::{expired_at, same_service, txt_map, MdnsServiceName, ServiceCapabilities, ServiceInfo, ServiceType, TxtRecordParser};
use crate::kvm_common::network::{ipv4_from_text, parse_ipv4};
use crate::kvm_common::types::{NetworkAddress, Resolution, VideoQuality};
use crate::kvm_core::error::{KvmError, KvmResult};
use crate::named_map::NamedMap;
use crate::text::{find_spec, find_str, first_index_of, has_prefix, lemma_first_index_of, parse_unsigned, parse_unsigned_exec, split_char, split_spec, starts_with_str, string_from, string_of, chars_of, views};

verus! {

/// The resolution a `WxH` text stands for: exactly two parts around `x`,
/// each a `u32`.
pub open spec fn resolution_from_text(s: Seq<char>) -> Option<Resolution> {
    let parts = split_spec(s, 'x');
    if parts.len() == 2 && parse_unsigned(parts[0], 0xffff_ffff) is Some && parse_unsigned(
        parts[1],
        0xffff_ffff,
    ) is Some {
        Some(
            Resolution {
                width: parse_unsigned(parts[0], 0xffff_ffff)->0 as u32,
                height: parse_unsigned(parts[1], 0xffff_ffff)->0 as u32,
            },
        )
    } else {
        None
    }
}

/// Parses a `WxH` resolution.
pub fn parse_resolution(res_str: &str) -> (r: Option<Resolution>)
    ensures
        r == resolution_from_text(res_str@),
{
    let parts = split_char(res_str, 'x');
    if parts.len() == 2 {
        let w = parse_unsigned_exec(parts[0].as_str(), 0xffff_ffff);
        let h = parse_unsigned_exec(parts[1].as_str(), 0xffff_ffff);
        match (w, h) {
            (Some(w), Some(h)) => {
                return Some(Resolution::new(w as u32, h as u32));
            },
            _ => {},
        }
    }
    None
}

/// Whether reading a quality text would cut it at bounds out of order: when
/// `Mbps` comes before the end of the first `fps`.
pub open spec fn quality_cut_out_of_order(s: Seq<char>) -> bool {
    match (find_spec(s, "fps"@), find_spec(s, "Mbps"@)) {
        (Some(f), Some(m)) => f + 3 > m,
        _ => false,
    }
}

/// The quality an `fps{fps}Mbps{bitrate}` text stands for: the text between
/// the first `fps` and the first `Mbps` is the frame rate, the text after
/// that `Mbps` the bitrate, both `u32`; the compression quality is 0.8.
pub open spec fn quality_from_text(s: Seq<char>) -> Option<VideoQuality> {
    match (find_spec(s, "fps"@), find_spec(s, "Mbps"@)) {
        (Some(f), Some(m)) => {
            let fps = parse_unsigned(s.subrange(f + 3, m), 0xffff_ffff);
            let bitrate = parse_unsigned(s.subrange(m + 4, s.len() as int), 0xffff_ffff);
            if fps is Some && bitrate is Some {
                Some(
                    VideoQuality {
                        fps: fps->0 as u32,
                        bitrate_mbps: bitrate->0 as u32,
                        compression_quality_permille: 800,
                    },
                )
            } else {
                None
            }
        },
        _ => None,
    }
}

/// Parses an `fps{fps}Mbps{bitrate}` quality.
pub fn parse_quality(quality_str: &str) -> (r: Option<VideoQuality>)
    requires
        !quality_cut_out_of_order(quality_str@),
    ensures
        r == quality_from_text(quality_str@),
{
    proof {
        reveal_strlit("fps");
        reveal_strlit("Mbps");
        crate::text::lemma_find_from_bounds(quality_str@, "fps"@, 0);
        crate::text::lemma_find_from_bounds(quality_str@, "Mbps"@, 0);
    }
    let f = find_str(quality_str, "fps");
    let m = find_str(quality_str, "Mbps");
    match (f, m) {
        (Some(f), Some(m)) => {
            let cs = chars_of(quality_str);
            let fps_text = string_of(&cs, f + 3, m);
            let bitrate_text = string_of(&cs, m + 4, cs.len());
            let fps = parse_unsigned_exec(fps_text.as_str(), 0xffff_ffff);
            let bitrate = parse_unsigned_exec(bitrate_text.as_str(), 0xffff_ffff);
            match (fps, bitrate) {
                (Some(fps), Some(bitrate)) => Some(
                    VideoQuality {
                        fps: fps as u32,
                        bitrate_mbps: bitrate as u32,
                        compression_quality_permille: 800,
                    },
                ),
                _ => None,
            }
        },
        _ => None,
    }
}

/// The resolutions read from the values of the keys `ks` of `m` that begin
/// with `res=`, in the order of `ks`; values that do not parse are skipped.
pub open spec fn resolutions_of(ks: Seq<Seq<char>>, m: Map<Seq<char>, String>) -> Seq<Resolution>
    decreases ks.len(),
{
    if ks.len() == 0 {
        Seq::empty()
    } else {
        let rest = resolutions_of(ks.drop_last(), m);
        let k = ks.last();
        if has_prefix(k, "res="@) && resolution_from_text(m[k]@) is Some {
            rest.push(resolution_from_text(m[k]@)->0)
        } else {
            rest
        }
    }
}

/// The qualities read from the values of the keys `ks` of `m` that begin
/// with `quality=`, in the order of `ks`; values that do not parse are
/// skipped.
pub open spec fn qualities_of(ks: Seq<Seq<char>>, m: Map<Seq<char>, String>) -> Seq<VideoQuality>
    decreases ks.len(),
{
    if ks.len() == 0 {
        Seq::empty()
    } else {
        let rest = qualities_of(ks.drop_last(), m);
        let k = ks.last();
        if has_prefix(k, "quality="@) && quality_from_text(m[k]@) is Some {
            rest.push(quality_from_text(m[k]@)->0)
        } else {
            rest
        }
    }
}

/// The values of the keys `ks` of `m` that begin with `feature=`, in the
/// order of `ks`.
pub open spec fn features_of(ks: Seq<Seq<char>>, m: Map<Seq<char>, String>) -> Seq<Seq<char>>
    decreases ks.len(),
{
    if ks.len() == 0 {
        Seq::empty()
    } else {
        let rest = features_of(ks.drop_last(), m);
        let k = ks.last();
        if has_prefix(k, "feature="@) {
            rest.push(m[k]@)
        } else {
            rest
        }
    }
}

/// The client limit a metadata map gives: the value of `max_clients` where
/// it is a `usize`, else 1.
pub open spec fn max_clients_of(m: Map<Seq<char>, String>) -> nat {
    if m.contains_key("max_clients"@) && parse_unsigned(m["max_clients"@]@, usize::MAX as nat) is Some {
        parse_unsigned(m["max_clients"@]@, usize::MAX as nat)->0
    } else {
        1
    }
}

/// Whether no quality value of `m` would be cut out of order.
pub open spec fn qualities_readable(m: Map<Seq<char>, String>) -> bool {
    forall|k: Seq<char>|
        #[trigger] m.contains_key(k) && has_prefix(k, "quality="@) ==> !quality_cut_out_of_order(m[k]@)
}

/// Whether `ks` lists the keys of `m`, each once.
pub open spec fn lists_keys(ks: Seq<Seq<char>>, m: Map<Seq<char>, String>) -> bool {
    &&& ks.len() == m.dom().len()
    &&& forall|i: int| 0 <= i < ks.len() ==> m.contains_key(#[trigger] ks[i])
    &&& forall|i: int, j: int| 0 <= i < j < ks.len() ==> ks[i] != ks[j]
}

/// The capabilities a metadata map announces: the resolutions, qualities
/// and features under keys that begin with `res=`, `quality=` and
/// `feature=` (in the order the map lists its keys), and the client limit
/// under `max_clients`.
pub fn parse_capabilities(metadata: &NamedMap<String>) -> (r: ServiceCapabilities)
    requires
        metadata.wf(),
        qualities_readable(metadata@),
    ensures
        exists|ks: Seq<Seq<char>>|
            {
                &&& lists_keys(ks, metadata@)
                &&& r.supported_resolutions@ == resolutions_of(ks, metadata@)
                &&& r.supported_qualities@ == qualities_of(ks, metadata@)
                &&& views(r.features@) == #[trigger] features_of(ks, metadata@)
            },
        r.max_clients == max_clients_of(metadata@),
{
    let keys = metadata.keys();
    let ghost ks = views(keys@);
    let mut resolutions: Vec<Resolution> = Vec::new();
    let mut qualities: Vec<VideoQuality> = Vec::new();
    let mut features: Vec<String> = Vec::new();
    let mut i: usize = 0;
    while i < keys.len()
        invariant
            metadata.wf(),
            qualities_readable(metadata@),
            ks == views(keys@),
            i <= keys.len(),
            forall|j: int| 0 <= j < keys.len() ==> metadata@.contains_key(#[trigger] keys@[j]@),
            keys.len() == metadata@.len(),
            forall|a: int, b: int| 0 <= a < b < keys.len() ==> keys@[a]@ != keys@[b]@,
            resolutions@ == resolutions_of(ks.take(i as int), metadata@),
            qualities@ == qualities_of(ks.take(i as int), metadata@),
            views(features@) == features_of(ks.take(i as int), metadata@),
        decreases keys.len() - i,
    {
        let ghost pre = ks.take(i as int);
        let ghost next = ks.take(i as int + 1);
        assert(next.drop_last() =~= pre);
        assert(next.last() == keys@[i as int]@);
        let key = keys[i].as_str();
        match metadata.get(key) {
            Some(value) => {
                if starts_with_str(key, "res=") {
                    match parse_resolution(value.as_str()) {
                        Some(r) => resolutions.push(r),
                        None => {},
                    }
                }
                if starts_with_str(key, "quality=") {
                    match parse_quality(value.as_str()) {
                        Some(q) => qualities.push(q),
                        None => {},
                    }
                }
                if starts_with_str(key, "feature=") {
                    let ghost fs = views(features@);
                    features.push(value.clone());
                    assert(views(features@) =~= fs.push(value@));
                }
            },
            None => {},
        }
        i += 1;
    }
    assert(ks.take(keys.len() as int) =~= ks);
    assert(lists_keys(ks, metadata@)) by {
        assert forall|a: int| 0 <= a < ks.len() implies metadata@.contains_key(#[trigger] ks[a]) by {
            assert(ks[a] == keys@[a]@);
        }
        assert forall|a: int, b: int| 0 <= a < b < ks.len() implies ks[a] != ks[b] by {
            assert(ks[a] == keys@[a]@);
            assert(ks[b] == keys@[b]@);
        }
    }
    let mut max_clients: usize = 1;
    match metadata.get("max_clients") {
        Some(v) => match parse_unsigned_exec(v.as_str(), usize::MAX as u64) {
            Some(n) => {
                max_clients = n as usize;
            },
            None => {},
        },
        None => {},
    }
    let r = ServiceCapabilities {
        supported_resolutions: resolutions,
        supported_qualities: qualities,
        max_clients,
        features,
    };
    assert(r.supported_resolutions@ == resolutions_of(ks, metadata@));
    assert(r.supported_qualities@ == qualities_of(ks, metadata@));
    assert(views(r.features@) == features_of(ks, metadata@));
    r
}

/// The address an `ip:port` text stands for, or the protocol error's
/// message: the text must be two parts around `:`, the first a dotted IPv4
/// address and the second a `u16`.
pub open spec fn address_from_text(s: Seq<char>) -> Result<NetworkAddress, Seq<char>> {
    let parts = split_spec(s, ':');
    if parts.len() != 2 {
        Err("Invalid address format"@)
    } else if ipv4_from_text(parts[0]) is None {
        Err("Invalid IP address"@)
    } else if parse_unsigned(parts[1], 65535) is None {
        Err("Invalid port"@)
    } else {
        Ok(NetworkAddress { ip: ipv4_from_text(parts[0])->0, port: parse_unsigned(parts[1], 65535)->0 as u16 })
    }
}

/// The address under the `address` key of a metadata map. A missing key,
/// and a text that is not `ip:port`, are protocol errors.
pub fn parse_address(metadata: &NamedMap<String>) -> (r: KvmResult<NetworkAddress>)
    requires
        metadata.wf(),
    ensures
        !metadata@.contains_key("address"@) ==> (r matches Err(KvmError::Protocol(e)) && e@ == "Missing address"@),
        metadata@.contains_key("address"@) ==> match address_from_text(metadata@["address"@]@) {
            Ok(a) => r == Ok::<NetworkAddress, KvmError>(a),
            Err(m) => r matches Err(KvmError::Protocol(e)) && e@ == m,
        },
{
    let address_str = match metadata.get("address") {
        Some(a) => a,
        None => {
            return Err(KvmError::Protocol(string_from("Missing address")));
        },
    };
    match parse_address_text(address_str.as_str()) {
        Ok(a) => Ok(a),
        Err(m) => Err(KvmError::Protocol(m)),
    }
}

/// Reads an `ip:port` text (see `address_from_text`); the error is the
/// message of what is wrong.
pub fn parse_address_text(s: &str) -> (r: Result<NetworkAddress, String>)
    ensures
        match address_from_text(s@) {
            Ok(a) => r == Ok::<NetworkAddress, String>(a),
            Err(m) => r matches Err(e) && e@ == m,
        },
{
    let parts = split_char(s, ':');
    if parts.len() != 2 {
        return Err(string_from("Invalid address format"));
    }
    let ip = match parse_ipv4(parts[0].as_str()) {
        Some(ip) => ip,
        None => {
            return Err(string_from("Invalid IP address"));
        },
    };
    let port = match parse_unsigned_exec(parts[1].as_str(), 65535) {
        Some(p) => p as u16,
        None => {
            return Err(string_from("Invalid port"));
        },
    };
    Ok(NetworkAddress::new(ip, port))
}

/// The service type a metadata map names under `type`: `Client`, else
/// `Server`.
pub open spec fn service_type_of(m: Map<Seq<char>, String>) -> ServiceType {
    if m.contains_key("type"@) && m["type"@]@ == "Client"@ {
        ServiceType::Client
    } else {
        ServiceType::Server
    }
}

/// The name a metadata map gives under `name`, else `unknown`.
pub open spec fn name_of(m: Map<Seq<char>, String>) -> Seq<char> {
    if m.contains_key("name"@) {
        m["name"@]@
    } else {
        "unknown"@
    }
}

/// The service a metadata map describes: its name (`unknown` where there is
/// none), type (`Server` unless it says `Client`), address and
/// capabilities. It gets a fresh id, the package version and a new time to
/// live, as a service just seen. A bad address is an error.
pub fn parse_service_info(metadata: &NamedMap<String>) -> (r: KvmResult<ServiceInfo>)
    requires
        metadata.wf(),
        qualities_readable(metadata@),
    ensures
        !metadata@.contains_key("address"@) ==> (r matches Err(KvmError::Protocol(e)) && e@ == "Missing address"@),
        metadata@.contains_key("address"@) ==> match address_from_text(metadata@["address"@]@) {
            Err(m) => r matches Err(KvmError::Protocol(e)) && e@ == m,
            Ok(a) => r matches Ok(info) && {
                &&& info.address == a
                &&& info.name@ == name_of(metadata@)
                &&& info.service_type == service_type_of(metadata@)
                &&& info.version@ == crate::discovery::service::PACKAGE_VERSION@
                &&& info.ttl_secs == 300
                &&& info.capabilities.max_clients == max_clients_of(metadata@)
                &&& exists|ks: Seq<Seq<char>>|
                    {
                        &&& lists_keys(ks, metadata@)
                        &&& info.capabilities.supported_resolutions@ == resolutions_of(ks, metadata@)
                        &&& info.capabilities.supported_qualities@ == qualities_of(ks, metadata@)
                        &&& views(info.capabilities.features@) == #[trigger] features_of(ks, metadata@)
                    }
            },
        },
{
    let name = match metadata.get("name") {
        Some(n) => n.clone(),
        None => string_from("unknown"),
    };
    let client = string_from("Client");
    let service_type = match metadata.get("type") {
        Some(t) => if *t == client {
            ServiceType::Client
        } else {
            ServiceType::Server
        },
        None => ServiceType::Server,
    };
    let address = match parse_address(metadata) {
        Ok(a) => a,
        Err(e) => {
            return Err(e);
        },
    };
    let capabilities = parse_capabilities(metadata);
    proof {
        reveal_strlit("Server");
        reveal_strlit("Client");
    }
    Ok(ServiceInfo::new(service_type, name, address, capabilities))
}

/// No key of a TXT record's pairs has an `=`.
pub proof fn lemma_txt_keys_have_no_equals(entries: Seq<Seq<char>>)
    ensures
        forall|k: Seq<char>| #[trigger] txt_map(entries).contains_key(k) ==> !k.contains('='),
    decreases entries.len(),
{
    if entries.len() > 0 {
        let p = entries.drop_last();
        lemma_txt_keys_have_no_equals(p);
        let e = entries.last();
        lemma_first_index_of(e, '=');
        match first_index_of(e, '=') {
            Some(i) => {
                let key = e.take(i);
                assert(!key.contains('=')) by {
                    if key.contains('=') {
                        let j = choose|j: int| 0 <= j < key.len() && key[j] == '=';
                        assert(e[j] == '=');
                    }
                }
                assert(txt_map(entries) == txt_map(p).insert(key, e.skip(i + 1)));
                assert forall|k: Seq<char>| #[trigger] txt_map(entries).contains_key(k) implies !k.contains('=') by {
                    if k != key {
                        assert(txt_map(p).contains_key(k));
                    }
                }
            },
            None => {
                assert(txt_map(entries) == txt_map(p));
            },
        }
    }
}

/// Pairs whose keys have no `=` have no key that begins with `quality=`.
pub proof fn lemma_no_quality_keys(m: Map<Seq<char>, String>)
    requires
        forall|k: Seq<char>| #[trigger] m.contains_key(k) ==> !k.contains('='),
    ensures
        qualities_readable(m),
{
    reveal_strlit("quality=");
    assert forall|k: Seq<char>| #[trigger] m.contains_key(k) && has_prefix(k, "quality="@) implies !quality_cut_out_of_order(
        m[k]@,
    ) by {
        assert(k.take(8)[7] == '=');
        assert(k[7] == '=');
    }
}

/// Whether `new` is `old` without the services expired at `now`.
pub open spec fn cleaned_at(old: Map<Seq<char>, ServiceInfo>, new: Map<Seq<char>, ServiceInfo>, now: Timestamp) -> bool {
    &&& forall|k: Seq<char>|
        #[trigger] new.contains_key(k) <==> old.contains_key(k) && !expired_at(
            old[k].last_seen,
            old[k].ttl_secs,
            now,
        )
    &&& forall|k: Seq<char>| #[trigger] new.contains_key(k) ==> new[k] == old[k]
}

/// Whether `r` lists, each once, the services of `services` that have not
/// expired at `now`.
pub open spec fn available_at(services: Map<Seq<char>, ServiceInfo>, r: Seq<ServiceInfo>, now: Timestamp) -> bool {
    &&& forall|i: int|
        0 <= i < r.len() ==> services.contains_key(#[trigger] r[i].name@) && same_service(services[r[i].name@], r[i])
            && !expired_at(r[i].last_seen, r[i].ttl_secs, now)
    &&& forall|k: Seq<char>|
        #[trigger] services.contains_key(k) && !expired_at(services[k].last_seen, services[k].ttl_secs, now)
            ==> exists|i: int| 0 <= i < r.len() && r[i].name@ == k
    &&& forall|i: int, j: int| 0 <= i < j < r.len() ==> r[i].name@ != r[j].name@
}

/// The key/value pairs of the TXT record whose bytes are `data` (taken as
/// UTF-8 text).
pub open spec fn txt_pairs_of(data: Seq<u8>) -> Map<Seq<char>, Seq<char>> {
    txt_map(split_spec(vstd::utf8::decode_utf8(data), '\0'))
}

/// The address a TXT record's bytes give a service: the bytes must be
/// UTF-8 and hold an `address` pair that is an `ip:port` text.
pub open spec fn discovered_address(data: Seq<u8>) -> Option<NetworkAddress> {
    let pairs = txt_pairs_of(data);
    if vstd::utf8::valid_utf8(data) && pairs.contains_key("address"@) {
        match address_from_text(pairs["address"@]) {
            Ok(a) => Some(a),
            Err(_) => None,
        }
    } else {
        None
    }
}

/// The service name a TXT record's pairs give: the `name` pair, else
/// `unknown`.
pub open spec fn discovered_name(pairs: Map<Seq<char>, Seq<char>>) -> Seq<char> {
    if pairs.contains_key("name"@) {
        pairs["name"@]
    } else {
        "unknown"@
    }
}

/// The service type a TXT record's pairs give: `Client` where the `type`
/// pair says so, else `Server`.
pub open spec fn discovered_type(pairs: Map<Seq<char>, Seq<char>>) -> ServiceType {
    if pairs.contains_key("type"@) && pairs["type"@] == "Client"@ {
        ServiceType::Client
    } else {
        ServiceType::Server
    }
}

/// The cache of the services a node has seen, by name.
pub struct ServiceResolver {
    services: NamedMap<ServiceInfo>,
    service_type: ServiceType,
}

impl ServiceResolver {
    /// The services, by name.
    pub closed spec fn services(&self) -> Map<Seq<char>, ServiceInfo> {
        self.services@
    }

    pub closed spec fn service_type_spec(&self) -> ServiceType {
        self.service_type
    }

    /// The resolver's internal invariant.
    pub closed spec fn wf(&self) -> bool {
        &&& self.services.wf()
        &&& forall|k: Seq<char>| #[trigger] self.services@.contains_key(k) ==> self.services@[k].name@ == k
    }

    /// A resolver for services of the given type, with an empty cache.
    pub fn new(service_type: ServiceType) -> (r: Self)
        ensures
            r.wf(),
            r.service_type_spec() == service_type,
            r.services() == Map::<Seq<char>, ServiceInfo>::empty(),
    {
        ServiceResolver { services: NamedMap::new(), service_type }
    }

    /// The mDNS service name the resolver browses; the caller runs the
    /// browsing every 30 seconds and hands each TXT record to
    /// `record_discovered`.
    pub fn start_discovery(&self) -> (r: &'static str)
        ensures
            r@ == match self.service_type_spec() {
                ServiceType::Server => MdnsServiceName::KVM_SERVER@,
                ServiceType::Client => MdnsServiceName::KVM_CLIENT@,
            },
    {
        MdnsServiceName::from_service_type(self.service_type)
    }

    /// A TXT record came in: where it parses and describes a service with a
    /// good address, the service is cached under its name (replacing any
    /// service of that name). Returns whether it was cached.
    pub fn record_discovered(&mut self, txt: &[u8]) -> (r: bool)
        requires
            old(self).wf(),
        ensures
            final(self).wf(),
            final(self).service_type_spec() == old(self).service_type_spec(),
            r == discovered_address(txt@) is Some,
            !r ==> final(self).services() == old(self).services(),
            r ==> exists|info: ServiceInfo|
                {
                    &&& final(self).services() == old(self).services().insert(#[trigger] info.name@, info)
                    &&& Some(info.address) == discovered_address(txt@)
                    &&& info.name@ == discovered_name(txt_pairs_of(txt@))
                    &&& info.service_type == discovered_type(txt_pairs_of(txt@))
                },
    {
        let metadata = match TxtRecordParser::parse(txt) {
            Ok(m) => m,
            Err(_) => {
                return false;
            },
        };
        proof {
            let text = vstd::utf8::decode_utf8(txt@);
            lemma_txt_keys_have_no_equals(split_spec(text, '\0'));
            assert forall|k: Seq<char>| #[trigger] metadata@.contains_key(k) implies !k.contains('=') by {
                assert(txt_map(split_spec(text, '\0')).contains_key(k));
            }
            lemma_no_quality_keys(metadata@);
            let pairs = txt_pairs_of(txt@);
            assert(metadata@.contains_key("address"@) == pairs.contains_key("address"@));
            assert(metadata@.contains_key("name"@) == pairs.contains_key("name"@));
            assert(metadata@.contains_key("type"@) == pairs.contains_key("type"@));
            if metadata@.contains_key("address"@) {
                assert(metadata@["address"@]@ == pairs["address"@]);
            }
            if metadata@.contains_key("name"@) {
                assert(metadata@["name"@]@ == pairs["name"@]);
            }
            if metadata@.contains_key("type"@) {
                assert(metadata@["type"@]@ == pairs["type"@]);
            }
            assert(name_of(metadata@) == discovered_name(pairs));
            assert(service_type_of(metadata@) == discovered_type(pairs));
        }
        match parse_service_info(&metadata) {
            Ok(info) => {
                let ghost i = info;
                self.register_service(info);
                assert(self.services() == old(self).services().insert(i.name@, i));
                true
            },
            Err(_) => false,
        }
    }

    /// The services that have not expired at `now`, each once.
    pub fn get_available_services_at(&self, now: Timestamp) -> (r: Vec<ServiceInfo>)
        requires
            self.wf(),
        ensures
            forall|i: int|
                0 <= i < r.len() ==> self.services().contains_key(#[trigger] r[i].name@) && same_service(
                    self.services()[r[i].name@],
                    r[i],
                ) && !expired_at(r[i].last_seen, r[i].ttl_secs, now),
            forall|k: Seq<char>|
                #[trigger] self.services().contains_key(k) && !expired_at(
                    self.services()[k].last_seen,
                    self.services()[k].ttl_secs,
                    now,
                ) ==> exists|i: int| 0 <= i < r.len() && r[i].name@ == k,
            forall|i: int, j: int| 0 <= i < j < r.len() ==> r[i].name@ != r[j].name@,
    {
        let keys = self.services.keys();
        let mut out: Vec<ServiceInfo> = Vec::new();
        assert(forall|k: Seq<char>| #[trigger] self.services().contains_key(k) ==> exists|a: int| 0 <= a < keys.len() && keys@[a]@ == k);
        let mut i: usize = 0;
        while i < keys.len()
            invariant
                self.wf(),
                i <= keys.len(),
                keys.len() == self.services().len(),
                forall|j: int| 0 <= j < keys.len() ==> self.services().contains_key(#[trigger] keys@[j]@),
                forall|a: int, b: int| 0 <= a < b < keys.len() ==> keys@[a]@ != keys@[b]@,
                forall|j: int|
                    0 <= j < out.len() ==> exists|a: int| 0 <= a < i && #[trigger] out[j].name@ == keys@[a]@,
                forall|j: int|
                    0 <= j < out.len() ==> self.services().contains_key(#[trigger] out[j].name@) && same_service(
                        self.services()[out[j].name@],
                        out[j],
                    ) && !expired_at(out[j].last_seen, out[j].ttl_secs, now),
                forall|a: int|
                    0 <= a < i && !expired_at(
                        self.services()[#[trigger] keys@[a]@].last_seen,
                        self.services()[keys@[a]@].ttl_secs,
                        now,
                    ) ==> exists|j: int| 0 <= j < out.len() && out[j].name@ == keys@[a]@,
                forall|a: int, b: int| 0 <= a < b < out.len() ==> out[a].name@ != out[b].name@,
                forall|k: Seq<char>| #[trigger] self.services().contains_key(k) ==> exists|a: int| 0 <= a < keys.len() && keys@[a]@ == k,
            decreases keys.len() - i,
        {
            match self.services.get(keys[i].as_str()) {
                Some(s) => {
                    if !s.is_expired_at(now) {
                        let ghost before = out@;
                        out.push(s.duplicate());
                        proof {
                            assert(out[out.len() - 1].name@ == keys@[i as int]@);
                            assert forall|j: int| 0 <= j < out.len() implies exists|a: int| 0 <= a < i + 1 && #[trigger] out[j].name@ == keys@[a]@ by {
                                if j < out.len() - 1 {
                                    assert(out[j] == before[j]);
                                } else {
                                    assert(out[j].name@ == keys@[i as int]@);
                                }
                            }
                            assert forall|a: int| 0 <= a < i + 1 && !expired_at(
                                self.services()[#[trigger] keys@[a]@].last_seen,
                                self.services()[keys@[a]@].ttl_secs,
                                now,
                            ) implies exists|j: int| 0 <= j < out.len() && out[j].name@ == keys@[a]@ by {
                                if a < i {
                                    let j = choose|j: int| 0 <= j < before.len() && before[j].name@ == keys@[a]@;
                                    assert(out[j] == before[j]);
                                } else {
                                    assert(out[out.len() - 1].name@ == keys@[a]@);
                                }
                            }
                            assert forall|a: int, b: int| 0 <= a < b < out.len() implies out[a].name@ != out[b].name@ by {
                                if b == out.len() - 1 {
                                    let c = choose|c: int| 0 <= c < i && #[trigger] before[a].name@ == keys@[c]@;
                                    assert(out[a] == before[a]);
                                } else {
                                    assert(out[a] == before[a]);
                                    assert(out[b] == before[b]);
                                }
                            }
                        }
                    }
                },
                None => {},
            }
            i += 1;
        }
        proof {
            assert forall|k: Seq<char>|
                #[trigger] self.services().contains_key(k) && !expired_at(
                    self.services()[k].last_seen,
                    self.services()[k].ttl_secs,
                    now,
                ) implies exists|j: int| 0 <= j < out.len() && out[j].name@ == k by {
                let a = choose|a: int| 0 <= a < keys.len() && keys@[a]@ == k;
                assert(self.services().contains_key(keys@[a]@));
            }
        }
        out
    }

    /// Caches a service under its name, replacing any service of that name.
    pub fn register_service(&mut self, info: ServiceInfo) -> (r: KvmResult<()>)
        requires
            old(self).wf(),
        ensures
            r is Ok,
            final(self).wf(),
            final(self).service_type_spec() == old(self).service_type_spec(),
            final(self).services() == old(self).services().insert(info.name@, info),
    {
        let key = info.name.clone();
        self.services.insert(key, info);
        Ok(())
    }

    /// Drops the services that have expired at `now`.
    pub fn cleanup_expired_services_at(&mut self, now: Timestamp)
        requires
            old(self).wf(),
        ensures
            final(self).wf(),
            final(self).service_type_spec() == old(self).service_type_spec(),
            forall|k: Seq<char>|
                #[trigger] final(self).services().contains_key(k) <==> old(self).services().contains_key(k)
                    && !expired_at(
                    old(self).services()[k].last_seen,
                    old(self).services()[k].ttl_secs,
                    now,
                ),
            forall|k: Seq<char>|
                #[trigger] final(self).services().contains_key(k) ==> final(self).services()[k]
                    == old(self).services()[k],
    {
        let keys = self.services.keys();
        let ghost orig = self.services();
        let mut i: usize = 0;
        while i < keys.len()
            invariant
                self.wf(),
                self.service_type_spec() == old(self).service_type_spec(),
                orig == old(self).services(),
                i <= keys.len(),
                keys.len() == orig.len(),
                forall|j: int| 0 <= j < keys.len() ==> orig.contains_key(#[trigger] keys@[j]@),
                forall|a: int, b: int| 0 <= a < b < keys.len() ==> keys@[a]@ != keys@[b]@,
                forall|k: Seq<char>| #[trigger] self.services().contains_key(k) ==> orig.contains_key(k) && self.services()[k] == orig[k],
                forall|k: Seq<char>| #[trigger] self.services().contains_key(k) ==> !expired_at(orig[k].last_seen, orig[k].ttl_secs, now)
                    || exists|a: int| i <= a < keys.len() && keys@[a]@ == k,
                forall|k: Seq<char>| #[trigger] orig.contains_key(k) && !expired_at(orig[k].last_seen, orig[k].ttl_secs, now) ==> self.services().contains_key(k),
                forall|k: Seq<char>| #[trigger] orig.contains_key(k) && !(exists|a: int| 0 <= a < i && keys@[a]@ == k) ==> self.services().contains_key(k),
            decreases keys.len() - i,
        {
            let expired = match self.services.get(keys[i].as_str()) {
                Some(s) => s.is_expired_at(now),
                None => false,
            };
            if expired {
                self.services.remove(keys[i].as_str());
            }
            i += 1;
        }
        proof {
            assert forall|k: Seq<char>| #[trigger] orig.contains_key(k) implies self.services().contains_key(k) || expired_at(orig[k].last_seen, orig[k].ttl_secs, now) by {
                if !self.services().contains_key(k) {
                    assert(exists|a: int| 0 <= a < keys.len() && keys@[a]@ == k);
                }
            }
        }
    }

    /// Drops the services that have expired now.
    pub fn cleanup_expired_services(&mut self)
        requires
            old(self).wf(),
        ensures
            final(self).wf(),
            final(self).service_type_spec() == old(self).service_type_spec(),
            exists|now: Timestamp| #[trigger] cleaned_at(old(self).services(), final(self).services(), now),
    {
        let now = Timestamp::now();
        self.cleanup_expired_services_at(now);
        assert(cleaned_at(old(self).services(), self.services(), now));
    }

    /// The services that have not expired now, each once.
    pub fn get_available_services(&self) -> (r: Vec<ServiceInfo>)
        requires
            self.wf(),
        ensures
            exists|now: Timestamp| #[trigger] available_at(self.services(), r@, now),
    {
        let now = Timestamp::now();
        let r = self.get_available_services_at(now);
        assert(available_at(self.services(), r@, now));
        r
    }
}

} // verus!
