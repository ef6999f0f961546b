//! What a service announces on the LAN: its identity, address and
//! capabilities, written into and read back from mDNS TXT records.

use vstd::prelude::*;
use crate::bridge::{utf8_to_string, uuid_hyphenated, uuid_text};
use crate::kvm_common::network::{ip_text, push_ip};
use crate::kvm_common::types::{NetworkAddress, Resolution, VideoQuality};
use crate::kvm_core::error::{KvmError, KvmResult};
use crate::kvm_core::types::{epoch_nanos, ServiceId, Timestamp};
use crate::named_map::NamedMap;
use crate::text::{
    append_str, decimal, join_spec, join_strings, push_char, push_decimal, split_char, split_once_char,
    split_once_spec, split_spec, string_from, views,
};

verus! {

/// The version a service announces.
pub const PACKAGE_VERSION: &'static str = "0.1.0";

/// Service types.
#[derive(Debug, Clone, Copy, PartialEq, Eq, Structural, Hash)]
pub enum ServiceType {
    Server,
    Client,
}

/// What a service can do.
#[derive(Debug, Clone)]
pub struct ServiceCapabilities {
    pub supported_resolutions: Vec<Resolution>,
    pub supported_qualities: Vec<VideoQuality>,
    pub max_clients: usize,
    pub features: Vec<String>,
}

impl Default for ServiceCapabilities {
    /// HD, full HD and QHD; low-latency, balanced and high quality; one
    /// client; TLS 1.3, H.264, keyboard and mouse.
    fn default() -> (r: Self)
        ensures
            r.supported_resolutions@ == seq![
                Resolution { width: 1920, height: 1080 },
                Resolution { width: 1920, height: 1080 },
                Resolution { width: 2560, height: 1440 },
            ],
            r.supported_qualities@ == seq![
                VideoQuality { fps: 60, bitrate_mbps: 50, compression_quality_permille: 800 },
                VideoQuality { fps: 30, bitrate_mbps: 25, compression_quality_permille: 900 },
                VideoQuality { fps: 30, bitrate_mbps: 100, compression_quality_permille: 950 },
            ],
            r.max_clients == 1,
            views(r.features@) == seq!["tls_1_3"@, "h264"@, "keyboard"@, "mouse"@],
    {
        let mut resolutions: Vec<Resolution> = Vec::new();
        resolutions.push(Resolution::hd());
        resolutions.push(Resolution::fhd());
        resolutions.push(Resolution::qhd());
        let mut qualities: Vec<VideoQuality> = Vec::new();
        qualities.push(VideoQuality::low_latency());
        qualities.push(VideoQuality::balanced());
        qualities.push(VideoQuality::high_quality());
        let mut features: Vec<String> = Vec::new();
        features.push(string_from("tls_1_3"));
        features.push(string_from("h264"));
        features.push(string_from("keyboard"));
        features.push(string_from("mouse"));
        let r = ServiceCapabilities {
            supported_resolutions: resolutions,
            supported_qualities: qualities,
            max_clients: 1,
            features,
        };
        assert(r.supported_resolutions@ =~= seq![
            Resolution { width: 1920, height: 1080 },
            Resolution { width: 1920, height: 1080 },
            Resolution { width: 2560, height: 1440 },
        ]);
        assert(r.supported_qualities@ =~= seq![
            VideoQuality { fps: 60, bitrate_mbps: 50, compression_quality_permille: 800 },
            VideoQuality { fps: 30, bitrate_mbps: 25, compression_quality_permille: 900 },
            VideoQuality { fps: 30, bitrate_mbps: 100, compression_quality_permille: 950 },
        ]);
        assert(views(r.features@) =~= seq!["tls_1_3"@, "h264"@, "keyboard"@, "mouse"@]);
        r
    }
}

/// A service seen on the network, last at `last_seen`; the service expires
/// `ttl_secs` seconds after that.
#[derive(Debug, Clone)]
pub struct ServiceInfo {
    pub id: ServiceId,
    pub service_type: ServiceType,
    pub name: String,
    pub address: NetworkAddress,
    pub version: String,
    pub capabilities: ServiceCapabilities,
    pub last_seen: Timestamp,
    pub ttl_secs: u64,
}

/// Whether a service last seen at `last_seen` with a time to live of
/// `ttl_secs` has expired at `now`: once more than the time to live has
/// passed, and also when it was seen after `now`.
pub open spec fn expired_at(last_seen: Timestamp, ttl_secs: u64, now: Timestamp) -> bool {
    let elapsed = epoch_nanos(now) - epoch_nanos(last_seen);
    elapsed < 0 || elapsed > ttl_secs * 1_000_000_000
}

/// A copy of a list of strings.
pub fn copy_strings(v: &Vec<String>) -> (r: Vec<String>)
    ensures
        r@ == v@,
{
    let mut r: Vec<String> = Vec::new();
    let mut i: usize = 0;
    while i < v.len()
        invariant
            i <= v.len(),
            r@ == v@.take(i as int),
        decreases v.len() - i,
    {
        r.push(v[i].clone());
        assert(r@ =~= v@.take(i as int + 1));
        i += 1;
    }
    assert(v@.take(v.len() as int) =~= v@);
    r
}

/// A copy of a list of values.
pub fn copy_values<T: Copy>(v: &Vec<T>) -> (r: Vec<T>)
    ensures
        r@ == v@,
{
    let mut r: Vec<T> = Vec::new();
    let mut i: usize = 0;
    while i < v.len()
        invariant
            i <= v.len(),
            r@ == v@.take(i as int),
        decreases v.len() - i,
    {
        r.push(v[i]);
        assert(r@ =~= v@.take(i as int + 1));
        i += 1;
    }
    assert(v@.take(v.len() as int) =~= v@);
    r
}

/// Whether two capability sets hold the same values.
pub open spec fn same_capabilities(a: ServiceCapabilities, b: ServiceCapabilities) -> bool {
    &&& a.supported_resolutions@ == b.supported_resolutions@
    &&& a.supported_qualities@ == b.supported_qualities@
    &&& a.max_clients == b.max_clients
    &&& a.features@ == b.features@
}

/// Whether two service descriptions hold the same values.
pub open spec fn same_service(a: ServiceInfo, b: ServiceInfo) -> bool {
    &&& a.id == b.id
    &&& a.service_type == b.service_type
    &&& a.name == b.name
    &&& a.address == b.address
    &&& a.version == b.version
    &&& same_capabilities(a.capabilities, b.capabilities)
    &&& a.last_seen == b.last_seen
    &&& a.ttl_secs == b.ttl_secs
}

impl ServiceCapabilities {
    /// A field-by-field copy.
    pub fn duplicate(&self) -> (r: Self)
        ensures
            same_capabilities(r, *self),
    {
        ServiceCapabilities {
            supported_resolutions: copy_values(&self.supported_resolutions),
            supported_qualities: copy_values(&self.supported_qualities),
            max_clients: self.max_clients,
            features: copy_strings(&self.features),
        }
    }
}

impl ServiceInfo {
    /// A field-by-field copy.
    pub fn duplicate(&self) -> (r: Self)
        ensures
            same_service(r, *self),
    {
        ServiceInfo {
            id: self.id,
            service_type: self.service_type,
            name: self.name.clone(),
            address: self.address,
            version: self.version.clone(),
            capabilities: self.capabilities.duplicate(),
            last_seen: self.last_seen,
            ttl_secs: self.ttl_secs,
        }
    }

    /// A service seen now, with a fresh id, the package version and a time
    /// to live of five minutes.
    pub fn new(
        service_type: ServiceType,
        name: String,
        address: NetworkAddress,
        capabilities: ServiceCapabilities,
    ) -> (r: Self)
        ensures
            r.service_type == service_type,
            r.name == name,
            r.address == address,
            r.version@ == PACKAGE_VERSION@,
            r.capabilities == capabilities,
            r.ttl_secs == 300,
    {
        ServiceInfo {
            id: ServiceId::new(),
            service_type,
            name,
            address,
            version: string_from(PACKAGE_VERSION),
            capabilities,
            last_seen: Timestamp::now(),
            ttl_secs: 300,
        }
    }

    /// Whether the service has expired at `now`.
    pub fn is_expired_at(&self, now: Timestamp) -> (r: bool)
        ensures
            r == expired_at(self.last_seen, self.ttl_secs, now),
    {
        let elapsed: i128 = now.nanos_since(&self.last_seen);
        if elapsed < 0 {
            return true;
        }
        elapsed > (self.ttl_secs as i128) * 1_000_000_000
    }

    /// Whether the service has expired now.
    pub fn is_expired(&self) -> (r: bool)
        ensures
            exists|now: Timestamp| r == expired_at(self.last_seen, self.ttl_secs, now),
    {
        let now = Timestamp::now();
        self.is_expired_at(now)
    }

    /// Marks the service seen now: only the time it was last seen changes,
    /// to a reading of the clock.
    pub fn refresh(&mut self)
        ensures
            *final(self) == (ServiceInfo { last_seen: final(self).last_seen, ..*old(self) }),
            final(self).last_seen.secs >= 0,
            final(self).last_seen.nanos < 1_000_000_000,
    {
        self.last_seen = Timestamp::now();
    }
}

/// The mDNS service names of the KVM services.
pub struct MdnsServiceName;

impl MdnsServiceName {
    pub const KVM_SERVER: &'static str = "_soft-kvm-server._tcp.local.";

    pub const KVM_CLIENT: &'static str = "_soft-kvm-client._tcp.local.";

    /// The mDNS service name of a service type.
    pub fn from_service_type(service_type: ServiceType) -> (r: &'static str)
        ensures
            r@ == match service_type {
                ServiceType::Server => Self::KVM_SERVER@,
                ServiceType::Client => Self::KVM_CLIENT@,
            },
    {
        match service_type {
            ServiceType::Server => Self::KVM_SERVER,
            ServiceType::Client => Self::KVM_CLIENT,
        }
    }
}

/// The name of a service type, as it is written in a TXT record.
pub open spec fn service_type_text(t: ServiceType) -> Seq<char> {
    match t {
        ServiceType::Server => "Server"@,
        ServiceType::Client => "Client"@,
    }
}

/// The TXT entry of a resolution.
pub open spec fn resolution_entry(r: Resolution) -> Seq<char> {
    "res="@ + decimal(r.width as nat) + seq!['x'] + decimal(r.height as nat)
}

/// The TXT entry of a video quality.
pub open spec fn quality_entry(q: VideoQuality) -> Seq<char> {
    "quality=fps"@ + decimal(q.fps as nat) + "Mbps"@ + decimal(q.bitrate_mbps as nat)
}

/// The TXT entry of a feature.
pub open spec fn feature_entry(f: Seq<char>) -> Seq<char> {
    "feature="@ + f
}

/// The TXT entries of a service, in order: id, name, version, type,
/// address, each resolution, each quality, the client limit, each feature.
pub open spec fn txt_entries(info: ServiceInfo) -> Seq<Seq<char>> {
    seq![
        "id="@ + uuid_hyphenated(info.id.0),
        "name="@ + info.name@,
        "version="@ + info.version@,
        "type="@ + service_type_text(info.service_type),
        "address="@ + ip_text(info.address.ip) + seq![':'] + decimal(info.address.port as nat),
    ] + Seq::new(
        info.capabilities.supported_resolutions@.len(),
        |i: int| resolution_entry(info.capabilities.supported_resolutions@[i]),
    ) + Seq::new(
        info.capabilities.supported_qualities@.len(),
        |i: int| quality_entry(info.capabilities.supported_qualities@[i]),
    ) + seq!["max_clients="@ + decimal(info.capabilities.max_clients as nat)] + Seq::new(
        info.capabilities.features@.len(),
        |i: int| feature_entry(info.capabilities.features@[i]@),
    )
}

/// The text of a service's TXT record: its entries separated by NUL.
pub open spec fn txt_text(info: ServiceInfo) -> Seq<char> {
    join_spec(txt_entries(info), '\0')
}

/// The key/value pairs of a TXT record's entries: each entry with an `=` is
/// split at its first `=`; entries without one are skipped; a later entry
/// of a key wins.
pub open spec fn txt_map(entries: Seq<Seq<char>>) -> Map<Seq<char>, Seq<char>>
    decreases entries.len(),
{
    if entries.len() == 0 {
        Map::empty()
    } else {
        let m = txt_map(entries.drop_last());
        match split_once_spec(entries.last(), '=') {
            Some((k, v)) => m.insert(k, v),
            None => m,
        }
    }
}

/// Whether `m` holds the key/value pairs of the TXT record whose text is
/// `text`.
pub open spec fn holds_txt_pairs(m: Map<Seq<char>, String>, text: Seq<char>) -> bool {
    let pairs = txt_map(split_spec(text, '\0'));
    &&& m.dom() == pairs.dom()
    &&& forall|k: Seq<char>| #[trigger] m.contains_key(k) ==> m[k]@ == pairs[k]
}

/// Reading and writing the TXT records of services.
pub struct TxtRecordParser;

impl TxtRecordParser {
    /// The key/value pairs of a TXT record: its bytes are UTF-8 text whose
    /// entries are separated by NUL; an entry is split at its first `=`, an
    /// entry without one is skipped, and a later entry of a key wins. Bytes
    /// that are not UTF-8 are a protocol error.
    pub fn parse(data: &[u8]) -> (r: KvmResult<NamedMap<String>>)
        ensures
            vstd::utf8::valid_utf8(data@) ==> (r matches Ok(m) && m.wf() && holds_txt_pairs(
                m@,
                vstd::utf8::decode_utf8(data@),
            )),
            !vstd::utf8::valid_utf8(data@) ==> (r matches Err(KvmError::Protocol(e))
                && e@ == "Invalid TXT record encoding"@),
    {
        let txt = match utf8_to_string(data) {
            Some(t) => t,
            None => {
                return Err(KvmError::Protocol(string_from("Invalid TXT record encoding")));
            },
        };
        let entries = split_char(txt.as_str(), '\0');
        let ghost es = split_spec(txt@, '\0');
        let mut map: NamedMap<String> = NamedMap::new();
        let mut i: usize = 0;
        while i < entries.len()
            invariant
                i <= entries.len(),
                entries.len() == es.len(),
                forall|j: int| 0 <= j < entries.len() ==> #[trigger] entries[j]@ == es[j],
                map.wf(),
                map@.dom() == txt_map(es.take(i as int)).dom(),
                forall|k: Seq<char>| #[trigger] map@.contains_key(k) ==> map@[k]@ == txt_map(
                    es.take(i as int),
                )[k],
            decreases entries.len() - i,
        {
            let ghost pre = es.take(i as int);
            let ghost next = es.take(i as int + 1);
            assert(next.drop_last() =~= pre);
            assert(next.last() == es[i as int]);
            match split_once_char(entries[i].as_str(), '=') {
                Some((k, v)) => {
                    map.insert(k, v);
                    assert(map@.dom() =~= txt_map(next).dom());
                },
                None => {},
            }
            i += 1;
        }
        assert(es.take(entries.len() as int) =~= es);
        Ok(map)
    }

    /// The bytes of a service's TXT record: the UTF-8 encoding of its
    /// entries separated by NUL.
    pub fn serialize(info: &ServiceInfo) -> (r: Vec<u8>)
        ensures
            r@ == vstd::utf8::encode_utf8(txt_text(*info)),
    {
        let ghost target = txt_entries(*info);
        let mut entries: Vec<String> = Vec::new();
        let mut e = string_from("id=");
        let id_text = uuid_text(info.id.0);
        append_str(&mut e, id_text.as_str());
        entries.push(e);
        let mut e = string_from("name=");
        append_str(&mut e, info.name.as_str());
        entries.push(e);
        let mut e = string_from("version=");
        append_str(&mut e, info.version.as_str());
        entries.push(e);
        let mut e = string_from("type=");
        match info.service_type {
            ServiceType::Server => append_str(&mut e, "Server"),
            ServiceType::Client => append_str(&mut e, "Client"),
        }
        entries.push(e);
        let mut e = string_from("address=");
        push_ip(&mut e, &info.address.ip);
        push_char(&mut e, ':');
        push_decimal(&mut e, info.address.port as u64);
        entries.push(e);
        assert(entries@.len() == 5);
        assert forall|j: int| 0 <= j < 5 implies #[trigger] entries@[j]@ == target[j] by {
            assert(entries@[j]@ =~= target[j]);
        }
        let res = &info.capabilities.supported_resolutions;
        let mut i: usize = 0;
        while i < res.len()
            invariant
                i <= res.len(),
                *res == info.capabilities.supported_resolutions,
                target == txt_entries(*info),
                entries@.len() == 5 + i,
                forall|j: int| 0 <= j < entries@.len() ==> #[trigger] entries@[j]@ == target[j],
            decreases res.len() - i,
        {
            let r = res[i];
            let mut e = string_from("res=");
            push_decimal(&mut e, r.width as u64);
            push_char(&mut e, 'x');
            push_decimal(&mut e, r.height as u64);
            assert(e@ =~= target[5 + i as int]);
            entries.push(e);
            i += 1;
        }
        let nres = res.len();
        let qs = &info.capabilities.supported_qualities;
        let mut i: usize = 0;
        while i < qs.len()
            invariant
                i <= qs.len(),
                *qs == info.capabilities.supported_qualities,
                nres == info.capabilities.supported_resolutions@.len(),
                target == txt_entries(*info),
                entries@.len() == 5 + nres + i,
                forall|j: int| 0 <= j < entries@.len() ==> #[trigger] entries@[j]@ == target[j],
            decreases qs.len() - i,
        {
            let q = qs[i];
            let mut e = string_from("quality=fps");
            push_decimal(&mut e, q.fps as u64);
            append_str(&mut e, "Mbps");
            push_decimal(&mut e, q.bitrate_mbps as u64);
            assert(e@ =~= target[5 + nres + i as int]);
            entries.push(e);
            i += 1;
        }
        let nq = qs.len();
        let mut e = string_from("max_clients=");
        push_decimal(&mut e, info.capabilities.max_clients as u64);
        assert(e@ =~= target[5 + nres + nq]);
        entries.push(e);
        let fs = &info.capabilities.features;
        let mut i: usize = 0;
        while i < fs.len()
            invariant
                i <= fs.len(),
                *fs == info.capabilities.features,
                nres == info.capabilities.supported_resolutions@.len(),
                nq == info.capabilities.supported_qualities@.len(),
                target == txt_entries(*info),
                entries@.len() == 6 + nres + nq + i,
                forall|j: int| 0 <= j < entries@.len() ==> #[trigger] entries@[j]@ == target[j],
            decreases fs.len() - i,
        {
            let mut e = string_from("feature=");
            append_str(&mut e, fs[i].as_str());
            assert(e@ =~= target[6 + nres + nq + i as int]);
            entries.push(e);
            i += 1;
        }
        assert(views(entries@) =~= target);
        let text = join_strings(&entries, '\0');
        vstd::slice::slice_to_vec(text.as_str().as_bytes())
    }
}

} // verus!
