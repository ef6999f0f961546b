//! What a service's TXT record gives back when it is read: the pairs the
//! record parser finds in the bytes the serializer wrote, and the service
//! the resolver reads from those pairs.

use vstd::prelude::*;
use crate::bridge::{hex32, nibble128, uuid_hyphenated};
use crate::discovery::resolver::{address_from_text, lemma_no_quality_keys, lemma_txt_keys_have_no_equals, max_clients_of, name_of, qualities_readable, service_type_of};
use crate::discovery::service::{feature_entry, holds_txt_pairs, quality_entry, resolution_entry, service_type_text, txt_entries, txt_map, txt_text, ServiceInfo};
use crate::kvm_common::network::{hex_join, ip_text, ipv4_text, is_ipv4_mapped, is_longest_zero_run, lemma_ipv4_round_trip, lemma_ipv4_text_lacks};
use crate::kvm_common::types::{IpAddress, NetworkAddress};
use crate::text::{decimal, hex_digit_lower, hex_text, is_digit, join_spec, lemma_decimal_lacks, lemma_digit_char, lemma_parse_decimal, lemma_split_join, lemma_split_once_prefix, split_once_spec};
use vstd::string::*;

verus! {

/// The key of a TXT entry, where it has an `=`.
pub open spec fn entry_key(e: Seq<char>) -> Option<Seq<char>> {
    match split_once_spec(e, '=') {
        Some((k, _)) => Some(k),
        None => None,
    }
}

/// The pairs of `entries` give `k` the value `v` when entry `i` is the pair
/// `k`, `v` and no later entry has the key `k`.
pub proof fn lemma_txt_map_lookup(entries: Seq<Seq<char>>, i: int, k: Seq<char>, v: Seq<char>)
    requires
        0 <= i < entries.len(),
        split_once_spec(entries[i], '=') == Some((k, v)),
        forall|j: int| i < j < entries.len() ==> entry_key(#[trigger] entries[j]) != Some(k),
    ensures
        txt_map(entries).contains_key(k),
        txt_map(entries)[k] == v,
    decreases entries.len(),
{
    let init = entries.drop_last();
    if i == entries.len() - 1 {
        assert(entries.last() == entries[i]);
    } else {
        assert forall|j: int| i < j < init.len() implies entry_key(#[trigger] init[j]) != Some(k) by {
            assert(init[j] == entries[j]);
            assert(entry_key(entries[j]) != Some(k));
        }
        assert(init[i] == entries[i]);
        lemma_txt_map_lookup(init, i, k, v);
        let last = entries.last();
        assert(entry_key(entries[entries.len() - 1]) != Some(k));
        assert(entries[entries.len() - 1] == last);
        match split_once_spec(last, '=') {
            Some((k2, v2)) => {
                assert(k2 != k);
            },
            None => {},
        }
    }
}

/// A sequence joined from two that lack `c` lacks it too.
pub proof fn lemma_concat_lacks(a: Seq<char>, b: Seq<char>, c: char)
    requires
        !a.contains(c),
        !b.contains(c),
    ensures
        !(a + b).contains(c),
{
    if (a + b).contains(c) {
        let i = choose|i: int| 0 <= i < (a + b).len() && (a + b)[i] == c;
        if i < a.len() {
            assert((a + b)[i] == a[i]);
        } else {
            assert((a + b)[i] == b[i - a.len()]);
        }
    }
}

/// The hyphenated text of a UUID holds only hexadecimal digits and `-`.
pub proof fn lemma_uuid_text_lacks(v: u128, c: char)
    requires
        !is_digit(c),
        c != '-',
        !('a' <= c <= 'f'),
    ensures
        !uuid_hyphenated(v).contains(c),
{
    let h = hex32(v);
    assert forall|i: int| 0 <= i < 32 implies #[trigger] h[i] != c by {
        let x = v >> ((124 - 4 * i) as u128);
        assert((x & 0xf) < 16) by (bit_vector);
        let d = nibble128(v, i);
        assert(d < 16);
        if d < 10 {
            lemma_digit_char(d);
        }
    }
    let t = uuid_hyphenated(v);
    if t.contains(c) {
        let i = choose|i: int| 0 <= i < t.len() && t[i] == c;
        if i < 8 {
            assert(t[i] == h[i]);
        } else if i == 8 {
        } else if i < 13 {
            assert(t[i] == h[i - 1]);
        } else if i == 13 {
        } else if i < 18 {
            assert(t[i] == h[i - 2]);
        } else if i == 18 {
        } else if i < 23 {
            assert(t[i] == h[i - 3]);
        } else if i == 23 {
        } else {
            assert(t[i] == h[i - 4]);
        }
    }
}

/// What a service must be for its TXT entries to read back: no NUL in its
/// name, version or features (a NUL would split an entry in two).
pub open spec fn txt_text_safe(info: ServiceInfo) -> bool {
    &&& !info.name@.contains('\0')
    &&& !info.version@.contains('\0')
    &&& forall|i: int|
        0 <= i < info.capabilities.features@.len() ==> !(#[trigger] info.capabilities.features@[i])@.contains(
            '\0',
        )
}

/// What a service must be for its TXT record to read back as a service: an
/// IPv4 address, and no NUL in its name, version or features.
pub open spec fn txt_safe(info: ServiceInfo) -> bool {
    &&& info.address.ip is V4
    &&& !info.name@.contains('\0')
    &&& !info.version@.contains('\0')
    &&& forall|i: int|
        0 <= i < info.capabilities.features@.len() ==> !(#[trigger] info.capabilities.features@[i])@.contains(
            '\0',
        )
}

/// A hexadecimal digit is not NUL.
proof fn lemma_hex_digit_not_nul(d: nat)
    requires
        d < 16,
    ensures
        hex_digit_lower(d) != '\0',
{
    if d < 10 {
        lemma_digit_char(d);
    } else {
        let x = (d - 10 + 97) as u8;
        assert(x >= 97);
        assert((x as char) as u32 == x as u32);
    }
}

/// The hexadecimal text of a number holds no NUL.
proof fn lemma_hex_text_lacks_nul(n: nat)
    ensures
        !hex_text(n).contains('\0'),
    decreases n,
{
    if n < 16 {
        lemma_hex_digit_not_nul(n);
        assert(hex_text(n)[0] == hex_digit_lower(n));
    } else {
        lemma_hex_text_lacks_nul(n / 16);
        lemma_hex_digit_not_nul(n % 16);
        let t = hex_text(n / 16);
        assert(hex_text(n) == t.push(hex_digit_lower(n % 16)));
        lemma_concat_lacks(t, seq![hex_digit_lower(n % 16)], '\0');
        assert(t.push(hex_digit_lower(n % 16)) =~= t + seq![hex_digit_lower(n % 16)]);
    }
}

/// Segments joined in hexadecimal hold no NUL.
proof fn lemma_hex_join_lacks_nul(segs: Seq<u16>)
    ensures
        !hex_join(segs).contains('\0'),
    decreases segs.len(),
{
    if segs.len() == 1 {
        lemma_hex_text_lacks_nul(segs[0] as nat);
    } else if segs.len() > 1 {
        lemma_hex_join_lacks_nul(segs.drop_last());
        lemma_hex_text_lacks_nul(segs.last() as nat);
        let a = hex_join(segs.drop_last());
        assert(!seq![':'].contains('\0'));
        lemma_concat_lacks(a, seq![':'], '\0');
        assert(a.push(':') =~= a + seq![':']);
        lemma_concat_lacks(a.push(':'), hex_text(segs.last() as nat), '\0');
    }
}

/// The text of an IP address holds no NUL.
proof fn lemma_ip_text_lacks_nul(ip: IpAddress)
    ensures
        !ip_text(ip).contains('\0'),
{
    match ip {
        IpAddress::V4(a, b, c, d) => {
            lemma_ipv4_text_lacks(a, b, c, d, '\0');
        },
        IpAddress::V6(segs) => {
            let s = segs@;
            if is_ipv4_mapped(s) {
                let p = seq![':', ':', 'f', 'f', 'f', 'f', ':'];
                assert(!p.contains('\0'));
                lemma_ipv4_text_lacks(
                    (s[6] / 256) as u8,
                    (s[6] % 256) as u8,
                    (s[7] / 256) as u8,
                    (s[7] % 256) as u8,
                    '\0',
                );
                lemma_concat_lacks(
                    p,
                    ipv4_text((s[6] / 256) as u8, (s[6] % 256) as u8, (s[7] / 256) as u8, (s[7] % 256) as u8),
                    '\0',
                );
            } else {
                let run = choose|run: (int, nat)| is_longest_zero_run(s, run.0, run.1);
                if run.1 > 1 {
                    lemma_hex_join_lacks_nul(s.take(run.0));
                    lemma_hex_join_lacks_nul(s.skip(run.0 + run.1));
                    assert(!seq![':', ':'].contains('\0'));
                    lemma_concat_lacks(hex_join(s.take(run.0)), seq![':', ':'], '\0');
                    lemma_concat_lacks(
                        hex_join(s.take(run.0)) + seq![':', ':'],
                        hex_join(s.skip(run.0 + run.1)),
                        '\0',
                    );
                } else {
                    lemma_hex_join_lacks_nul(s);
                }
            }
        },
    }
}

/// The index of the `max_clients` entry among a service's TXT entries.
pub open spec fn max_clients_index(info: ServiceInfo) -> int {
    (5 + info.capabilities.supported_resolutions@.len() + info.capabilities.supported_qualities@.len()) as int
}

/// The keys and values of a service's TXT entries.
proof fn lemma_entry_pairs(info: ServiceInfo)
    requires
        txt_text_safe(info),
    ensures
        split_once_spec(txt_entries(info)[0], '=') == Some(("id"@, uuid_hyphenated(info.id.0))),
        split_once_spec(txt_entries(info)[1], '=') == Some(("name"@, info.name@)),
        split_once_spec(txt_entries(info)[2], '=') == Some(("version"@, info.version@)),
        split_once_spec(txt_entries(info)[3], '=') == Some(
            ("type"@, service_type_text(info.service_type)),
        ),
        split_once_spec(txt_entries(info)[4], '=') == Some(
            ("address"@, ip_text(info.address.ip) + seq![':'] + decimal(info.address.port as nat)),
        ),
        split_once_spec(txt_entries(info)[max_clients_index(info)], '=') == Some(
            ("max_clients"@, decimal(info.capabilities.max_clients as nat)),
        ),
        forall|j: int|
            5 <= j < txt_entries(info).len() && j != max_clients_index(info) ==> {
                ||| entry_key(#[trigger] txt_entries(info)[j]) == Some("res"@)
                ||| entry_key(txt_entries(info)[j]) == Some("quality"@)
                ||| entry_key(txt_entries(info)[j]) == Some("feature"@)
            },
        forall|j: int|
            max_clients_index(info) < j < txt_entries(info).len() ==> entry_key(#[trigger] txt_entries(info)[j])
                == Some("feature"@),
{
    reveal_strlit("id=");
    reveal_strlit("id");
    reveal_strlit("name=");
    reveal_strlit("name");
    reveal_strlit("version=");
    reveal_strlit("version");
    reveal_strlit("type=");
    reveal_strlit("type");
    reveal_strlit("address=");
    reveal_strlit("address");
    reveal_strlit("max_clients=");
    reveal_strlit("max_clients");
    reveal_strlit("res=");
    reveal_strlit("res");
    reveal_strlit("quality=");
    reveal_strlit("quality");
    reveal_strlit("feature=");
    reveal_strlit("feature");
    let es = txt_entries(info);
    let nr = info.capabilities.supported_resolutions@.len();
    let nq = info.capabilities.supported_qualities@.len();
    let nf = info.capabilities.features@.len();
    assert(es.len() == 6 + nr + nq + nf);
    lemma_split_once_prefix("id="@, uuid_hyphenated(info.id.0), '=');
    assert("id="@.drop_last() =~= "id"@);
    lemma_split_once_prefix("name="@, info.name@, '=');
    assert("name="@.drop_last() =~= "name"@);
    lemma_split_once_prefix("version="@, info.version@, '=');
    assert("version="@.drop_last() =~= "version"@);
    lemma_split_once_prefix("type="@, service_type_text(info.service_type), '=');
    assert("type="@.drop_last() =~= "type"@);
    let addr = ip_text(info.address.ip) + seq![':'] + decimal(info.address.port as nat);
    lemma_split_once_prefix("address="@, addr, '=');
    assert("address="@.drop_last() =~= "address"@);
    assert("address="@ + addr =~= "address="@ + ip_text(info.address.ip) + seq![':'] + decimal(
        info.address.port as nat,
    ));
    let mc = decimal(info.capabilities.max_clients as nat);
    lemma_split_once_prefix("max_clients="@, mc, '=');
    assert("max_clients="@.drop_last() =~= "max_clients"@);
    assert(es[max_clients_index(info)] == "max_clients="@ + mc);
    assert forall|j: int| 5 <= j < es.len() && j != max_clients_index(info) implies {
        ||| entry_key(#[trigger] es[j]) == Some("res"@)
        ||| entry_key(es[j]) == Some("quality"@)
        ||| entry_key(es[j]) == Some("feature"@)
    } by {
        if j < 5 + nr {
            let r = info.capabilities.supported_resolutions@[j - 5];
            assert(es[j] == resolution_entry(r));
            let rest = decimal(r.width as nat) + seq!['x'] + decimal(r.height as nat);
            assert(resolution_entry(r) =~= "res="@ + rest);
            lemma_split_once_prefix("res="@, rest, '=');
            assert("res="@.drop_last() =~= "res"@);
        } else if j < 5 + nr + nq {
            let q = info.capabilities.supported_qualities@[j - 5 - nr];
            assert(es[j] == quality_entry(q));
            let rest = "fps"@ + decimal(q.fps as nat) + "Mbps"@ + decimal(q.bitrate_mbps as nat);
            reveal_strlit("quality=fps");
            reveal_strlit("fps");
            assert("quality=fps"@ =~= "quality="@ + "fps"@);
            assert(quality_entry(q) =~= "quality="@ + rest);
            lemma_split_once_prefix("quality="@, rest, '=');
            assert("quality="@.drop_last() =~= "quality"@);
        } else {
            let f = info.capabilities.features@[j - 6 - nr - nq];
            assert(es[j] == feature_entry(f@));
            lemma_split_once_prefix("feature="@, f@, '=');
            assert("feature="@.drop_last() =~= "feature"@);
        }
    }
    assert forall|j: int| max_clients_index(info) < j < es.len() implies entry_key(#[trigger] es[j]) == Some(
        "feature"@,
    ) by {
        let f = info.capabilities.features@[j - 6 - nr - nq];
        assert(es[j] == feature_entry(f@));
        lemma_split_once_prefix("feature="@, f@, '=');
        assert("feature="@.drop_last() =~= "feature"@);
    }
}

/// No entry of a safe service's TXT record holds a NUL.
proof fn lemma_entries_lack_nul(info: ServiceInfo)
    requires
        txt_text_safe(info),
    ensures
        forall|j: int| 0 <= j < txt_entries(info).len() ==> !(#[trigger] txt_entries(info)[j]).contains('\0'),
{
    reveal_strlit("id=");
    reveal_strlit("name=");
    reveal_strlit("version=");
    reveal_strlit("type=");
    reveal_strlit("address=");
    reveal_strlit("max_clients=");
    reveal_strlit("res=");
    reveal_strlit("quality=fps");
    reveal_strlit("Mbps");
    reveal_strlit("feature=");
    reveal_strlit("Server");
    reveal_strlit("Client");
    let z = '\0';
    let es = txt_entries(info);
    let nr = info.capabilities.supported_resolutions@.len();
    let nq = info.capabilities.supported_qualities@.len();
    assert(!"id="@.contains(z));
    assert(!"name="@.contains(z));
    assert(!"version="@.contains(z));
    assert(!"type="@.contains(z));
    assert(!"address="@.contains(z));
    assert(!"max_clients="@.contains(z));
    assert(!"res="@.contains(z));
    assert(!"quality=fps"@.contains(z));
    assert(!"Mbps"@.contains(z));
    assert(!"feature="@.contains(z));
    assert(!seq![':'].contains(z));
    assert(!seq!['x'].contains(z));
    assert forall|j: int| 0 <= j < es.len() implies !(#[trigger] es[j]).contains(z) by {
        if j == 0 {
            lemma_uuid_text_lacks(info.id.0, z);
            lemma_concat_lacks("id="@, uuid_hyphenated(info.id.0), z);
        } else if j == 1 {
            lemma_concat_lacks("name="@, info.name@, z);
        } else if j == 2 {
            lemma_concat_lacks("version="@, info.version@, z);
        } else if j == 3 {
            assert(!service_type_text(info.service_type).contains(z));
            lemma_concat_lacks("type="@, service_type_text(info.service_type), z);
        } else if j == 4 {
            let ip = info.address.ip;
            lemma_ip_text_lacks_nul(ip);
            lemma_decimal_lacks(info.address.port as nat, z);
            lemma_concat_lacks("address="@, ip_text(ip), z);
            lemma_concat_lacks("address="@ + ip_text(ip), seq![':'], z);
            lemma_concat_lacks("address="@ + ip_text(ip) + seq![':'], decimal(info.address.port as nat), z);
        } else if j < 5 + nr {
            let r = info.capabilities.supported_resolutions@[j - 5];
            lemma_decimal_lacks(r.width as nat, z);
            lemma_decimal_lacks(r.height as nat, z);
            lemma_concat_lacks("res="@, decimal(r.width as nat), z);
            lemma_concat_lacks("res="@ + decimal(r.width as nat), seq!['x'], z);
            lemma_concat_lacks("res="@ + decimal(r.width as nat) + seq!['x'], decimal(r.height as nat), z);
        } else if j < 5 + nr + nq {
            let q = info.capabilities.supported_qualities@[j - 5 - nr];
            lemma_decimal_lacks(q.fps as nat, z);
            lemma_decimal_lacks(q.bitrate_mbps as nat, z);
            lemma_concat_lacks("quality=fps"@, decimal(q.fps as nat), z);
            lemma_concat_lacks("quality=fps"@ + decimal(q.fps as nat), "Mbps"@, z);
            lemma_concat_lacks(
                "quality=fps"@ + decimal(q.fps as nat) + "Mbps"@,
                decimal(q.bitrate_mbps as nat),
                z,
            );
        } else if j == 5 + nr + nq {
            lemma_decimal_lacks(info.capabilities.max_clients as nat, z);
            lemma_concat_lacks("max_clients="@, decimal(info.capabilities.max_clients as nat), z);
        } else {
            let f = info.capabilities.features@[j - 6 - nr - nq];
            lemma_concat_lacks("feature="@, f@, z);
        }
    }
}

/// Reading a service's TXT record back gives its name, type, address and
/// client limit, and also its id and version text: for a service with an
/// IPv4 address and no NUL in its name, version or features, the bytes
/// `TxtRecordParser::serialize` writes are UTF-8, and the pairs
/// `TxtRecordParser::parse` finds in them lead `parse_service_info` to that
/// name, type, address and client limit. (The service read back has a fresh
/// id and the package version, and its lists of resolutions, qualities and
/// features come back empty: no key of a TXT pair can begin with `res=`,
/// `quality=` or `feature=`. For any address, IPv6 too, the texts read back
/// are stated by `txt_entries_round_trip`.)
pub proof fn txt_record_round_trip(info: ServiceInfo, pairs: Map<Seq<char>, String>)
    requires
        txt_safe(info),
        holds_txt_pairs(pairs, vstd::utf8::decode_utf8(vstd::utf8::encode_utf8(txt_text(info)))),
    ensures
        vstd::utf8::valid_utf8(vstd::utf8::encode_utf8(txt_text(info))),
        qualities_readable(pairs),
        pairs.contains_key("address"@),
        address_from_text(pairs["address"@]@) == Ok::<NetworkAddress, Seq<char>>(info.address),
        name_of(pairs) == info.name@,
        service_type_of(pairs) == info.service_type,
        max_clients_of(pairs) == info.capabilities.max_clients,
        pairs.contains_key("id"@) && pairs["id"@]@ == uuid_hyphenated(info.id.0),
        pairs.contains_key("version"@) && pairs["version"@]@ == info.version@,
        forall|k: Seq<char>| #[trigger] pairs.contains_key(k) ==> !k.contains('='),
{
    broadcast use vstd::utf8::encode_utf8_valid_utf8, vstd::utf8::encode_utf8_decode_utf8;

    let t = txt_text(info);
    let es = txt_entries(info);
    assert(vstd::utf8::decode_utf8(vstd::utf8::encode_utf8(t)) == t);
    lemma_entries_lack_nul(info);
    lemma_split_join(es, '\0');
    let m = txt_map(es);
    assert(pairs.dom() == m.dom());
    lemma_entry_pairs(info);
    lemma_key_names_distinct();
    let mci = max_clients_index(info);
    lemma_txt_map_lookup(es, 0, "id"@, uuid_hyphenated(info.id.0));
    lemma_txt_map_lookup(es, 1, "name"@, info.name@);
    lemma_txt_map_lookup(es, 2, "version"@, info.version@);
    lemma_txt_map_lookup(es, 3, "type"@, service_type_text(info.service_type));
    let addr = ip_text(info.address.ip) + seq![':'] + decimal(info.address.port as nat);
    lemma_txt_map_lookup(es, 4, "address"@, addr);
    let mc = decimal(info.capabilities.max_clients as nat);
    lemma_txt_map_lookup(es, mci, "max_clients"@, mc);
    assert(pairs.contains_key("name"@));
    assert(pairs.contains_key("type"@));
    assert(pairs.contains_key("max_clients"@));
    lemma_txt_keys_have_no_equals(es);
    lemma_no_quality_keys(pairs);
    if let IpAddress::V4(a, b, c, d) = info.address.ip {
        address_text_round_trip(a, b, c, d, info.address.port);
        assert(pairs["address"@]@ == addr);
    }
    lemma_parse_decimal(info.capabilities.max_clients as nat, usize::MAX as nat);
    reveal_strlit("Server");
    reveal_strlit("Client");
    assert("Server"@ != "Client"@) by {
        assert("Server"@[0] != "Client"@[0]);
    }
}

/// The `ip:port` text of an IPv4 address and port reads back as that
/// address: `address_from_text` gives the address whose dotted text and
/// decimal port make up the text.
pub proof fn address_text_round_trip(a: u8, b: u8, c: u8, d: u8, port: u16)
    ensures
        address_from_text(ipv4_text(a, b, c, d) + seq![':'] + decimal(port as nat)) == Ok::<
            NetworkAddress,
            Seq<char>,
        >(NetworkAddress { ip: IpAddress::V4(a, b, c, d), port }),
{
    let ipt = ipv4_text(a, b, c, d);
    let pt = decimal(port as nat);
    let parts = seq![ipt, pt];
    assert(join_spec(parts, ':') =~= ipt + seq![':'] + pt) by {
        assert(parts.drop_last() =~= seq![ipt]);
        reveal_with_fuel(join_spec, 2);
    }
    lemma_ipv4_text_lacks(a, b, c, d, ':');
    lemma_decimal_lacks(port as nat, ':');
    assert forall|i: int| 0 <= i < parts.len() implies !(#[trigger] parts[i]).contains(':') by {}
    lemma_split_join(parts, ':');
    lemma_ipv4_round_trip(a, b, c, d);
    lemma_parse_decimal(port as nat, 65535);
}

/// The keys of a service's TXT pairs differ from one another.
proof fn lemma_key_names_distinct()
    ensures
        "id"@ != "name"@,
        "id"@ != "version"@,
        "id"@ != "type"@,
        "id"@ != "address"@,
        "id"@ != "max_clients"@,
        "id"@ != "res"@,
        "id"@ != "quality"@,
        "id"@ != "feature"@,
        "name"@ != "version"@,
        "name"@ != "type"@,
        "name"@ != "address"@,
        "name"@ != "max_clients"@,
        "name"@ != "res"@,
        "name"@ != "quality"@,
        "name"@ != "feature"@,
        "version"@ != "type"@,
        "version"@ != "address"@,
        "version"@ != "max_clients"@,
        "version"@ != "res"@,
        "version"@ != "quality"@,
        "version"@ != "feature"@,
        "type"@ != "address"@,
        "type"@ != "max_clients"@,
        "type"@ != "res"@,
        "type"@ != "quality"@,
        "type"@ != "feature"@,
        "address"@ != "max_clients"@,
        "address"@ != "res"@,
        "address"@ != "quality"@,
        "address"@ != "feature"@,
        "max_clients"@ != "feature"@,
{
    reveal_strlit("id");
    reveal_strlit("name");
    reveal_strlit("version");
    reveal_strlit("type");
    reveal_strlit("address");
    reveal_strlit("max_clients");
    reveal_strlit("res");
    reveal_strlit("quality");
    reveal_strlit("feature");
    assert("id"@.len() != "max_clients"@.len());
    assert("id"@.len() != "res"@.len());
    assert("name"@[0] != "type"@[0]);
    assert("version"@[0] != "feature"@[0]);
    assert("version"@[0] != "quality"@[0]);
    assert("address"@[0] != "feature"@[0]);
    assert("address"@[0] != "quality"@[0]);
    assert("address"@[0] != "version"@[0]);
}

/// The TXT pairs of a service read back as the entries that
/// `TxtRecordParser::serialize` wrote: for a service with no NUL in its
/// name, version or features, the bytes are UTF-8 and the pairs
/// `TxtRecordParser::parse` finds in them give `id` the UUID text of its id,
/// `name` its name, `version` its version, `type` the name of its type,
/// `address` its `ip:port` text and `max_clients` the decimal text of its
/// client limit.
pub proof fn txt_entries_round_trip(info: ServiceInfo, pairs: Map<Seq<char>, String>)
    requires
        txt_text_safe(info),
        holds_txt_pairs(pairs, vstd::utf8::decode_utf8(vstd::utf8::encode_utf8(txt_text(info)))),
    ensures
        vstd::utf8::valid_utf8(vstd::utf8::encode_utf8(txt_text(info))),
        pairs.contains_key("id"@) && pairs["id"@]@ == uuid_hyphenated(info.id.0),
        pairs.contains_key("name"@) && pairs["name"@]@ == info.name@,
        pairs.contains_key("version"@) && pairs["version"@]@ == info.version@,
        pairs.contains_key("type"@) && pairs["type"@]@ == service_type_text(info.service_type),
        pairs.contains_key("address"@) && pairs["address"@]@ == ip_text(info.address.ip) + seq![':'] + decimal(
            info.address.port as nat,
        ),
        pairs.contains_key("max_clients"@) && pairs["max_clients"@]@ == decimal(info.capabilities.max_clients as nat),
{
    broadcast use vstd::utf8::encode_utf8_valid_utf8, vstd::utf8::encode_utf8_decode_utf8;

    let t = txt_text(info);
    let es = txt_entries(info);
    assert(vstd::utf8::decode_utf8(vstd::utf8::encode_utf8(t)) == t);
    lemma_entries_lack_nul(info);
    lemma_split_join(es, '\0');
    lemma_entry_pairs(info);
    lemma_key_names_distinct();
    let mci = max_clients_index(info);
    lemma_txt_map_lookup(es, 0, "id"@, uuid_hyphenated(info.id.0));
    lemma_txt_map_lookup(es, 1, "name"@, info.name@);
    lemma_txt_map_lookup(es, 2, "version"@, info.version@);
    lemma_txt_map_lookup(es, 3, "type"@, service_type_text(info.service_type));
    let addr = ip_text(info.address.ip) + seq![':'] + decimal(info.address.port as nat);
    lemma_txt_map_lookup(es, 4, "address"@, addr);
    let mc = decimal(info.capabilities.max_clients as nat);
    lemma_txt_map_lookup(es, mci, "max_clients"@, mc);
}

} // verus!
