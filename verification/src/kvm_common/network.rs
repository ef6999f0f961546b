//! Network helpers.

use vstd::prelude::*;
use crate::kvm_common::types::{IpAddress, NetworkAddress};
use crate::text::{all_digits, chars_of, decimal, digits_value, hex_text, is_digit, join_spec, lemma_decimal, lemma_decimal_lacks, lemma_split_join, parse_unsigned_exec, push_char, push_decimal, push_hex, split_char, split_spec};

verus! {

/// Whether an IPv4 address lies in 10.0.0.0/8, 172.16.0.0/12 or
/// 192.168.0.0/16, or is 127.0.0.1.
pub open spec fn lan_ipv4(a: u8, b: u8, c: u8, d: u8) -> bool {
    ||| a == 10
    ||| (a == 172 && 16 <= b <= 31)
    ||| (a == 192 && b == 168)
    ||| (a == 127 && b == 0 && c == 0 && d == 1)
}

/// Whether the address is a LAN address. IPv6 is not supported and never
/// counts as LAN.
pub fn is_lan_address(addr: &NetworkAddress) -> (r: bool)
    ensures
        r == match addr.ip {
            IpAddress::V4(a, b, c, d) => lan_ipv4(a, b, c, d),
            IpAddress::V6(_) => false,
        },
{
    match addr.ip {
        IpAddress::V4(a, b, c, d) => {
            a == 10 || (a == 172 && 16 <= b && b <= 31) || (a == 192 && b == 168) || (a == 127 && b
                == 0 && c == 0 && d == 1)
        },
        IpAddress::V6(_) => false,
    }
}

/// One octet of a dotted IPv4 address: one to three digits, no leading
/// zero unless the octet is `0`, at most 255.
pub open spec fn ipv4_octet(p: Seq<char>) -> Option<u8> {
    if 1 <= p.len() <= 3 && all_digits(p) && !(p.len() > 1 && p[0] == '0') && digits_value(p)
        <= 255 {
        Some(digits_value(p) as u8)
    } else {
        None
    }
}

/// A dotted IPv4 address: exactly four valid octets.
pub open spec fn ipv4_from_text(s: Seq<char>) -> Option<IpAddress> {
    let parts = split_spec(s, '.');
    if parts.len() == 4 && ipv4_octet(parts[0]) is Some && ipv4_octet(parts[1]) is Some
        && ipv4_octet(parts[2]) is Some && ipv4_octet(parts[3]) is Some {
        Some(
            IpAddress::V4(
                ipv4_octet(parts[0]).unwrap(),
                ipv4_octet(parts[1]).unwrap(),
                ipv4_octet(parts[2]).unwrap(),
                ipv4_octet(parts[3]).unwrap(),
            ),
        )
    } else {
        None
    }
}

/// Parses one octet of a dotted IPv4 address.
pub fn parse_ipv4_octet(p: &str) -> (r: Option<u8>)
    ensures
        r == ipv4_octet(p@),
{
    let cs = chars_of(p);
    let n = cs.len();
    if n < 1 || n > 3 {
        return None;
    }
    let mut i: usize = 0;
    while i < n
        invariant
            cs@ == p@,
            n == cs@.len(),
            i <= n,
            forall|j: int| 0 <= j < i ==> #[trigger] is_digit(cs@[j]),
        decreases n - i,
    {
        if !('0' <= cs[i] && cs[i] <= '9') {
            assert(!is_digit(p@[i as int]));
            return None;
        }
        i += 1;
    }
    assert(all_digits(p@));
    if n > 1 && cs[0] == '0' {
        return None;
    }
    assert(p@.len() > 0 ==> p@[0] != '+') by {
        if p@.len() > 0 {
            assert(is_digit(p@[0]));
        }
    }
    assert(crate::text::unsigned_body(p@) == p@);
    match parse_unsigned_exec(p, 255) {
        Some(v) => Some(v as u8),
        None => None,
    }
}

/// Parses a dotted IPv4 address.
pub fn parse_ipv4(s: &str) -> (r: Option<IpAddress>)
    ensures
        r == ipv4_from_text(s@),
{
    let parts = split_char(s, '.');
    if parts.len() != 4 {
        return None;
    }
    let a = parse_ipv4_octet(parts[0].as_str());
    let b = parse_ipv4_octet(parts[1].as_str());
    let c = parse_ipv4_octet(parts[2].as_str());
    let d = parse_ipv4_octet(parts[3].as_str());
    match (a, b, c, d) {
        (Some(a), Some(b), Some(c), Some(d)) => Some(IpAddress::V4(a, b, c, d)),
        _ => None,
    }
}


/// The dotted text of an IPv4 address.
pub open spec fn ipv4_text(a: u8, b: u8, c: u8, d: u8) -> Seq<char> {
    decimal(a as nat) + seq!['.'] + decimal(b as nat) + seq!['.'] + decimal(c as nat) + seq!['.']
        + decimal(d as nat)
}

/// The number of zero segments from position `i` on, up to the first
/// non-zero one.
pub open spec fn zero_run(segs: Seq<u16>, i: int) -> nat
    decreases segs.len() - i,
{
    if 0 <= i < segs.len() && segs[i] == 0 {
        1 + zero_run(segs, i + 1)
    } else {
        0
    }
}

/// Whether the run of zero segments at `start`, of length `len`, is the
/// first of the longest ones (`start` 0 and `len` 0 where there is none).
pub open spec fn is_longest_zero_run(segs: Seq<u16>, start: int, len: nat) -> bool {
    &&& 0 <= start <= segs.len()
    &&& zero_run(segs, start) == len
    &&& forall|j: int| 0 <= j < segs.len() ==> #[trigger] zero_run(segs, j) <= len
    &&& forall|j: int| 0 <= j < start ==> #[trigger] zero_run(segs, j) < len
}

pub proof fn lemma_longest_zero_run_unique(segs: Seq<u16>, a: int, l: nat, b: int, m: nat)
    requires
        is_longest_zero_run(segs, a, l),
        is_longest_zero_run(segs, b, m),
    ensures
        a == b,
        l == m,
{
    if a < segs.len() {
        assert(zero_run(segs, a) <= m);
    } else {
        assert(l == 0);
    }
    if b < segs.len() {
        assert(zero_run(segs, b) <= l);
    } else {
        assert(m == 0);
    }
    if a < b {
        assert(zero_run(segs, a) < m);
    }
    if b < a {
        assert(zero_run(segs, b) < l);
    }
}

/// Segments in lowercase hexadecimal, separated by colons.
pub open spec fn hex_join(segs: Seq<u16>) -> Seq<char>
    decreases segs.len(),
{
    if segs.len() == 0 {
        Seq::<char>::empty()
    } else if segs.len() == 1 {
        hex_text(segs[0] as nat)
    } else {
        hex_join(segs.drop_last()).push(':') + hex_text(segs.last() as nat)
    }
}

/// Whether eight segments are an IPv4 address mapped into IPv6
/// (`::ffff:a.b.c.d`).
pub open spec fn is_ipv4_mapped(segs: Seq<u16>) -> bool {
    segs[0] == 0 && segs[1] == 0 && segs[2] == 0 && segs[3] == 0 && segs[4] == 0 && segs[5] == 0xffff
}

/// The text of an IPv6 address as Rust writes it: an IPv4-mapped address as
/// `::ffff:` and the dotted IPv4 address; otherwise the segments in
/// lowercase hexadecimal with the first longest run of two or more zero
/// segments written as `::`.
pub open spec fn ipv6_text(segs: Seq<u16>) -> Seq<char> {
    if is_ipv4_mapped(segs) {
        seq![':', ':', 'f', 'f', 'f', 'f', ':'] + ipv4_text(
            (segs[6] / 256) as u8,
            (segs[6] % 256) as u8,
            (segs[7] / 256) as u8,
            (segs[7] % 256) as u8,
        )
    } else {
        let run = choose|run: (int, nat)| is_longest_zero_run(segs, run.0, run.1);
        if run.1 > 1 {
            hex_join(segs.take(run.0)) + seq![':', ':'] + hex_join(segs.skip(run.0 + run.1))
        } else {
            hex_join(segs)
        }
    }
}

/// The text of an IP address.
pub open spec fn ip_text(ip: IpAddress) -> Seq<char> {
    match ip {
        IpAddress::V4(a, b, c, d) => ipv4_text(a, b, c, d),
        IpAddress::V6(segs) => ipv6_text(segs@),
    }
}

/// The length of the run of zero segments at `j`.
fn zero_run_at(segs: &[u16; 8], j: usize) -> (r: usize)
    requires
        j <= 8,
    ensures
        r == zero_run(segs@, j as int),
        j + r <= 8,
{
    let mut k: usize = j;
    while k < 8 && segs[k] == 0
        invariant
            j <= k <= 8,
            segs@.len() == 8,
            zero_run(segs@, j as int) == (k - j) + zero_run(segs@, k as int),
        decreases 8 - k,
    {
        assert(zero_run(segs@, k as int) == 1 + zero_run(segs@, k + 1));
        k += 1;
    }
    k - j
}

/// The first longest run of zero segments.
fn longest_zero_run(segs: &[u16; 8]) -> (r: (usize, usize))
    ensures
        is_longest_zero_run(segs@, r.0 as int, r.1 as nat),
        r.0 + r.1 <= 8,
{
    let mut best_start: usize = 0;
    let mut best_len: usize = 0;
    let mut j: usize = 0;
    while j < 8
        invariant
            segs@.len() == 8,
            j <= 8,
            best_start <= 8,
            best_start + best_len <= 8,
            best_len == 0 ==> best_start == 0,
            best_len > 0 ==> zero_run(segs@, best_start as int) == best_len,
            forall|k: int| 0 <= k < j ==> #[trigger] zero_run(segs@, k) <= best_len,
            forall|k: int| 0 <= k < best_start ==> #[trigger] zero_run(segs@, k) < best_len,
        decreases 8 - j,
    {
        let l = zero_run_at(segs, j);
        if l > best_len {
            best_start = j;
            best_len = l;
        }
        j += 1;
    }
    proof {
        if best_len == 0 {
            assert(zero_run(segs@, 0) <= 0);
        }
    }
    (best_start, best_len)
}

/// Appends the segments `segs[from..to]` in hexadecimal, separated by
/// colons.
fn push_hex_join(out: &mut String, segs: &[u16; 8], from: usize, to: usize)
    requires
        from <= to <= 8,
    ensures
        final(out)@ == old(out)@ + hex_join(segs@.subrange(from as int, to as int)),
{
    let ghost start = out@;
    let mut i: usize = from;
    while i < to
        invariant
            from <= i <= to <= 8,
            segs@.len() == 8,
            out@ == start + hex_join(segs@.subrange(from as int, i as int)),
        decreases to - i,
    {
        let ghost pre = segs@.subrange(from as int, i as int);
        let ghost next = segs@.subrange(from as int, i + 1);
        assert(next.drop_last() =~= pre);
        if i > from {
            push_char(out, ':');
        }
        push_hex(out, segs[i] as u64);
        assert(out@ =~= start + hex_join(next));
        i += 1;
    }
}

/// Appends the dotted text of an IPv4 address.
fn push_ipv4(out: &mut String, a: u8, b: u8, c: u8, d: u8)
    ensures
        final(out)@ == old(out)@ + ipv4_text(a, b, c, d),
{
    push_decimal(out, a as u64);
    push_char(out, '.');
    push_decimal(out, b as u64);
    push_char(out, '.');
    push_decimal(out, c as u64);
    push_char(out, '.');
    push_decimal(out, d as u64);
    assert(final(out)@ =~= old(out)@ + ipv4_text(a, b, c, d));
}

/// Appends the text of an IP address, as Rust's `Display` writes it.
pub fn push_ip(out: &mut String, ip: &IpAddress)
    ensures
        final(out)@ == old(out)@ + ip_text(*ip),
{
    match ip {
        IpAddress::V4(a, b, c, d) => push_ipv4(out, *a, *b, *c, *d),
        IpAddress::V6(segs) => {
            let segs: [u16; 8] = *segs;
            if segs[0] == 0 && segs[1] == 0 && segs[2] == 0 && segs[3] == 0 && segs[4] == 0 && segs[5]
                == 0xffff {
                let ghost start = out@;
                push_char(out, ':');
                push_char(out, ':');
                push_char(out, 'f');
                push_char(out, 'f');
                push_char(out, 'f');
                push_char(out, 'f');
                push_char(out, ':');
                push_ipv4(
                    out,
                    (segs[6] / 256) as u8,
                    (segs[6] % 256) as u8,
                    (segs[7] / 256) as u8,
                    (segs[7] % 256) as u8,
                );
                assert(out@ =~= start + ipv6_text(segs@));
            } else {
                let (start, len) = longest_zero_run(&segs);
                proof {
                    let run = choose|run: (int, nat)| is_longest_zero_run(segs@, run.0, run.1);
                    assert(is_longest_zero_run(segs@, start as int, len as nat));
                    lemma_longest_zero_run_unique(segs@, run.0, run.1, start as int, len as nat);
                }
                let ghost before = out@;
                if len > 1 {
                    push_hex_join(out, &segs, 0, start);
                    push_char(out, ':');
                    push_char(out, ':');
                    push_hex_join(out, &segs, start + len, 8);
                    assert(segs@.subrange(0, start as int) =~= segs@.take(start as int));
                    assert(segs@.subrange((start + len) as int, 8) =~= segs@.skip((start + len) as int));
                    assert(out@ =~= before + ipv6_text(segs@));
                } else {
                    push_hex_join(out, &segs, 0, 8);
                    assert(segs@.subrange(0, 8) =~= segs@);
                }
            }
        },
    }
}

/// The decimal text of an octet reads back as that octet.
pub proof fn lemma_octet_text(x: u8)
    ensures
        ipv4_octet(decimal(x as nat)) == Some(x),
{
    lemma_decimal(x as nat);
}

/// The dotted text of an IPv4 address holds only digits and dots.
pub proof fn lemma_ipv4_text_lacks(a: u8, b: u8, c: u8, d: u8, ch: char)
    requires
        !is_digit(ch),
        ch != '.',
    ensures
        !ipv4_text(a, b, c, d).contains(ch),
{
    lemma_decimal_lacks(a as nat, ch);
    lemma_decimal_lacks(b as nat, ch);
    lemma_decimal_lacks(c as nat, ch);
    lemma_decimal_lacks(d as nat, ch);
    let t = ipv4_text(a, b, c, d);
    if t.contains(ch) {
        let i = choose|i: int| 0 <= i < t.len() && t[i] == ch;
        let la = decimal(a as nat).len();
        let lb = decimal(b as nat).len();
        let lc = decimal(c as nat).len();
        if i < la {
            assert(t[i] == decimal(a as nat)[i]);
        } else if i == la {
        } else if i < la + 1 + lb {
            assert(t[i] == decimal(b as nat)[i - la - 1]);
        } else if i == la + 1 + lb {
        } else if i < la + 2 + lb + lc {
            assert(t[i] == decimal(c as nat)[i - la - 2 - lb]);
        } else if i == la + 2 + lb + lc {
        } else {
            assert(t[i] == decimal(d as nat)[i - la - 3 - lb - lc]);
        }
    }
}

/// The dotted text of an IPv4 address reads back as that address.
pub proof fn lemma_ipv4_round_trip(a: u8, b: u8, c: u8, d: u8)
    ensures
        ipv4_from_text(ipv4_text(a, b, c, d)) == Some(IpAddress::V4(a, b, c, d)),
{
    let parts = seq![decimal(a as nat), decimal(b as nat), decimal(c as nat), decimal(d as nat)];
    assert(join_spec(parts, '.') =~= ipv4_text(a, b, c, d)) by {
        assert(parts.drop_last().drop_last().drop_last() =~= seq![decimal(a as nat)]);
        assert(parts.drop_last().drop_last() =~= seq![decimal(a as nat), decimal(b as nat)]);
        assert(parts.drop_last() =~= seq![decimal(a as nat), decimal(b as nat), decimal(c as nat)]);
        reveal_with_fuel(join_spec, 4);
    }
    assert forall|i: int| 0 <= i < parts.len() implies !(#[trigger] parts[i]).contains('.') by {
        if i == 0 {
            lemma_decimal_lacks(a as nat, '.');
        } else if i == 1 {
            lemma_decimal_lacks(b as nat, '.');
        } else if i == 2 {
            lemma_decimal_lacks(c as nat, '.');
        } else {
            lemma_decimal_lacks(d as nat, '.');
        }
    }
    lemma_split_join(parts, '.');
    lemma_octet_text(a);
    lemma_octet_text(b);
    lemma_octet_text(c);
    lemma_octet_text(d);
}

/// The 32-bit number of the IPv4 address `a.b.c.d`.
pub open spec fn ipv4_number(a: u8, b: u8, c: u8, d: u8) -> int {
    a * 0x100_0000 + b * 0x1_0000 + c * 0x100 + d
}

/// The LAN addresses are the private blocks 10.0.0.0/8, 172.16.0.0/12 and
/// 192.168.0.0/16, and the loopback address 127.0.0.1: an address is a LAN
/// address exactly when its number falls in one of those blocks or is the
/// loopback's.
pub proof fn lan_addresses_are_the_private_blocks(a: u8, b: u8, c: u8, d: u8)
    ensures
        lan_ipv4(a, b, c, d) <==> ({
            let n = ipv4_number(a, b, c, d);
            ||| 0x0A00_0000 <= n <= 0x0AFF_FFFF
            ||| 0xAC10_0000 <= n <= 0xAC1F_FFFF
            ||| 0xC0A8_0000 <= n <= 0xC0A8_FFFF
            ||| n == 0x7F00_0001
        }),
{
}

/// Every address of the block 192.168.0.0/16 is a LAN address, and so is
/// every one of 10.0.0.0/8 and of 172.16.0.0/12; 192.169.0.0 is not.
pub proof fn private_blocks_are_lan(b: u8, c: u8, d: u8)
    ensures
        lan_ipv4(192, 168, c, d),
        lan_ipv4(10, b, c, d),
        16 <= b <= 31 ==> lan_ipv4(172, b, c, d),
        !lan_ipv4(192, 169, 0, 0),
{
}

} // verus!
