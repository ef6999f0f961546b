//! Calls into outside crates and into parts of std that vstd does not
//! specify. Each trusted item states what its contract claims of the call;
//! the few functions here that combine such calls are verified against
//! those claims.

use vstd::prelude::*;
use crate::text::hex_digit_lower;

verus! {

/// The `i`-th hexadecimal digit (from the most significant) of `v` written
/// with 32 digits.
pub open spec fn nibble128(v: u128, i: int) -> nat {
    ((v >> ((124 - 4 * i) as u128)) & 0xf) as nat
}

/// `v` as 32 lowercase hexadecimal digits.
pub open spec fn hex32(v: u128) -> Seq<char> {
    Seq::new(32, |i: int| hex_digit_lower(nibble128(v, i)))
}

/// The hyphenated lowercase text of the UUID whose 128-bit value is `v`
/// (groups of 8, 4, 4, 4 and 12 digits).
pub open spec fn uuid_hyphenated(v: u128) -> Seq<char> {
    let h = hex32(v);
    h.subrange(0, 8) + seq!['-'] + h.subrange(8, 12) + seq!['-'] + h.subrange(12, 16) + seq!['-']
        + h.subrange(16, 20) + seq!['-'] + h.subrange(20, 32)
}

/// Whether `v` carries the marks of a random (version 4) UUID of the RFC
/// variant: its 13th hexadecimal digit is 4, and its 17th is 8, 9, a or b.
pub open spec fn is_uuid_v4(v: u128) -> bool {
    &&& nibble128(v, 12) == 4
    &&& 8 <= nibble128(v, 16) < 12
}

/// A fresh random version-4 UUID from `uuid::Uuid::new_v4`, as its 128-bit
/// value (`Uuid::as_u128`). Claimed: it carries the version and variant
/// bits, which `new_v4` masks into the random value. The other bits are
/// random, and nothing is claimed of them.
#[verifier::external_body]
pub fn new_uuid() -> (r: u128)
    ensures
        is_uuid_v4(r),
{
    uuid::Uuid::new_v4().as_u128()
}

/// The text of a UUID: `uuid::Uuid::from_u128(v).to_string()`, which the
/// `uuid` crate writes in the hyphenated lowercase form.
#[verifier::external_body]
pub fn uuid_text(v: u128) -> (r: String)
    ensures
        r@ == uuid_hyphenated(v),
{
    uuid::Uuid::from_u128(v).to_string()
}

/// The current time, `chrono::Utc::now().timestamp_millis()`: milliseconds
/// since the Unix epoch. Nothing is claimed of the value.
#[verifier::external_body]
pub fn now_millis() -> (r: i64) {
    chrono::Utc::now().timestamp_millis()
}

/// The current time by `chrono::Utc::now()`: its whole seconds since the
/// Unix epoch (`timestamp`) and the nanoseconds past that second
/// (`timestamp_subsec_nanos`). Claimed of every reading: the seconds are not
/// negative (`Utc::now` panics on a clock before the epoch) and the
/// nanoseconds are under a second (`Utc::now` builds the time from the
/// clock's duration since the epoch, whose sub-second part is).
#[verifier::external_body]
pub fn utc_now_parts() -> (r: (i64, u32))
    ensures
        r.0 >= 0,
        r.1 < 1_000_000_000,
{
    let now = chrono::Utc::now();
    (now.timestamp(), now.timestamp_subsec_nanos())
}

/// The whole seconds of a `Duration`.
pub uninterp spec fn duration_secs(d: core::time::Duration) -> u64;

/// `Duration::as_secs`: the number of whole seconds in `d`.
#[verifier::external_body]
pub fn duration_as_secs(d: core::time::Duration) -> (r: u64)
    ensures
        r == duration_secs(d),
{
    d.as_secs()
}

} // verus!

verus! {

#[verifier::external_type_specification]
#[verifier::external_body]
pub struct ExInstant(std::time::Instant);

/// A reading of the monotonic clock, `std::time::Instant::now`. Nothing is
/// claimed of it.
#[verifier::external_body]
pub fn instant_now() -> (r: std::time::Instant) {
    std::time::Instant::now()
}

/// Whether `a >= b` in the order of `Instant`: `a` was not read before `b`.
pub uninterp spec fn instant_not_before(a: std::time::Instant, b: std::time::Instant) -> bool;

/// A reading of the monotonic clock, `std::time::Instant::now`, taken after
/// `earlier` was read. Claimed: the reading is not before `earlier`, which
/// std guarantees of an instant against any instant measured before it.
/// Every `Instant` that this library holds is such a measurement (none is
/// made by adding to one), and the item is private to the crate.
#[verifier::external_body]
pub(crate) fn instant_now_after(earlier: &std::time::Instant) -> (r: std::time::Instant)
    ensures
        instant_not_before(r, *earlier),
{
    let _ = earlier;
    std::time::Instant::now()
}

/// The time from `earlier` to `later`, as `Instant::saturating_duration_since`
/// gives it.
pub uninterp spec fn instant_span(later: std::time::Instant, earlier: std::time::Instant) -> core::time::Duration;

/// `later.saturating_duration_since(earlier)`: the time from `earlier` to
/// `later` (zero where `later` is the earlier one). Claimed: it is the
/// named value of the two instants.
#[verifier::external_body]
pub(crate) fn duration_between(later: &std::time::Instant, earlier: &std::time::Instant) -> (r: core::time::Duration)
    ensures
        r == instant_span(*later, *earlier),
{
    later.saturating_duration_since(*earlier)
}

/// The time from `earlier` to a reading of the clock taken during a call:
/// what `Instant::elapsed` measures.
pub open spec fn measured_since(r: core::time::Duration, earlier: std::time::Instant) -> bool {
    exists|now: std::time::Instant| instant_not_before(now, earlier) && r == #[trigger] instant_span(now, earlier)
}

/// The time passed since `start`, measured as `Instant::elapsed` measures
/// it: from `start` to a reading of the clock taken now.
pub(crate) fn elapsed_since(start: &std::time::Instant) -> (r: core::time::Duration)
    ensures
        measured_since(r, *start),
{
    let now = instant_now_after(start);
    duration_between(&now, start)
}

/// Whether `c` is an ASCII character.
pub open spec fn is_ascii_char(c: char) -> bool {
    (c as u32) < 128
}

/// Whether every character of `s` is ASCII.
pub open spec fn all_ascii(s: Seq<char>) -> bool {
    forall|i: int| 0 <= i < s.len() ==> is_ascii_char(#[trigger] s[i])
}

/// Whether `c` is an ASCII digit or letter.
pub open spec fn ascii_alphanumeric(c: char) -> bool {
    ||| '0' <= c <= '9'
    ||| 'a' <= c <= 'z'
    ||| 'A' <= c <= 'Z'
}

/// The lowercase of an ASCII character: an uppercase letter becomes its
/// lowercase letter, every other character stays.
pub open spec fn ascii_lower(c: char) -> char {
    if 'A' <= c <= 'Z' {
        ((c as u32) + 32) as char
    } else {
        c
    }
}

/// Whether `char::is_alphanumeric` holds of `c`.
pub uninterp spec fn char_alphanumeric(c: char) -> bool;

/// `char::is_alphanumeric`: whether `c` is alphabetic or numeric in the
/// Unicode sense. Claimed besides: on an ASCII character it holds exactly
/// of the digits and the letters (the only ASCII characters that are
/// alphabetic or numeric).
#[verifier::external_body]
pub fn is_alphanumeric(c: char) -> (r: bool)
    ensures
        r == char_alphanumeric(c),
        is_ascii_char(c) ==> (r == ascii_alphanumeric(c)),
{
    c.is_alphanumeric()
}

/// What `str::to_lowercase` gives for a text.
pub uninterp spec fn lowercase_text(s: Seq<char>) -> Seq<char>;

/// `str::to_lowercase`: the Unicode lowercase of `s`. Claimed besides: an
/// ASCII text is lowercased character by character, each uppercase letter
/// to its lowercase letter and every other character kept.
#[verifier::external_body]
pub fn to_lowercase(s: &str) -> (r: String)
    ensures
        r@ == lowercase_text(s@),
        all_ascii(s@) ==> r@ == s@.map_values(|c: char| ascii_lower(c)),
{
    s.to_lowercase()
}

} // verus!

verus! {

/// The name of the user running the process, `whoami::username`. Nothing is
/// claimed of it: it depends on the machine.
#[verifier::external_body]
pub fn current_username() -> (r: String) {
    whoami::username()
}

/// The JSON text that `serde_json` writes for a string: the string quoted,
/// with the characters JSON requires escaped.
pub uninterp spec fn json_string_text(s: Seq<char>) -> Seq<char>;

/// `serde_json::to_string` of a string. Claimed: the text depends on the
/// string alone. (Writing a string into memory does not fail; the error arm
/// is never taken.)
#[verifier::external_body]
pub fn json_quote(s: &str) -> (r: String)
    ensures
        r@ == json_string_text(s@),
{
    match serde_json::to_string(s) {
        Ok(t) => t,
        Err(_) => String::new(),
    }
}

} // verus!

verus! {

/// `String::from_utf8` on a copy of the bytes: the text they encode, or
/// `None` where they are not valid UTF-8.
#[verifier::external_body]
pub fn utf8_to_string(data: &[u8]) -> (r: Option<String>)
    ensures
        match r {
            Some(s) => vstd::utf8::valid_utf8(data@) && s@ == vstd::utf8::decode_utf8(data@),
            None => !vstd::utf8::valid_utf8(data@),
        },
{
    match String::from_utf8(data.to_vec()) {
        Ok(s) => Some(s),
        Err(_) => None,
    }
}

} // verus!

verus! {

/// The lowercase hexadecimal text of a byte string: two digits per byte,
/// high half first.
pub open spec fn hex_of_bytes(data: Seq<u8>) -> Seq<char>
    decreases data.len(),
{
    if data.len() == 0 {
        Seq::<char>::empty()
    } else {
        hex_of_bytes(data.drop_last()).push(crate::text::hex_digit_lower((data.last() / 16) as nat)).push(
            crate::text::hex_digit_lower((data.last() % 16) as nat),
        )
    }
}

/// `hex::encode`: each byte as two lowercase hexadecimal digits.
#[verifier::external_body]
pub fn hex_encode(data: &[u8]) -> (r: String)
    ensures
        r@ == hex_of_bytes(data@),
{
    hex::encode(data)
}

/// The SHA-256 digest of a byte string.
pub uninterp spec fn sha256_digest(data: Seq<u8>) -> Seq<u8>;

/// The SHA-256 digest of `data` from `ring::digest` (a context made for
/// `SHA256`, updated with the data, finished). Claimed: the digest depends
/// on the data alone and is 32 bytes long.
#[verifier::external_body]
pub fn sha256(data: &[u8]) -> (r: Vec<u8>)
    ensures
        r@ == sha256_digest(data@),
        r@.len() == 32,
{
    let mut context = ring::digest::Context::new(&ring::digest::SHA256);
    context.update(data);
    context.finish().as_ref().to_vec()
}

} // verus!

verus! {

#[verifier::external_type_specification]
#[verifier::external_body]
pub struct ExSystemTime(std::time::SystemTime);

/// A reading of the system clock, `std::time::SystemTime::now`. Nothing is
/// claimed of it.
#[verifier::external_body]
pub fn system_time_now() -> (r: std::time::SystemTime) {
    std::time::SystemTime::now()
}

/// The time from the Unix epoch to `t`, or `None` where `t` is earlier.
pub uninterp spec fn epoch_offset(t: std::time::SystemTime) -> Option<core::time::Duration>;

/// `SystemTime::duration_since(UNIX_EPOCH)`: the time from the Unix epoch
/// to `t`, or `None` where `t` is earlier. Claimed: it is the named value
/// of `t`.
#[verifier::external_body]
pub fn since_unix_epoch(t: &std::time::SystemTime) -> (r: Option<core::time::Duration>)
    ensures
        r == epoch_offset(*t),
{
    t.duration_since(std::time::UNIX_EPOCH).ok()
}

/// The whole milliseconds of a `Duration`.
pub uninterp spec fn duration_millis(d: core::time::Duration) -> u128;

/// `Duration::as_millis`: the number of whole milliseconds in `d`.
#[verifier::external_body]
pub fn duration_as_millis(d: core::time::Duration) -> (r: u128)
    ensures
        r == duration_millis(d),
{
    d.as_millis()
}

/// The milliseconds since the Unix epoch of the system-clock reading `t`,
/// cut to 64 bits; 0 where `t` is before the epoch.
pub open spec fn epoch_millis(t: std::time::SystemTime) -> u64 {
    match epoch_offset(t) {
        Some(d) => duration_millis(d) as u64,
        None => 0,
    }
}

/// Milliseconds since the Unix epoch by the system clock, cut to 64 bits;
/// 0 where the clock reads before the epoch.
pub fn unix_time_millis() -> (r: u64)
    ensures
        exists|t: std::time::SystemTime| r == #[trigger] epoch_millis(t),
{
    let now = system_time_now();
    let r: u64 = match since_unix_epoch(&now) {
        Some(d) => {
            let ms: u128 = duration_as_millis(d);
            ms as u64
        },
        None => 0,
    };
    assert(r == epoch_millis(now));
    r
}

} // verus!
