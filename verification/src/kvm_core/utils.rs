//! Utility functions.

use vstd::prelude::*;
use crate::bridge::{duration_as_secs, duration_secs, is_uuid_v4, new_uuid};
use crate::kvm_core::error::{KvmError, KvmResult};
use crate::kvm_core::types::{
    epoch_nanos, InputConfig, NetworkAddress, NetworkConfig, Resolution, ServiceId, Timestamp, VideoConfig,
    VideoQuality, VideoResolution,
};
use crate::text::{
    append_str, decimal, parse_unsigned, parse_unsigned_exec, push_decimal, split_char, split_spec,
    string_from,
};

verus! {

/// A fresh service identifier from a random UUID.
pub fn generate_service_id() -> (r: ServiceId)
    ensures
        is_uuid_v4(r.0),
{
    ServiceId(new_uuid())
}

/// Parses `ip:port`. The text must hold exactly one `:`, and the port must
/// parse as a `u16`.
pub fn parse_address(address: &str) -> (r: KvmResult<NetworkAddress>)
    ensures
        split_spec(address@, ':').len() != 2 ==> (r matches Err(KvmError::GenericError(m))
            && m@ == "Invalid address format"@),
        split_spec(address@, ':').len() == 2 && parse_unsigned(
            split_spec(address@, ':')[1],
            65535,
        ) is None ==> (r matches Err(KvmError::GenericError(m)) && m@ == "Invalid port number"@),
        split_spec(address@, ':').len() == 2 && parse_unsigned(
            split_spec(address@, ':')[1],
            65535,
        ) is Some ==> (r matches Ok(a) && a.ip@ == split_spec(address@, ':')[0] && a.port as nat
            == parse_unsigned(split_spec(address@, ':')[1], 65535).unwrap()),
{
    let parts = split_char(address, ':');
    if parts.len() != 2 {
        return Err(KvmError::GenericError(string_from("Invalid address format")));
    }
    let ip = parts[0].clone();
    match parse_unsigned_exec(parts[1].as_str(), 65535) {
        Some(p) => Ok(NetworkAddress { ip, port: p as u16 }),
        None => Err(KvmError::GenericError(string_from("Invalid port number"))),
    }
}

/// Whether more than `timeout_seconds` have passed between the moment a
/// service was last seen and `now`.
pub open spec fn resolution_expired_at(resolution: Resolution, timeout_seconds: u64, now: Timestamp) -> bool {
    epoch_nanos(now) - epoch_nanos(resolution.last_seen) > timeout_seconds * 1_000_000_000
}

/// Whether the resolution had expired at the time `now`.
pub fn is_resolution_expired_at(resolution: &Resolution, timeout_seconds: u64, now: Timestamp) -> (r: bool)
    ensures
        r == resolution_expired_at(*resolution, timeout_seconds, now),
{
    let elapsed: i128 = now.nanos_since(&resolution.last_seen);
    elapsed > (timeout_seconds as i128) * 1_000_000_000
}

/// Whether the resolution has expired now. The timeout must be one that
/// chrono's `Duration::seconds` takes (a signed 64-bit count of
/// milliseconds holds it).
pub fn is_resolution_expired(resolution: &Resolution, timeout_seconds: u64) -> (r: bool)
    requires
        timeout_seconds <= i64::MAX / 1000,
    ensures
        exists|t: Timestamp| r == resolution_expired_at(*resolution, timeout_seconds, t),
{
    let now = Timestamp::now();
    is_resolution_expired_at(resolution, timeout_seconds, now)
}

/// The text of a duration of `secs` seconds: seconds below a minute,
/// minutes and seconds below an hour, hours and minutes above.
pub open spec fn duration_text(secs: nat) -> Seq<char> {
    if secs < 60 {
        decimal(secs) + "s"@
    } else if secs < 3600 {
        decimal(secs / 60) + "m "@ + decimal(secs % 60) + "s"@
    } else {
        decimal(secs / 3600) + "h "@ + decimal((secs % 3600) / 60) + "m"@
    }
}

/// Formats a number of seconds for display.
pub fn format_duration_secs(secs: u64) -> (r: String)
    ensures
        r@ == duration_text(secs as nat),
{
    let mut out = String::new();
    if secs < 60 {
        push_decimal(&mut out, secs);
        append_str(&mut out, "s");
    } else if secs < 3600 {
        push_decimal(&mut out, secs / 60);
        append_str(&mut out, "m ");
        push_decimal(&mut out, secs % 60);
        append_str(&mut out, "s");
    } else {
        push_decimal(&mut out, secs / 3600);
        append_str(&mut out, "h ");
        push_decimal(&mut out, (secs % 3600) / 60);
        append_str(&mut out, "m");
    }
    assert(out@ =~= duration_text(secs as nat));
    out
}

/// Formats a duration for display, by its whole seconds.
pub fn format_duration(duration: core::time::Duration) -> (r: String)
    ensures
        r@ == duration_text(duration_secs(duration) as nat),
{
    let secs = duration_as_secs(duration);
    format_duration_secs(secs)
}

/// Whether `resolution` reads `<width>x<height>` with both numbers `u32`.
pub open spec fn valid_resolution_text(resolution: Seq<char>) -> bool {
    let parts = split_spec(resolution, 'x');
    &&& parts.len() == 2
    &&& parse_unsigned(parts[0], u32::MAX as nat) is Some
    &&& parse_unsigned(parts[1], u32::MAX as nat) is Some
}

/// Validates a video resolution string.
pub fn validate_resolution(resolution: &str) -> (r: bool)
    ensures
        r == valid_resolution_text(resolution@),
{
    let parts = split_char(resolution, 'x');
    if parts.len() != 2 {
        return false;
    }
    let w = parse_unsigned_exec(parts[0].as_str(), 0xffff_ffff);
    let h = parse_unsigned_exec(parts[1].as_str(), 0xffff_ffff);
    w.is_some() && h.is_some()
}

/// The default video configuration: full HD at 30 frames per second,
/// balanced quality, compressed.
pub fn default_video_config() -> (r: VideoConfig)
    ensures
        r.resolution == (VideoResolution { width: 1920, height: 1080 }),
        r.fps == 30,
        r.quality.resolution@ == "1920x1080"@,
        r.quality.fps == 30,
        r.quality.bitrate == 5000,
        r.compression,
{
    VideoConfig {
        resolution: VideoResolution::fhd(),
        fps: 30,
        quality: VideoQuality::balanced(),
        compression: true,
    }
}

/// The bit pattern of the double `1.0`.
pub const UNIT_SENSITIVITY_BITS: u64 = 0x3ff0_0000_0000_0000;

/// The default input configuration: keyboard and mouse enabled, US layout,
/// sensitivity 1.0.
pub fn default_input_config() -> (r: InputConfig)
    ensures
        r.enable_keyboard,
        r.enable_mouse,
        r.keyboard_layout@ == "us"@,
        r.mouse_sensitivity_bits == UNIT_SENSITIVITY_BITS,
{
    InputConfig {
        enable_keyboard: true,
        enable_mouse: true,
        keyboard_layout: string_from("us"),
        mouse_sensitivity_bits: UNIT_SENSITIVITY_BITS,
    }
}

/// The default network configuration: discovery on, no automatic
/// connection.
pub fn default_network_config() -> (r: NetworkConfig)
    ensures
        r == (NetworkConfig { discovery_enabled: true, auto_connect: false }),
{
    NetworkConfig { discovery_enabled: true, auto_connect: false }
}

} // verus!
