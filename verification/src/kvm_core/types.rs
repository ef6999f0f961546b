//! Core types.

use vstd::prelude::*;
use crate::bridge::utc_now_parts;
use crate::text::string_from;

verus! {

/// Identifier of a service: the 128-bit value of a UUID.
#[derive(Debug, Clone, Copy, PartialEq, Eq, Structural, Hash)]
pub struct ServiceId(pub u128);

/// Network address: an IP address in text form and a port.
#[derive(Debug, Clone)]
pub struct NetworkAddress {
    pub ip: String,
    pub port: u16,
}

impl NetworkAddress {
    /// The loopback address `127.0.0.1` with the given port.
    pub fn localhost(port: u16) -> (r: Self)
        ensures
            r.ip@ == "127.0.0.1"@,
            r.port == port,
    {
        NetworkAddress { ip: string_from("127.0.0.1"), port }
    }
}

/// Video quality settings.
#[derive(Debug, Clone)]
pub struct VideoQuality {
    pub resolution: String,
    pub fps: u32,
    /// Kilobits per second.
    pub bitrate: u32,
}

impl VideoQuality {
    /// Full HD at 30 frames per second and 5 Mbit/s.
    pub fn balanced() -> (r: Self)
        ensures
            r.resolution@ == "1920x1080"@,
            r.fps == 30,
            r.bitrate == 5000,
    {
        VideoQuality { resolution: string_from("1920x1080"), fps: 30, bitrate: 5000 }
    }
}

/// Video resolution in pixels.
#[derive(Debug, Clone, Copy, PartialEq, Eq, Structural, Hash)]
pub struct VideoResolution {
    pub width: u32,
    pub height: u32,
}

impl VideoResolution {
    /// 1920x1080.
    pub fn fhd() -> (r: Self)
        ensures
            r.width == 1920,
            r.height == 1080,
    {
        VideoResolution { width: 1920, height: 1080 }
    }
}

/// Service types.
#[derive(Debug, Clone, Copy, PartialEq, Eq, Structural, Hash)]
pub enum ServiceType {
    Server,
    Client,
}

/// A moment in UTC as chrono's `DateTime<Utc>` holds it: the whole seconds
/// since the Unix epoch and the nanoseconds past that second.
#[derive(Debug, Clone, Copy, PartialEq, Eq, Structural)]
pub struct Timestamp {
    pub secs: i64,
    pub nanos: u32,
}

/// The nanoseconds from the Unix epoch to `t`.
pub open spec fn epoch_nanos(t: Timestamp) -> int {
    t.secs * 1_000_000_000 + t.nanos
}

impl Timestamp {
    /// The current time.
    pub fn now() -> (r: Self)
        ensures
            r.secs >= 0,
            r.nanos < 1_000_000_000,
    {
        let (secs, nanos) = utc_now_parts();
        Timestamp { secs, nanos }
    }

    /// The nanoseconds from `earlier` to `self`; negative where `earlier`
    /// is the later moment.
    pub fn nanos_since(&self, earlier: &Timestamp) -> (r: i128)
        ensures
            r == epoch_nanos(*self) - epoch_nanos(*earlier),
    {
        let a: i128 = (self.secs as i128) * 1_000_000_000 + (self.nanos as i128);
        let b: i128 = (earlier.secs as i128) * 1_000_000_000 + (earlier.nanos as i128);
        a - b
    }
}

/// What is known of a resolved service, and when it was last seen.
#[derive(Debug, Clone)]
pub struct Resolution {
    pub service_type: ServiceType,
    pub address: NetworkAddress,
    pub quality: Option<VideoQuality>,
    pub last_seen: Timestamp,
}

/// Input configuration. The pointer sensitivity factor is carried as the
/// bit pattern of its IEEE-754 double, which the library never reads.
#[derive(Debug, Clone)]
pub struct InputConfig {
    pub enable_keyboard: bool,
    pub enable_mouse: bool,
    pub keyboard_layout: String,
    pub mouse_sensitivity_bits: u64,
}

/// Video configuration.
#[derive(Debug, Clone)]
pub struct VideoConfig {
    pub resolution: VideoResolution,
    pub fps: u32,
    pub quality: VideoQuality,
    pub compression: bool,
}

/// Keyboard event types.
#[derive(Debug, Clone, Copy, PartialEq, Eq, Structural)]
pub enum KeyboardEvent {
    KeyPress { key_code: u32, modifiers: u32 },
    KeyRelease { key_code: u32, modifiers: u32 },
}

/// Mouse button types.
#[derive(Debug, Clone, Copy, PartialEq, Eq, Structural)]
pub enum MouseButton {
    Left,
    Right,
    Middle,
    Button4,
    Button5,
}

/// Mouse event types.
#[derive(Debug, Clone, Copy, PartialEq, Eq, Structural)]
pub enum MouseEvent {
    MouseMove { x: i32, y: i32, relative: bool },
    MouseButtonPress { button: MouseButton },
    MouseButtonRelease { button: MouseButton },
    MouseScroll { delta_x: i32, delta_y: i32 },
}

/// Video format types.
#[derive(Debug, Clone, Copy, PartialEq, Eq, Structural)]
pub enum VideoFormat {
    Rgba,
    Bgra,
    Yuv420,
    Jpeg,
    H264,
}

/// Video frame data.
#[derive(Debug, Clone)]
pub struct VideoFrame {
    pub data: Vec<u8>,
    pub width: u32,
    pub height: u32,
    pub format: VideoFormat,
    pub timestamp: u64,
}

/// Network configuration.
#[derive(Debug, Clone, Copy, PartialEq, Eq, Structural)]
pub struct NetworkConfig {
    pub discovery_enabled: bool,
    pub auto_connect: bool,
}

/// Configuration.
#[derive(Debug, Clone)]
pub struct Config {
    pub video: VideoConfig,
    pub input: InputConfig,
    pub network: NetworkConfig,
}

} // verus!
