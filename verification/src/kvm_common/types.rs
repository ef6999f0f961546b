//! Value types of the discovery layer.

use vstd::prelude::*;
use crate::kvm_core::types::ServiceId;
use crate::bridge::{is_uuid_v4, new_uuid};

verus! {

impl ServiceId {
    /// A fresh identifier from a random UUID: it carries the version and
    /// variant marks of a random UUID.
    pub fn new() -> (r: Self)
        ensures
            is_uuid_v4(r.0),
    {
        ServiceId(new_uuid())
    }
}

/// An IP address: four octets, or eight 16-bit segments.
#[derive(Debug, Clone, Copy)]
pub enum IpAddress {
    V4(u8, u8, u8, u8),
    V6([u16; 8]),
}

/// A network address: IP address and port.
#[derive(Debug, Clone, Copy)]
pub struct NetworkAddress {
    pub ip: IpAddress,
    pub port: u16,
}

impl NetworkAddress {
    pub fn new(ip: IpAddress, port: u16) -> (r: Self)
        ensures
            r == (NetworkAddress { ip, port }),
    {
        NetworkAddress { ip, port }
    }

    /// `127.0.0.1` with the given port.
    pub fn localhost(port: u16) -> (r: Self)
        ensures
            r == (NetworkAddress { ip: IpAddress::V4(127, 0, 0, 1), port }),
    {
        NetworkAddress { ip: IpAddress::V4(127, 0, 0, 1), port }
    }
}

/// Video resolution in pixels.
#[derive(Debug, Clone, Copy, PartialEq, Eq, Structural)]
pub struct Resolution {
    pub width: u32,
    pub height: u32,
}

impl Resolution {
    pub fn new(width: u32, height: u32) -> (r: Self)
        ensures
            r == (Resolution { width, height }),
    {
        Resolution { width, height }
    }

    /// 1920x1080.
    pub fn hd() -> (r: Self)
        ensures
            r == (Resolution { width: 1920, height: 1080 }),
    {
        Self::new(1920, 1080)
    }

    /// 1920x1080.
    pub fn fhd() -> (r: Self)
        ensures
            r == (Resolution { width: 1920, height: 1080 }),
    {
        Self::new(1920, 1080)
    }

    /// 2560x1440.
    pub fn qhd() -> (r: Self)
        ensures
            r == (Resolution { width: 2560, height: 1440 }),
    {
        Self::new(2560, 1440)
    }

    /// 3840x2160.
    pub fn uhd() -> (r: Self)
        ensures
            r == (Resolution { width: 3840, height: 2160 }),
    {
        Self::new(3840, 2160)
    }
}

/// Video quality settings. The compression quality is in thousandths
/// (0 to 1000 for 0.0 to 1.0).
#[derive(Debug, Clone, Copy, PartialEq, Eq, Structural)]
pub struct VideoQuality {
    pub fps: u32,
    pub bitrate_mbps: u32,
    pub compression_quality_permille: u32,
}

impl VideoQuality {
    /// 60 fps, 50 Mbit/s, compression quality 0.8.
    pub fn low_latency() -> (r: Self)
        ensures
            r == (VideoQuality { fps: 60, bitrate_mbps: 50, compression_quality_permille: 800 }),
    {
        VideoQuality { fps: 60, bitrate_mbps: 50, compression_quality_permille: 800 }
    }

    /// 30 fps, 25 Mbit/s, compression quality 0.9.
    pub fn balanced() -> (r: Self)
        ensures
            r == (VideoQuality { fps: 30, bitrate_mbps: 25, compression_quality_permille: 900 }),
    {
        VideoQuality { fps: 30, bitrate_mbps: 25, compression_quality_permille: 900 }
    }

    /// 30 fps, 100 Mbit/s, compression quality 0.95.
    pub fn high_quality() -> (r: Self)
        ensures
            r == (VideoQuality { fps: 30, bitrate_mbps: 100, compression_quality_permille: 950 }),
    {
        VideoQuality { fps: 30, bitrate_mbps: 100, compression_quality_permille: 950 }
    }
}

/// Keyboard modifier keys.
#[derive(Debug, Clone, Copy, PartialEq, Eq, Structural)]
pub struct KeyModifiers {
    pub ctrl: bool,
    pub alt: bool,
    pub shift: bool,
    /// Windows, Super or Command key.
    pub meta: bool,
}

impl KeyModifiers {
    /// No modifier held.
    pub fn none() -> (r: Self)
        ensures
            r == (KeyModifiers { ctrl: false, alt: false, shift: false, meta: false }),
    {
        KeyModifiers { ctrl: false, alt: false, shift: false, meta: false }
    }
}

/// Mouse buttons.
#[derive(Debug, Clone, Copy, PartialEq, Eq, Structural)]
pub enum MouseButton {
    Left,
    Right,
    Middle,
    Button4,
    Button5,
}

/// Input event kinds.
#[derive(Debug, Clone, Copy, PartialEq, Eq, Structural)]
pub enum InputEvent {
    Keyboard { keycode: u32, pressed: bool, modifiers: KeyModifiers },
    MouseButton { button: MouseButton, pressed: bool, x: i32, y: i32 },
    MouseMove { x: i32, y: i32, delta_x: i32, delta_y: i32 },
    MouseWheel { delta_x: i32, delta_y: i32 },
}

/// Connection states.
#[derive(Debug, Clone, Copy, PartialEq, Eq, Structural)]
pub enum ConnectionState {
    Disconnected,
    Connecting,
    Connected,
    Authenticating,
    Active,
    Error,
}

} // verus!
