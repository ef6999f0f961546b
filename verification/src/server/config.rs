//! The server's configuration file, and its conversions to and from the
//! server configuration.

use vstd::prelude::*;
use crate::kvm_core::types::{InputConfig, NetworkAddress, VideoConfig, VideoQuality, VideoResolution};
use crate::kvm_core::utils::UNIT_SENSITIVITY_BITS;
use crate::server::{ServerConfig, ServerError, ServerResult};
use crate::text::string_from;

verus! {

/// Server configuration file.
#[derive(Debug, Clone)]
pub struct ServerConfigFile {
    pub server: ServerConfigData,
}

/// Server configuration data.
#[derive(Debug, Clone)]
pub struct ServerConfigData {
    pub name: String,
    pub bind_address: String,
    pub port: u16,
    pub max_clients: usize,
    pub session_timeout: u64,
    pub heartbeat_interval: u64,
    pub enable_discovery: bool,
    pub enable_security: bool,
    pub video: VideoConfigData,
    pub input: InputConfigData,
}

/// Video configuration data. The quality is `low`, `balanced` or `high`.
#[derive(Debug, Clone)]
pub struct VideoConfigData {
    pub width: u32,
    pub height: u32,
    pub fps: u32,
    pub quality: String,
    pub compression: bool,
}

/// Input configuration data. The pointer sensitivity factor is carried as
/// the bit pattern of its IEEE-754 double.
#[derive(Debug, Clone)]
pub struct InputConfigData {
    pub enable_keyboard: bool,
    pub enable_mouse: bool,
    pub keyboard_layout: String,
    pub mouse_sensitivity_bits: u64,
}

impl Default for ServerConfigFile {
    /// "Soft KVM Server" on 0.0.0.0:8080, five clients, 300 s sessions, a
    /// 30 s heartbeat, discovery and security on, 1920x1080 at 30 fps with
    /// balanced quality and compression, keyboard and mouse with a US
    /// layout and sensitivity 1.0.
    fn default() -> (r: Self)
        ensures
            r.server.name@ == "Soft KVM Server"@,
            r.server.bind_address@ == "0.0.0.0"@,
            r.server.port == 8080,
            r.server.max_clients == 5,
            r.server.session_timeout == 300,
            r.server.heartbeat_interval == 30,
            r.server.enable_discovery,
            r.server.enable_security,
            r.server.video.width == 1920,
            r.server.video.height == 1080,
            r.server.video.fps == 30,
            r.server.video.quality@ == "balanced"@,
            r.server.video.compression,
            r.server.input.enable_keyboard,
            r.server.input.enable_mouse,
            r.server.input.keyboard_layout@ == "us"@,
            r.server.input.mouse_sensitivity_bits == UNIT_SENSITIVITY_BITS,
    {
        ServerConfigFile {
            server: ServerConfigData {
                name: string_from("Soft KVM Server"),
                bind_address: string_from("0.0.0.0"),
                port: 8080,
                max_clients: 5,
                session_timeout: 300,
                heartbeat_interval: 30,
                enable_discovery: true,
                enable_security: true,
                video: VideoConfigData {
                    width: 1920,
                    height: 1080,
                    fps: 30,
                    quality: string_from("balanced"),
                    compression: true,
                },
                input: InputConfigData {
                    enable_keyboard: true,
                    enable_mouse: true,
                    keyboard_layout: string_from("us"),
                    mouse_sensitivity_bits: UNIT_SENSITIVITY_BITS,
                },
            },
        }
    }
}

/// The video quality a quality name stands for: `low` is 640x480 at
/// 15 fps and 1000 kbit/s, `balanced` 1920x1080 at 30 fps and 5000 kbit/s,
/// `high` 1920x1080 at 60 fps and 10000 kbit/s. Other names stand for
/// nothing.
pub open spec fn quality_named(name: Seq<char>) -> Option<(Seq<char>, u32, u32)> {
    if name == "low"@ {
        Some(("640x480"@, 15u32, 1000u32))
    } else if name == "balanced"@ {
        Some(("1920x1080"@, 30u32, 5000u32))
    } else if name == "high"@ {
        Some(("1920x1080"@, 60u32, 10000u32))
    } else {
        None
    }
}

/// The quality name a bitrate (in kbit/s) is written under: `low` up to
/// 2000, `high` from 8000, `balanced` between.
pub open spec fn quality_name_of(bitrate: u32) -> Seq<char> {
    if bitrate <= 2000 {
        "low"@
    } else if bitrate >= 8000 {
        "high"@
    } else {
        "balanced"@
    }
}

/// Whether `c` is the server configuration that the file data `d` describes,
/// with the video quality `q` (resolution text, fps, bitrate).
pub open spec fn config_matches_file(
    c: ServerConfig,
    d: ServerConfigData,
    q: (Seq<char>, u32, u32),
) -> bool {
    &&& c.server_name@ == d.name@
    &&& c.bind_address.ip@ == d.bind_address@
    &&& c.bind_address.port == d.port
    &&& c.max_clients == d.max_clients
    &&& c.session_timeout == d.session_timeout
    &&& c.heartbeat_interval == d.heartbeat_interval
    &&& c.enable_discovery == d.enable_discovery
    &&& c.enable_security == d.enable_security
    &&& c.video_config.resolution == (VideoResolution { width: d.video.width, height: d.video.height })
    &&& c.video_config.fps == d.video.fps
    &&& c.video_config.quality.resolution@ == q.0
    &&& c.video_config.quality.fps == q.1
    &&& c.video_config.quality.bitrate == q.2
    &&& c.video_config.compression == d.video.compression
    &&& c.input_config.enable_keyboard == d.input.enable_keyboard
    &&& c.input_config.enable_mouse == d.input.enable_mouse
    &&& c.input_config.keyboard_layout@ == d.input.keyboard_layout@
    &&& c.input_config.mouse_sensitivity_bits == d.input.mouse_sensitivity_bits
}

/// Whether the file data `d` describes the server configuration `c`, the
/// quality written under the name of its bitrate.
pub open spec fn file_matches_config(d: ServerConfigData, c: ServerConfig) -> bool {
    &&& d.name@ == c.server_name@
    &&& d.bind_address@ == c.bind_address.ip@
    &&& d.port == c.bind_address.port
    &&& d.max_clients == c.max_clients
    &&& d.session_timeout == c.session_timeout
    &&& d.heartbeat_interval == c.heartbeat_interval
    &&& d.enable_discovery == c.enable_discovery
    &&& d.enable_security == c.enable_security
    &&& d.video.width == c.video_config.resolution.width
    &&& d.video.height == c.video_config.resolution.height
    &&& d.video.fps == c.video_config.fps
    &&& d.video.quality@ == quality_name_of(c.video_config.quality.bitrate)
    &&& d.video.compression == c.video_config.compression
    &&& d.input.enable_keyboard == c.input_config.enable_keyboard
    &&& d.input.enable_mouse == c.input_config.enable_mouse
    &&& d.input.keyboard_layout@ == c.input_config.keyboard_layout@
    &&& d.input.mouse_sensitivity_bits == c.input_config.mouse_sensitivity_bits
}

/// The video quality of a quality name.
fn quality_from_name(name: &String) -> (r: Option<VideoQuality>)
    ensures
        match quality_named(name@) {
            Some(q) => r matches Some(v) && v.resolution@ == q.0 && v.fps == q.1 && v.bitrate == q.2,
            None => r is None,
        },
{
    let low = string_from("low");
    let balanced = string_from("balanced");
    let high = string_from("high");
    if *name == low {
        Some(VideoQuality { resolution: string_from("640x480"), fps: 15, bitrate: 1000 })
    } else if *name == balanced {
        Some(VideoQuality::balanced())
    } else if *name == high {
        Some(VideoQuality { resolution: string_from("1920x1080"), fps: 60, bitrate: 10000 })
    } else {
        None
    }
}

impl ServerConfigFile {
    /// The server configuration the file describes. An unknown quality name
    /// is a configuration error.
    pub fn to_server_config(&self) -> (r: ServerResult<ServerConfig>)
        ensures
            match quality_named(self.server.video.quality@) {
                Some(q) => r matches Ok(c) && config_matches_file(c, self.server, q),
                None => r matches Err(ServerError::Config(m)) && m@ == "Invalid video quality"@,
            },
    {
        let quality = match quality_from_name(&self.server.video.quality) {
            Some(q) => q,
            None => {
                return Err(ServerError::Config(string_from("Invalid video quality")));
            },
        };
        let video_config = VideoConfig {
            resolution: VideoResolution {
                width: self.server.video.width,
                height: self.server.video.height,
            },
            fps: self.server.video.fps,
            quality,
            compression: self.server.video.compression,
        };
        let input_config = InputConfig {
            enable_keyboard: self.server.input.enable_keyboard,
            enable_mouse: self.server.input.enable_mouse,
            keyboard_layout: self.server.input.keyboard_layout.clone(),
            mouse_sensitivity_bits: self.server.input.mouse_sensitivity_bits,
        };
        Ok(ServerConfig {
            server_name: self.server.name.clone(),
            bind_address: NetworkAddress {
                ip: self.server.bind_address.clone(),
                port: self.server.port,
            },
            max_clients: self.server.max_clients,
            session_timeout: self.server.session_timeout,
            heartbeat_interval: self.server.heartbeat_interval,
            enable_discovery: self.server.enable_discovery,
            enable_security: self.server.enable_security,
            video_config,
            input_config,
        })
    }

    /// The file that describes a server configuration; the quality is
    /// written under the name of its bitrate.
    pub fn from(config: ServerConfig) -> (r: Self)
        ensures
            file_matches_config(r.server, config),
    {
        let bitrate = config.video_config.quality.bitrate;
        let quality = if bitrate <= 2000 {
            string_from("low")
        } else if bitrate >= 8000 {
            string_from("high")
        } else {
            string_from("balanced")
        };
        ServerConfigFile {
            server: ServerConfigData {
                name: config.server_name,
                bind_address: config.bind_address.ip,
                port: config.bind_address.port,
                max_clients: config.max_clients,
                session_timeout: config.session_timeout,
                heartbeat_interval: config.heartbeat_interval,
                enable_discovery: config.enable_discovery,
                enable_security: config.enable_security,
                video: VideoConfigData {
                    width: config.video_config.resolution.width,
                    height: config.video_config.resolution.height,
                    fps: config.video_config.fps,
                    quality,
                    compression: config.video_config.compression,
                },
                input: InputConfigData {
                    enable_keyboard: config.input_config.enable_keyboard,
                    enable_mouse: config.input_config.enable_mouse,
                    keyboard_layout: config.input_config.keyboard_layout,
                    mouse_sensitivity_bits: config.input_config.mouse_sensitivity_bits,
                },
            },
        }
    }
}

/// A configuration file with a known quality name survives the trip
/// to a server configuration and back: the file written for the
/// configuration read from it has the same data.
pub proof fn server_config_file_round_trip(
    d: ServerConfigData,
    c: ServerConfig,
    q: (Seq<char>, u32, u32),
    back: ServerConfigData,
)
    requires
        quality_named(d.video.quality@) == Some(q),
        config_matches_file(c, d, q),
        file_matches_config(back, c),
    ensures
        back.name@ == d.name@,
        back.bind_address@ == d.bind_address@,
        back.port == d.port,
        back.max_clients == d.max_clients,
        back.session_timeout == d.session_timeout,
        back.heartbeat_interval == d.heartbeat_interval,
        back.enable_discovery == d.enable_discovery,
        back.enable_security == d.enable_security,
        back.video.width == d.video.width,
        back.video.height == d.video.height,
        back.video.fps == d.video.fps,
        back.video.quality@ == d.video.quality@,
        back.video.compression == d.video.compression,
        back.input.enable_keyboard == d.input.enable_keyboard,
        back.input.enable_mouse == d.input.enable_mouse,
        back.input.keyboard_layout@ == d.input.keyboard_layout@,
        back.input.mouse_sensitivity_bits == d.input.mouse_sensitivity_bits,
{
}

/// A server configuration survives the trip to a file and back up to
/// its video quality, which comes back as the quality named after its
/// bitrate.
pub proof fn server_config_round_trip(
    c: ServerConfig,
    d: ServerConfigData,
    back: ServerConfig,
)
    requires
        file_matches_config(d, c),
        config_matches_file(back, d, quality_named(d.video.quality@)->0),
    ensures
        quality_named(d.video.quality@) is Some,
        back.server_name@ == c.server_name@,
        back.bind_address.ip@ == c.bind_address.ip@,
        back.bind_address.port == c.bind_address.port,
        back.max_clients == c.max_clients,
        back.session_timeout == c.session_timeout,
        back.heartbeat_interval == c.heartbeat_interval,
        back.enable_discovery == c.enable_discovery,
        back.enable_security == c.enable_security,
        back.video_config.resolution == c.video_config.resolution,
        back.video_config.fps == c.video_config.fps,
        back.video_config.compression == c.video_config.compression,
        back.input_config.enable_keyboard == c.input_config.enable_keyboard,
        back.input_config.enable_mouse == c.input_config.enable_mouse,
        back.input_config.keyboard_layout@ == c.input_config.keyboard_layout@,
        back.input_config.mouse_sensitivity_bits == c.input_config.mouse_sensitivity_bits,
        quality_name_of(back.video_config.quality.bitrate) == quality_name_of(c.video_config.quality.bitrate),
{
    reveal_strlit("low");
    reveal_strlit("balanced");
    reveal_strlit("high");
}

/// The quality names of a configuration file and the video qualities they
/// stand for: `low` is 640x480 at 15 fps and 1000 kbit/s, `balanced`
/// 1920x1080 at 30 fps and 5000 kbit/s, `high` 1920x1080 at 60 fps and
/// 10000 kbit/s.
pub proof fn quality_names_stand_for()
    ensures
        quality_named("low"@) == Some(("640x480"@, 15u32, 1000u32)),
        quality_named("balanced"@) == Some(("1920x1080"@, 30u32, 5000u32)),
        quality_named("high"@) == Some(("1920x1080"@, 60u32, 10000u32)),
{
    reveal_strlit("low");
    reveal_strlit("balanced");
    reveal_strlit("high");
    assert("balanced"@ != "low"@) by {
        assert("balanced"@.len() != "low"@.len());
    }
    assert("high"@ != "low"@) by {
        assert("high"@.len() != "low"@.len());
    }
    assert("high"@ != "balanced"@) by {
        assert("high"@.len() != "balanced"@.len());
    }
}

/// A configuration made from file data whose quality is `high` streams
/// 1920x1080 at 60 fps and 10000 kbit/s, whatever the rest of the file.
pub proof fn high_quality_file_config(c: ServerConfig, d: ServerConfigData)
    requires
        d.video.quality@ == "high"@,
        config_matches_file(c, d, quality_named(d.video.quality@)->0),
    ensures
        c.video_config.quality.resolution@ == "1920x1080"@,
        c.video_config.quality.fps == 60,
        c.video_config.quality.bitrate == 10000,
{
    quality_names_stand_for();
}

/// A configuration made from file data whose quality is `low` streams
/// 640x480 at 15 fps and 1000 kbit/s, whatever the rest of the file.
pub proof fn low_quality_file_config(c: ServerConfig, d: ServerConfigData)
    requires
        d.video.quality@ == "low"@,
        config_matches_file(c, d, quality_named(d.video.quality@)->0),
    ensures
        c.video_config.quality.resolution@ == "640x480"@,
        c.video_config.quality.fps == 15,
        c.video_config.quality.bitrate == 1000,
{
    quality_names_stand_for();
}

/// A configuration made from file data whose quality is `balanced` streams
/// 1920x1080 at 30 fps and 5000 kbit/s, whatever the rest of the file.
pub proof fn balanced_quality_file_config(c: ServerConfig, d: ServerConfigData)
    requires
        d.video.quality@ == "balanced"@,
        config_matches_file(c, d, quality_named(d.video.quality@)->0),
    ensures
        c.video_config.quality.resolution@ == "1920x1080"@,
        c.video_config.quality.fps == 30,
        c.video_config.quality.bitrate == 5000,
{
    quality_names_stand_for();
}

} // verus!
