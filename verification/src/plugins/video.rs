//! Video capture for the desktop shell: capture settings, captured frames
//! and their numbering, and the platform's capture state with the
//! synthetic frames it produces.

use vstd::prelude::*;
use crate::bridge::unix_time_millis;
use crate::kvm_common::types::Resolution;
use crate::text::{
    append_str, decimal, join_spec, lemma_decimal_lacks, lemma_parse_decimal, lemma_split_join, parse_unsigned,
    parse_unsigned_exec, split_char, split_spec, string_from,
};

verus! {

/// Video settings as the shell gives them: a `WxH` resolution, a frame
/// rate and a quality name.
#[derive(Debug, Clone)]
pub struct VideoConfig {
    pub resolution: String,
    pub fps: u32,
    pub quality: String,
}

/// A frame handed to the shell. The timestamp is in milliseconds since the
/// Unix epoch.
#[derive(Debug, Clone)]
pub struct VideoFrame {
    pub width: u32,
    pub height: u32,
    pub data: Vec<u8>,
    pub timestamp: u64,
}

/// Pixel formats of captured frames.
#[derive(Debug, Clone, Copy, PartialEq, Eq, Structural)]
pub enum CaptureFormat {
    Rgb,
    Bgra,
    Yuv420,
}

/// A part of the screen.
#[derive(Debug, Clone, Copy, PartialEq, Eq, Structural)]
pub struct CaptureRegion {
    pub x: i32,
    pub y: i32,
    pub width: u32,
    pub height: u32,
}

/// A captured frame. The timestamp is in microseconds since the Unix
/// epoch; frames are numbered from 0.
#[derive(Debug, Clone)]
pub struct CapturedFrame {
    pub data: Vec<u8>,
    pub width: u32,
    pub height: u32,
    pub format: CaptureFormat,
    pub timestamp: u64,
    pub sequence_number: u64,
}

/// Capture settings; without a region the whole screen is captured.
#[derive(Debug, Clone, Copy, PartialEq, Eq, Structural)]
pub struct CaptureConfig {
    pub resolution: Resolution,
    pub fps: u32,
    pub format: CaptureFormat,
    pub region: Option<CaptureRegion>,
    pub cursor_capture: bool,
}

impl Default for CaptureConfig {
    /// Full HD at 30 frames per second in RGB, the whole screen, with the
    /// cursor.
    fn default() -> (r: Self)
        ensures
            r == (CaptureConfig {
                resolution: Resolution { width: 1920, height: 1080 },
                fps: 30,
                format: CaptureFormat::Rgb,
                region: None,
                cursor_capture: true,
            }),
    {
        CaptureConfig {
            resolution: Resolution::fhd(),
            fps: 30,
            format: CaptureFormat::Rgb,
            region: None,
            cursor_capture: true,
        }
    }
}

/// The milliseconds between frames at a frame rate.
pub fn frame_interval_millis(fps: u32) -> (r: u64)
    requires
        fps > 0,
    ensures
        r == 1000int / (fps as int),
{
    1000 / (fps as u64)
}

/// Numbers the frames of a capture: each frame gets the capture's
/// resolution and format, and the next number.
pub struct FrameSequencer {
    config: CaptureConfig,
    sequence: u64,
}

impl FrameSequencer {
    pub closed spec fn config_spec(&self) -> CaptureConfig {
        self.config
    }

    pub closed spec fn next_number(&self) -> u64 {
        self.sequence
    }

    /// A capture whose first frame is number 0.
    pub fn new(config: CaptureConfig) -> (r: Self)
        ensures
            r.config_spec() == config,
            r.next_number() == 0,
    {
        FrameSequencer { config, sequence: 0 }
    }

    /// The next frame, with these pixels and timestamp.
    pub fn next_frame(&mut self, data: Vec<u8>, timestamp: u64) -> (r: CapturedFrame)
        requires
            old(self).next_number() < u64::MAX,
        ensures
            r.data == data,
            r.width == old(self).config_spec().resolution.width,
            r.height == old(self).config_spec().resolution.height,
            r.format == old(self).config_spec().format,
            r.timestamp == timestamp,
            r.sequence_number == old(self).next_number(),
            final(self).next_number() == old(self).next_number() + 1,
            final(self).config_spec() == old(self).config_spec(),
    {
        let n = self.sequence;
        self.sequence = n + 1;
        CapturedFrame {
            data,
            width: self.config.resolution.width,
            height: self.config.resolution.height,
            format: self.config.format,
            timestamp,
            sequence_number: n,
        }
    }
}

/// `n` bytes of the value `b`.
pub fn filled_bytes(b: u8, n: usize) -> (r: Vec<u8>)
    ensures
        r@ == Seq::new(n as nat, |i: int| b),
{
    let mut v: Vec<u8> = Vec::with_capacity(n);
    let mut i: usize = 0;
    while i < n
        invariant
            i <= n,
            v@ == Seq::new(i as nat, |j: int| b),
        decreases n - i,
    {
        v.push(b);
        i += 1;
        assert(v@ =~= Seq::new(i as nat, |j: int| b));
    }
    v
}

/// The frame the synthetic capture produces: 640x480 RGB, every byte
/// 128.
pub fn dummy_frame(sequence_number: u64, timestamp: u64) -> (r: CapturedFrame)
    ensures
        r.width == 640,
        r.height == 480,
        r.format == CaptureFormat::Rgb,
        r.data@ == Seq::new(640 * 480 * 3, |i: int| 128u8),
        r.timestamp == timestamp,
        r.sequence_number == sequence_number,
{
    CapturedFrame {
        data: filled_bytes(128, 640 * 480 * 3),
        width: 640,
        height: 480,
        format: CaptureFormat::Rgb,
        timestamp,
        sequence_number,
    }
}

/// The width and height a `WxH` text gives, or the error's text: exactly
/// two parts around `x`, each a `u32`.
pub open spec fn resolution_pair(text: Seq<char>) -> Result<(u32, u32), Seq<char>> {
    let parts = split_spec(text, 'x');
    if parts.len() != 2 {
        Err("Invalid resolution format: "@ + text)
    } else if parse_unsigned(parts[0], 0xffff_ffff) is None {
        Err("Invalid width"@)
    } else if parse_unsigned(parts[1], 0xffff_ffff) is None {
        Err("Invalid height"@)
    } else {
        Ok((parse_unsigned(parts[0], 0xffff_ffff)->0 as u32, parse_unsigned(parts[1], 0xffff_ffff)->0 as u32))
    }
}

/// Reads a `WxH` resolution.
pub fn parse_resolution(resolution: &str) -> (r: Result<(u32, u32), String>)
    ensures
        match resolution_pair(resolution@) {
            Ok(p) => r == Ok::<(u32, u32), String>(p),
            Err(m) => r matches Err(e) && e@ == m,
        },
{
    let parts = split_char(resolution, 'x');
    if parts.len() != 2 {
        let mut m = string_from("Invalid resolution format: ");
        append_str(&mut m, resolution);
        return Err(m);
    }
    let width = match parse_unsigned_exec(parts[0].as_str(), 0xffff_ffff) {
        Some(w) => w as u32,
        None => {
            return Err(string_from("Invalid width"));
        },
    };
    let height = match parse_unsigned_exec(parts[1].as_str(), 0xffff_ffff) {
        Some(h) => h as u32,
        None => {
            return Err(string_from("Invalid height"));
        },
    };
    Ok((width, height))
}

/// A resolution written as `WxH`, with both numbers in decimal, reads back
/// as the same width and height.
pub proof fn resolution_text_round_trip(width: u32, height: u32)
    ensures
        resolution_pair(decimal(width as nat) + seq!['x'] + decimal(height as nat)) == Ok::<
            (u32, u32),
            Seq<char>,
        >((width, height)),
{
    let wt = decimal(width as nat);
    let ht = decimal(height as nat);
    let parts = seq![wt, ht];
    assert(join_spec(parts, 'x') =~= wt + seq!['x'] + ht) by {
        assert(parts.drop_last() =~= seq![wt]);
        reveal_with_fuel(join_spec, 2);
    }
    lemma_decimal_lacks(width as nat, 'x');
    lemma_decimal_lacks(height as nat, 'x');
    assert forall|i: int| 0 <= i < parts.len() implies !(#[trigger] parts[i]).contains('x') by {}
    lemma_split_join(parts, 'x');
    lemma_parse_decimal(width as nat, 0xffff_ffff);
    lemma_parse_decimal(height as nat, 0xffff_ffff);
}

/// The platforms the shell captures on.
#[derive(Debug, Clone, Copy, PartialEq, Eq, Structural)]
pub enum CapturePlatform {
    MacOs,
    Linux,
    Windows,
    Unsupported,
}

/// The byte a platform's synthetic frames are filled with: mid gray on
/// macOS, dark gray on Linux, light gray on Windows.
pub open spec fn fill_byte(p: CapturePlatform) -> u8 {
    match p {
        CapturePlatform::MacOs => 128,
        CapturePlatform::Linux => 64,
        _ => 192,
    }
}

/// The platform's capture: which platform, and the settings it was
/// initialised with, if it was.
pub struct VideoCaptureState {
    platform: CapturePlatform,
    config: Option<VideoConfig>,
}

impl VideoCaptureState {
    pub closed spec fn platform_spec(&self) -> CapturePlatform {
        self.platform
    }

    pub closed spec fn config_spec(&self) -> Option<VideoConfig> {
        self.config
    }

    /// Capture on a platform, not initialised.
    pub fn new(platform: CapturePlatform) -> (r: Self)
        ensures
            r.platform_spec() == platform,
            r.config_spec() is None,
    {
        VideoCaptureState { platform, config: None }
    }

    /// Initialises capture with settings; once is enough, and only on a
    /// supported platform.
    pub fn initialize_capture(&mut self, config: &VideoConfig) -> (r: Result<(), String>)
        ensures
            final(self).platform_spec() == old(self).platform_spec(),
            old(self).config_spec() is Some ==> (r matches Err(m) && m@ == "Capture already initialized"@)
                && final(self).config_spec() == old(self).config_spec(),
            old(self).config_spec() is None && old(self).platform_spec() == CapturePlatform::Unsupported ==> (r matches Err(
                m,
            ) && m@ == "Unsupported platform"@) && final(self).config_spec() is None,
            old(self).config_spec() is None && old(self).platform_spec() != CapturePlatform::Unsupported ==> r is Ok
                && (final(self).config_spec() matches Some(c) && c.resolution@ == config.resolution@ && c.fps
                == config.fps && c.quality@ == config.quality@),
    {
        if self.config.is_some() {
            return Err(string_from("Capture already initialized"));
        }
        if self.platform == CapturePlatform::Unsupported {
            return Err(string_from("Unsupported platform"));
        }
        self.config = Some(
            VideoConfig {
                resolution: config.resolution.clone(),
                fps: config.fps,
                quality: config.quality.clone(),
            },
        );
        Ok(())
    }

    /// Ends capture, if it was initialised.
    pub fn cleanup_capture(&mut self)
        ensures
            final(self).platform_spec() == old(self).platform_spec(),
            final(self).config_spec() is None,
    {
        self.config = None;
    }
}

/// Whether the synthetic frame of the settings' resolution fits: four
/// bytes per pixel, counted in 32 bits.
pub open spec fn frame_size_fits(config: Option<VideoConfig>) -> bool {
    match config {
        Some(c) => match resolution_pair(c.resolution@) {
            Ok((w, h)) => w * h * 4 <= u32::MAX,
            Err(_) => true,
        },
        None => true,
    }
}

/// Captures a frame: capture must be initialised; the frame has the
/// settings' resolution, four bytes per pixel filled with the platform's
/// fill byte, and the current time. A bad resolution is an error.
pub fn capture_frame(state: &VideoCaptureState) -> (r: Result<VideoFrame, String>)
    requires
        frame_size_fits(state.config_spec()),
    ensures
        match state.config_spec() {
            None => r matches Err(m) && m@ == "Capture not initialized"@,
            Some(c) => if state.platform_spec() == CapturePlatform::Unsupported {
                r matches Err(m) && m@ == "Unsupported platform"@
            } else {
                match resolution_pair(c.resolution@) {
                    Err(m) => r matches Err(e) && e@ == m,
                    Ok((w, h)) => r matches Ok(f) && f.width == w && f.height == h && f.data@ == Seq::new(
                        (w * h * 4) as nat,
                        |i: int| fill_byte(state.platform_spec()),
                    ),
                }
            },
        },
{
    let config = match &state.config {
        Some(c) => c,
        None => {
            return Err(string_from("Capture not initialized"));
        },
    };
    let fill: u8 = match state.platform {
        CapturePlatform::MacOs => 128,
        CapturePlatform::Linux => 64,
        CapturePlatform::Windows => 192,
        CapturePlatform::Unsupported => {
            return Err(string_from("Unsupported platform"));
        },
    };
    let (width, height) = match parse_resolution(config.resolution.as_str()) {
        Ok(p) => p,
        Err(e) => {
            return Err(e);
        },
    };
    let size: u32 = width * height * 4;
    Ok(VideoFrame {
        width,
        height,
        data: filled_bytes(fill, size as usize),
        timestamp: unix_time_millis(),
    })
}

/// The answer to the shell's request to start capturing.
pub fn start_capture(config: VideoConfig) -> (r: Result<String, String>)
    ensures
        r matches Ok(m) && m@ == "Video capture started"@,
{
    Ok(string_from("Video capture started"))
}

/// The answer to the shell's request to stop capturing.
pub fn stop_capture() -> (r: Result<String, String>)
    ensures
        r matches Ok(m) && m@ == "Video capture stopped"@,
{
    Ok(string_from("Video capture stopped"))
}

/// The frame the shell gets on request: 1920x1080, four zero bytes per
/// pixel, the current time.
pub fn get_video_frame() -> (r: Result<VideoFrame, String>)
    ensures
        r matches Ok(f) && f.width == 1920 && f.height == 1080 && f.data@ == Seq::new(1920 * 1080 * 4, |i: int| 0u8),
{
    Ok(VideoFrame { width: 1920, height: 1080, data: filled_bytes(0, 1920 * 1080 * 4), timestamp: unix_time_millis() })
}

} // verus!
