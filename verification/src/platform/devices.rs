//! The platform's capture devices and services: which backends an
//! operating system gets, what each backend reports of its devices, and
//! the state of input and video capture.

use vstd::prelude::*;
use crate::bridge::now_millis;
use crate::kvm_core::types::{InputConfig, KeyboardEvent, MouseEvent, VideoConfig, VideoFormat, VideoFrame, VideoResolution};
use crate::platform::system::{LinuxSystemService, MacOsSystemService, WindowsSystemService};
use crate::platform::{PlatformError, PlatformResult};
use crate::plugins::video::filled_bytes;
use crate::text::{append_str, string_from, views};

verus! {

/// The operating systems with backends.
#[derive(Debug, Clone, Copy, PartialEq, Eq, Structural)]
pub enum PlatformKind {
    Linux,
    MacOs,
    Windows,
}

/// The backend kind of an operating system name (`linux`, `macos`,
/// `windows`).
pub open spec fn platform_of(os: Seq<char>) -> Option<PlatformKind> {
    if os == "linux"@ {
        Some(PlatformKind::Linux)
    } else if os == "macos"@ {
        Some(PlatformKind::MacOs)
    } else if os == "windows"@ {
        Some(PlatformKind::Windows)
    } else {
        None
    }
}

/// The backend kind of an operating system; another system is an
/// unsupported platform.
pub fn platform_kind(os: &str) -> (r: PlatformResult<PlatformKind>)
    ensures
        match platform_of(os@) {
            Some(k) => r == Ok::<PlatformKind, PlatformError>(k),
            None => r matches Err(PlatformError::UnsupportedPlatform(m)) && m@ == "Unsupported OS: "@ + os@,
        },
{
    let name = string_from(os);
    if name == string_from("linux") {
        Ok(PlatformKind::Linux)
    } else if name == string_from("macos") {
        Ok(PlatformKind::MacOs)
    } else if name == string_from("windows") {
        Ok(PlatformKind::Windows)
    } else {
        let mut m = string_from("Unsupported OS: ");
        append_str(&mut m, os);
        Err(PlatformError::UnsupportedPlatform(m))
    }
}

/// What an input backend reports of its devices; the platform details are
/// JSON text.
#[derive(Debug, Clone)]
pub struct InputDeviceInfo {
    pub keyboard_devices: Vec<String>,
    pub mouse_devices: Vec<String>,
    pub has_permissions: bool,
    pub platform_specific_info: String,
}

/// A list of texts.
fn strings(a: &str, b: Option<&str>) -> (r: Vec<String>)
    ensures
        views(r@) == match b {
            Some(b) => seq![a@, b@],
            None => seq![a@],
        },
{
    let mut v: Vec<String> = Vec::new();
    v.push(string_from(a));
    match b {
        Some(b) => v.push(string_from(b)),
        None => {},
    }
    proof {
        match b {
            Some(b) => assert(views(v@) =~= seq![a@, b@]),
            None => assert(views(v@) =~= seq![a@]),
        }
    }
    v
}

/// The keyboards a platform reports: the event devices 0 and 1 on Linux,
/// the built-in keyboard on macOS, the system keyboard on Windows.
pub open spec fn reported_keyboards(p: PlatformKind) -> Seq<Seq<char>> {
    match p {
        PlatformKind::Linux => seq!["/dev/input/event0"@, "/dev/input/event1"@],
        PlatformKind::MacOs => seq!["Built-in Keyboard"@],
        PlatformKind::Windows => seq!["System Keyboard"@],
    }
}

/// The pointing devices a platform reports: the event devices 2 and 3 on
/// Linux, the built-in trackpad on macOS, the system mouse on Windows.
pub open spec fn reported_mice(p: PlatformKind) -> Seq<Seq<char>> {
    match p {
        PlatformKind::Linux => seq!["/dev/input/event2"@, "/dev/input/event3"@],
        PlatformKind::MacOs => seq!["Built-in Trackpad"@],
        PlatformKind::Windows => seq!["System Mouse"@],
    }
}

/// The keyboards of a platform.
pub fn enumerate_keyboard_devices(platform: PlatformKind) -> (r: Vec<String>)
    ensures
        views(r@) == reported_keyboards(platform),
{
    match platform {
        PlatformKind::Linux => strings("/dev/input/event0", Some("/dev/input/event1")),
        PlatformKind::MacOs => strings("Built-in Keyboard", None),
        PlatformKind::Windows => strings("System Keyboard", None),
    }
}

/// The pointing devices of a platform.
pub fn enumerate_mouse_devices(platform: PlatformKind) -> (r: Vec<String>)
    ensures
        views(r@) == reported_mice(platform),
{
    match platform {
        PlatformKind::Linux => strings("/dev/input/event2", Some("/dev/input/event3")),
        PlatformKind::MacOs => strings("Built-in Trackpad", None),
        PlatformKind::Windows => strings("System Mouse", None),
    }
}

/// Input capture on one platform.
pub struct InputCaptureBackend {
    platform: PlatformKind,
    is_capturing: bool,
    device_info: InputDeviceInfo,
}

impl InputCaptureBackend {
    pub closed spec fn platform_spec(&self) -> PlatformKind {
        self.platform
    }

    pub closed spec fn capturing(&self) -> bool {
        self.is_capturing
    }

    pub closed spec fn has_permissions(&self) -> bool {
        self.device_info.has_permissions
    }

    /// The keyboards reported.
    pub closed spec fn keyboards(&self) -> Seq<Seq<char>> {
        views(self.device_info.keyboard_devices@)
    }

    /// The pointing devices reported.
    pub closed spec fn mice(&self) -> Seq<Seq<char>> {
        views(self.device_info.mouse_devices@)
    }

    /// Input capture on a platform, not capturing, reporting the
    /// platform's devices. On Linux permission is as given (whether the
    /// first event device can be read); macOS and Windows always have
    /// permission.
    pub fn new(platform: PlatformKind, linux_permissions: bool) -> (r: PlatformResult<Self>)
        ensures
            r matches Ok(b) && b.platform_spec() == platform && !b.capturing() && b.has_permissions() == (platform
                != PlatformKind::Linux || linux_permissions) && b.keyboards() == reported_keyboards(platform)
                && b.mice() == reported_mice(platform),
    {
        let keyboard_devices = enumerate_keyboard_devices(platform);
        let mouse_devices = enumerate_mouse_devices(platform);
        let (has_permissions, info) = match platform {
            PlatformKind::Linux => (linux_permissions, "{\"evdev_version\":\"1.0\",\"uinput_available\":true}"),
            PlatformKind::MacOs => (true, "{\"accessibility_enabled\":true,\"input_monitoring_enabled\":true}"),
            PlatformKind::Windows => (true, "{\"raw_input_enabled\":true,\"send_input_available\":true}"),
        };
        let device_info = InputDeviceInfo {
            keyboard_devices,
            mouse_devices,
            has_permissions,
            platform_specific_info: string_from(info),
        };
        Ok(InputCaptureBackend { platform, is_capturing: false, device_info })
    }

    /// Starts capturing; on Linux only with permission.
    pub fn start_capture(&mut self, config: InputConfig) -> (r: PlatformResult<()>)
        ensures
            final(self).platform_spec() == old(self).platform_spec(),
            final(self).has_permissions() == old(self).has_permissions(),
            final(self).keyboards() == old(self).keyboards(),
            final(self).mice() == old(self).mice(),
            old(self).platform_spec() == PlatformKind::Linux && !old(self).has_permissions() ==> (r matches Err(
                PlatformError::PermissionDenied(m),
            ) && m@ == "No permission to access input devices"@) && final(self).capturing() == old(self).capturing(),
            !(old(self).platform_spec() == PlatformKind::Linux && !old(self).has_permissions()) ==> r is Ok
                && final(self).capturing(),
    {
        if self.platform == PlatformKind::Linux && !self.device_info.has_permissions {
            return Err(PlatformError::PermissionDenied(string_from("No permission to access input devices")));
        }
        self.is_capturing = true;
        Ok(())
    }

    /// Stops capturing.
    pub fn stop_capture(&mut self) -> (r: PlatformResult<()>)
        ensures
            r is Ok,
            !final(self).capturing(),
            final(self).platform_spec() == old(self).platform_spec(),
            final(self).has_permissions() == old(self).has_permissions(),
            final(self).keyboards() == old(self).keyboards(),
            final(self).mice() == old(self).mice(),
    {
        self.is_capturing = false;
        Ok(())
    }

    /// Whether input is captured.
    pub fn is_capturing(&self) -> (r: bool)
        ensures
            r == self.capturing(),
    {
        self.is_capturing
    }

    /// Sends a keyboard event; only while capturing.
    pub fn send_keyboard_event(&self, event: KeyboardEvent) -> (r: PlatformResult<()>)
        ensures
            self.capturing() ==> r is Ok,
            !self.capturing() ==> (r matches Err(PlatformError::InputCapture(m)) && m@ == "Input capture not active"@),
    {
        if !self.is_capturing {
            return Err(PlatformError::InputCapture(string_from("Input capture not active")));
        }
        Ok(())
    }

    /// Sends a mouse event; only while capturing.
    pub fn send_mouse_event(&self, event: MouseEvent) -> (r: PlatformResult<()>)
        ensures
            self.capturing() ==> r is Ok,
            !self.capturing() ==> (r matches Err(PlatformError::InputCapture(m)) && m@ == "Input capture not active"@),
    {
        if !self.is_capturing {
            return Err(PlatformError::InputCapture(string_from("Input capture not active")));
        }
        Ok(())
    }

    /// What the backend reports of its devices.
    pub fn get_device_info(&self) -> (r: &InputDeviceInfo)
        ensures
            r.has_permissions == self.has_permissions(),
            views(r.keyboard_devices@) == self.keyboards(),
            views(r.mouse_devices@) == self.mice(),
    {
        &self.device_info
    }
}

/// A display.
#[derive(Debug, Clone)]
pub struct DisplayInfo {
    pub id: String,
    pub name: String,
    pub resolution: VideoResolution,
    pub refresh_rate: u32,
    pub is_primary: bool,
}

/// What a video backend reports of its displays; the platform details are
/// JSON text.
#[derive(Debug, Clone)]
pub struct VideoDeviceInfo {
    pub displays: Vec<DisplayInfo>,
    pub has_permissions: bool,
    pub platform_specific_info: String,
}

/// The resolution of a platform's primary display: 2560x1600 on macOS,
/// 1920x1080 elsewhere.
pub open spec fn primary_resolution(p: PlatformKind) -> VideoResolution {
    match p {
        PlatformKind::MacOs => VideoResolution { width: 2560, height: 1600 },
        _ => VideoResolution { width: 1920, height: 1080 },
    }
}

/// The name of a platform's primary display.
pub open spec fn primary_display_name(p: PlatformKind) -> Seq<char> {
    match p {
        PlatformKind::MacOs => "Built-in Retina Display"@,
        _ => "Primary Display"@,
    }
}

/// Whether `d` is the display that platform `p` reports: display `0`,
/// primary, at 60 Hz and the platform's primary resolution.
pub open spec fn is_reported_display(d: DisplayInfo, p: PlatformKind) -> bool {
    &&& d.id@ == "0"@
    &&& d.name@ == primary_display_name(p)
    &&& d.resolution == primary_resolution(p)
    &&& d.refresh_rate == 60
    &&& d.is_primary
}

/// The displays of a platform: its one primary display.
pub fn enumerate_displays(platform: PlatformKind) -> (r: Vec<DisplayInfo>)
    ensures
        r@.len() == 1,
        is_reported_display(r@[0], platform),
{
    let (name, width, height) = match platform {
        PlatformKind::MacOs => ("Built-in Retina Display", 2560u32, 1600u32),
        _ => ("Primary Display", 1920u32, 1080u32),
    };
    let mut displays: Vec<DisplayInfo> = Vec::new();
    displays.push(DisplayInfo {
        id: string_from("0"),
        name: string_from(name),
        resolution: VideoResolution { width, height },
        refresh_rate: 60,
        is_primary: true,
    });
    displays
}

/// Video capture on one platform.
pub struct VideoCaptureBackend {
    platform: PlatformKind,
    is_capturing: bool,
    device_info: VideoDeviceInfo,
}

impl VideoCaptureBackend {
    pub closed spec fn platform_spec(&self) -> PlatformKind {
        self.platform
    }

    pub closed spec fn capturing(&self) -> bool {
        self.is_capturing
    }

    pub closed spec fn has_permissions(&self) -> bool {
        self.device_info.has_permissions
    }

    pub closed spec fn displays(&self) -> Seq<DisplayInfo> {
        self.device_info.displays@
    }

    /// Video capture on a platform, not capturing, with permission to
    /// capture and the platform's one primary display.
    pub fn new(platform: PlatformKind) -> (r: PlatformResult<Self>)
        ensures
            r matches Ok(b) && b.platform_spec() == platform && !b.capturing() && b.has_permissions()
                && b.displays().len() == 1 && is_reported_display(b.displays()[0], platform),
    {
        let info = match platform {
            PlatformKind::Linux => "{\"wayland_available\":false,\"x11_available\":true}",
            PlatformKind::MacOs => "{\"screen_capture_kit_available\":true,\"screen_recording_enabled\":true}",
            PlatformKind::Windows => "{\"desktop_duplication_available\":true,\"directx_available\":true}",
        };
        let displays = enumerate_displays(platform);
        let device_info = VideoDeviceInfo { displays, has_permissions: true, platform_specific_info: string_from(info) };
        Ok(VideoCaptureBackend { platform, is_capturing: false, device_info })
    }

    /// Starts capturing; on Linux and macOS only with permission.
    pub fn start_capture(&mut self, config: VideoConfig) -> (r: PlatformResult<()>)
        ensures
            final(self).platform_spec() == old(self).platform_spec(),
            final(self).has_permissions() == old(self).has_permissions(),
            final(self).displays() == old(self).displays(),
            (old(self).has_permissions() || old(self).platform_spec() == PlatformKind::Windows) ==> r is Ok
                && final(self).capturing(),
            !old(self).has_permissions() && old(self).platform_spec() == PlatformKind::Linux ==> (r matches Err(
                PlatformError::PermissionDenied(m),
            ) && m@ == "No permission to capture video"@) && final(self).capturing() == old(self).capturing(),
            !old(self).has_permissions() && old(self).platform_spec() == PlatformKind::MacOs ==> (r matches Err(
                PlatformError::PermissionDenied(m),
            ) && m@ == "Screen recording permission required"@) && final(self).capturing() == old(self).capturing(),
    {
        if self.platform != PlatformKind::Windows && !self.device_info.has_permissions {
            let m = match self.platform {
                PlatformKind::MacOs => string_from("Screen recording permission required"),
                _ => string_from("No permission to capture video"),
            };
            return Err(PlatformError::PermissionDenied(m));
        }
        self.is_capturing = true;
        Ok(())
    }

    /// Stops capturing.
    pub fn stop_capture(&mut self) -> (r: PlatformResult<()>)
        ensures
            r is Ok,
            !final(self).capturing(),
            final(self).platform_spec() == old(self).platform_spec(),
            final(self).has_permissions() == old(self).has_permissions(),
            final(self).displays() == old(self).displays(),
    {
        self.is_capturing = false;
        Ok(())
    }

    /// Whether video is captured.
    pub fn is_capturing(&self) -> (r: bool)
        ensures
            r == self.capturing(),
    {
        self.is_capturing
    }

    /// A frame; only while capturing. It is a black RGBA frame of the
    /// primary display's size, stamped with the current time.
    pub fn capture_frame(&self) -> (r: PlatformResult<VideoFrame>)
        ensures
            !self.capturing() ==> (r matches Err(PlatformError::VideoCapture(m)) && m@ == "Video capture not active"@),
            self.capturing() ==> (r matches Ok(f) && f.width == primary_resolution(self.platform_spec()).width
                && f.height == primary_resolution(self.platform_spec()).height && f.format == VideoFormat::Rgba
                && f.data@ == Seq::new((f.width * f.height * 4) as nat, |i: int| 0u8)),
    {
        if !self.is_capturing {
            return Err(PlatformError::VideoCapture(string_from("Video capture not active")));
        }
        let (width, height): (u32, u32) = match self.platform {
            PlatformKind::MacOs => (2560, 1600),
            _ => (1920, 1080),
        };
        let pixels: u32 = width * height * 4;
        let size: usize = pixels as usize;
        Ok(VideoFrame {
            data: filled_bytes(0, size),
            width,
            height,
            format: VideoFormat::Rgba,
            timestamp: now_millis() as u64,
        })
    }

    /// The resolutions the platform supports, largest first.
    pub fn get_supported_resolutions(&self) -> (r: Vec<VideoResolution>)
        ensures
            r@ == match self.platform_spec() {
                PlatformKind::MacOs => seq![
                    VideoResolution { width: 2560, height: 1600 },
                    VideoResolution { width: 1920, height: 1080 },
                    VideoResolution { width: 1280, height: 800 },
                ],
                _ => seq![
                    VideoResolution { width: 1920, height: 1080 },
                    VideoResolution { width: 1280, height: 720 },
                    VideoResolution { width: 1024, height: 768 },
                ],
            },
    {
        let mut v: Vec<VideoResolution> = Vec::new();
        match self.platform {
            PlatformKind::MacOs => {
                v.push(VideoResolution { width: 2560, height: 1600 });
                v.push(VideoResolution { width: 1920, height: 1080 });
                v.push(VideoResolution { width: 1280, height: 800 });
            },
            _ => {
                v.push(VideoResolution { width: 1920, height: 1080 });
                v.push(VideoResolution { width: 1280, height: 720 });
                v.push(VideoResolution { width: 1024, height: 768 });
            },
        }
        v
    }

    /// What the backend reports of its displays.
    pub fn get_device_info(&self) -> (r: &VideoDeviceInfo)
        ensures
            r.has_permissions == self.has_permissions(),
            r.displays@ == self.displays(),
    {
        &self.device_info
    }
}

/// The system service of one platform.
pub enum SystemBackend {
    Linux(LinuxSystemService),
    MacOs(MacOsSystemService),
    Windows(WindowsSystemService),
}

/// What is known of the platform.
#[derive(Debug, Clone)]
pub struct PlatformInfo {
    pub os: String,
    pub arch: String,
    pub family: String,
    pub is_supported: bool,
}

/// The platform's input capture, video capture and system service.
pub struct PlatformManager {
    input_capture: Option<InputCaptureBackend>,
    video_capture: Option<VideoCaptureBackend>,
    system_service: Option<SystemBackend>,
}

impl PlatformManager {
    pub closed spec fn has_input(&self) -> bool {
        self.input_capture is Some
    }

    pub closed spec fn has_video(&self) -> bool {
        self.video_capture is Some
    }

    pub closed spec fn has_system(&self) -> bool {
        self.system_service is Some
    }

    /// The input capture backend of an operating system.
    pub fn create_input_capture(os: &str, linux_permissions: bool) -> (r: PlatformResult<InputCaptureBackend>)
        ensures
            match platform_of(os@) {
                Some(k) => r matches Ok(b) && b.platform_spec() == k && !b.capturing(),
                None => r matches Err(PlatformError::UnsupportedPlatform(m)) && m@ == "Unsupported OS: "@ + os@,
            },
    {
        match platform_kind(os) {
            Ok(k) => InputCaptureBackend::new(k, linux_permissions),
            Err(e) => Err(e),
        }
    }

    /// The video capture backend of an operating system.
    pub fn create_video_capture(os: &str) -> (r: PlatformResult<VideoCaptureBackend>)
        ensures
            match platform_of(os@) {
                Some(k) => r matches Ok(b) && b.platform_spec() == k && !b.capturing(),
                None => r matches Err(PlatformError::UnsupportedPlatform(m)) && m@ == "Unsupported OS: "@ + os@,
            },
    {
        match platform_kind(os) {
            Ok(k) => VideoCaptureBackend::new(k),
            Err(e) => Err(e),
        }
    }

    /// The system service of an operating system.
    pub fn create_system_service(os: &str) -> (r: PlatformResult<SystemBackend>)
        ensures
            match platform_of(os@) {
                Some(PlatformKind::Linux) => r matches Ok(SystemBackend::Linux(_)),
                Some(PlatformKind::MacOs) => r matches Ok(SystemBackend::MacOs(_)),
                Some(PlatformKind::Windows) => r matches Ok(SystemBackend::Windows(_)),
                None => r matches Err(PlatformError::UnsupportedPlatform(m)) && m@ == "Unsupported OS: "@ + os@,
            },
    {
        match platform_kind(os) {
            Ok(PlatformKind::Linux) => match LinuxSystemService::new() {
                Ok(s) => Ok(SystemBackend::Linux(s)),
                Err(e) => Err(e),
            },
            Ok(PlatformKind::MacOs) => match MacOsSystemService::new() {
                Ok(s) => Ok(SystemBackend::MacOs(s)),
                Err(e) => Err(e),
            },
            Ok(PlatformKind::Windows) => match WindowsSystemService::new() {
                Ok(s) => Ok(SystemBackend::Windows(s)),
                Err(e) => Err(e),
            },
            Err(e) => Err(e),
        }
    }

    /// The platform's backends for an operating system; an unsupported one
    /// is an error.
    pub fn new(os: &str, linux_permissions: bool) -> (r: PlatformResult<Self>)
        ensures
            platform_of(os@) is Some ==> (r matches Ok(m) && m.has_input() && m.has_video() && m.has_system()),
            platform_of(os@) is None ==> (r matches Err(PlatformError::UnsupportedPlatform(m)) && m@ == "Unsupported OS: "@
                + os@),
    {
        let input = match Self::create_input_capture(os, linux_permissions) {
            Ok(b) => b,
            Err(e) => {
                return Err(e);
            },
        };
        let video = match Self::create_video_capture(os) {
            Ok(b) => b,
            Err(e) => {
                return Err(e);
            },
        };
        let system = match Self::create_system_service(os) {
            Ok(s) => s,
            Err(e) => {
                return Err(e);
            },
        };
        Ok(PlatformManager { input_capture: Some(input), video_capture: Some(video), system_service: Some(system) })
    }

    /// The input capture backend.
    pub fn input_capture(&self) -> (r: Option<&InputCaptureBackend>)
        ensures
            r is Some == self.has_input(),
    {
        match &self.input_capture {
            Some(b) => Some(b),
            None => None,
        }
    }

    /// The input capture backend, to change.
    pub fn input_capture_mut(&mut self) -> (r: Option<&mut InputCaptureBackend>)
        ensures
            r is Some == old(self).has_input(),
    {
        match &mut self.input_capture {
            Some(b) => Some(b),
            None => None,
        }
    }

    /// The video capture backend.
    pub fn video_capture(&self) -> (r: Option<&VideoCaptureBackend>)
        ensures
            r is Some == self.has_video(),
    {
        match &self.video_capture {
            Some(b) => Some(b),
            None => None,
        }
    }

    /// The video capture backend, to change.
    pub fn video_capture_mut(&mut self) -> (r: Option<&mut VideoCaptureBackend>)
        ensures
            r is Some == old(self).has_video(),
    {
        match &mut self.video_capture {
            Some(b) => Some(b),
            None => None,
        }
    }

    /// The system service.
    pub fn system_service(&self) -> (r: Option<&SystemBackend>)
        ensures
            r is Some == self.has_system(),
    {
        match &self.system_service {
            Some(s) => Some(s),
            None => None,
        }
    }

    /// The system service, to change.
    pub fn system_service_mut(&mut self) -> (r: Option<&mut SystemBackend>)
        ensures
            r is Some == old(self).has_system(),
    {
        match &mut self.system_service {
            Some(s) => Some(s),
            None => None,
        }
    }

    /// Whether the platform has all three backends.
    pub fn is_supported(&self) -> (r: bool)
        ensures
            r == (self.has_input() && self.has_video() && self.has_system()),
    {
        self.input_capture.is_some() && self.video_capture.is_some() && self.system_service.is_some()
    }

    /// What is known of the platform, given its system, architecture and
    /// family names.
    pub fn platform_info(&self, os: &str, arch: &str, family: &str) -> (r: PlatformInfo)
        ensures
            r.os@ == os@,
            r.arch@ == arch@,
            r.family@ == family@,
            r.is_supported == (self.has_input() && self.has_video() && self.has_system()),
    {
        PlatformInfo {
            os: string_from(os),
            arch: string_from(arch),
            family: string_from(family),
            is_supported: self.is_supported(),
        }
    }
}

} // verus!
