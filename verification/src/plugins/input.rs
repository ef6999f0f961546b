//! Keyboard and mouse events as the desktop shell sees them: validation,
//! normalisation, test events, relative movement, and the state of the
//! platform's input capture.

use vstd::prelude::*;
use crate::plugins::video::CapturePlatform;
use crate::text::string_from;

verus! {

/// A keyboard event.
#[derive(Debug, Clone, Copy, PartialEq, Eq, Structural)]
pub struct KeyboardEvent {
    pub key_code: u32,
    pub pressed: bool,
    pub modifiers: u32,
}

/// A mouse event.
#[derive(Debug, Clone, Copy, PartialEq, Eq, Structural)]
pub struct MouseEvent {
    pub x: i32,
    pub y: i32,
    pub button: Option<u32>,
    pub pressed: Option<bool>,
    pub wheel_delta: Option<i32>,
}

/// Which inputs are captured.
#[derive(Debug, Clone, Copy, PartialEq, Eq, Structural)]
pub struct InputConfig {
    pub keyboard_enabled: bool,
    pub mouse_enabled: bool,
}

/// An input configuration must enable the keyboard or the mouse.
pub fn validate_config(config: &InputConfig) -> (r: Result<(), String>)
    ensures
        config.keyboard_enabled || config.mouse_enabled ==> r is Ok,
        !config.keyboard_enabled && !config.mouse_enabled ==> (r matches Err(m)
            && m@ == "At least keyboard or mouse input must be enabled"@),
{
    if !config.keyboard_enabled && !config.mouse_enabled {
        return Err(string_from("At least keyboard or mouse input must be enabled"));
    }
    Ok(())
}

/// The standard key code of a platform's key code. The platforms share
/// their codes, so the code is kept.
pub fn normalize_key_code(platform_key_code: u32, platform: &str) -> (r: u32)
    ensures
        r == platform_key_code,
{
    platform_key_code
}

/// The standard button number of a platform's mouse button (0 left, 1
/// right, 2 middle, 3 and up extra buttons). The platforms share their
/// numbering, so the number is kept.
pub fn normalize_mouse_button(platform_button: u32, platform: &str) -> (r: u32)
    ensures
        r == platform_button,
{
    platform_button
}

/// A keyboard event may be injected only with a key code up to 255.
pub fn validate_keyboard_event(event: &KeyboardEvent) -> (r: Result<(), String>)
    ensures
        event.key_code <= 255 ==> r is Ok,
        event.key_code > 255 ==> (r matches Err(m) && m@ == "Invalid key code"@),
{
    if event.key_code > 255 {
        return Err(string_from("Invalid key code"));
    }
    Ok(())
}

/// A mouse event may be injected only with a button number up to 15, if it
/// names a button.
pub fn validate_mouse_event(event: &MouseEvent) -> (r: Result<(), String>)
    ensures
        (event.button matches Some(b) && b > 15) ==> (r matches Err(m) && m@ == "Invalid mouse button"@),
        !(event.button matches Some(b) && b > 15) ==> r is Ok,
{
    match event.button {
        Some(b) => {
            if b > 15 {
                return Err(string_from("Invalid mouse button"));
            }
        },
        None => {},
    }
    Ok(())
}

/// A keyboard event for tests, without modifiers.
pub fn create_test_keyboard_event(key_code: u32, pressed: bool) -> (r: KeyboardEvent)
    ensures
        r == (KeyboardEvent { key_code, pressed, modifiers: 0 }),
{
    KeyboardEvent { key_code, pressed, modifiers: 0 }
}

/// A mouse event for tests, without wheel movement.
pub fn create_test_mouse_event(x: i32, y: i32, button: Option<u32>, pressed: Option<bool>) -> (r: MouseEvent)
    ensures
        r == (MouseEvent { x, y, button, pressed, wheel_delta: None }),
{
    MouseEvent { x, y, button, pressed, wheel_delta: None }
}

/// The movement from one point to another.
pub fn calculate_relative_movement(from_x: i32, from_y: i32, to_x: i32, to_y: i32) -> (r: (i32, i32))
    requires
        i32::MIN <= to_x - from_x <= i32::MAX,
        i32::MIN <= to_y - from_y <= i32::MAX,
    ensures
        r.0 == to_x - from_x,
        r.1 == to_y - from_y,
{
    (to_x - from_x, to_y - from_y)
}

/// The platform's input capture: the platform it runs on, and the
/// configuration it was initialised with, if it was.
pub struct InputCaptureState {
    platform: CapturePlatform,
    config: Option<InputConfig>,
}

impl InputCaptureState {
    pub closed spec fn platform_spec(&self) -> CapturePlatform {
        self.platform
    }

    pub closed spec fn config_spec(&self) -> Option<InputConfig> {
        self.config
    }

    /// Capture on a platform, not initialised.
    pub fn new(platform: CapturePlatform) -> (r: Self)
        ensures
            r.platform_spec() == platform,
            r.config_spec() is None,
    {
        InputCaptureState { platform, config: None }
    }

    /// Initialises capture with a configuration; once is enough, and only
    /// on a supported platform.
    pub fn initialize_input_capture(&mut self, config: &InputConfig) -> (r: Result<(), String>)
        ensures
            final(self).platform_spec() == old(self).platform_spec(),
            old(self).config_spec() is Some ==> (r matches Err(m) && m@ == "Input capture already initialized"@)
                && final(self).config_spec() == old(self).config_spec(),
            old(self).config_spec() is None && old(self).platform_spec() == CapturePlatform::Unsupported ==> (r matches Err(
                m,
            ) && m@ == "Unsupported platform"@) && final(self).config_spec() is None,
            old(self).config_spec() is None && old(self).platform_spec() != CapturePlatform::Unsupported ==> r is Ok
                && final(self).config_spec() == Some(*config),
    {
        if self.config.is_some() {
            return Err(string_from("Input capture already initialized"));
        }
        if self.platform == CapturePlatform::Unsupported {
            return Err(string_from("Unsupported platform"));
        }
        self.config = Some(*config);
        Ok(())
    }

    /// Ends capture, if it was initialised.
    pub fn cleanup_input_capture(&mut self)
        ensures
            final(self).platform_spec() == old(self).platform_spec(),
            final(self).config_spec() is None,
    {
        self.config = None;
    }
}

/// Injects a keyboard event into the system on a platform: the hooks of
/// the supported platforms accept every event; elsewhere it is refused.
pub fn inject_keyboard_event(platform: CapturePlatform, event: &KeyboardEvent) -> (r: Result<(), String>)
    ensures
        platform != CapturePlatform::Unsupported ==> r is Ok,
        platform == CapturePlatform::Unsupported ==> (r matches Err(m) && m@ == "Unsupported platform"@),
{
    if platform == CapturePlatform::Unsupported {
        return Err(string_from("Unsupported platform"));
    }
    Ok(())
}

/// Injects a mouse event into the system on a platform: the hooks of the
/// supported platforms accept every event; elsewhere it is refused.
pub fn inject_mouse_event(platform: CapturePlatform, event: &MouseEvent) -> (r: Result<(), String>)
    ensures
        platform != CapturePlatform::Unsupported ==> r is Ok,
        platform == CapturePlatform::Unsupported ==> (r matches Err(m) && m@ == "Unsupported platform"@),
{
    if platform == CapturePlatform::Unsupported {
        return Err(string_from("Unsupported platform"));
    }
    Ok(())
}

/// The answer to the shell's request to start input capture.
pub fn start_input_capture(config: InputConfig) -> (r: Result<String, String>)
    ensures
        r matches Ok(m) && m@ == "Input capture started"@,
{
    Ok(string_from("Input capture started"))
}

/// The answer to the shell's request to stop input capture.
pub fn stop_input_capture() -> (r: Result<String, String>)
    ensures
        r matches Ok(m) && m@ == "Input capture stopped"@,
{
    Ok(string_from("Input capture stopped"))
}

/// The answer to the shell's request to send a keyboard event.
pub fn send_keyboard_event(event: KeyboardEvent) -> (r: Result<String, String>)
    ensures
        r matches Ok(m) && m@ == "Keyboard event sent"@,
{
    Ok(string_from("Keyboard event sent"))
}

/// The answer to the shell's request to send a mouse event.
pub fn send_mouse_event(event: MouseEvent) -> (r: Result<String, String>)
    ensures
        r matches Ok(m) && m@ == "Mouse event sent"@,
{
    Ok(string_from("Mouse event sent"))
}

} // verus!
