//! The input pipeline: capture and injection settings, and the synthetic
//! events the capture produces until the platform hooks are written.

use vstd::prelude::*;
use crate::kvm_common::types::{InputEvent, KeyModifiers, MouseButton};

verus! {

/// Input capture settings: what is captured, how often (per second), and
/// how many events may wait.
#[derive(Debug, Clone, Copy, PartialEq, Eq, Structural)]
pub struct CaptureConfig {
    pub keyboard_capture: bool,
    pub mouse_capture: bool,
    pub capture_rate_hz: u32,
    pub buffer_size: usize,
}

impl Default for CaptureConfig {
    /// Keyboard and mouse at 1 kHz, 100 events buffered.
    fn default() -> (r: Self)
        ensures
            r == (CaptureConfig { keyboard_capture: true, mouse_capture: true, capture_rate_hz: 1000, buffer_size: 100 }),
    {
        CaptureConfig { keyboard_capture: true, mouse_capture: true, capture_rate_hz: 1000, buffer_size: 100 }
    }
}

/// Input injection settings: what is injected, the pause between the
/// events of a batch (microseconds), and the batch size.
#[derive(Debug, Clone, Copy, PartialEq, Eq, Structural)]
pub struct InjectionConfig {
    pub keyboard_injection: bool,
    pub mouse_injection: bool,
    pub injection_delay_us: u64,
    pub batch_size: usize,
}

impl Default for InjectionConfig {
    /// Keyboard and mouse, 1 ms between events, batches of ten.
    fn default() -> (r: Self)
        ensures
            r == (InjectionConfig { keyboard_injection: true, mouse_injection: true, injection_delay_us: 1000, batch_size: 10 }),
    {
        InjectionConfig { keyboard_injection: true, mouse_injection: true, injection_delay_us: 1000, batch_size: 10 }
    }
}

impl InjectionConfig {
    /// Whether injection pauses after each event of a batch.
    pub fn pauses_between_events(&self) -> (r: bool)
        ensures
            r == (self.injection_delay_us > 0),
    {
        self.injection_delay_us > 0
    }
}

/// The milliseconds between capture ticks at a rate per second.
pub fn tick_interval_millis(rate_hz: u32) -> (r: u64)
    requires
        rate_hz > 0,
    ensures
        r == 1000int / (rate_hz as int),
{
    1000 / (rate_hz as u64)
}

/// The event the synthetic capture produces at tick `counter`: in turn a
/// mouse move (to 100 plus the counter modulo 100 on both axes, by 5 and
/// 3), a left-button press or release at (100, 100), and a press or
/// release of the `A` key; presses on even ticks.
pub fn dummy_input_event(counter: i32) -> (r: InputEvent)
    requires
        counter >= 0,
    ensures
        r == if counter % 3 == 0 {
            InputEvent::MouseMove {
                x: (100 + counter % 100) as i32,
                y: (100 + counter % 100) as i32,
                delta_x: 5,
                delta_y: 3,
            }
        } else if counter % 3 == 1 {
            InputEvent::MouseButton { button: MouseButton::Left, pressed: counter % 2 == 0, x: 100, y: 100 }
        } else {
            InputEvent::Keyboard {
                keycode: 65,
                pressed: counter % 2 == 0,
                modifiers: KeyModifiers { ctrl: false, alt: false, shift: false, meta: false },
            }
        },
{
    if counter % 3 == 0 {
        InputEvent::MouseMove { x: 100 + counter % 100, y: 100 + counter % 100, delta_x: 5, delta_y: 3 }
    } else if counter % 3 == 1 {
        InputEvent::MouseButton { button: MouseButton::Left, pressed: counter % 2 == 0, x: 100, y: 100 }
    } else {
        InputEvent::Keyboard { keycode: 65, pressed: counter % 2 == 0, modifiers: KeyModifiers::none() }
    }
}

/// The event the input manager injects while it has no session to read
/// from: a mouse move to (500, 300) by one on each axis.
pub fn generate_test_event() -> (r: InputEvent)
    ensures
        r == (InputEvent::MouseMove { x: 500, y: 300, delta_x: 1, delta_y: 1 }),
{
    InputEvent::MouseMove { x: 500, y: 300, delta_x: 1, delta_y: 1 }
}

/// The platforms whose synthetic capture differs.
#[derive(Debug, Clone, Copy, PartialEq, Eq, Structural)]
pub enum InputPlatform {
    Linux,
    MacOs,
    Windows,
}

/// The mouse move a platform's synthetic capture produces at tick
/// `counter`: around (500, 300) on Linux, (800, 600) on macOS and
/// (1024, 768) on Windows, with small movements that cycle.
pub open spec fn synthetic_move(p: InputPlatform, c: int) -> InputEvent {
    match p {
        InputPlatform::Linux => InputEvent::MouseMove {
            x: (500 + c % 200) as i32,
            y: (300 + c % 200) as i32,
            delta_x: (c % 10 - 5) as i32,
            delta_y: (c % 8 - 4) as i32,
        },
        InputPlatform::MacOs => InputEvent::MouseMove {
            x: (800 + c % 300) as i32,
            y: (600 + c % 300) as i32,
            delta_x: (c % 12 - 6) as i32,
            delta_y: (c % 10 - 5) as i32,
        },
        InputPlatform::Windows => InputEvent::MouseMove {
            x: (1024 + c % 400) as i32,
            y: (768 + c % 400) as i32,
            delta_x: (c % 14 - 7) as i32,
            delta_y: (c % 12 - 6) as i32,
        },
    }
}

/// Every how many ticks a platform's synthetic capture presses a key.
pub open spec fn key_period(p: InputPlatform) -> int {
    match p {
        InputPlatform::Linux => 50,
        InputPlatform::MacOs => 30,
        InputPlatform::Windows => 40,
    }
}

/// The key event a platform's synthetic capture produces at tick
/// `counter`: the letters A to Z in turn, pressed on even ticks; macOS
/// sometimes holds Command, Windows sometimes Control.
pub open spec fn synthetic_key(p: InputPlatform, c: int) -> InputEvent {
    InputEvent::Keyboard {
        keycode: (65 + c % 26) as u32,
        pressed: c % 2 == 0,
        modifiers: KeyModifiers {
            ctrl: p == InputPlatform::Windows && c % 150 < 15,
            alt: false,
            shift: false,
            meta: p == InputPlatform::MacOs && c % 100 < 10,
        },
    }
}

/// The events a platform's synthetic capture produces at tick
/// `counter`: a mouse move where the mouse is captured, then a key event
/// every few ticks where the keyboard is captured.
pub fn synthetic_input_events(platform: InputPlatform, config: &CaptureConfig, counter: i32) -> (r: Vec<InputEvent>)
    requires
        counter >= 0,
    ensures
        r@ == (if config.mouse_capture {
            seq![synthetic_move(platform, counter as int)]
        } else {
            Seq::<InputEvent>::empty()
        }) + (if config.keyboard_capture && (counter as int) % key_period(platform) == 0 {
            seq![synthetic_key(platform, counter as int)]
        } else {
            Seq::<InputEvent>::empty()
        }),
{
    let mut r: Vec<InputEvent> = Vec::new();
    let c = counter;
    let period: i32 = match platform {
        InputPlatform::Linux => 50,
        InputPlatform::MacOs => 30,
        InputPlatform::Windows => 40,
    };
    if config.mouse_capture {
        let m = match platform {
            InputPlatform::Linux => InputEvent::MouseMove {
                x: 500 + c % 200,
                y: 300 + c % 200,
                delta_x: c % 10 - 5,
                delta_y: c % 8 - 4,
            },
            InputPlatform::MacOs => InputEvent::MouseMove {
                x: 800 + c % 300,
                y: 600 + c % 300,
                delta_x: c % 12 - 6,
                delta_y: c % 10 - 5,
            },
            InputPlatform::Windows => InputEvent::MouseMove {
                x: 1024 + c % 400,
                y: 768 + c % 400,
                delta_x: c % 14 - 7,
                delta_y: c % 12 - 6,
            },
        };
        r.push(m);
    }
    if config.keyboard_capture && c % period == 0 {
        let k = InputEvent::Keyboard {
            keycode: (65 + c % 26) as u32,
            pressed: c % 2 == 0,
            modifiers: KeyModifiers {
                ctrl: platform == InputPlatform::Windows && c % 150 < 15,
                alt: false,
                shift: false,
                meta: platform == InputPlatform::MacOs && c % 100 < 10,
            },
        };
        r.push(k);
    }
    proof {
        let a = if config.mouse_capture {
            seq![synthetic_move(platform, counter as int)]
        } else {
            Seq::<InputEvent>::empty()
        };
        let b = if config.keyboard_capture && (counter as int) % key_period(platform) == 0 {
            seq![synthetic_key(platform, counter as int)]
        } else {
            Seq::<InputEvent>::empty()
        };
        assert(r@ =~= a + b);
    }
    r
}

} // verus!
