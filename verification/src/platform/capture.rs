//! The screen capture and input managers of the platform layer. Their
//! platform hooks are not written yet: every operation succeeds, a frame is
//! empty, and no input arrives.

use vstd::prelude::*;
use crate::kvm_common::types::InputEvent;
use crate::kvm_core::error::KvmResult;

verus! {

/// Screen capture.
pub struct CaptureManager;

impl CaptureManager {
    pub fn new() -> (r: Self) {
        CaptureManager
    }

    /// Starts capturing the screen.
    pub fn start_capture(&self) -> (r: KvmResult<()>)
        ensures
            r is Ok,
    {
        Ok(())
    }

    /// Stops capturing the screen.
    pub fn stop_capture(&self) -> (r: KvmResult<()>)
        ensures
            r is Ok,
    {
        Ok(())
    }

    /// The next frame: empty.
    pub fn capture_frame(&self) -> (r: KvmResult<Vec<u8>>)
        ensures
            r matches Ok(v) && v@.len() == 0,
    {
        Ok(Vec::new())
    }
}

impl Default for CaptureManager {
    fn default() -> (r: Self) {
        CaptureManager::new()
    }
}

/// Input capture and injection.
pub struct InputManager;

impl InputManager {
    pub fn new() -> (r: Self) {
        InputManager
    }

    /// Starts capturing input.
    pub fn start_capture(&self) -> (r: KvmResult<()>)
        ensures
            r is Ok,
    {
        Ok(())
    }

    /// Stops capturing input.
    pub fn stop_capture(&self) -> (r: KvmResult<()>)
        ensures
            r is Ok,
    {
        Ok(())
    }

    /// Sends an input event.
    pub fn send_input(&self, event: InputEvent) -> (r: KvmResult<()>)
        ensures
            r is Ok,
    {
        Ok(())
    }

    /// The next input event: none.
    pub fn receive_input(&self) -> (r: KvmResult<Option<InputEvent>>)
        ensures
            r matches Ok(None),
    {
        Ok(None)
    }
}

impl Default for InputManager {
    fn default() -> (r: Self) {
        InputManager::new()
    }
}

} // verus!
