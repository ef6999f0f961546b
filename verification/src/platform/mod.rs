//! Platform support: which backends a platform has, capture state, the
//! permissions a platform asks for, and system service descriptions.

pub mod system;
pub mod permissions;
pub mod capture;
pub mod devices;

use vstd::prelude::*;

verus! {

/// Platform errors. An I/O error carries the message of the underlying
/// error.
#[derive(Debug, Clone)]
pub enum PlatformError {
    InputCapture(String),
    VideoCapture(String),
    SystemService(String),
    UnsupportedPlatform(String),
    PermissionDenied(String),
    Io(String),
}

/// Platform result type.
pub type PlatformResult<T> = Result<T, PlatformError>;

} // verus!
