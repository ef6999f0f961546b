//! The logic behind the desktop shell's plugins: input, security, system
//! service and video.

pub mod input;
pub mod security;
pub mod service;
pub mod video;
pub mod protocol;
pub mod discovery;
pub mod tls;
