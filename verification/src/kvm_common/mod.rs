//! Shared building blocks: value types of the discovery layer, timing,
//! network and name helpers, and a ring buffer.

pub mod buffer;
pub mod network;
pub mod string;
pub mod types;
pub mod utils;
