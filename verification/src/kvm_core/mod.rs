//! Common types, errors and utilities shared by the server, the client and
//! the protocol.

pub mod error;
pub mod types;
pub mod utils;
