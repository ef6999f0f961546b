//! Service discovery on the LAN: the TXT records services announce, the
//! metadata read back from them, and the caches of services seen.

pub mod service;
pub mod resolver;
pub mod registry;
pub mod round_trip;
