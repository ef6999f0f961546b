//! Timing, and the scan for a free port.

use vstd::prelude::*;
use crate::bridge::{elapsed_since, instant_not_before, instant_now, instant_now_after, measured_since};
use crate::kvm_core::error::KvmError;
use crate::text::string_from;

verus! {

/// Measures time from a starting instant.
pub struct Timer {
    start: std::time::Instant,
}

impl Timer {
    /// The instant the timer counts from.
    pub closed spec fn start_spec(&self) -> std::time::Instant {
        self.start
    }

    /// A timer started now.
    pub fn new() -> Self {
        Timer { start: instant_now() }
    }

    /// The time passed since the timer was started or last reset: from its
    /// starting instant to a reading of the clock taken during the call.
    pub fn elapsed(&self) -> (r: core::time::Duration)
        ensures
            measured_since(r, self.start_spec()),
    {
        elapsed_since(&self.start)
    }

    /// Restarts the timer now: the new starting instant is a reading of the
    /// clock taken during the call, not before the old one.
    pub fn reset(&mut self)
        ensures
            instant_not_before(final(self).start_spec(), old(self).start_spec()),
    {
        self.start = instant_now_after(&self.start);
    }
}

/// What a scan for a free port does next.
#[derive(Debug, Clone, Copy, PartialEq, Eq, Structural)]
pub enum PortScan {
    /// This port could be bound: it is the answer.
    Found(u16),
    /// Try binding this port.
    Try(u16),
    /// No port is left below 65535.
    Exhausted,
}

/// The first step of a scan from `start_port`: ports below 65535 are
/// tried, in order.
pub fn first_port(start_port: u16) -> (r: PortScan)
    ensures
        r == if start_port < 65535 {
            PortScan::Try(start_port)
        } else {
            PortScan::Exhausted
        },
{
    if start_port < 65535 {
        PortScan::Try(start_port)
    } else {
        PortScan::Exhausted
    }
}

/// The step after trying to bind `port`: a port that could be bound is
/// found; otherwise the next port is tried, up to 65534.
pub fn after_bind(port: u16, bound: bool) -> (r: PortScan)
    requires
        port < 65535,
    ensures
        r == if bound {
            PortScan::Found(port)
        } else if port + 1 < 65535 {
            PortScan::Try((port + 1) as u16)
        } else {
            PortScan::Exhausted
        },
{
    if bound {
        PortScan::Found(port)
    } else if port + 1 < 65535 {
        PortScan::Try(port + 1)
    } else {
        PortScan::Exhausted
    }
}

/// The error of a scan that found no free port.
pub fn no_free_port() -> (r: KvmError)
    ensures
        r matches KvmError::Network(m) && m@ == "No available ports found"@,
{
    KvmError::Network(string_from("No available ports found"))
}

} // verus!
