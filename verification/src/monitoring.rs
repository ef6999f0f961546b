//! Performance measurement: when a collector, a monitor and a measurement
//! began, and which operation a measurement is for. The caller installs
//! the Prometheus exporter and records the latencies, which are floating
//! point, with the durations measured here.

use vstd::prelude::*;
use crate::bridge::{elapsed_since, instant_now, measured_since};
use crate::text::string_from;

verus! {

/// Collects metrics from its start on.
#[derive(Clone, Copy)]
pub struct MetricsCollector {
    start_time: std::time::Instant,
}

impl MetricsCollector {
    pub closed spec fn start_time_spec(&self) -> std::time::Instant {
        self.start_time
    }

    /// A collector starting now.
    pub fn new() -> (r: Self) {
        MetricsCollector { start_time: instant_now() }
    }

    /// The time since the collector started: from its starting instant to
    /// a reading of the clock taken during the call.
    pub fn uptime(&self) -> (r: core::time::Duration)
        ensures
            measured_since(r, self.start_time_spec()),
    {
        elapsed_since(&self.start_time)
    }
}

impl Default for MetricsCollector {
    fn default() -> (r: Self) {
        MetricsCollector::new()
    }
}

/// Hands out measurements that report to one collector.
pub struct PerformanceMonitor {
    collector: MetricsCollector,
    last_measurement: std::time::Instant,
}

impl PerformanceMonitor {
    pub closed spec fn collector_spec(&self) -> MetricsCollector {
        self.collector
    }

    /// A monitor with a new collector.
    pub fn new() -> (r: Self) {
        PerformanceMonitor { collector: MetricsCollector::new(), last_measurement: instant_now() }
    }

    /// The monitor's collector.
    pub fn collector(&self) -> (r: MetricsCollector)
        ensures
            r == self.collector_spec(),
    {
        self.collector
    }

    /// A measurement starting now, reporting to the monitor's collector,
    /// for an unnamed operation.
    pub fn start_measurement(&mut self) -> (r: Measurement)
        ensures
            r.collector_spec() == old(self).collector_spec(),
            r.operation_spec() == "unknown"@,
            final(self).collector_spec() == old(self).collector_spec(),
    {
        Measurement::new(self.collector)
    }
}

impl Default for PerformanceMonitor {
    fn default() -> (r: Self) {
        PerformanceMonitor::new()
    }
}

/// The measurement of one operation.
pub struct Measurement {
    collector: MetricsCollector,
    start_time: std::time::Instant,
    operation: String,
}

impl Measurement {
    pub closed spec fn collector_spec(&self) -> MetricsCollector {
        self.collector
    }

    pub closed spec fn start_time_spec(&self) -> std::time::Instant {
        self.start_time
    }

    pub closed spec fn operation_spec(&self) -> Seq<char> {
        self.operation@
    }

    /// A measurement starting now, for an operation named `unknown`.
    pub fn new(collector: MetricsCollector) -> (r: Self)
        ensures
            r.collector_spec() == collector,
            r.operation_spec() == "unknown"@,
    {
        Measurement { collector, start_time: instant_now(), operation: string_from("unknown") }
    }

    /// The measurement, for the named operation.
    pub fn with_operation(self, operation: &str) -> (r: Self)
        ensures
            r.collector_spec() == self.collector_spec(),
            r.start_time_spec() == self.start_time_spec(),
            r.operation_spec() == operation@,
    {
        Measurement { collector: self.collector, start_time: self.start_time, operation: string_from(operation) }
    }

    /// The measurement, as one of a video operation.
    pub fn record_video_operation(self) -> (r: VideoMeasurement)
        ensures
            r.measurement_spec() == self,
    {
        VideoMeasurement { measurement: self }
    }

    /// The measurement, as one of an input operation.
    pub fn record_input_operation(self) -> (r: InputMeasurement)
        ensures
            r.measurement_spec() == self,
    {
        InputMeasurement { measurement: self }
    }

    /// Ends the measurement: the time the operation took, from the
    /// measurement's start to a reading of the clock taken during the call.
    pub fn finish(self) -> (r: core::time::Duration)
        ensures
            measured_since(r, self.start_time_spec()),
    {
        elapsed_since(&self.start_time)
    }

    /// The name of the operation.
    pub fn operation(&self) -> (r: &String)
        ensures
            r@ == self.operation_spec(),
    {
        &self.operation
    }
}

/// The measurement of a video operation, whose time is the video latency.
pub struct VideoMeasurement {
    measurement: Measurement,
}

impl VideoMeasurement {
    pub closed spec fn measurement_spec(&self) -> Measurement {
        self.measurement
    }

    /// Ends the measurement: the collector to report the latency to, and the
    /// time the operation took, from the measurement's start to a reading of
    /// the clock taken during the call.
    pub fn finish(self) -> (r: (MetricsCollector, core::time::Duration))
        ensures
            r.0 == self.measurement_spec().collector_spec(),
            measured_since(r.1, self.measurement_spec().start_time_spec()),
    {
        let collector = self.measurement.collector;
        (collector, elapsed_since(&self.measurement.start_time))
    }
}

/// The measurement of an input operation, whose time is the input latency.
pub struct InputMeasurement {
    measurement: Measurement,
}

impl InputMeasurement {
    pub closed spec fn measurement_spec(&self) -> Measurement {
        self.measurement
    }

    /// Ends the measurement: the collector to report the latency to, and the
    /// time the operation took, from the measurement's start to a reading of
    /// the clock taken during the call.
    pub fn finish(self) -> (r: (MetricsCollector, core::time::Duration))
        ensures
            r.0 == self.measurement_spec().collector_spec(),
            measured_since(r.1, self.measurement_spec().start_time_spec()),
    {
        let collector = self.measurement.collector;
        (collector, elapsed_since(&self.measurement.start_time))
    }
}

} // verus!
