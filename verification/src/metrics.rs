//! The counters that record invalid accesses.
//!
//! Each counter is a `SharedIncMetric` of `dbs_utils`, so that a reporting
//! path can read it while the device is in use. The device itself counts
//! through exclusive references, which is what lets the contracts below
//! speak of a counter's value before and after.

use vstd::prelude::*;
use dbs_utils::metric::{IncMetric, SharedIncMetric};

verus! {

/// `dbs_utils::metric::SharedIncMetric`, an atomic counter.
#[verifier::external_type_specification]
#[verifier::external_body]
pub struct ExSharedIncMetric(SharedIncMetric);

/// What a counter holds: the value that `IncMetric::count` reports.
pub uninterp spec fn count_of(metric: SharedIncMetric) -> usize;

/// A count after one more event. The counters wrap at the top of `usize`.
pub open spec fn next_count(count: usize) -> usize {
    if count == usize::MAX {
        0
    } else {
        (count + 1) as usize
    }
}

/// `SharedIncMetric::default`: a counter that holds zero.
#[verifier::external_body]
fn metric_new() -> (metric: SharedIncMetric)
    ensures
        count_of(metric) == 0,
{
    SharedIncMetric::default()
}

/// `IncMetric::inc` on a `SharedIncMetric`: an atomic add of one, which
/// wraps on overflow.
#[verifier::external_body]
fn metric_inc(metric: &mut SharedIncMetric)
    ensures
        count_of(*final(metric)) == next_count(count_of(*old(metric))),
{
    metric.inc()
}

/// `IncMetric::count` on a `SharedIncMetric`: the value it holds.
#[verifier::external_body]
fn metric_count(metric: &SharedIncMetric) -> (count: usize)
    ensures
        count == count_of(*metric),
{
    metric.count()
}

/// The three counts of a device, as plain numbers.
#[derive(Clone, Copy, Debug, PartialEq, Eq, Structural)]
pub struct Counters {
    /// Invalid accesses of either direction.
    pub errors: usize,
    /// Invalid reads.
    pub missed_reads: usize,
    /// Invalid writes.
    pub missed_writes: usize,
}

impl Counters {
    /// The counts after one invalid read.
    pub open spec fn after_invalid_read(self) -> Counters {
        Counters {
            errors: next_count(self.errors),
            missed_reads: next_count(self.missed_reads),
            missed_writes: self.missed_writes,
        }
    }

    /// The counts after one invalid write.
    pub open spec fn after_invalid_write(self) -> Counters {
        Counters {
            errors: next_count(self.errors),
            missed_reads: self.missed_reads,
            missed_writes: next_count(self.missed_writes),
        }
    }
}

/// Metrics specific to the RTC device.
pub struct RTCDeviceMetrics {
    /// Errors triggered while using the RTC device.
    pub error_count: SharedIncMetric,
    /// Number of superfluous read intents on this RTC device.
    pub missed_read_count: SharedIncMetric,
    /// Number of superfluous write intents on this RTC device.
    pub missed_write_count: SharedIncMetric,
}

impl View for RTCDeviceMetrics {
    type V = Counters;

    open spec fn view(&self) -> Counters {
        Counters {
            errors: count_of(self.error_count),
            missed_reads: count_of(self.missed_read_count),
            missed_writes: count_of(self.missed_write_count),
        }
    }
}

impl Default for RTCDeviceMetrics {
    /// Metrics with every count at zero.
    fn default() -> (metrics: Self)
        ensures
            metrics@ == (Counters { errors: 0, missed_reads: 0, missed_writes: 0 }),
    {
        RTCDeviceMetrics {
            error_count: metric_new(),
            missed_read_count: metric_new(),
            missed_write_count: metric_new(),
        }
    }
}

impl RTCDeviceMetrics {
    /// Records a read that the device did not serve.
    pub fn invalid_read(&mut self)
        ensures
            final(self)@ == old(self)@.after_invalid_read(),
    {
        metric_inc(&mut self.missed_read_count);
        metric_inc(&mut self.error_count);
    }

    /// Records a write that the device did not take.
    pub fn invalid_write(&mut self)
        ensures
            final(self)@ == old(self)@.after_invalid_write(),
    {
        metric_inc(&mut self.missed_write_count);
        metric_inc(&mut self.error_count);
    }

    /// The three counts as they stand.
    pub fn counters(&self) -> (counters: Counters)
        ensures
            counters == self@,
    {
        Counters {
            errors: metric_count(&self.error_count),
            missed_reads: metric_count(&self.missed_read_count),
            missed_writes: metric_count(&self.missed_write_count),
        }
    }
}

} // verus!
