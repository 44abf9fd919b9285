use dbs_utils::metric::IncMetric;
use rtc_pl031::metrics::{Counters, RTCDeviceMetrics};

#[test]
fn metrics_start_at_zero() {
    let metrics = RTCDeviceMetrics::default();
    assert_eq!(
        metrics.counters(),
        Counters { errors: 0, missed_reads: 0, missed_writes: 0 }
    );
    assert_eq!(metrics.error_count.count(), 0);
    assert_eq!(metrics.missed_read_count.count(), 0);
    assert_eq!(metrics.missed_write_count.count(), 0);
}

#[test]
fn invalid_read_counts_twice() {
    let mut metrics = RTCDeviceMetrics::default();
    metrics.invalid_read();
    assert_eq!(
        metrics.counters(),
        Counters { errors: 1, missed_reads: 1, missed_writes: 0 }
    );
    metrics.invalid_read();
    assert_eq!(metrics.error_count.count(), 2);
    assert_eq!(metrics.missed_read_count.count(), 2);
    assert_eq!(metrics.missed_write_count.count(), 0);
}

#[test]
fn invalid_write_counts_twice() {
    let mut metrics = RTCDeviceMetrics::default();
    metrics.invalid_write();
    assert_eq!(
        metrics.counters(),
        Counters { errors: 1, missed_reads: 0, missed_writes: 1 }
    );
    metrics.invalid_write();
    metrics.invalid_read();
    assert_eq!(
        metrics.counters(),
        Counters { errors: 3, missed_reads: 1, missed_writes: 2 }
    );
}

#[test]
fn counters_wrap_at_the_top() {
    let mut metrics = RTCDeviceMetrics::default();
    metrics.error_count.add(usize::MAX);
    metrics.missed_write_count.add(usize::MAX - 1);
    assert_eq!(metrics.counters().errors, usize::MAX);
    metrics.invalid_write();
    assert_eq!(
        metrics.counters(),
        Counters { errors: 0, missed_reads: 0, missed_writes: usize::MAX }
    );
}
