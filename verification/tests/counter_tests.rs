use fc_per_dev_metrics::metrics::FirecrackerMetrics;
use fc_per_dev_metrics::metrics::IncMetric;
use fc_per_dev_metrics::metrics::Metrics;
use fc_per_dev_metrics::metrics::MetricsError;
use fc_per_dev_metrics::metrics::SharedIncMetric;
use fc_per_dev_metrics::metrics::SharedStoreMetric;
use fc_per_dev_metrics::metrics::StoreMetric;
use fc_per_dev_metrics::metrics::seconds_to_nanoseconds;
use fc_per_dev_metrics::metrics::time_ns_from_parts;
use fc_per_dev_metrics::metrics::utc_millis_from_ns;
use fc_per_dev_metrics::netdevice::NetDeviceMetricsAlloc;

#[test]
fn counter_accumulates_sum_of_adds() {
    let mut c = SharedIncMetric::new();
    c.add(5);
    c.add(7);
    c.inc();
    assert_eq!(c.count(), 13);
    assert_eq!(c.fetch_diff(), 13);
}

#[test]
fn first_flush_reports_full_total() {
    let mut c = SharedIncMetric::new();
    c.add(100);
    c.add(23);
    assert_eq!(c.flush(), 123);
    assert_eq!(c.count(), 123);
}

#[test]
fn second_flush_reports_zero() {
    let mut c = SharedIncMetric::new();
    c.add(42);
    assert_eq!(c.flush(), 42);
    assert_eq!(c.flush(), 0);
    assert_eq!(c.fetch_diff(), 0);
}

#[test]
fn fetch_diff_does_not_reset() {
    let mut c = SharedIncMetric::new();
    c.add(9);
    assert_eq!(c.fetch_diff(), 9);
    assert_eq!(c.fetch_diff(), 9);
    assert_eq!(c.flush(), 9);
}

#[test]
fn flush_after_more_adds_reports_only_new_activity() {
    let mut c = SharedIncMetric::new();
    c.add(10);
    assert_eq!(c.flush(), 10);
    c.add(3);
    c.add(4);
    assert_eq!(c.flush(), 7);
    assert_eq!(c.count(), 17);
}

#[test]
fn counter_add_wraps_without_panicking() {
    let mut c = SharedIncMetric::new();
    c.add(u64::MAX);
    c.add(2);
    assert_eq!(c.count(), 1);
}

#[test]
fn gauge_stores_and_fetches_absolute_value() {
    let mut g = SharedStoreMetric::new();
    assert_eq!(g.fetch(), 0);
    g.store(77);
    assert_eq!(g.fetch(), 77);
    g.store(5);
    assert_eq!(g.fetch(), 5);
}

#[test]
fn sink_init_succeeds_exactly_once() {
    let mut m = Metrics::new(FirecrackerMetrics::new());
    assert!(m.init().is_ok());
    assert!(matches!(m.init(), Err(MetricsError::AlreadyInitialized)));
    assert!(matches!(m.init(), Err(MetricsError::AlreadyInitialized)));
}

#[test]
fn write_before_init_is_a_reported_noop() {
    let m = Metrics::new(FirecrackerMetrics::new());
    let mut reg = NetDeviceMetricsAlloc::new();
    let idx = reg.register(String::from("eth0"));
    reg.metrics[idx].1.rx_bytes_count.add(10);
    assert!(m.write(&mut reg, 0).is_none());
    // Values keep accumulating while no destination is attached.
    assert_eq!(reg.metrics[idx].1.rx_bytes_count.fetch_diff(), 10);
}

#[test]
fn write_after_init_returns_a_snapshot() {
    let mut m = Metrics::new(FirecrackerMetrics::new());
    let mut reg = NetDeviceMetricsAlloc::new();
    reg.register(String::from("eth0"));
    assert!(m.init().is_ok());
    let snap = m.write(&mut reg, 9_876).expect("initialized sink must flush");
    assert_eq!(snap.utc_timestamp_ms, 9_876);
    assert_eq!(snap.entries.len(), 2);
    assert_eq!(snap.entries[0].0, "net_eth0");
    assert_eq!(snap.entries[1].0, "net");
}

#[test]
fn seconds_convert_to_nanoseconds() {
    assert_eq!(seconds_to_nanoseconds(2), Some(2_000_000_000));
    assert_eq!(seconds_to_nanoseconds(0), Some(0));
    assert_eq!(seconds_to_nanoseconds(-3), Some(-3_000_000_000));
    assert_eq!(seconds_to_nanoseconds(i64::MAX), None);
}

#[test]
fn clock_parts_convert_to_nanoseconds() {
    assert_eq!(time_ns_from_parts(1, 500), Some(1_000_000_500));
    assert_eq!(time_ns_from_parts(0, 0), Some(0));
    assert_eq!(time_ns_from_parts(-1, 0), None);
    assert_eq!(time_ns_from_parts(i64::MAX, 0), None);
}

#[test]
fn nanoseconds_convert_to_milliseconds() {
    assert_eq!(utc_millis_from_ns(1_234_567_890), Some(1_234));
    assert_eq!(utc_millis_from_ns(999_999), Some(0));
}
