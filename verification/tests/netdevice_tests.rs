use fc_per_dev_metrics::metrics::FirecrackerMetrics;
use fc_per_dev_metrics::metrics::IncMetric;
use fc_per_dev_metrics::metrics::Metrics;
use fc_per_dev_metrics::netdevice::Net;
use fc_per_dev_metrics::netdevice::NetDeviceMetrics;
use fc_per_dev_metrics::netdevice::NetDeviceMetricsAlloc;
use fc_per_dev_metrics::netdevice::flush_metrics;

#[test]
fn test_net_dev_metrics() {
    // we can have max 19 net devices
    const MAX_NET_DEVICES: usize = 19;
    let mut reg = NetDeviceMetricsAlloc::new();

    for i in 0..MAX_NET_DEVICES {
        let devn: String = format!("tap{}", i);
        let idx = reg.register(devn.clone());
        reg.metrics[idx].1.activate_fails.inc();
        reg.metrics[idx].1.rx_bytes_count.add(10);
        reg.metrics[idx].1.tx_bytes_count.add(5);
    }

    for i in 0..MAX_NET_DEVICES {
        let devn: String = format!("tap{}", i);
        let idx = reg.get(&devn).unwrap();
        assert!(reg.metrics[idx].1.activate_fails.count() > 0);
        assert!(reg.metrics[idx].1.rx_bytes_count.count() > 0);
        assert_eq!(reg.metrics[idx].1.tx_bytes_count.count(), 5);
    }
}

#[test]
fn test_net_metrics_unwraps() {
    let mut reg = NetDeviceMetricsAlloc::new();

    let devn = "tap0";
    let idx = reg.register(String::from(devn));
    assert!(reg.get(&String::from(devn)).is_some());

    reg.metrics[idx].1.activate_fails.inc();
    assert!(
        reg.metrics[idx].1.activate_fails.count() > 0,
        "{}",
        reg.metrics[idx].1.activate_fails.count()
    );
    assert!(
        reg.metrics[idx].1.activate_fails.count() <= 2,
        "{}",
        reg.metrics[idx].1.activate_fails.count()
    );

    reg.metrics[idx].1.activate_fails.inc();
    reg.metrics[idx].1.rx_bytes_count.add(5);
    assert!(reg.metrics[idx].1.rx_bytes_count.count() >= 5);
}

#[test]
fn registering_twice_returns_the_same_block() {
    let mut reg = NetDeviceMetricsAlloc::new();
    let h1 = reg.register(String::from("eth0"));
    let h2 = reg.register(String::from("eth0"));
    assert_eq!(h1, h2);
    assert_eq!(reg.metrics.len(), 1);
    // An increment through one handle is visible via the other.
    reg.metrics[h1].1.tx_packets_count.add(4);
    assert_eq!(reg.metrics[h2].1.tx_packets_count.count(), 4);
}

#[test]
fn repeated_registration_of_one_identity_creates_one_block() {
    let mut reg = NetDeviceMetricsAlloc::new();
    let mut handles = Vec::new();
    for _ in 0..8 {
        handles.push(reg.register(String::from("shared")));
    }
    assert_eq!(reg.metrics.len(), 1);
    for h in &handles {
        assert_eq!(*h, handles[0]);
    }
    reg.metrics[handles[3]].1.event_fails.inc();
    for h in &handles {
        assert_eq!(reg.metrics[*h].1.event_fails.count(), 1);
    }
}

#[test]
fn get_does_not_create() {
    let mut reg = NetDeviceMetricsAlloc::new();
    assert!(reg.get(&String::from("eth0")).is_none());
    reg.register(String::from("eth0"));
    assert!(reg.get(&String::from("eth0")).is_some());
    assert!(reg.get(&String::from("eth1")).is_none());
    assert_eq!(reg.metrics.len(), 1);
}

#[test]
fn net_device_creation_registers_its_block() {
    let mut reg = NetDeviceMetricsAlloc::new();
    let dev = Net::new(&mut reg, String::from("eth0"));
    assert_eq!(dev.id, "eth0");
    assert_eq!(reg.metrics.len(), 1);
    let again = Net::new(&mut reg, String::from("eth0"));
    assert_eq!(again.metrics, dev.metrics);
    assert_eq!(reg.metrics.len(), 1);
}

#[test]
fn aggregating_two_devices_sums_their_deltas() {
    let mut total = NetDeviceMetrics::new();
    let mut a = NetDeviceMetrics::new();
    let mut b = NetDeviceMetrics::new();
    a.rx_bytes_count.add(10);
    a.activate_fails.inc();
    b.rx_bytes_count.add(20);
    b.tx_fails.add(3);
    total.aggregate(&a);
    total.aggregate(&b);
    assert_eq!(total.rx_bytes_count.count(), 30);
    assert_eq!(total.activate_fails.count(), 1);
    assert_eq!(total.tx_fails.count(), 3);
    assert_eq!(total.cfg_fails.count(), 0);
    // Aggregation read the diffs without consuming them.
    assert_eq!(a.rx_bytes_count.fetch_diff(), 10);
    assert_eq!(b.rx_bytes_count.fetch_diff(), 20);
}

#[test]
fn aggregate_after_device_flush_adds_nothing() {
    let mut total = NetDeviceMetrics::new();
    let mut a = NetDeviceMetrics::new();
    a.rx_bytes_count.add(10);
    let deltas = a.flush();
    assert_eq!(deltas.rx_bytes_count, 10);
    total.aggregate(&a);
    assert_eq!(total.rx_bytes_count.count(), 0);
}

#[test]
fn flush_cycle_reports_devices_and_aggregate() {
    let mut m = Metrics::new(FirecrackerMetrics::new());
    assert!(m.init().is_ok());
    let mut reg = NetDeviceMetricsAlloc::new();
    let eth0 = reg.register(String::from("eth0"));
    let eth1 = reg.register(String::from("eth1"));
    reg.metrics[eth0].1.activate_fails.inc();
    reg.metrics[eth0].1.rx_bytes_count.add(10);
    reg.metrics[eth1].1.rx_bytes_count.add(20);

    let snap = m.write(&mut reg, 1_000).expect("initialized sink must flush");
    assert_eq!(snap.entries.len(), 3);

    let (ref name0, ref d0) = snap.entries[0];
    assert_eq!(name0, "net_eth0");
    assert_eq!(d0.activate_fails, 1);
    assert_eq!(d0.rx_bytes_count, 10);

    let (ref name1, ref d1) = snap.entries[1];
    assert_eq!(name1, "net_eth1");
    assert_eq!(d1.activate_fails, 0);
    assert_eq!(d1.rx_bytes_count, 20);

    let (ref namea, ref agg) = snap.entries[2];
    assert_eq!(namea, "net");
    assert_eq!(agg.rx_bytes_count, 30);
    assert_eq!(agg.activate_fails, 1);
    assert_eq!(agg.tx_bytes_count, 0);

    // A second flush with no further increments reports all-zero deltas.
    let snap2 = m.write(&mut reg, 2_000).expect("initialized sink must flush");
    assert_eq!(snap2.entries.len(), 3);
    for (_, d) in &snap2.entries {
        assert_eq!(d.activate_fails, 0);
        assert_eq!(d.rx_bytes_count, 0);
        assert_eq!(d.tx_bytes_count, 0);
    }
    // The cumulative counts survive both flushes.
    assert_eq!(reg.metrics[eth0].1.rx_bytes_count.count(), 10);
    assert_eq!(reg.metrics[eth1].1.rx_bytes_count.count(), 20);
}

#[test]
fn flush_metrics_on_an_empty_registry_reports_only_the_aggregate() {
    let mut reg = NetDeviceMetricsAlloc::new();
    let out = flush_metrics(&mut reg);
    assert_eq!(out.len(), 1);
    assert_eq!(out[0].0, "net");
    assert_eq!(out[0].1.rx_bytes_count, 0);
    assert_eq!(out[0].1.activate_fails, 0);
}
