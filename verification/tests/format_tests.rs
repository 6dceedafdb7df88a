use fc_per_dev_metrics::emf::build_emf;
use fc_per_dev_metrics::emf::get_unit;
use fc_per_dev_metrics::names::with_dev_id;

#[test]
fn device_names_embed_the_device_id() {
    assert_eq!(
        with_dev_id("NetDeviceMetrics", "rx_bytes_count", 0),
        "NetDeviceMetrics_0::rx_bytes_count"
    );
    assert_eq!(with_dev_id("vsock", "rx_bytes_count", 120), "vsock_120::rx_bytes_count");
    assert_eq!(with_dev_id("net", "tx_fails", 4_294_967_295), "net_4294967295::tx_fails");
}

#[test]
fn units_follow_the_key_suffix() {
    assert_eq!(get_unit("rx_bytes_count"), "Bytes");
    assert_eq!(get_unit("tx_bytes"), "Bytes");
    assert_eq!(get_unit("boot_time_ms"), "Milliseconds");
    assert_eq!(get_unit("exec_time_us"), "Microseconds");
    assert_eq!(get_unit("activate_fails"), "Count");
    assert_eq!(get_unit(""), "Count");
}

#[test]
fn unit_detection_lowers_ascii_keys() {
    assert_eq!(get_unit("RX_BYTES"), "Bytes");
    assert_eq!(get_unit("Boot_Time_MS"), "Milliseconds");
    assert_eq!(get_unit("MIXED_case_US"), "Microseconds");
}

#[test]
fn emf_document_flattens_groups() {
    let groups: Vec<(String, Vec<(String, u64)>)> = vec![
        (
            String::from("net"),
            vec![(String::from("rx_bytes_count"), 30), (String::from("activate_fails"), 1)],
        ),
        (String::from("net_eth1"), vec![(String::from("rx_bytes_count"), 20)]),
    ];
    let doc = build_emf(555, &groups);

    assert_eq!(doc.timestamp, 555);
    assert_eq!(doc.namespace, "TestNs");
    assert_eq!(doc.sandbox_id, 1234);
    assert_eq!(doc.dimensions, vec![vec![String::from("Sandbox")]]);

    assert_eq!(doc.metric_defs.len(), 3);
    assert_eq!(doc.metric_defs[0].name, "net.rx_bytes_count");
    assert_eq!(doc.metric_defs[0].unit, "Bytes");
    assert_eq!(doc.metric_defs[1].name, "net.activate_fails");
    assert_eq!(doc.metric_defs[1].unit, "Count");
    assert_eq!(doc.metric_defs[2].name, "net_eth1.rx_bytes_count");
    assert_eq!(doc.metric_defs[2].unit, "Bytes");

    assert_eq!(doc.metrics.len(), 3);
    assert_eq!(doc.metrics[0].inner, vec![(String::from("net.rx_bytes_count"), 30)]);
    assert_eq!(doc.metrics[1].inner, vec![(String::from("net.activate_fails"), 1)]);
    assert_eq!(doc.metrics[2].inner, vec![(String::from("net_eth1.rx_bytes_count"), 20)]);
}

#[test]
fn emf_document_of_an_empty_snapshot_is_empty() {
    let groups: Vec<(String, Vec<(String, u64)>)> = Vec::new();
    let doc = build_emf(0, &groups);
    assert_eq!(doc.metric_defs.len(), 0);
    assert_eq!(doc.metrics.len(), 0);
    assert_eq!(doc.namespace, "TestNs");
}
