use orpheus::devices::{BatteryStatus, ConnectionKind, PollingRate, ProtocolKind};
use orpheus::hid_device::{merge_snapshot, DeviceSnapshot, DeviceSnapshotCache};


#[test]
fn snapshot_cache_reuses_last_valid_report() {
    let mut cache = DeviceSnapshotCache::default();
    let mut fresh = vec![test_snapshot(
        Some(PollingRate::Hz4000),
        Some(BatteryStatus::level_only(82)),
    )];
    cache.apply(&mut fresh);

    let mut sleeping = vec![test_snapshot(None, None)];
    sleeping[0].read_error = Some("failed to send feature report".to_string());
    cache.apply(&mut sleeping);

    assert_eq!(sleeping[0].current_rate, Some(PollingRate::Hz4000));
    assert_eq!(sleeping[0].battery, Some(BatteryStatus::level_only(82)));
    assert!(sleeping[0].cached_rate);
    assert!(sleeping[0].cached_battery);
}

#[test]
fn snapshot_cache_updates_live_rate_without_forgetting_battery() {
    let mut cache = DeviceSnapshotCache::default();
    let mut initial = vec![test_snapshot(
        Some(PollingRate::Hz1000),
        Some(BatteryStatus::level_only(70)),
    )];
    cache.apply(&mut initial);

    let mut partial = vec![test_snapshot(Some(PollingRate::Hz4000), None)];
    partial[0].battery_error = Some("battery asleep".to_string());
    cache.apply(&mut partial);

    assert_eq!(partial[0].current_rate, Some(PollingRate::Hz4000));
    assert_eq!(partial[0].battery, Some(BatteryStatus::level_only(70)));
    assert!(!partial[0].cached_rate);
    assert!(partial[0].cached_battery);

    let mut sleeping = vec![test_snapshot(None, None)];
    cache.apply(&mut sleeping);

    assert_eq!(sleeping[0].current_rate, Some(PollingRate::Hz4000));
    assert_eq!(sleeping[0].battery, Some(BatteryStatus::level_only(70)));
}

#[test]
fn merge_snapshot_promotes_battery_only_control_interface() {
    let mut devices = Vec::new();
    let mut dead_interface = test_snapshot(None, None);
    dead_interface.read_error = Some("wrong interface".to_string());
    merge_snapshot(&mut devices, dead_interface);

    let live_interface = test_snapshot(None, Some(BatteryStatus::level_only(88)));
    merge_snapshot(&mut devices, live_interface);

    assert_eq!(devices.len(), 1);
    assert_eq!(devices[0].battery, Some(BatteryStatus::level_only(88)));
    assert_eq!(devices[0].read_error, None);
}

fn test_snapshot(
    current_rate: Option<PollingRate>,
    battery: Option<BatteryStatus>,
) -> DeviceSnapshot {
    DeviceSnapshot {
        path: "test".to_string(),
        vid: 0x1234,
        pid: 0x5678,
        product_name: None,
        vendor_name: "Test",
        model_name: "Mouse",
        connection: ConnectionKind::Wireless,
        protocol: ProtocolKind::IpiPixV1 { report_id: 3 },
        supported_rates: vec![PollingRate::Hz1000, PollingRate::Hz4000],
        current_rate,
        battery,
        cached_rate: false,
        cached_battery: false,
        battery_error: None,
        read_error: None,
    }
}
