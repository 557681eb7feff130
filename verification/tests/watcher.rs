use orpheus::config::{AppRule, PollMonitorConfig};
use orpheus::devices::{
    BatteryStatus, ChargeState, ConnectionKind, PollingRate, ProtocolKind, GWOLVES_VENDOR_ID,
    IPI_VENDOR_ID,
};
use orpheus::hid_device::DeviceSnapshot;
use orpheus::process_rules::ActiveRule;
use orpheus::watcher::{
    classify_power, desired_rate, power_target_rate, BatteryTrendTracker, DesiredRate,
    DesiredReason, DevicePollScheduler, PendingRateQueue, PowerClass,
};

fn milliseconds(n: u128) -> u128 {
    n * 1_000_000
}

fn seconds(n: u128) -> u128 {
    milliseconds(n * 1_000)
}

fn moment(n: u128) -> u128 {
    seconds(3_600 + n)
}


#[test]
fn uses_active_rule_before_restore() {
    let config = PollMonitorConfig {
        restore_rate: Some(PollingRate::Hz8000),
        rules: vec![AppRule {
            exe: "game.exe".to_string(),
            rate: PollingRate::Hz1000,
            restore: Some(PollingRate::Hz4000),
        }],
        ..PollMonitorConfig::default()
    };
    let active = ActiveRule {
        exe: "game.exe".to_string(),
        rate: PollingRate::Hz1000,
        restore: Some(PollingRate::Hz4000),
    };

    assert_eq!(
        desired_rate(&config, Some(&active), None),
        DesiredRate {
            rate: PollingRate::Hz1000,
            reason: DesiredReason::Rule {
                exe: "game.exe".to_string()
            },
        }
    );
}

#[test]
fn falls_back_to_restore_or_default() {
    let config = PollMonitorConfig {
        default_rate: PollingRate::Hz4000,
        restore_rate: None,
        ..PollMonitorConfig::default()
    };

    assert_eq!(
        desired_rate(&config, None, None),
        DesiredRate {
            rate: PollingRate::Hz4000,
            reason: DesiredReason::Restore,
        }
    );
}

#[test]
fn prefers_pending_rule_restore() {
    let config = PollMonitorConfig {
        default_rate: PollingRate::Hz8000,
        restore_rate: Some(PollingRate::Hz8000),
        ..PollMonitorConfig::default()
    };

    assert_eq!(
        desired_rate(&config, None, Some(PollingRate::Hz4000)),
        DesiredRate {
            rate: PollingRate::Hz4000,
            reason: DesiredReason::Restore,
        }
    );
}

#[test]
fn active_power_policy_targets_discharging_device() {
    let active = ActiveRule {
        exe: "game.exe".to_string(),
        rate: PollingRate::Hz4000,
        restore: Some(PollingRate::Hz1000),
    };

    assert_eq!(
        power_target_rate(
            Some(&active),
            PollingRate::Hz4000,
            PollingRate::Hz1000,
            PowerClass::Discharging,
            true,
            true,
        ),
        (PollingRate::Hz4000, "active non-charging")
    );
    assert_eq!(
        power_target_rate(
            Some(&active),
            PollingRate::Hz4000,
            PollingRate::Hz1000,
            PowerClass::Charging,
            true,
            true,
        ),
        (PollingRate::Hz1000, "charging idle")
    );
}

#[test]
fn active_power_policy_uses_unknown_only_without_known_discharging() {
    let active = ActiveRule {
        exe: "game.exe".to_string(),
        rate: PollingRate::Hz4000,
        restore: Some(PollingRate::Hz1000),
    };

    assert_eq!(
        power_target_rate(
            Some(&active),
            PollingRate::Hz4000,
            PollingRate::Hz1000,
            PowerClass::Unknown,
            false,
            true,
        ),
        (PollingRate::Hz4000, "active unknown-power fallback")
    );
    assert_eq!(
        power_target_rate(
            Some(&active),
            PollingRate::Hz4000,
            PollingRate::Hz1000,
            PowerClass::Unknown,
            true,
            true,
        ),
        (PollingRate::Hz1000, "unknown-power idle")
    );
}

#[test]
fn device_scheduler_uses_expected_poll_intervals() {
    let config = PollMonitorConfig::default();
    let mut scheduler = DevicePollScheduler::from_config(&config);
    let now = moment(0);

    assert!(scheduler.should_poll(now, false, false, false));
    scheduler.record_poll(now);

    assert!(scheduler.should_poll(now + seconds(1), false, true, false));
    assert!(!scheduler.should_poll(now + seconds(4), true, false, false));
    assert!(scheduler.should_poll(now + seconds(5), true, false, false));
    assert!(!scheduler.should_poll(now + seconds(599), false, false, false));
    assert!(scheduler.should_poll(now + seconds(600), false, false, false));
    assert!(scheduler.should_poll(now + milliseconds(1), false, false, true));
}

#[test]
fn pending_rate_queue_updates_target_and_retain_visible() {
    let device = test_device(
        IPI_VENDOR_ID,
        0x1014,
        ProtocolKind::IpiPixV1 { report_id: 3 },
        BatteryStatus::level_only(80),
    );
    let mut queue = PendingRateQueue::default();

    assert!(queue.queue(
        &device,
        PollingRate::Hz4000,
        "active non-charging",
        Some("latest rate read is cached".to_string())
    ));
    assert!(queue.has_pending());
    assert!(!queue.queue(
        &device,
        PollingRate::Hz4000,
        "active non-charging",
        Some("latest rate read is cached".to_string())
    ));
    assert!(queue.queue(&device, PollingRate::Hz1000, "idle", None));

    let pending = queue.clear(&device).unwrap();
    assert_eq!(pending.target, PollingRate::Hz1000);
    assert_eq!(pending.reason, "idle");

    queue.queue(&device, PollingRate::Hz4000, "active non-charging", None);
    queue.retain_visible(&[]);
    assert!(!queue.has_pending());
}

#[test]
fn battery_trend_marks_unknown_state_charging() {
    let config = PollMonitorConfig {
        battery_trend_window_ms: 600_000,
        battery_trend_min_delta: 1,
        assume_wireless_is_discharging: false,
        ..PollMonitorConfig::default()
    };
    let now = moment(0);
    let mut tracker = BatteryTrendTracker::from_config(&config);
    let mut device = test_device(
        IPI_VENDOR_ID,
        0x1014,
        ProtocolKind::IpiPixV1 { report_id: 3 },
        BatteryStatus::level_only(80),
    );
    tracker.record_at(std::slice::from_ref(&device), now);
    device.battery = Some(BatteryStatus::level_only(81));
    tracker.record_at(std::slice::from_ref(&device), now + seconds(60));

    assert_eq!(
        classify_power(&device, &config, &tracker),
        PowerClass::Charging
    );
}

#[test]
fn explicit_charge_state_wins_over_battery_trend() {
    let config = PollMonitorConfig {
        battery_trend_window_ms: 600_000,
        battery_trend_min_delta: 1,
        ..PollMonitorConfig::default()
    };
    let now = moment(0);
    let mut tracker = BatteryTrendTracker::from_config(&config);
    let mut device = test_device(
        GWOLVES_VENDOR_ID,
        0x3517,
        ProtocolKind::Feature64 {
            new_protocol: false,
            wired_device_id: 2,
        },
        BatteryStatus::with_raw_state(75, ChargeState::Discharging, 0),
    );
    tracker.record_at(std::slice::from_ref(&device), now);
    device.battery = Some(BatteryStatus::with_raw_state(
        76,
        ChargeState::Discharging,
        0,
    ));
    tracker.record_at(std::slice::from_ref(&device), now + seconds(60));

    assert_eq!(
        classify_power(&device, &config, &tracker),
        PowerClass::Discharging
    );
}

#[test]
fn flat_unknown_battery_stays_unknown() {
    let config = PollMonitorConfig {
        battery_trend_window_ms: 600_000,
        battery_trend_min_delta: 1,
        assume_wireless_is_discharging: false,
        ..PollMonitorConfig::default()
    };
    let now = moment(0);
    let mut tracker = BatteryTrendTracker::from_config(&config);
    let device = test_device(
        IPI_VENDOR_ID,
        0x1014,
        ProtocolKind::IpiPixV1 { report_id: 3 },
        BatteryStatus::level_only(80),
    );
    tracker.record_at(std::slice::from_ref(&device), now);
    tracker.record_at(std::slice::from_ref(&device), now + seconds(60));

    assert_eq!(
        classify_power(&device, &config, &tracker),
        PowerClass::Unknown
    );
}

#[test]
fn full_unknown_battery_is_treated_as_charging() {
    let config = PollMonitorConfig {
        assume_wireless_is_discharging: false,
        ..PollMonitorConfig::default()
    };
    let tracker = BatteryTrendTracker::from_config(&config);
    let device = test_device(
        IPI_VENDOR_ID,
        0x1014,
        ProtocolKind::IpiPixV1 { report_id: 3 },
        BatteryStatus::level_only(100),
    );

    assert_eq!(
        classify_power(&device, &config, &tracker),
        PowerClass::Charging
    );
}

#[test]
fn explicit_discharging_wins_over_full_battery_assumption() {
    let config = PollMonitorConfig::default();
    let tracker = BatteryTrendTracker::from_config(&config);
    let device = test_device(
        GWOLVES_VENDOR_ID,
        0x3517,
        ProtocolKind::Feature64 {
            new_protocol: false,
            wired_device_id: 2,
        },
        BatteryStatus::with_raw_state(100, ChargeState::Discharging, 0),
    );

    assert_eq!(
        classify_power(&device, &config, &tracker),
        PowerClass::Discharging
    );
}

fn test_device(
    vid: u16,
    pid: u16,
    protocol: ProtocolKind,
    battery: BatteryStatus,
) -> DeviceSnapshot {
    DeviceSnapshot {
        path: format!("test-{vid:04x}-{pid:04x}"),
        vid,
        pid,
        product_name: None,
        vendor_name: "Test",
        model_name: "Mouse",
        connection: ConnectionKind::Wireless,
        protocol,
        supported_rates: vec![PollingRate::Hz1000, PollingRate::Hz4000],
        current_rate: Some(PollingRate::Hz1000),
        battery: Some(battery),
        cached_rate: false,
        cached_battery: false,
        battery_error: None,
        read_error: None,
    }
}
