use orpheus::config::{PollMonitorConfig, PowerPolicy};
use orpheus::devices::{BatteryStatus, ChargeState, ConnectionKind, PollingRate, ProtocolKind};
use orpheus::error::DeviceError;
use orpheus::hid_device::DeviceSnapshot;
use orpheus::process_rules::ActiveRule;
use orpheus::watch::{
    decide_rate, dry_run_line, first_device_line, rate_text, record_write, DeviceTarget, Watch,
    WatchAction,
};
use orpheus::watcher::{
    classify_power, interval_at_least, BatteryTrendTracker, DesiredRate, DesiredReason,
    PendingRateQueue, PowerClass,
};

const MS: u128 = 1_000_000;

fn rule(rate: PollingRate, restore: Option<PollingRate>) -> ActiveRule {
    ActiveRule {
        exe: "game.exe".to_string(),
        rate,
        restore,
    }
}

fn mouse(pid: u16, rate: Option<PollingRate>, battery: Option<BatteryStatus>) -> DeviceSnapshot {
    DeviceSnapshot {
        path: format!("path{pid}"),
        vid: 0x1234,
        pid,
        product_name: None,
        vendor_name: "Test",
        model_name: "Mouse",
        connection: ConnectionKind::Wireless,
        protocol: ProtocolKind::Eeprom16,
        supported_rates: vec![PollingRate::Hz1000, PollingRate::Hz4000],
        current_rate: rate,
        battery,
        cached_rate: false,
        cached_battery: false,
        battery_error: None,
        read_error: None,
    }
}

fn state(level: u8, state: ChargeState) -> Option<BatteryStatus> {
    Some(BatteryStatus::with_raw_state(level, state, 0))
}

fn power_config() -> PollMonitorConfig {
    PollMonitorConfig {
        default_rate: PollingRate::Hz1000,
        restore_rate: Some(PollingRate::Hz1000),
        power_policy: PowerPolicy::ActiveNonCharging,
        ..PollMonitorConfig::default()
    }
}

#[test]
fn the_first_device_is_written_when_the_wish_changes() {
    let mut watch = Watch::new(PollMonitorConfig::default(), false, false);
    let WatchAction::FirstDevice { desired, .. } = watch.begin(0, None) else {
        panic!("the first wish must be acted upon");
    };
    assert_eq!(desired.text(), "restore -> 8000 Hz");
    assert_eq!(watch.first_device_done(0, Ok(())), None);
    assert!(matches!(watch.begin(1_000 * MS, None), WatchAction::Rest));
    assert_eq!(watch.pause(), Some(1_000 * MS));

    let game = rule(PollingRate::Hz1000, Some(PollingRate::Hz4000));
    let WatchAction::FirstDevice { desired, .. } = watch.begin(2_000 * MS, Some(&game)) else {
        panic!("a changed wish must be acted upon");
    };
    assert_eq!(desired.text(), "game.exe active -> 1000 Hz");
    let failed = Err(DeviceError::new("asleep".to_string()));
    assert_eq!(
        watch.first_device_done(2_000 * MS, failed).unwrap(),
        "queued game.exe active -> 1000 Hz: asleep"
    );
    assert!(matches!(
        watch.begin(2_999 * MS, Some(&game)),
        WatchAction::Rest
    ));
    assert!(matches!(
        watch.begin(3_000 * MS, Some(&game)),
        WatchAction::FirstDevice { .. }
    ));
    watch.first_device_done(3_000 * MS, Ok(()));

    let WatchAction::FirstDevice { desired, .. } = watch.begin(4_000 * MS, None) else {
        panic!("the end of the rule must be acted upon");
    };
    assert_eq!(desired.rate, PollingRate::Hz4000);
}

#[test]
fn one_round_ends_the_watch_that_wants_one() {
    let mut watch = Watch::new(PollMonitorConfig::default(), true, true);
    assert!(!watch.needs_monitor());
    assert!(matches!(
        watch.begin(0, None),
        WatchAction::FirstDevice { .. }
    ));
    assert_eq!(watch.pause(), None);
    assert!(Watch::new(power_config(), true, true).needs_monitor());
    assert!(Watch::new(PollMonitorConfig::default(), false, true).needs_monitor());
}

#[test]
fn devices_are_paced_by_what_goes_on() {
    let mut watch = Watch::new(power_config(), false, false);
    assert!(matches!(watch.begin(0, None), WatchAction::AllDevices));
    watch.all_devices_done(0);
    assert!(matches!(watch.begin(599_999 * MS, None), WatchAction::Rest));
    assert!(matches!(
        watch.begin(600_000 * MS, None),
        WatchAction::AllDevices
    ));
    watch.all_devices_done(600_000 * MS);
    let game = rule(PollingRate::Hz4000, None);
    assert!(matches!(
        watch.begin(600_001 * MS, Some(&game)),
        WatchAction::AllDevices
    ));
    watch.all_devices_done(600_001 * MS);
    assert!(matches!(
        watch.begin(605_000 * MS, Some(&game)),
        WatchAction::Rest
    ));
    assert!(matches!(
        watch.begin(605_001 * MS, Some(&game)),
        WatchAction::AllDevices
    ));
    assert_eq!(interval_at_least(10, 250), 250 * MS);
    assert_eq!(interval_at_least(300, 250), 300 * MS);
}

#[test]
fn active_mice_are_boosted_and_charging_ones_are_not() {
    let mut watch = Watch::new(power_config(), false, false);
    let game = rule(PollingRate::Hz4000, None);
    watch.begin(0, Some(&game));
    let desired = watch.last_desired.as_ref().unwrap().duplicate();
    let mut devices = vec![
        mouse(1, Some(PollingRate::Hz1000), state(50, ChargeState::Discharging)),
        mouse(2, Some(PollingRate::Hz1000), state(50, ChargeState::Charging)),
        mouse(3, Some(PollingRate::Hz1000), None),
    ];
    let plan = watch.plan(&mut devices, 0, Some(&game), &desired);
    let targets: Vec<(PollingRate, &str)> = plan
        .targets
        .iter()
        .map(|target| (target.target, target.reason))
        .collect();
    assert_eq!(
        targets,
        vec![
            (PollingRate::Hz4000, "active non-charging"),
            (PollingRate::Hz1000, "charging idle"),
            (PollingRate::Hz1000, "unknown-power idle"),
        ]
    );
    let mut alone = vec![mouse(3, Some(PollingRate::Hz1000), None)];
    let plan = watch.plan(&mut alone, 0, Some(&game), &desired);
    assert_eq!(plan.targets[0].target, PollingRate::Hz4000);
    assert_eq!(plan.targets[0].reason, "active unknown-power fallback");
    let plan = watch.plan(&mut alone, 0, None, &desired);
    assert_eq!(plan.targets[0].target, PollingRate::Hz1000);
    assert_eq!(plan.targets[0].reason, "idle");
}

#[test]
fn a_dry_run_says_that_nothing_is_visible() {
    let desired = DesiredRate {
        rate: PollingRate::Hz500,
        reason: DesiredReason::Restore,
    };
    let mut dry = Watch::new(power_config(), true, true);
    let plan = dry.plan(&mut Vec::new(), 0, None, &desired);
    assert_eq!(
        plan.line.unwrap(),
        "dry run: no supported device visible for restore -> 500 Hz"
    );
    assert!(plan.targets.is_empty());
    let mut wet = Watch::new(power_config(), false, true);
    assert!(wet.plan(&mut Vec::new(), 0, None, &desired).line.is_none());
    assert_eq!(
        dry_run_line(&desired),
        "dry run: would set restore -> 500 Hz"
    );
    assert_eq!(
        first_device_line(
            "Mouse",
            ConnectionKind::Wired,
            Some(PollingRate::Hz125),
            None,
            &desired,
            12,
        ),
        "Mouse wired: 125 Hz -> 500 Hz (restore -> 500 Hz, 12 ms)"
    );
    assert_eq!(rate_text(None), "unknown");
}

#[test]
fn rates_are_written_only_where_they_are_needed() {
    let mut queue = PendingRateQueue::default();
    let live = mouse(1, Some(PollingRate::Hz1000), None);
    let decision = decide_rate(&mut queue, false, &live, PollingRate::Hz4000, "active");
    assert!(decision.write && decision.line.is_none());

    let dry = decide_rate(&mut queue, true, &live, PollingRate::Hz4000, "active");
    assert!(!dry.write);
    assert_eq!(
        dry.line.unwrap(),
        "dry run: would set Test Mouse 1234:0001 1000 Hz -> 4000 Hz (active, battery unknown)"
    );

    let there = decide_rate(&mut queue, false, &live, PollingRate::Hz1000, "idle");
    assert!(!there.write && there.line.is_none());

    let unlisted = decide_rate(&mut queue, false, &live, PollingRate::Hz8000, "active");
    assert!(!unlisted.write);
    assert_eq!(
        unlisted.line.unwrap(),
        "Test Mouse 1234:0001: skipping unsupported target 8000 Hz (active)"
    );
    assert!(!queue.has_pending());
}

#[test]
fn changes_for_sleeping_mice_wait() {
    let mut queue = PendingRateQueue::default();
    let mut asleep = mouse(1, Some(PollingRate::Hz1000), state(9, ChargeState::Full));
    asleep.cached_rate = true;
    let dry = decide_rate(&mut queue, true, &asleep, PollingRate::Hz4000, "active");
    assert_eq!(
        dry.line.unwrap(),
        "dry run: would queue Test Mouse 1234:0001 1000 Hz -> 4000 Hz (active, latest rate read is cached, battery 9% full (raw 0))"
    );
    assert!(!queue.has_pending());
    let first = decide_rate(&mut queue, false, &asleep, PollingRate::Hz4000, "active");
    assert_eq!(
        first.line.unwrap(),
        "queued Test Mouse 1234:0001 1000 Hz -> 4000 Hz (active, latest rate read is cached, battery 9% full (raw 0))"
    );
    assert!(queue.has_pending());
    let again = decide_rate(&mut queue, false, &asleep, PollingRate::Hz4000, "active");
    assert!(!again.write && again.line.is_none());
    let awake = mouse(1, Some(PollingRate::Hz4000), None);
    let done = decide_rate(&mut queue, false, &awake, PollingRate::Hz4000, "active");
    assert_eq!(
        done.line.unwrap(),
        "Test Mouse 1234:0001: queued target 4000 Hz is now satisfied (active)"
    );
    assert!(!queue.has_pending());
    let unknown = mouse(2, None, None);
    let waits = decide_rate(&mut queue, false, &unknown, PollingRate::Hz4000, "active");
    assert_eq!(
        waits.line.unwrap(),
        "queued Test Mouse 1234:0002 unknown -> 4000 Hz (active, current rate is unknown, battery unknown)"
    );
}

#[test]
fn writes_that_do_not_read_back_wait() {
    let mut queue = PendingRateQueue::default();
    let live = mouse(1, Some(PollingRate::Hz1000), None);
    let before = Some(PollingRate::Hz1000);
    let target = PollingRate::Hz4000;
    let line = record_write(&mut queue, &live, target, "active", Ok((before, None)), 5);
    assert_eq!(
        line.unwrap(),
        "Test Mouse 1234:0001: 1000 Hz -> unknown (active, battery unknown, 5 ms, queued)"
    );
    assert!(queue.has_pending());
    let line = record_write(&mut queue, &live, target, "active", Ok((before, Some(target))), 6);
    assert_eq!(
        line.unwrap(),
        "Test Mouse 1234:0001: 1000 Hz -> 4000 Hz (active, battery unknown, 6 ms)"
    );
    assert!(!queue.has_pending());
    let failed = || Err(DeviceError::new("gone".to_string()));
    let line = record_write(&mut queue, &live, target, "active", failed(), 7);
    assert_eq!(
        line.unwrap(),
        "queued Test Mouse 1234:0001 1000 Hz -> 4000 Hz (active, gone, battery unknown)"
    );
    assert_eq!(
        record_write(&mut queue, &live, target, "active", failed(), 8),
        None
    );
    assert!(queue.has_pending());
}

#[test]
fn waiting_changes_shorten_the_pause() {
    let config = PollMonitorConfig {
        scan_interval_ms: 3_000,
        pending_retry_interval_ms: 500,
        ..power_config()
    };
    let mut watch = Watch::new(config, false, false);
    assert_eq!(watch.pause(), Some(3_000 * MS));
    let unknown = mouse(1, None, None);
    decide_rate(
        &mut watch.pending_rate_changes,
        false,
        &unknown,
        PollingRate::Hz4000,
        "active",
    );
    assert_eq!(watch.pause(), Some(500 * MS));
    let desired = DesiredRate {
        rate: PollingRate::Hz1000,
        reason: DesiredReason::Restore,
    };
    watch.plan(&mut Vec::new(), 0, None, &desired);
    assert_eq!(watch.pause(), Some(3_000 * MS));
}

#[test]
fn levels_outside_the_window_do_not_count() {
    let config = PollMonitorConfig {
        battery_trend_window_ms: 10_000,
        battery_trend_min_delta: 2,
        ..power_config()
    };
    let mut trends = BatteryTrendTracker::from_config(&config);
    let at = |level: u8| [mouse(1, None, Some(BatteryStatus::level_only(level)))];
    trends.record_at(&at(50), 0);
    assert_eq!(trends.classify(&at(50)[0]), None);
    trends.record_at(&at(52), 10_000 * MS);
    assert_eq!(trends.classify(&at(52)[0]), Some(PowerClass::Charging));
    trends.record_at(&at(51), 10_001 * MS);
    assert_eq!(trends.classify(&at(51)[0]), None);
    trends.record_at(&at(49), 12_000 * MS);
    assert_eq!(trends.classify(&at(49)[0]), Some(PowerClass::Discharging));
    trends.record_at(&[], 13_000 * MS);
    assert_eq!(trends.classify(&at(49)[0]), None);
}

#[test]
fn the_connection_decides_where_nothing_else_does() {
    let config = PollMonitorConfig {
        assume_wired_is_charging: true,
        assume_wireless_is_discharging: true,
        ..power_config()
    };
    let trends = BatteryTrendTracker::from_config(&config);
    let mut device = mouse(1, None, None);
    assert_eq!(
        classify_power(&device, &config, &trends),
        PowerClass::Discharging
    );
    device.connection = ConnectionKind::Wired;
    assert_eq!(
        classify_power(&device, &config, &trends),
        PowerClass::Charging
    );
    assert_eq!(
        classify_power(&device, &power_config(), &trends),
        PowerClass::Unknown
    );
}

#[test]
fn a_dry_run_never_orders_a_write() {
    let mut watch = Watch::new(PollMonitorConfig::default(), true, false);
    let game = rule(PollingRate::Hz1000, None);
    for (now, active) in [(0, None), (1_000, Some(&game)), (2_000, None)] {
        let WatchAction::FirstDevice { write, .. } = watch.begin(now * MS, active) else {
            panic!("each of these wishes is new");
        };
        assert!(!write);
        watch.first_device_done(now * MS, Ok(()));
    }
    let mut wet = Watch::new(PollMonitorConfig::default(), false, false);
    assert!(matches!(
        wet.begin(0, None),
        WatchAction::FirstDevice { write: true, .. }
    ));

    let wish = DeviceTarget {
        target: PollingRate::Hz4000,
        reason: "active",
    };
    let live = mouse(1, Some(PollingRate::Hz1000), None);
    let mut dry = Watch::new(power_config(), true, false);
    assert!(!dry.decide(&live, &wish).write);
    let mut wet = Watch::new(power_config(), false, false);
    assert!(wet.decide(&live, &wish).write);
    assert_eq!(
        wet.record(&live, &wish, Ok((Some(PollingRate::Hz1000), None)), 3),
        Some(
            "Test Mouse 1234:0001: 1000 Hz -> unknown (active, battery unknown, 3 ms, queued)"
                .to_string()
        )
    );
    assert!(wet.pending_rate_changes.has_pending());
}

#[test]
fn pauses_are_never_shorter_than_a_quarter_of_a_second() {
    let config = PollMonitorConfig {
        scan_interval_ms: 1,
        pending_retry_interval_ms: 2,
        ..PollMonitorConfig::default()
    };
    let mut watch = Watch::new(config, false, false);
    assert_eq!(watch.pause(), Some(250 * MS));
    watch.begin(0, None);
    assert_eq!(watch.pause(), Some(250 * MS));
}

/// One look at the given devices, where each write ends with the given rate.
fn look(
    watch: &mut Watch,
    now: u128,
    game: &ActiveRule,
    mut devices: Vec<DeviceSnapshot>,
    after: Option<PollingRate>,
) -> usize {
    assert!(matches!(
        watch.begin(now, Some(game)),
        WatchAction::AllDevices
    ));
    let desired = watch.last_desired.as_ref().unwrap().duplicate();
    let plan = watch.plan(&mut devices, now, Some(game), &desired);
    let mut writes = 0;
    for (device, wish) in devices.iter().zip(&plan.targets) {
        if watch.decide(device, wish).write {
            writes += 1;
            watch.record(device, wish, Ok((device.current_rate, after)), 1);
        }
    }
    watch.all_devices_done(now);
    writes
}

#[test]
fn waiting_changes_stay_until_they_are_met_or_out_of_sight() {
    let game = rule(PollingRate::Hz4000, None);
    let battery = || state(50, ChargeState::Discharging);
    let asleep = || vec![mouse(1, None, battery())];
    let slow = || vec![mouse(1, Some(PollingRate::Hz1000), battery())];
    let fast = || vec![mouse(1, Some(PollingRate::Hz4000), battery())];
    let waits = |watch: &Watch| watch.pending_rate_changes.has_pending();
    let mut watch = Watch::new(power_config(), false, false);

    assert_eq!(look(&mut watch, 0, &game, asleep(), None), 0);
    assert!(waits(&watch));
    assert!(matches!(
        watch.begin(999 * MS, Some(&game)),
        WatchAction::Rest
    ));
    assert!(waits(&watch));
    let unmet = Some(PollingRate::Hz1000);
    assert_eq!(look(&mut watch, 1_000 * MS, &game, slow(), unmet), 1);
    assert!(waits(&watch));
    let met = Some(PollingRate::Hz4000);
    assert_eq!(look(&mut watch, 2_000 * MS, &game, slow(), met), 1);
    assert!(!waits(&watch));

    assert_eq!(look(&mut watch, 60_000 * MS, &game, slow(), None), 1);
    assert!(waits(&watch));
    assert_eq!(look(&mut watch, 61_000 * MS, &game, fast(), None), 0);
    assert!(!waits(&watch));

    assert_eq!(look(&mut watch, 120_000 * MS, &game, slow(), None), 1);
    assert!(waits(&watch));
    assert_eq!(look(&mut watch, 121_000 * MS, &game, vec![], None), 0);
    assert!(!waits(&watch));
}

#[test]
fn nothing_waits_in_a_dry_run() {
    let game = rule(PollingRate::Hz4000, None);
    let battery = || state(50, ChargeState::Discharging);
    let mut watch = Watch::new(power_config(), true, false);
    let devices = vec![
        mouse(1, None, battery()),
        mouse(2, Some(PollingRate::Hz1000), battery()),
    ];
    assert_eq!(look(&mut watch, 0, &game, devices, None), 0);
    assert!(!watch.pending_rate_changes.has_pending());
}
