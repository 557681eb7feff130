use std::cell::Cell;

use orpheus::cli::{diagnostic_lines, probe_line};
use orpheus::devices::{
    find_model, logitech_models, BatteryStatus, ChargeState, ConnectionKind, PollingRate, ProtocolKind,
};
use orpheus::error::DeviceError;
use orpheus::hid_device::{
    access_candidates, battery_outcome, control_outcome, first_unprobed, is_control_interface,
    is_hid_permission_error, merge_snapshot, open_failure, probe_live, rate_outcome,
    select_interfaces, snapshot_of, timed_probe, AttemptFailure, DeviceDiagnostic, DeviceProbe,
    DeviceSnapshot, DeviceSnapshotCache, DeviceSnapshotKey, Diagnosis, HidInterface, InterfaceProbe,
    OpenSearch, ProbeOutcome, ProtocolDiagnostic, SearchTarget,
};
use orpheus::protocols::ProtocolDevice;
use orpheus::table::Table;
use orpheus::transport::{ScriptedTransport, SentRequest};

const OLD: ProtocolKind = ProtocolKind::Feature64 {
    new_protocol: false,
    wired_device_id: 2,
};
const NEW: ProtocolKind = ProtocolKind::Feature64 {
    new_protocol: true,
    wired_device_id: 2,
};

fn interface(path: &str, vid: u16, pid: u16) -> HidInterface {
    HidInterface {
        path: path.to_string(),
        vid,
        pid,
        manufacturer: None,
        product: Some("Receiver".to_string()),
        serial: None,
        release_number: 0x0102,
        usage_page: 1,
        usage: 2,
        interface_number: 0,
        bus_type: "Usb".to_string(),
    }
}

/// A control interface of a report8 mouse.
fn control(path: &str) -> HidInterface {
    HidInterface {
        usage_page: 0xFF02,
        usage: 2,
        interface_number: 2,
        ..interface(path, 0x33E4, 0x3619)
    }
}

#[test]
fn interfaces_are_chosen_once_for_each_path() {
    let interfaces = vec![
        interface("a", 0x1234, 0x5678),
        interface("b", 0x33E4, 0x3517),
        interface("c", 0x33E4, 0x3619),
        interface("b", 0x33E4, 0x3517),
        control("d"),
    ];
    let places = |target: SearchTarget| -> Vec<usize> {
        select_interfaces(&interfaces, &target)
            .iter()
            .map(|selected| selected.index)
            .collect()
    };
    assert_eq!(places(SearchTarget::Any), vec![1, 4]);
    assert_eq!(
        places(SearchTarget::Ids {
            vid: 0x33E4,
            pid: 0x3619
        }),
        vec![4]
    );
    assert_eq!(
        places(SearchTarget::Path {
            path: "b".to_string()
        }),
        vec![1, 3]
    );
    let selected = &select_interfaces(&interfaces, &SearchTarget::Any)[0];
    assert_eq!(selected.model.name, "Fenrir");
    assert_eq!(selected.connection, ConnectionKind::Receiver);
    assert!(!is_control_interface(&interfaces[2], ProtocolKind::Eeprom16));
    assert!(is_control_interface(&interfaces[4], ProtocolKind::Eeprom16));
    assert!(is_control_interface(&interfaces[2], OLD));
}

#[test]
fn the_first_interface_without_a_probe_is_found() {
    let interfaces = vec![
        interface("a", 0x1234, 0x5678),
        interface("c", 0x33E4, 0x3619),
        control("d"),
    ];
    assert_eq!(first_unprobed(&interfaces, None).unwrap().index, 2);
    assert_eq!(first_unprobed(&interfaces, Some(0)).unwrap().index, 1);
    assert_eq!(
        first_unprobed(&interfaces, Some(-1)).unwrap_err().text(),
        "no supported HID interface -1 found"
    );
    assert_eq!(
        first_unprobed(&Vec::new(), None).unwrap_err().text(),
        "no supported HID interface found"
    );
    let failure = open_failure(0x33E4, 0x000A, "busy".to_string());
    assert_eq!(failure.text(), "failed to open 33e4:000a");
    assert_eq!(failure.full_text(), "failed to open 33e4:000a: busy");
}

fn no_answer(error: &str) -> AttemptFailure {
    AttemptFailure::NoAnswer {
        error: error.to_string(),
    }
}

fn not_opened(error: &str) -> AttemptFailure {
    AttemptFailure::NotOpened {
        error: error.to_string(),
    }
}

#[test]
fn a_search_tries_each_protocol_of_each_interface() {
    let interfaces = vec![interface("b", 0x33E4, 0x3517), control("d")];
    let mut search = OpenSearch::new(SearchTarget::Any, &interfaces);
    let mut tried = Vec::new();
    while let Some(attempt) = search.current() {
        tried.push((attempt.selected.index, attempt.protocol));
        assert!(search.failed(not_opened("busy")).is_none());
    }
    assert_eq!(
        tried,
        vec![(0, OLD), (0, NEW), (1, ProtocolKind::Eeprom16)]
    );
    assert_eq!(
        search.exhausted().text(),
        "no supported polling-rate device found"
    );
}

#[test]
fn a_search_for_a_device_says_why_it_ended() {
    let interfaces = vec![interface("b", 0x33E4, 0x3517)];
    let ids = SearchTarget::Ids {
        vid: 0x33E4,
        pid: 0x3517,
    };
    let mut search = OpenSearch::new(ids.clone(), &interfaces);
    assert!(search.failed(no_answer("first")).is_none());
    assert!(search.failed(no_answer("second")).is_none());
    assert!(search.current().is_none());
    assert_eq!(
        search.exhausted().text(),
        "found 33e4:3517, but no interface answered: feature64 new: second"
    );
    let mut closed = OpenSearch::new(ids.clone(), &interfaces);
    assert_eq!(
        closed.failed(not_opened("busy")).unwrap().full_text(),
        "failed to open 33e4:3517: busy"
    );
    assert_eq!(
        OpenSearch::new(ids, &Vec::new()).exhausted().text(),
        "no supported device found for 33e4:3517"
    );

    let path = SearchTarget::Path {
        path: "b".to_string(),
    };
    let mut at_path = OpenSearch::new(path.clone(), &interfaces);
    assert!(at_path.failed(no_answer("late")).is_none());
    assert_eq!(
        at_path.exhausted().text(),
        "found b, but its control interface did not answer: feature64 old: late"
    );
    assert_eq!(
        at_path.failed(not_opened("busy")).unwrap().full_text(),
        "failed to open b: busy"
    );
    assert_eq!(
        OpenSearch::new(path, &Vec::new()).exhausted().text(),
        "no supported control interface found at b"
    );
}

#[test]
fn denied_devices_are_candidates_once() {
    for error in [
        "Permission denied",
        "ACCESS DENIED",
        "operation not permitted (1)",
        "hid: OS error 13",
    ] {
        assert!(is_hid_permission_error(error));
    }
    assert!(!is_hid_permission_error("os error 2"));
    let denied = Some("Permission denied".to_string());
    let interfaces = vec![
        interface("/dev/hidraw0", 0x33E4, 0x3517),
        interface("/dev/hidraw0", 0x33E4, 0x3517),
        interface("/dev/hidraw1", 0x33E4, 0x3517),
        interface("/dev/other", 0x33E4, 0x3517),
        interface("/dev/hidraw2", 0x1234, 0x5678),
        interface("/dev/hidraw3", 0x372E, 0x1014),
    ];
    let errors = vec![
        denied.clone(),
        denied.clone(),
        Some("gone".to_string()),
        denied.clone(),
        denied.clone(),
        denied,
    ];
    let candidates = access_candidates(&interfaces, &errors);
    let paths: Vec<&str> = candidates.iter().map(|c| c.path.as_str()).collect();
    assert_eq!(paths, vec!["/dev/hidraw0", "/dev/hidraw3"]);
    assert_eq!(candidates[0].vendor_name, "G-Wolves");
    assert_eq!(candidates[0].model_name, "Fenrir");
    assert_eq!((candidates[1].vid, candidates[1].pid), (0x372E, 0x1014));
}

fn report(len: usize, bytes: &[(usize, u8)]) -> Vec<u8> {
    let mut report = vec![0; len];
    for (index, byte) in bytes {
        report[*index] = *byte;
    }
    report
}

#[test]
fn one_answer_of_two_is_enough_for_a_probe() {
    let (model, connection) = find_model(0x33E4, 0x3517).unwrap();
    let mut probe = InterfaceProbe::new(model, connection);
    assert_eq!(probe.current(), Some(OLD));
    let both = ScriptedTransport::new(
        vec![
            report(64, &[(5, 2)]),
            report(64, &[(0, 0xA1), (1, 2), (2, 143), (4, 1), (5, 60)]),
        ],
        vec![],
    );
    let found = probe.opened(both).0.unwrap();
    assert_eq!(found.protocol, OLD);
    assert_eq!(found.current_rate, Some(PollingRate::Hz500));
    assert_eq!(
        found.battery,
        Some(BatteryStatus::with_raw_state(60, ChargeState::Charging, 1))
    );
    assert_eq!((found.read_error, found.battery_error), (None, None));

    let mut live = ProtocolDevice::new(
        ScriptedTransport::new(vec![report(64, &[(5, 2)])], vec![]),
        model,
        connection,
        OLD,
    );
    let rate_only = probe_live(&mut live).unwrap();
    assert_eq!(rate_only.current_rate, Some(PollingRate::Hz500));
    assert_eq!(
        rate_only.battery_error,
        Some("no scripted feature response".to_string())
    );

    let mut battery_only = ProtocolDevice::new(
        ScriptedTransport::new(
            vec![
                vec![],
                report(64, &[(0, 0xA1), (1, 2), (2, 143), (4, 0), (5, 9)]),
            ],
            vec![],
        ),
        model,
        connection,
        OLD,
    );
    let found = probe_live(&mut battery_only).unwrap();
    assert_eq!(found.current_rate, None);
    assert_eq!(
        found.read_error,
        Some("short feature response while reading polling rate".to_string())
    );
}

/// Whether a request is a question to an old or new G-Wolves mouse, or a wait.
fn is_question(request: &SentRequest) -> bool {
    match request {
        SentRequest::SendFeature { payload, .. } => {
            payload[..3] == [0, 2, 130]
                || payload[..3] == [0, 2, 143]
                || payload[3..6] == [2, 1, 128]
                || payload[3..6] == [2, 0, 131]
        }
        SentRequest::WriteOutput { .. } => false,
        _ => true,
    }
}

#[test]
fn probes_give_the_transport_back_and_only_ask() {
    let (model, connection) = find_model(0x33E4, 0x3517).unwrap();
    let mut probe = InterfaceProbe::new(model, connection);
    for _ in 0..2 {
        let answers = vec![report(64, &[(5, 2)]), report(64, &[])];
        let (_, transport) = probe.opened(ScriptedTransport::new(answers, vec![]));
        assert_eq!(transport.log.len(), 6);
        assert!(transport.log.iter().all(is_question));
    }
    assert_eq!(probe.current(), None);
}

/// A clock that shows each of the given times once.
fn ticking(times: &[u128]) -> impl Fn() -> u128 + '_ {
    let place = Cell::new(0);
    move || {
        place.set(place.get() + 1);
        times[place.get() - 1]
    }
}

#[test]
fn diagnoses_hold_one_record_for_each_protocol() {
    const MS: u128 = 1_000_000;
    let (model, connection) = find_model(0x33E4, 0x3517).unwrap();
    let mut diagnosis = Diagnosis::new(model, connection);
    assert_eq!(diagnosis.current(), Some(OLD));
    diagnosis.not_opened("busy".to_string(), 4);
    assert_eq!(diagnosis.current(), Some(NEW));
    let answers = vec![report(64, &[(8, 4)]), report(64, &[(8, 8)])];
    let times = [
        10 * MS,
        12 * MS + 999_999,
        13 * MS,
        16 * MS,
        17 * MS,
        18 * MS,
        30 * MS,
    ];
    let transport = diagnosis.opened(
        ScriptedTransport::new(answers, vec![]),
        3 * MS,
        ticking(&times),
    );
    assert_eq!(transport.log.len(), 9);
    assert!(transport.log.iter().all(is_question));
    assert_eq!(diagnosis.current(), None);

    let result = diagnosis.finish(&interface("b", 0x33E4, 0x3517));
    assert_eq!(result.path, "b");
    assert_eq!(result.model_name, "Fenrir");
    assert_eq!(result.protocols.len(), 2);
    let closed = &result.protocols[0];
    assert_eq!(closed.protocol, OLD);
    assert_eq!(closed.open.error_message(), Some("busy"));
    assert_eq!(closed.open.elapsed_ms(), Some(4));
    for step in [&closed.control_probe, &closed.rate_read, &closed.battery_read] {
        assert_eq!(step.reason(), Some("open failed"));
    }
    let open = &result.protocols[1];
    assert_eq!(open.protocol, NEW);
    assert_eq!(open.open.detail(), Some("opened"));
    assert_eq!(open.open.elapsed_ms(), Some(27));
    assert_eq!(
        open.control_probe.detail(),
        Some("control interface answered")
    );
    assert_eq!(open.control_probe.elapsed_ms(), Some(2));
    assert_eq!(open.rate_read.status(), "ok");
    assert_eq!(open.rate_read.elapsed_ms(), Some(3));
    assert_eq!(
        open.battery_read.error_message(),
        Some("no scripted feature response")
    );
    assert_eq!(open.battery_read.elapsed_ms(), Some(1));
}

#[test]
fn diagnoses_leave_out_what_a_protocol_cannot_tell() {
    let model = &logitech_models()[0];
    let mut diagnosis = Diagnosis::new(model, ConnectionKind::Wired);
    while diagnosis.current().is_some() {
        let transport =
            diagnosis.opened(ScriptedTransport::new(vec![], vec![]), 0, ticking(&[0; 7]));
        assert!(transport.log.iter().all(|request| match request {
            SentRequest::WriteOutput { payload, .. } => payload[0] == 1,
            _ => true,
        }));
    }
    let result = diagnosis.finish(&interface("l", 1, 2));
    let record = &result.protocols[0];
    assert_eq!(record.protocol, ProtocolKind::LogitechHidpp);
    assert_eq!(record.control_probe.status(), "error");
    assert_eq!(
        record.rate_read.reason(),
        Some("protocol does not support current-rate read")
    );
    assert_eq!(
        record.battery_read.error_message(),
        Some("battery feature not found on this logitech hid++ device")
    );
}

#[test]
fn a_probe_without_answers_collects_the_errors() {
    let (model, connection) = find_model(0x33E4, 0x3517).unwrap();
    let mut probe = InterfaceProbe::new(model, connection);
    probe.not_opened("busy");
    assert_eq!(probe.current(), Some(NEW));
    assert!(probe
        .opened(ScriptedTransport::new(vec![], vec![]))
        .0
        .is_none());
    assert_eq!(probe.current(), None);
    let nothing = probe.exhausted();
    assert_eq!(nothing.protocol, OLD);
    assert_eq!(
        nothing.read_error.unwrap(),
        "feature64 old: busy; feature64 new: no scripted feature response; battery: no scripted feature response"
    );
    let mut logitech = ProtocolDevice::new(
        ScriptedTransport::new(vec![], vec![]),
        model,
        connection,
        ProtocolKind::LogitechHidpp,
    );
    assert_eq!(
        probe_live(&mut logitech).err().unwrap().text(),
        "logitech hid++: battery feature not found on this logitech hid++ device"
    );
}

#[test]
fn probe_outcomes_tell_what_they_hold() {
    let passed = timed_probe(Ok("fine".to_string()), 7);
    assert_eq!(passed.status(), "ok");
    assert_eq!(passed.detail(), Some("fine"));
    assert_eq!(passed.elapsed_ms(), Some(7));
    assert_eq!((passed.reason(), passed.error_message()), (None, None));
    let failed = timed_probe(
        Err(DeviceError::with_cause("no".to_string(), "why".to_string())),
        8,
    );
    assert_eq!(failed.status(), "error");
    assert_eq!(failed.error_message(), Some("no: why"));
    assert_eq!(failed.elapsed_ms(), Some(8));
    let skipped = rate_outcome(None, 9);
    assert_eq!(skipped.status(), "skipped");
    assert_eq!(
        skipped.reason(),
        Some("protocol does not support current-rate read")
    );
    assert_eq!((skipped.detail(), skipped.elapsed_ms()), (None, None));
    assert_eq!(
        control_outcome(Ok(()), 1).detail(),
        Some("control interface answered")
    );
    assert_eq!(
        rate_outcome(Some(Ok(PollingRate::Hz2000)), 1).detail(),
        Some("2000 Hz")
    );
    assert_eq!(
        battery_outcome(Some(Ok(BatteryStatus::level_only(3))), 1).detail(),
        Some("3%")
    );
    assert_eq!(
        battery_outcome(None, 1).reason(),
        Some("protocol does not support battery telemetry")
    );
    assert_eq!(
        probe_line("rate", &passed),
        "    rate: ok (fine, 7 ms)"
    );
    assert_eq!(
        probe_line("open", &failed),
        "    open: error (no: why, 8 ms)"
    );
    assert_eq!(
        probe_line("rate", &ProbeOutcome::skipped("no need")),
        "    rate: skipped (no need)"
    );
}

#[test]
fn diagnoses_are_printed_line_by_line() {
    let (model, connection) = find_model(0x33E4, 0x3619).unwrap();
    let diagnostic = DeviceDiagnostic::new(
        &control("d"),
        model,
        connection,
        vec![ProtocolDiagnostic::not_opened(
            ProtocolKind::Eeprom16,
            "busy".to_string(),
            4,
        )],
    );
    assert_eq!(
        diagnostic_lines(&diagnostic),
        vec![
            "33e4:3619 iface 2 usage 0xff02:0x0002 G-Wolves Fenrir Pro wired",
            "  path: d",
            "  product: Receiver",
            "  release: 0x0102 bus: Usb supported: 125, 250, 500, 1000, 2000, 4000, 8000",
            "  protocol report8 eeprom",
            "    open: error (busy, 4 ms)",
            "    control: skipped (open failed)",
            "    rate: skipped (open failed)",
            "    battery: skipped (open failed)",
        ]
    );
}

fn snapshot(rate: Option<PollingRate>, battery: Option<u8>) -> DeviceSnapshot {
    let (model, connection) = find_model(0x33E4, 0x3517).unwrap();
    snapshot_of(
        &interface("b", 0x33E4, 0x3517),
        model,
        connection,
        DeviceProbe {
            protocol: NEW,
            current_rate: rate,
            battery: battery.map(BatteryStatus::level_only),
            battery_error: None,
            read_error: None,
        },
    )
}

#[test]
fn snapshots_hold_what_the_probe_found() {
    let device = snapshot(Some(PollingRate::Hz500), Some(40));
    assert_eq!(device.path, "b");
    assert_eq!(device.product_name, Some("Receiver".to_string()));
    assert_eq!(device.vendor_name, "G-Wolves");
    assert_eq!(device.model_name, "Fenrir");
    assert_eq!(device.connection, ConnectionKind::Receiver);
    assert_eq!(device.protocol, NEW);
    assert_eq!(device.battery_text(), "40%");
    assert!(!device.cached_rate && !device.cached_battery);
    let mut unknown = snapshot(None, None);
    assert_eq!(unknown.battery_text(), "unknown");
    unknown.battery_error = Some("asleep".to_string());
    assert_eq!(unknown.battery_text(), "battery read error");
    let mut cached = snapshot(None, Some(3));
    cached.cached_battery = true;
    assert_eq!(cached.battery_text(), "3% (cached)");
}

#[test]
fn merged_snapshots_keep_one_for_each_device() {
    let mut devices = Vec::new();
    merge_snapshot(&mut devices, snapshot(None, None));
    let mut other = snapshot(None, Some(7));
    other.pid = 0x3617;
    merge_snapshot(&mut devices, other);
    merge_snapshot(&mut devices, snapshot(Some(PollingRate::Hz125), None));
    assert_eq!(devices.len(), 2);
    assert_eq!(devices[0].current_rate, Some(PollingRate::Hz125));
    merge_snapshot(&mut devices, snapshot(Some(PollingRate::Hz250), Some(5)));
    assert_eq!(devices.len(), 2);
    assert_eq!(devices[0].current_rate, Some(PollingRate::Hz125));
    assert_eq!(devices[0].battery, Some(BatteryStatus::level_only(5)));
    let mut failed = snapshot(None, None);
    failed.pid = 0x3617;
    failed.read_error = Some("asleep".to_string());
    merge_snapshot(&mut devices, failed);
    assert_eq!(devices[1].read_error, Some("asleep".to_string()));
}

#[test]
fn the_memory_forgets_devices_that_are_gone() {
    let mut cache = DeviceSnapshotCache::default();
    cache.apply(&mut [snapshot(Some(PollingRate::Hz500), None)]);
    cache.apply(&mut []);
    let mut back = [snapshot(None, None)];
    cache.apply(&mut back);
    assert_eq!(back[0].current_rate, None);
    assert!(!back[0].cached_rate);
}

#[test]
fn tables_hold_one_value_for_each_key() {
    let key = |pid: u16| DeviceSnapshotKey {
        vid: 1,
        pid,
        connection: ConnectionKind::Wired,
    };
    let mut table: Table<DeviceSnapshotKey, u8> = Table::new();
    assert!(table.is_empty());
    table.insert(key(1), 10);
    table.insert(key(2), 20);
    table.insert(key(1), 11);
    assert_eq!(table.entries.len(), 2);
    assert_eq!(table.get(&key(1)), Some(&11));
    assert_eq!(table.get(&key(3)), None);
    table.retain_keys(&vec![key(2), key(3)]);
    assert_eq!(table.get(&key(1)), None);
    assert_eq!(table.remove(&key(2)), Some(20));
    assert_eq!(table.remove(&key(2)), None);
    assert!(table.is_empty());
}

#[test]
fn missing_values_come_from_the_last_live_ones() {
    let mut cache = DeviceSnapshotCache::default();
    let live = |rate, battery| [snapshot(rate, battery)];
    cache.apply(&mut live(Some(PollingRate::Hz125), Some(10)));
    cache.apply(&mut live(Some(PollingRate::Hz250), None));
    cache.apply(&mut live(None, Some(30)));
    let mut marked = live(Some(PollingRate::Hz8000), None);
    marked[0].cached_rate = true;
    cache.apply(&mut marked);
    assert_eq!(marked[0].current_rate, Some(PollingRate::Hz8000));
    let mut silent = live(None, None);
    cache.apply(&mut silent);
    assert_eq!(silent[0].current_rate, Some(PollingRate::Hz250));
    assert_eq!(silent[0].battery, Some(BatteryStatus::level_only(30)));
    assert!(silent[0].cached_rate && silent[0].cached_battery);
    let mut twice = [
        snapshot(Some(PollingRate::Hz500), None),
        snapshot(None, None),
    ];
    cache.apply(&mut twice);
    assert_eq!(twice[1].current_rate, Some(PollingRate::Hz500));
    assert!(twice[1].cached_rate && !twice[0].cached_rate);
}
