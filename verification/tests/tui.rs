use orpheus::devices::{BatteryStatus, ChargeState, ConnectionKind, PollingRate, ProtocolKind};
use orpheus::hid_device::{DeviceSnapshot, HidAccessCandidate};
use orpheus::tui::{
    DpiPrompt, PendingTuiRateChange, TuiApp, FOCUSED_REFRESH_INTERVAL_MS, PENDING_RETRY_INTERVAL_MS,
    UNAVAILABLE_REFRESH_INTERVAL_MS, UNFOCUSED_REFRESH_INTERVAL_MS,
};
use orpheus::tui_text::{linux_hidraw_udev_rules, power_detail, power_summary};


#[test]
fn compact_power_summary_marks_charging_only() {
    let mut device = test_device(Some(BatteryStatus::with_raw_state(
        75,
        ChargeState::Discharging,
        0,
    )));
    assert_eq!(power_summary(&device), "75%");

    device.battery = Some(BatteryStatus::with_raw_state(80, ChargeState::Charging, 1));
    assert_eq!(power_summary(&device), "80% ⚡");
}

#[test]
fn power_detail_keeps_state_text() {
    let device = test_device(Some(BatteryStatus::level_only(100)));
    assert_eq!(power_detail(&device), "100% (state unknown)");
}

#[test]
fn refresh_interval_tracks_focus_and_pending_rate() {
    let mut app = TuiApp::new(0);
    assert_eq!(app.refresh_interval(), FOCUSED_REFRESH_INTERVAL_MS);

    let mut unavailable = test_device(None);
    unavailable.read_error =
        Some("timed out waiting for report8 command 8 after 5 attempts".to_string());
    app.devices.push(unavailable);
    assert_eq!(app.refresh_interval(), UNAVAILABLE_REFRESH_INTERVAL_MS);

    app.devices.clear();
    app.set_focused(false);
    assert_eq!(app.refresh_interval(), UNFOCUSED_REFRESH_INTERVAL_MS);

    app.pending_rate = Some(PendingTuiRateChange {
        vid: 0x1234,
        pid: 0x5678,
        connection: ConnectionKind::Wireless,
        target: PollingRate::Hz4000,
    });

    assert_eq!(app.refresh_interval(), PENDING_RETRY_INTERVAL_MS);
}

#[test]
fn dpi_prompt_replaces_current_value_on_first_digit() {
    let mut app = TuiApp::new(0);
    app.dpi_prompt = Some(DpiPrompt {
        current: 800,
        input: "800".to_string(),
        error: None,
        replace_on_input: true,
    });

    app.push_dpi_digit('3');
    app.push_dpi_digit('2');
    app.push_dpi_digit('0');
    app.push_dpi_digit('0');

    assert_eq!(app.dpi_prompt.as_ref().unwrap().input, "3200");
}

#[test]
fn linux_hidraw_rules_are_narrow_and_deduplicated() {
    let candidates = vec![
        HidAccessCandidate {
            path: "/dev/hidraw1".to_string(),
            vid: 0x3554,
            pid: 0xF514,
            vendor_name: "Compx",
            model_name: "PIAO11",
        },
        HidAccessCandidate {
            path: "/dev/hidraw2".to_string(),
            vid: 0x3554,
            pid: 0xF514,
            vendor_name: "Compx",
            model_name: "PIAO11",
        },
    ];

    let rules = linux_hidraw_udev_rules(&candidates);
    assert_eq!(
        rules
            .lines()
            .filter(|line| line.contains("3554") && line.contains("f514"))
            .count(),
        1
    );
    assert!(rules.contains("SUBSYSTEM==\"hidraw\""));
    assert!(rules.contains("TAG+=\"uaccess\""));
}

fn test_device(battery: Option<BatteryStatus>) -> DeviceSnapshot {
    DeviceSnapshot {
        path: "test".to_string(),
        vid: 0x1234,
        pid: 0x5678,
        product_name: None,
        vendor_name: "Test",
        model_name: "Mouse",
        connection: ConnectionKind::Wireless,
        protocol: ProtocolKind::IpiPixV1 { report_id: 3 },
        supported_rates: vec![PollingRate::Hz1000],
        current_rate: Some(PollingRate::Hz1000),
        battery,
        cached_rate: false,
        cached_battery: false,
        battery_error: None,
        read_error: None,
    }
}
