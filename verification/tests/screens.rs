use orpheus::devices::{BatteryStatus, ChargeState, ConnectionKind, PollingRate, ProtocolKind};
use orpheus::error::DeviceError;
use orpheus::gui;
use orpheus::gui::{
    detail_view, refresh_text, sidebar_entry, status_badge, GuiState, PendingWorkerRate, Tone,
    WorkerCommand, WorkerState,
};
use orpheus::hid_device::{DeviceSnapshot, DeviceSnapshotKey, HidAccessCandidate};
use orpheus::tui::{offered_rate, wrap_index, Command, Key, RateOrder, TuiApp};
use orpheus::tui_text::{
    access_lines, centered_rect, current_rate_detail, current_rate_summary, device_row,
    device_status, power_detail, power_summary, rate_panel, refresh_line, row_tone, Area, RowTone,
};

const MS: u128 = 1_000_000;

fn mouse(pid: u16, rate: Option<PollingRate>) -> DeviceSnapshot {
    DeviceSnapshot {
        path: format!("path{pid}"),
        vid: 0x1234,
        pid,
        product_name: None,
        vendor_name: "Test",
        model_name: "Mouse",
        connection: ConnectionKind::Wireless,
        protocol: ProtocolKind::Eeprom16,
        supported_rates: vec![
            PollingRate::Hz500,
            PollingRate::Hz1000,
            PollingRate::Hz4000,
        ],
        current_rate: rate,
        battery: None,
        cached_rate: false,
        cached_battery: false,
        battery_error: None,
        read_error: None,
    }
}

fn error(message: &str) -> DeviceError {
    DeviceError::new(message.to_string())
}

#[test]
fn keys_mean_what_the_prompt_says() {
    let mut app = TuiApp::new(0);
    assert_eq!(app.command(Key::Char('q')), Command::Quit);
    assert_eq!(app.command(Key::Esc), Command::Quit);
    assert_eq!(app.command(Key::Char('j')), Command::MoveDevice(1));
    assert_eq!(app.command(Key::Up), Command::MoveDevice(-1));
    assert_eq!(app.command(Key::Left), Command::MoveRate(-1));
    assert_eq!(app.command(Key::Char('l')), Command::MoveRate(1));
    assert_eq!(app.command(Key::Char(' ')), Command::SyncTarget);
    assert_eq!(app.command(Key::Enter), Command::ApplyRate);
    assert_eq!(app.command(Key::Char('d')), Command::OpenDpi);
    assert_eq!(app.command(Key::Char('7')), Command::Nothing);

    app.on_scan(Ok(vec![mouse(1, None)]));
    app.on_dpi_read(Ok(800), 0);
    assert_eq!(app.command(Key::Char('7')), Command::PushDpiDigit('7'));
    assert_eq!(app.command(Key::Char('q')), Command::Nothing);
    assert_eq!(app.command(Key::Esc), Command::DismissDpi);
    assert_eq!(app.command(Key::Delete), Command::ClearDpiInput);

    app.refresh_access_prompt(vec![HidAccessCandidate {
        path: "/dev/hidraw0".to_string(),
        vid: 1,
        pid: 2,
        vendor_name: "Test",
        model_name: "Mouse",
    }]);
    assert_eq!(app.status, "1 supported hidraw path(s) need access");
    assert_eq!(app.command(Key::Char('y')), Command::EnableAccess);
    assert_eq!(app.command(Key::Esc), Command::DismissAccess);
    assert_eq!(app.command(Key::Char('q')), Command::Quit);
    app.dismiss_access_prompt();
    assert_eq!(app.status, "hidraw access setup skipped");
    assert!(!app.wants_access_check());
}

#[test]
fn scans_keep_selection_and_target_in_place() {
    let mut app = TuiApp::new(0);
    assert_eq!(app.status, "scanning");
    app.on_scan(Ok(vec![
        mouse(1, Some(PollingRate::Hz4000)),
        mouse(2, Some(PollingRate::Hz8000)),
    ]));
    assert_eq!(app.status, "2 device(s), refreshed now");
    assert_eq!(app.target_rate, Some(PollingRate::Hz4000));
    app.move_device(1);
    assert_eq!(app.selected_device, 1);
    assert_eq!(app.target_rate, Some(PollingRate::Hz1000));
    app.move_device(1);
    assert_eq!(app.selected_device, 0);
    app.move_device(-1);
    assert_eq!(app.selected_device, 1);
    app.move_rate(1);
    assert_eq!(app.target_rate, Some(PollingRate::Hz4000));
    assert!(app.target_dirty);
    app.move_rate(1);
    assert_eq!(app.target_rate, Some(PollingRate::Hz500));
    app.on_scan(Ok(vec![mouse(1, None)]));
    assert_eq!(app.selected_device, 0);
    assert!(!app.target_dirty);
    assert_eq!(app.target_rate, Some(PollingRate::Hz4000));
    assert!(app.devices[0].cached_rate);
    app.on_scan(Err(error("no hid")));
    assert_eq!(app.status, "scan failed: no hid");
    assert!(app.devices.is_empty());
    app.on_scan(Ok(vec![]));
    assert_eq!(app.status, "no supported device found");
    assert_eq!(app.target_rate, None);
    assert!(app.selected_device().is_none());
}

#[test]
fn rates_are_ordered_only_where_needed() {
    let mut app = TuiApp::new(0);
    assert!(app.apply_rate().is_none());
    assert_eq!(app.status, "no device selected");
    app.on_scan(Ok(vec![mouse(1, Some(PollingRate::Hz1000))]));
    assert!(app.apply_rate().is_none());
    assert_eq!(app.status, "already at 1000 Hz");
    app.move_rate(1);
    let order = app.apply_rate().unwrap();
    assert_eq!(
        order,
        RateOrder {
            vid: 0x1234,
            pid: 1,
            connection: ConnectionKind::Wireless,
            rate: PollingRate::Hz4000,
        }
    );
    assert_eq!(
        app.on_rate_written(order, Ok(PollingRate::Hz4000)),
        Some("set wireless to 4000 Hz".to_string())
    );
    assert!(app.pending_rate.is_none());
    assert_eq!(
        app.on_rate_written(order, Ok(PollingRate::Hz1000)),
        Some("set queued: wireless is still 1000 Hz".to_string())
    );
    assert!(app.pending_rate.is_some());
    assert_eq!(app.refresh_interval(), 1_000);
    assert_eq!(app.on_rate_written(order, Err(error("gone"))), None);
    assert_eq!(app.status, "set queued: gone");
}

#[test]
fn waiting_rates_are_tried_when_the_mouse_is_back() {
    let mut app = TuiApp::new(0);
    app.on_scan(Ok(vec![mouse(1, None)]));
    app.move_rate(1);
    assert!(app.apply_rate().is_none());
    assert_eq!(app.status, "set queued: latest rate read is unknown");
    app.on_scan(Ok(vec![mouse(2, Some(PollingRate::Hz500))]));
    assert!(app.try_pending_rate().is_none());
    assert_eq!(app.status, "queued 4000 Hz: device not visible");
    app.on_scan(Ok(vec![mouse(1, None)]));
    assert!(app.try_pending_rate().is_none());
    assert_eq!(app.status, "queued 4000 Hz: latest rate read is unknown");
    app.on_scan(Ok(vec![mouse(1, Some(PollingRate::Hz500))]));
    let order = app.try_pending_rate().unwrap();
    app.on_pending_written(order, Err(error("gone")));
    assert_eq!(app.status, "queued 4000 Hz: gone");
    app.on_pending_written(order, Ok(PollingRate::Hz500));
    assert_eq!(app.status, "queued 4000 Hz: wireless is still 500 Hz");
    app.on_pending_written(order, Ok(PollingRate::Hz4000));
    assert_eq!(app.status, "set queued wireless target to 4000 Hz");
    assert!(app.pending_rate.is_none());
    assert!(app.try_pending_rate().is_none());
}

#[test]
fn a_waiting_rate_may_be_met_by_itself() {
    let mut app = TuiApp::new(0);
    app.on_scan(Ok(vec![mouse(1, None)]));
    assert!(app.apply_rate().is_none());
    app.on_scan(Ok(vec![mouse(1, Some(PollingRate::Hz1000))]));
    assert!(app.try_pending_rate().is_none());
    assert_eq!(app.status, "queued target 1000 Hz is now satisfied");
    assert!(app.pending_rate.is_none());
}

#[test]
fn resolutions_are_typed_and_verified() {
    let mut app = TuiApp::new(0);
    assert!(app.open_dpi_prompt().is_none());
    assert_eq!(app.status, "no device selected");
    let mut other = mouse(1, None);
    other.protocol = ProtocolKind::LogitechHidpp;
    app.on_scan(Ok(vec![other]));
    assert!(app.open_dpi_prompt().is_none());
    assert_eq!(app.status, "DPI is not supported for logitech hid++");
    app.on_scan(Ok(vec![mouse(1, None)]));
    assert_eq!(app.open_dpi_prompt(), Some("path1".to_string()));
    app.on_dpi_read(Err(error("late")), 0);
    assert_eq!(app.status, "DPI read failed: late");
    app.on_dpi_read(Ok(800), 0);
    assert_eq!(app.status, "800 DPI");
    for digit in ['1', '6', '0', '0', '0', '9'] {
        app.push_dpi_digit(digit);
    }
    assert_eq!(app.dpi_prompt.as_ref().unwrap().input, "16000");
    app.remove_dpi_digit();
    let order = app.apply_dpi().unwrap();
    assert_eq!(order.dpi, 1600);
    assert_eq!(order.path, "path1");
    app.on_dpi_written(order.model_name, order.dpi, Ok(800), 0);
    let prompt = app.dpi_prompt.as_ref().unwrap();
    assert_eq!(
        prompt.error.as_deref(),
        Some("verification failed: requested 1600, device reports 800")
    );
    app.clear_dpi_input();
    assert!(app.apply_dpi().is_none());
    let prompt = app.dpi_prompt.as_ref().unwrap();
    assert_eq!(
        prompt.error.as_deref(),
        Some("enter a positive whole-number DPI")
    );
    app.on_dpi_written("Mouse", 1600, Err(error("gone")), 0);
    assert_eq!(
        app.dpi_prompt.as_ref().unwrap().error.as_deref(),
        Some("gone")
    );
    app.on_dpi_written("Mouse", 1600, Ok(1600), 0);
    assert_eq!(app.status, "set Mouse to 1600 DPI (verified)");
    assert!(app.dpi_prompt.is_none());
    app.on_dpi_read(Ok(800), 0);
    app.dismiss_dpi_prompt();
    assert_eq!(app.status, "DPI change cancelled");
}

#[test]
fn the_terminal_is_refreshed_in_time() {
    let mut app = TuiApp::new(10_000 * MS);
    assert!(app.should_refresh(10_000 * MS));
    app.refreshed(10_000 * MS);
    assert!(!app.should_refresh(10_999 * MS));
    assert!(app.should_refresh(11_000 * MS));
    assert_eq!(
        refresh_line(&app, 10_400 * MS),
        "auto-refresh 600 ms (focused)"
    );
    app.set_focused(false);
    assert!(!app.should_refresh(14_999 * MS));
    assert_eq!(
        refresh_line(&app, 99_000 * MS),
        "auto-refresh 0 ms (unfocused)"
    );
}

#[test]
fn rows_show_what_is_known() {
    let mut device = mouse(0x00AB, Some(PollingRate::Hz1000));
    device.battery = Some(BatteryStatus::with_raw_state(70, ChargeState::Full, 2));
    assert_eq!(
        device_row(&device, 0),
        vec![
            "1 Test",
            "Mouse",
            "1234:00ab",
            "wireless",
            "report8 eeprom",
            "1000",
            "70% full",
            "500, 1000, 4000",
            "ok",
        ]
    );
    assert_eq!(row_tone(&device, true), RowTone::Selected);
    assert_eq!(row_tone(&device, false), RowTone::Plain);
    assert_eq!(power_detail(&device), "70% full");
    device.cached_rate = true;
    device.cached_battery = true;
    assert_eq!(current_rate_summary(&device), "1000*");
    assert_eq!(current_rate_detail(&device), "1000 Hz (cached)");
    assert_eq!(power_detail(&device), "70% full (cached)");
    assert_eq!(device_status(&device), "cached");
    assert_eq!(row_tone(&device, false), RowTone::Warning);

    let mut asleep = mouse(1, None);
    asleep.read_error = Some("report8 eeprom: timed out waiting for report8 command".to_string());
    assert_eq!(device_status(&asleep), "asleep");
    asleep.connection = ConnectionKind::Wired;
    assert_eq!(device_status(&asleep), "read error");
    assert_eq!(current_rate_summary(&asleep), "-");
    assert_eq!(current_rate_detail(&asleep), "unknown");
    assert_eq!(power_summary(&asleep), "-");
    asleep.battery_error = Some("late".to_string());
    assert_eq!(power_summary(&asleep), "error");
    asleep.battery = Some(BatteryStatus {
        level_percent: None,
        charge_state: ChargeState::Raw(9),
        raw_state: Some(9),
    });
    assert_eq!(power_summary(&asleep), "raw 9");
    assert_eq!(power_detail(&asleep), "level unknown raw state 9");
}

#[test]
fn the_rate_panel_shows_the_selected_mouse() {
    let mut app = TuiApp::new(0);
    assert!(rate_panel(&app).is_none());
    let mut device = mouse(1, Some(PollingRate::Hz500));
    device.read_error = Some("timed out waiting for it".to_string());
    device.battery_error = Some("late".to_string());
    app.on_scan(Ok(vec![device]));
    app.move_rate(1);
    let panel = rate_panel(&app).unwrap();
    assert_eq!(panel.current, "500 Hz");
    assert_eq!(panel.target, "1000 Hz");
    assert!(panel.target_dirty);
    let cells: Vec<(&str, bool)> = panel
        .rates
        .iter()
        .map(|cell| (cell.text.as_str(), cell.selected))
        .collect();
    assert_eq!(
        cells,
        vec![(" 500 ", false), (" 1000 ", true), (" 4000 ", false)]
    );
    let notes: Vec<(&str, &str)> = panel
        .notes
        .iter()
        .map(|note| (note.label, note.text.as_str()))
        .collect();
    assert_eq!(
        notes,
        vec![
            (
                "unavailable ",
                "mouse may be asleep; move it or press r to retry"
            ),
            ("battery error ", "late"),
        ]
    );
    app.sync_target_to_current();
    assert_eq!(app.target_rate, Some(PollingRate::Hz500));
}

#[test]
fn candidates_are_listed_up_to_four() {
    let candidate = |index: u16| HidAccessCandidate {
        path: format!("/dev/hidraw{index}"),
        vid: 0x1234,
        pid: index,
        vendor_name: "Test",
        model_name: "Mouse",
    };
    let lines = access_lines(&(0..6).map(candidate).collect());
    assert_eq!(lines.len(), 5);
    assert_eq!(lines[3], "- Test Mouse 1234:0003 /dev/hidraw3");
    assert_eq!(lines[4], "- ...and 2 more");
    assert_eq!(access_lines(&(0..4).map(candidate).collect()).len(), 4);
}

#[test]
fn windows_are_centered() {
    let area = Area {
        x: 10,
        y: 5,
        width: 100,
        height: 30,
    };
    let modal = centered_rect(62, 10, area);
    assert_eq!((modal.x, modal.y), (29, 15));
    assert_eq!((modal.width, modal.height), (62, 10));
    let low = centered_rect(
        50,
        10,
        Area {
            height: 4,
            ..area
        },
    );
    assert_eq!((low.y, low.height), (5, 4));
    let wide = centered_rect(
        78,
        1,
        Area {
            x: 0,
            y: 0,
            width: 65_535,
            height: 1,
        },
    );
    assert_eq!(wide.width, 655);
    let at_the_edge = centered_rect(
        100,
        50,
        Area {
            x: 65_535,
            y: 65_530,
            width: 100,
            height: 60,
        },
    );
    assert_eq!((at_the_edge.x, at_the_edge.y), (65_535, 65_535));
    assert_eq!((at_the_edge.width, at_the_edge.height), (100, 50));
}

#[test]
fn places_go_round() {
    assert_eq!(wrap_index(0, 3, -1), 2);
    assert_eq!(wrap_index(2, 3, 1), 0);
    assert_eq!(wrap_index(1, 3, 1), 2);
    assert_eq!(wrap_index(0, 1, 1), 0);
    assert_eq!(wrap_index(1, 4, -9), 0);
    let mut none = mouse(1, None);
    assert_eq!(offered_rate(&none), Some(PollingRate::Hz1000));
    none.supported_rates = vec![PollingRate::Hz250];
    assert_eq!(offered_rate(&none), Some(PollingRate::Hz250));
    none.supported_rates = vec![];
    assert_eq!(offered_rate(&none), None);
}

#[test]
fn the_window_keeps_targets_of_visible_mice() {
    let mut state = GuiState::new();
    assert_eq!(state.status, "Scanning for supported devices");
    assert!(detail_view(&state).is_none());
    state.on_snapshot(
        vec![mouse(1, Some(PollingRate::Hz4000)), mouse(2, None)],
        5,
    );
    assert_eq!(state.status, "2 supported device(s)");
    assert_eq!(state.selected_device().unwrap().pid, 1);
    assert_eq!(
        state.target_for(&mouse(1, None)),
        Some(PollingRate::Hz4000)
    );
    assert_eq!(
        state.target_for(&mouse(2, None)),
        Some(PollingRate::Hz1000)
    );
    let second = DeviceSnapshotKey::from_snapshot(&mouse(2, None));
    state.select(second);
    state.choose_target(second, PollingRate::Hz500);
    state.on_snapshot(vec![mouse(2, None)], 6);
    assert_eq!(state.target_for(&mouse(2, None)), Some(PollingRate::Hz500));
    assert_eq!(state.target_for(&mouse(1, None)), None);
    let order = state.ask_target().unwrap();
    assert_eq!(
        order,
        PendingWorkerRate {
            vid: 0x1234,
            pid: 2,
            rate: PollingRate::Hz500,
        }
    );
    assert_eq!(state.status, "Queued 500 Hz for 1234:0002");
    state.on_error("scan failed: x".to_string());
    assert_eq!(state.last_error, Some("scan failed: x".to_string()));
    state.on_status("fine".to_string());
    assert_eq!(state.status, "fine");
    state.on_snapshot(vec![], 7);
    assert_eq!(state.status, "No supported device visible");
    assert_eq!(state.last_error, None);
    assert!(state.selected_device().is_none());
}

#[test]
fn the_window_shows_the_selected_mouse() {
    let mut state = GuiState::new();
    let mut device = mouse(1, Some(PollingRate::Hz4000));
    device.battery = Some(BatteryStatus::with_raw_state(5, ChargeState::Raw(8), 8));
    device.cached_battery = true;
    state.on_snapshot(vec![device.duplicate()], 0);
    let entry = sidebar_entry(&state, &device);
    assert_eq!(entry.title, "Test Mouse");
    assert_eq!(entry.subtitle, "1234:0001 · wireless");
    assert!(entry.selected);
    assert_eq!((entry.badge, entry.tone), ("cached", Tone::Muted));
    let view = detail_view(&state).unwrap();
    assert_eq!(view.current, "4000 Hz");
    assert_eq!(view.battery, "5% raw 8 cached");
    assert_eq!(view.mode, "1234:0001 wireless");
    assert_eq!(view.protocol, "report8 eeprom");
    assert!(!view.can_set);
    assert_eq!(view.set_label, "Set 4000 Hz");
    assert_eq!(view.hint, Some("Already at target"));
    state.choose_target(view.key, PollingRate::Hz500);
    let view = detail_view(&state).unwrap();
    assert!(view.can_set);
    assert_eq!(view.hint, None);

    let mut broken = mouse(2, None);
    assert_eq!(status_badge(&broken), ("live", Tone::Live));
    broken.battery_error = Some("late".to_string());
    assert_eq!(status_badge(&broken), ("battery", Tone::Muted));
    broken.read_error = Some("late".to_string());
    assert_eq!(status_badge(&broken), ("error", Tone::Error));
    state.on_snapshot(vec![broken], 0);
    assert_eq!(
        detail_view(&state).unwrap().hint,
        Some("Will retry when the device answers")
    );
    assert_eq!(gui::rate_text(Some(PollingRate::Hz500), true), "500 Hz cached");
    assert_eq!(gui::rate_text(None, true), "unknown");
    assert_eq!(refresh_text(None, 9), "waiting for first scan");
    assert_eq!(refresh_text(Some(0), 999 * MS), "refreshed just now");
    assert_eq!(refresh_text(Some(0), 61_000 * MS), "refreshed 61s ago");
}

#[test]
fn the_worker_keeps_a_rate_until_it_reads_back() {
    let order = PendingWorkerRate {
        vid: 0x1234,
        pid: 0x00CD,
        rate: PollingRate::Hz2000,
    };
    let mut worker = WorkerState { pending_rate: None };
    let step = worker.on_command(WorkerCommand::Refresh);
    assert!(step.scan && !step.try_pending && !step.stop);
    let step = worker.on_command(WorkerCommand::SetRate { order });
    assert!(step.scan && step.try_pending && !step.stop);
    assert_eq!(worker.pending_rate, Some(order));
    assert_eq!(
        worker.on_written(order, Err(error("gone"))),
        "Queued 2000 Hz for 1234:00cd: gone"
    );
    assert_eq!(
        worker.on_written(order, Ok(PollingRate::Hz125)),
        "Queued 2000 Hz for 1234:00cd; device is still 125 Hz"
    );
    assert_eq!(worker.pending_rate, Some(order));
    let step = worker.on_command(WorkerCommand::Timeout);
    assert!(step.scan && step.try_pending && !step.stop);
    assert_eq!(
        worker.on_written(order, Ok(PollingRate::Hz2000)),
        "Set 1234:00cd to 2000 Hz"
    );
    assert_eq!(worker.pending_rate, None);
    assert!(worker.on_command(WorkerCommand::Shutdown).stop);
}

#[test]
fn typed_text_is_counted_in_bytes() {
    let mut app = TuiApp::new(0);
    app.on_dpi_read(Ok(800), 0);
    for character in ['é', 'é', 'é', 'é'] {
        app.push_dpi_digit(character);
    }
    assert_eq!(app.dpi_prompt.as_ref().unwrap().input, "ééé");
    app.push_dpi_digit('1');
    assert_eq!(app.dpi_prompt.as_ref().unwrap().input, "ééé");
    app.remove_dpi_digit();
    app.push_dpi_digit('1');
    app.push_dpi_digit('2');
    assert_eq!(app.dpi_prompt.as_ref().unwrap().input, "éé1");
}
