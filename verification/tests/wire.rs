use orpheus::devices::{
    build_eeprom16_dpi_entry, build_eeprom16_get_rate, build_eeprom16_read, build_eeprom16_write,
    build_ipi_pix_v1_get_rate, build_ipi_pix_v1_set_rate, eeprom16_block_checksum,
    eeprom16_raw_to_dpi, BatteryStatus, ChargeState, ConnectionKind, ModelInfo, PollingRate,
    ProtocolKind, RATES_1K, RATES_8K,
};
use orpheus::error::DeviceError;
use orpheus::hid_device::{frame_report, PollingDevice};
use orpheus::protocols::{
    decode_eeprom16_dpi_entry, logitech_charge_state_from_status, normalize_feature_payload,
    normalize_ipi_pix_v1_payload, normalize_report_payload, report8_crc, write_report8_crc,
    IpiDpiConfig, IpiDpiFormat, ProtocolDevice,
};
use orpheus::transport::{ScriptedTransport, SentRequest};
use orpheus::watch::switch_rate;
use orpheus::tui::{set_and_read, set_and_read_dpi};

static MODEL: ModelInfo = ModelInfo {
    vendor_name: "Test",
    name: "Mouse",
    vid: 0x1111,
    wired_pid: Some(0x2222),
    wireless_pid: None,
    receiver_pid: None,
    receiver_idvd_pid: None,
    protocol: ProtocolKind::Eeprom16,
    wired_rates: &RATES_8K,
    wireless_rates: &RATES_8K,
    receiver_rates: &RATES_1K,
};

const OLD: ProtocolKind = ProtocolKind::Feature64 {
    new_protocol: false,
    wired_device_id: 0,
};
const NEW: ProtocolKind = ProtocolKind::Feature64 {
    new_protocol: true,
    wired_device_id: 2,
};
const IPI: ProtocolKind = ProtocolKind::IpiPixV1 { report_id: 3 };
const RAZER: ProtocolKind = ProtocolKind::RazerV1 {
    tx_id: 0x1F,
    polling_reversed: false,
};

fn device(
    protocol: ProtocolKind,
    connection: ConnectionKind,
    feature_reads: Vec<Vec<u8>>,
    input_reads: Vec<Vec<u8>>,
) -> ProtocolDevice<ScriptedTransport> {
    ProtocolDevice::new(
        ScriptedTransport::new(feature_reads, input_reads),
        &MODEL,
        connection,
        protocol,
    )
}

/// A report of the given length with some of its bytes set.
fn report(len: usize, bytes: &[(usize, u8)]) -> Vec<u8> {
    let mut report = vec![0; len];
    for (index, byte) in bytes {
        report[*index] = *byte;
    }
    report
}

/// An IPI answer: a checksum byte, then the payload.
fn ipi_answer(bytes: &[(usize, u8)]) -> Vec<u8> {
    let mut answer = vec![0];
    answer.extend(report(62, bytes));
    answer
}

fn sleeps(transport: &ScriptedTransport) -> Vec<u64> {
    transport
        .log
        .iter()
        .filter_map(|request| match request {
            SentRequest::Sleep { milliseconds } => Some(*milliseconds),
            _ => None,
        })
        .collect()
}

fn sent(transport: &ScriptedTransport) -> Vec<(u8, Vec<u8>)> {
    transport
        .log
        .iter()
        .filter_map(|request| match request {
            SentRequest::SendFeature { report_id, payload }
            | SentRequest::WriteOutput { report_id, payload } => {
                Some((*report_id, payload.clone()))
            }
            _ => None,
        })
        .collect()
}

#[test]
fn feature_answers_tell_the_rate_with_and_without_their_first_byte() {
    for rate in RATES_8K {
        let code = rate.feature64_code();
        for (protocol, place) in [(NEW, 8), (OLD, 5)] {
            let full = report(64, &[(place, code)]);
            let short = report(64, &[(0, 0xA1), (place - 1, code)]);
            for answer in [full, short] {
                let mut wireless = device(protocol, ConnectionKind::Wireless, vec![answer], vec![]);
                assert_eq!(wireless.read_rate(), Ok(rate));
            }
        }
    }
}

#[test]
fn an_old_wired_mouse_says_1000_for_4000() {
    let answer = report(64, &[(5, 64)]);
    let mut wired = device(OLD, ConnectionKind::Wired, vec![answer.clone()], vec![]);
    assert_eq!(wired.read_rate(), Ok(PollingRate::Hz1000));
    let mut receiver = device(OLD, ConnectionKind::Receiver, vec![answer.clone()], vec![]);
    assert_eq!(receiver.read_rate(), Ok(PollingRate::Hz4000));
    let mut new = device(NEW, ConnectionKind::Wired, vec![report(64, &[(8, 64)])], vec![]);
    assert_eq!(new.read_rate(), Ok(PollingRate::Hz4000));
}

#[test]
fn feature_answers_that_tell_no_rate_are_errors() {
    let mut short = device(NEW, ConnectionKind::Wired, vec![vec![0; 8]], vec![]);
    assert_eq!(
        short.read_rate().unwrap_err().text(),
        "short feature response while reading polling rate"
    );
    let mut unknown = device(
        NEW,
        ConnectionKind::Wired,
        vec![report(64, &[(8, 77)])],
        vec![],
    );
    assert_eq!(
        unknown.read_rate().unwrap_err().text(),
        "device returned unknown polling-rate code 77"
    );
    let mut silent = device(NEW, ConnectionKind::Wired, vec![], vec![]);
    assert_eq!(
        silent.read_rate().unwrap_err().text(),
        "no scripted feature response"
    );
    assert_eq!(sleeps(&silent.transport), vec![20]);
}

#[test]
fn feature_batteries_are_read_in_both_forms() {
    let known = BatteryStatus::with_raw_state(64, ChargeState::Full, 2);
    for (protocol, answer) in [
        (NEW, report(64, &[(1, 0xA1), (4, 2), (6, 131), (7, 2), (8, 64)])),
        (NEW, report(64, &[(0, 0xA1), (3, 2), (5, 131), (6, 2), (7, 64)])),
        (OLD, report(64, &[(1, 0xA1), (2, 2), (3, 143), (5, 2), (6, 64)])),
        (OLD, report(64, &[(0, 0xA1), (1, 2), (2, 143), (4, 2), (5, 64)])),
    ] {
        let mut mouse = device(protocol, ConnectionKind::Receiver, vec![answer], vec![]);
        assert_eq!(mouse.read_battery(), Ok(known));
    }
    let mut new = device(NEW, ConnectionKind::Wired, vec![vec![0; 64]], vec![]);
    assert_eq!(
        new.read_battery().unwrap_err().text(),
        "device returned an unrecognized battery response"
    );
    assert_eq!(sleeps(&new.transport), vec![100]);
    let mut level = device(
        OLD,
        ConnectionKind::Wired,
        vec![vec![0xA1, 2, 143, 0, 1]],
        vec![],
    );
    assert_eq!(
        level.read_battery().unwrap_err().text(),
        "short feature response while reading battery level"
    );
    let mut state = device(
        OLD,
        ConnectionKind::Wired,
        vec![vec![0xA1, 2, 143, 0]],
        vec![],
    );
    assert_eq!(
        state.read_battery().unwrap_err().text(),
        "short feature response while reading battery state"
    );
    assert_eq!(sleeps(&state.transport), vec![50]);
}

#[test]
fn setting_a_feature_rate_does_not_need_an_answer() {
    let mut mouse = device(OLD, ConnectionKind::Wireless, vec![], vec![]);
    assert!(mouse.set_rate(PollingRate::Hz250).is_ok());
    assert_eq!(
        sent(&mouse.transport),
        vec![(0, report(64, &[(1, 2), (2, 2), (3, 1), (4, 4)]))]
    );
}

#[test]
fn rates_that_a_model_does_not_offer_send_nothing() {
    for protocol in [OLD, NEW, ProtocolKind::Eeprom16, IPI, ProtocolKind::LogitechHidpp, RAZER] {
        let mut mouse = device(protocol, ConnectionKind::Receiver, vec![], vec![]);
        assert_eq!(
            mouse.set_rate(PollingRate::Hz8000).unwrap_err().text(),
            "Mouse does not list 8000 Hz for receiver mode"
        );
        assert!(mouse.transport.log.is_empty());
    }
}

#[test]
fn report8_mice_are_flushed_and_asked_five_times() {
    let stale = report(16, &[(0, 9)]);
    let mut mouse = device(
        ProtocolKind::Eeprom16,
        ConnectionKind::Wired,
        vec![],
        vec![stale.clone(), stale],
    );
    assert_eq!(
        mouse.read_rate().unwrap_err().text(),
        "timed out waiting for report8 command 8 after 5 attempts"
    );
    let mut asked = build_eeprom16_get_rate();
    write_report8_crc(&mut asked);
    assert_eq!(sent(&mouse.transport), vec![(8, asked.to_vec()); 5]);
    let flushes = mouse
        .transport
        .log
        .iter()
        .filter(|request| matches!(request, SentRequest::ReadInput { timeout_ms: 1, .. }))
        .count();
    assert_eq!(flushes, 3);
}

#[test]
fn report8_answers_that_tell_no_rate_are_errors() {
    let mut short = device(
        ProtocolKind::Eeprom16,
        ConnectionKind::Wired,
        vec![],
        vec![vec![], vec![8, 0, 0, 0, 2]],
    );
    assert_eq!(
        short.read_rate().unwrap_err().text(),
        "short report8 response while reading polling rate"
    );
    let mut unknown = device(
        ProtocolKind::Eeprom16,
        ConnectionKind::Wired,
        vec![],
        vec![vec![], report(16, &[(0, 8), (5, 3)])],
    );
    assert_eq!(
        unknown.read_rate().unwrap_err().text(),
        "device returned unknown polling-rate code 3"
    );
}

#[test]
fn report8_levels_are_at_most_100() {
    let mut mouse = device(
        ProtocolKind::Eeprom16,
        ConnectionKind::Wired,
        vec![],
        vec![vec![], report(16, &[(0, 4), (5, 200), (6, 3)])],
    );
    assert_eq!(
        mouse.read_battery(),
        Ok(BatteryStatus::with_raw_state(100, ChargeState::Raw(3), 3))
    );
    let mut short = device(
        ProtocolKind::Eeprom16,
        ConnectionKind::Wired,
        vec![],
        vec![vec![], vec![4, 0, 0, 0, 0, 50]],
    );
    assert_eq!(
        short.read_battery().unwrap_err().text(),
        "short report8 response while reading charging state"
    );
}

/// The answers to a read of the head and of a table of one or two levels, each
/// after a flush that brings nothing.
fn dpi_answers(count: u8, active: u8, table: &[u8]) -> Vec<Vec<u8>> {
    let mut head = vec![8, 0, 0, 0, 6, 0, 0, count, 0, active, 0];
    head.resize(16, 0);
    let mut rest = vec![8, 0, 0, 12, table.len() as u8];
    rest.extend_from_slice(table);
    rest.resize(16, 0);
    vec![vec![], head, vec![], rest]
}

#[test]
fn bad_resolution_tables_are_errors() {
    let cases: Vec<(Vec<Vec<u8>>, &str)> = vec![
        (
            dpi_answers(0, 0, &[]),
            "device returned zero report8 DPI levels",
        ),
        (
            dpi_answers(2, 2, &[]),
            "device active report8 DPI level 2 is outside 2 configured level(s)",
        ),
        (
            dpi_answers(1, 0, &[7, 7, 0, 0]),
            "report8 DPI entry checksum mismatch: expected 0x47, got 0x00",
        ),
        (
            dpi_answers(1, 0, &[7, 8, 0, 70]),
            "report8 DPI entry has different X/Y raw values: 7 != 8",
        ),
        (
            dpi_answers(1, 0, &[7, 7, 1, 70]),
            "unsupported report8 DPI high-byte encoding 0x01",
        ),
        (
            vec![vec![], vec![8, 0, 0, 1, 6, 0, 0, 1, 0, 0, 0]],
            "report8 eeprom response did not match offset 0 length 6",
        ),
        (
            vec![vec![], vec![8, 0, 0, 0, 6, 0, 0]],
            "short report8 eeprom response at offset 0: 7 byte(s)",
        ),
    ];
    for (answers, expected) in cases {
        let mut mouse = device(
            ProtocolKind::Eeprom16,
            ConnectionKind::Wired,
            vec![],
            answers,
        );
        assert_eq!(mouse.read_dpi().unwrap_err().text(), expected);
    }
    let mut good = device(
        ProtocolKind::Eeprom16,
        ConnectionKind::Wired,
        vec![],
        dpi_answers(1, 0, &[7, 7, 0, 71]),
    );
    assert_eq!(good.read_dpi(), Ok(400));
}

#[test]
fn resolutions_that_no_entry_holds_are_not_written() {
    for dpi in [0, 49, 75, 12_850] {
        let mut mouse = device(
            ProtocolKind::Eeprom16,
            ConnectionKind::Wired,
            vec![],
            dpi_answers(1, 0, &[7, 7, 0, 71]),
        );
        assert!(mouse.set_dpi(dpi).is_err());
        assert_eq!(sent(&mouse.transport).len(), 2);
    }
}

#[test]
fn a_resolution_that_does_not_read_back_is_an_error() {
    let mut answers = dpi_answers(1, 0, &[7, 7, 0, 71]);
    answers.extend(vec![vec![]; 6]);
    answers.extend(dpi_answers(1, 0, &[7, 7, 0, 71]));
    let mut mouse = device(
        ProtocolKind::Eeprom16,
        ConnectionKind::Wired,
        vec![],
        answers,
    );
    assert_eq!(
        mouse.set_dpi(800).unwrap_err().text(),
        "timed out waiting for report8 command 7 after 5 attempts; active DPI readback is 400, expected 800"
    );
}

#[test]
fn table_entries_read_back() {
    for raw in 0..=255u8 {
        let dpi = eeprom16_raw_to_dpi(raw);
        let entry = build_eeprom16_dpi_entry(dpi).unwrap();
        assert_eq!(entry, [raw, raw, 0, eeprom16_block_checksum(&[raw, raw, 0])]);
        assert_eq!(decode_eeprom16_dpi_entry(&entry), Ok(dpi));
    }
    assert_eq!(
        decode_eeprom16_dpi_entry(&[1, 1, 0]).unwrap_err().text(),
        "report8 DPI entries must be 4 byte(s), got 3"
    );
}

#[test]
fn report8_transfers_are_bounded() {
    assert_eq!(
        build_eeprom16_read(12, 10).unwrap(),
        [8, 0, 0, 12, 10, 0, 0, 0, 0, 0, 0, 0, 0, 0, 0, 0]
    );
    assert!(build_eeprom16_read(0, 11).is_err());
    assert_eq!(
        build_eeprom16_write(16, &[1, 2, 3]).unwrap(),
        [7, 0, 0, 16, 3, 1, 2, 3, 0, 0, 0, 0, 0, 0, 0, 0]
    );
    assert!(build_eeprom16_write(0, &[0; 11]).is_err());
}

#[test]
fn report8_payloads_sum_up() {
    let mut payload = [200u8; 16];
    write_report8_crc(&mut payload);
    let sum = payload.iter().fold(8u8, |sum, byte| sum.wrapping_add(*byte));
    assert_eq!(sum, 85);
    assert_eq!(report8_crc(&[0; 16]), 85);
}

#[test]
fn ipi_mice_are_asked_and_told() {
    let answer = ipi_answer(&[(3, 10), (6, 4)]);
    let mut mouse = device(IPI, ConnectionKind::Wired, vec![answer], vec![]);
    let rate = mouse.read_rate().unwrap();
    assert_eq!(
        sent(&mouse.transport),
        vec![(3, build_ipi_pix_v1_get_rate().to_vec())]
    );
    assert_eq!(sleeps(&mouse.transport), vec![50]);

    let order = build_ipi_pix_v1_set_rate(ConnectionKind::Wired, rate);
    let mut told = device(IPI, ConnectionKind::Wired, vec![], vec![]);
    assert!(told.set_rate(rate).is_ok());
    assert_eq!(sent(&told.transport), vec![(3, order.to_vec())]);
    assert_eq!(
        order[0],
        order[1..]
            .iter()
            .fold(0u8, |sum, byte| sum.wrapping_add(*byte))
    );
}

#[test]
fn ipi_answers_to_other_questions_are_passed_over() {
    let other = ipi_answer(&[(3, 99)]);
    let mut battery = device(
        IPI,
        ConnectionKind::Wireless,
        vec![other.clone(), ipi_answer(&[(3, 2), (5, 77)])],
        vec![],
    );
    assert_eq!(battery.read_battery(), Ok(BatteryStatus::level_only(77)));
    assert_eq!(sleeps(&battery.transport), vec![100, 50]);

    let mut late = device(IPI, ConnectionKind::Wireless, vec![other; 4], vec![]);
    assert_eq!(
        late.read_rate().unwrap_err().text(),
        "timed out waiting for ipi pix v1 command 10"
    );
    assert_eq!(sleeps(&late.transport), vec![50; 5]);

    let mut unknown = device(
        IPI,
        ConnectionKind::Wireless,
        vec![ipi_answer(&[(3, 10), (6, 0xFF)])],
        vec![],
    );
    assert_eq!(
        unknown.read_rate().unwrap_err().text(),
        "device returned unknown ipi pix v1 polling-rate byte 255"
    );
}

#[test]
fn ipi_resolution_pages_are_put_together() {
    let mut page_requests = [[0u8; 63]; 6];
    for (page, request) in page_requests.iter_mut().enumerate() {
        request[3] = 20 + page as u8;
    }
    let mut answers = vec![ipi_answer(&[(3, 10), (7, 2)])];
    for page in 0..6usize {
        let mut answer = ipi_answer(&[(3, 20 + page as u8)]);
        let start = if page == 0 { 6 } else { 5 };
        for place in start..15 {
            answer[1 + place] = (10 * page + place) as u8;
        }
        answers.push(answer);
    }
    let format = IpiDpiFormat {
        page_requests,
        levels: 2,
        color_bytes: 6,
    };
    let mut mouse = device(IPI, ConnectionKind::Wired, answers, vec![]);
    let config = mouse.read_ipi_pix_v1_dpi_config(&format).unwrap();
    assert_eq!(config.profile, 2);
    assert_eq!(config.raw_levels, vec![6 + 256 * 7, 8 + 256 * 9]);
    assert_eq!(config.colors, vec![[22, 23, 24], [25, 26, 27]]);

    let mut order = [0u8; 63];
    order[3] = 30;
    let mut told = device(
        IPI,
        ConnectionKind::Wired,
        vec![ipi_answer(&[(3, 30)])],
        vec![],
    );
    assert!(told.send_ipi_pix_v1_dpi(&order).is_ok());
    let mut silent = device(IPI, ConnectionKind::Wired, vec![], vec![]);
    assert_eq!(
        silent.send_ipi_pix_v1_dpi(&order).unwrap_err().text(),
        "timed out waiting for ipi pix v1 DPI write response"
    );
    assert_eq!(sleeps(&silent.transport), vec![20, 20, 20]);
}

#[test]
fn rates_and_resolutions_that_cannot_be_read_send_nothing() {
    let mut logitech = device(ProtocolKind::LogitechHidpp, ConnectionKind::Wired, vec![], vec![]);
    assert_eq!(
        logitech.read_rate().unwrap_err().text(),
        "current polling-rate read is not implemented for logitech hid++ protocol"
    );
    let mut razer = device(RAZER, ConnectionKind::Wired, vec![], vec![]);
    assert_eq!(
        razer.read_rate().unwrap_err().text(),
        "current polling-rate read is not implemented for razer v1 protocol"
    );
    assert_eq!(
        razer.read_dpi().unwrap_err().text(),
        "DPI read is not implemented for razer v1 protocol"
    );
    assert_eq!(
        razer.set_dpi(800).unwrap_err().text(),
        "DPI writes are not implemented for razer v1 protocol"
    );
    assert!(logitech.transport.log.is_empty());
    assert!(razer.transport.log.is_empty());
}

#[test]
fn hidpp_mice_without_features_fall_back() {
    let mut mouse = device(ProtocolKind::LogitechHidpp, ConnectionKind::Wired, vec![], vec![]);
    assert!(mouse.set_rate(PollingRate::Hz500).is_ok());
    assert_eq!(
        sent(&mouse.transport),
        vec![
            (0x10, vec![1, 0, 0x0D, 0x80, 0x60, 0]),
            (0x10, vec![0xFF, 0x0A, 0x2E, 2, 0, 0]),
        ]
    );
    let reads = mouse
        .transport
        .log
        .iter()
        .filter(|request| matches!(request, SentRequest::ReadInput { .. }))
        .count();
    assert_eq!(reads, 40);

    let mut silent = device(ProtocolKind::LogitechHidpp, ConnectionKind::Wired, vec![], vec![]);
    assert_eq!(
        silent.probe_control().unwrap_err().text(),
        "logitech hid++ control feature did not answer"
    );
    assert_eq!(
        silent.read_battery().unwrap_err().text(),
        "battery feature not found on this logitech hid++ device"
    );
    assert_eq!(
        silent.set_rate(PollingRate::Hz2000).unwrap_err().text(),
        "unsupported logitech hid++ polling rate 2000 Hz"
    );
}

#[test]
fn hidpp_batteries_time_out() {
    let found = vec![0x11, 1, 0, 0x0D, 6, 0];
    let mut mouse = device(
        ProtocolKind::LogitechHidpp,
        ConnectionKind::Wired,
        vec![],
        vec![found],
    );
    assert_eq!(
        mouse.read_battery().unwrap_err().text(),
        "battery query timed out; device may be asleep or out of range"
    );
    assert_eq!(sleeps(&mouse.transport), vec![500]);
}

#[test]
fn razer_answers_are_told_apart() {
    for (status, expected) in [
        (3, "razer v1 command returned failure"),
        (9, "razer v1 command returned unknown status 9"),
    ] {
        let mut mouse = device(
            RAZER,
            ConnectionKind::Wired,
            vec![report(90, &[(0, status)])],
            vec![],
        );
        assert_eq!(mouse.probe_control().unwrap_err().text(), expected);
    }
    let mut busy = device(
        RAZER,
        ConnectionKind::Wired,
        vec![report(90, &[(0, 1)]); 10],
        vec![],
    );
    assert_eq!(
        busy.probe_control().unwrap_err().text(),
        "timed out waiting for razer v1 command response"
    );
    assert_eq!(
        sleeps(&busy.transport),
        vec![20, 30, 40, 50, 60, 70, 80, 90, 100, 110]
    );
    let mut answered = device(
        RAZER,
        ConnectionKind::Wired,
        vec![vec![], vec![2; 90], vec![2; 9]],
        vec![],
    );
    assert_eq!(
        answered.read_battery().unwrap_err().text(),
        "short razer v1 charging-state response"
    );
}

#[test]
fn razer_levels_are_rounded_percentages() {
    for (raw, percent) in [(0, 0), (1, 0), (2, 1), (127, 50), (128, 50), (254, 100), (255, 100)] {
        let mut mouse = device(
            RAZER,
            ConnectionKind::Wired,
            vec![
                report(90, &[(0, 2), (9, raw)]),
                report(90, &[(0, 2), (9, 1)]),
            ],
            vec![],
        );
        assert_eq!(
            mouse.read_battery(),
            Ok(BatteryStatus::with_raw_state(percent, ChargeState::Charging, 1))
        );
    }
}

#[test]
fn logitech_states_are_told_apart() {
    assert_eq!(logitech_charge_state_from_status(0), ChargeState::Discharging);
    assert!(matches!(logitech_charge_state_from_status(200), ChargeState::Raw(200)));
}

#[test]
fn rates_are_switched_only_where_needed() {
    let at = |rate: PollingRate| report(64, &[(8, rate.feature64_code())]);
    let mut there = device(
        NEW,
        ConnectionKind::Wired,
        vec![at(PollingRate::Hz500), at(PollingRate::Hz500)],
        vec![],
    );
    assert_eq!(
        switch_rate(&mut there, PollingRate::Hz500, None, false),
        Ok((Some(PollingRate::Hz500), Some(PollingRate::Hz500)))
    );
    assert_eq!(sent(&there.transport).len(), 2);
    assert_eq!(sleeps(&there.transport), vec![20, 20]);

    let mut switched = device(
        NEW,
        ConnectionKind::Wired,
        vec![at(PollingRate::Hz500), vec![], at(PollingRate::Hz1000)],
        vec![],
    );
    assert_eq!(
        switch_rate(&mut switched, PollingRate::Hz1000, None, false),
        Ok((Some(PollingRate::Hz500), Some(PollingRate::Hz1000)))
    );
    assert_eq!(sleeps(&switched.transport), vec![20, 20, 80, 20]);

    let mut known = device(NEW, ConnectionKind::Wired, vec![], vec![]);
    assert_eq!(
        switch_rate(&mut known, PollingRate::Hz1000, Some(PollingRate::Hz125), false),
        Ok((Some(PollingRate::Hz125), None))
    );
    let mut refused = device(NEW, ConnectionKind::Receiver, vec![], vec![]);
    assert!(switch_rate(&mut refused, PollingRate::Hz4000, None, true).is_err());
}

#[test]
fn values_are_set_and_read_back() {
    let mut rate = device(
        NEW,
        ConnectionKind::Wired,
        vec![vec![], report(64, &[(8, 2)])],
        vec![],
    );
    assert_eq!(
        set_and_read(&mut rate, PollingRate::Hz500),
        Ok(PollingRate::Hz500)
    );
    assert_eq!(sleeps(&rate.transport), vec![20, 80, 20]);

    let mut answers = dpi_answers(1, 0, &[7, 7, 0, 71]);
    answers.extend([vec![], report(16, &[(0, 7)])]);
    answers.extend(dpi_answers(1, 0, &[15, 15, 0, 55]));
    let mut dpi = device(
        ProtocolKind::Eeprom16,
        ConnectionKind::Wired,
        vec![],
        answers,
    );
    assert_eq!(set_and_read_dpi(&mut dpi, 800, 50), Ok(800));
    assert_eq!(sleeps(&dpi.transport), vec![50]);
}

#[test]
fn raw_report8_packets_are_exchanged() {
    let mut live = PollingDevice::new(
        ScriptedTransport::new(vec![], vec![vec![], vec![1], vec![], vec![2, 3]]),
        &MODEL,
        ConnectionKind::Wired,
        ProtocolKind::Eeprom16,
    );
    assert_eq!(
        live.report8_exchange([0; 16], true, 70, 4),
        Ok(vec![vec![1], vec![2, 3]])
    );
    let mut payload = [0; 16];
    write_report8_crc(&mut payload);
    assert_eq!(
        sent(&live.device.transport),
        vec![(8, payload.to_vec())]
    );
    assert_eq!(live.device.transport.log.len(), 6);
    assert!(live.supports_dpi() && live.supports_rate_read() && live.supports_battery_read());
    assert_eq!(live.model().name, "Mouse");
    assert_eq!(live.connection(), ConnectionKind::Wired);
    assert_eq!(live.protocol(), ProtocolKind::Eeprom16);
}

#[test]
fn reports_are_framed_and_stripped() {
    assert_eq!(frame_report(8, &[1, 2]), vec![8, 1, 2]);
    assert_eq!(normalize_feature_payload(&[9, 1, 2], 8, 2), vec![9, 1, 2]);
    assert_eq!(normalize_report_payload(&[9, 1, 2], 8, 2), vec![9, 1]);
    assert_eq!(normalize_report_payload(&[8, 1, 2], 8, 2), vec![1, 2]);
    assert_eq!(normalize_report_payload(&[8], 8, 2), vec![8]);
    assert_eq!(normalize_ipi_pix_v1_payload(&[]), Vec::<u8>::new());
}

#[test]
fn ipi_resolutions_are_read_and_set_in_the_layout_of_the_model() {
    let mut page_requests = [[0u8; 63]; 6];
    for request in page_requests.iter_mut() {
        request[3] = 20;
    }
    let format = IpiDpiFormat {
        page_requests,
        levels: 3,
        color_bytes: 3,
    };
    let mut answers = vec![ipi_answer(&[(3, 10), (7, 1)])];
    answers.push(ipi_answer(&[(3, 20), (6, 7), (8, 15), (10, 31)]));
    answers.extend(vec![ipi_answer(&[(3, 20)]); 5]);
    let current = |config: &IpiDpiConfig| {
        let raw = config.raw_levels[usize::from(config.profile)];
        Ok((raw + 1) * 50)
    };
    let mut mouse = device(IPI, ConnectionKind::Wired, answers.clone(), vec![]);
    assert_eq!(mouse.read_ipi_pix_v1_dpi(&format, current), Ok(800));

    let order = |config: &IpiDpiConfig, dpi: u16| {
        if dpi % 50 != 0 {
            return Err(DeviceError::new("odd".to_string()));
        }
        let mut order = [0u8; 63];
        order[3] = 40;
        order[4] = config.profile;
        order[5] = (dpi / 50 - 1) as u8;
        Ok(order)
    };
    let mut refused = device(IPI, ConnectionKind::Wired, answers.clone(), vec![]);
    assert_eq!(
        refused.set_ipi_pix_v1_dpi(&format, 49, order).unwrap_err().text(),
        "odd"
    );
    assert_eq!(sent(&refused.transport).len(), 7);
    answers.push(ipi_answer(&[(3, 40)]));
    let mut told = device(IPI, ConnectionKind::Wired, answers, vec![]);
    assert!(told.set_ipi_pix_v1_dpi(&format, 1600, order).is_ok());
    let last = sent(&told.transport).pop().unwrap();
    assert_eq!(last.0, 3);
    assert_eq!(last.1[3..6], [40, 1, 31]);
    let mut silent = device(IPI, ConnectionKind::Wired, vec![], vec![]);
    assert!(silent.read_ipi_pix_v1_dpi(&format, current).is_err());
}
