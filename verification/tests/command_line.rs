use orpheus::cli::{
    dpi_set_line, exchange_lines, format_bytes, list_lines, optional_hex, parse_byte, rate_set_line,
    rates_hz, report8_payload, watching_line,
};
use orpheus::devices::{BatteryStatus, ConnectionKind, PollingRate, ProtocolKind, RATES_1K};
use orpheus::hid_device::DeviceSnapshot;

#[test]
fn bytes_are_read_in_both_bases() {
    assert_eq!(parse_byte("7"), Ok(7));
    assert_eq!(parse_byte(" 255 "), Ok(255));
    assert_eq!(parse_byte("0x1f"), Ok(31));
    assert_eq!(parse_byte("0XFF"), Ok(255));
    assert_eq!(parse_byte("+12"), Ok(12));
    assert_eq!(parse_byte("007"), Ok(7));
}

#[test]
fn texts_that_are_no_bytes_are_quoted() {
    let error = |raw: &str| parse_byte(raw).unwrap_err().text();
    assert_eq!(error("zz"), "invalid byte \"zz\": invalid digit found in string");
    assert_eq!(error(""), "invalid byte \"\": cannot parse integer from empty string");
    assert_eq!(error("0x"), "invalid byte \"0x\": cannot parse integer from empty string");
    assert_eq!(error("256"), "invalid byte \"256\": number too large to fit in target type");
    assert_eq!(error("0x100"), "invalid byte \"0x100\": number too large to fit in target type");
    assert_eq!(error("-1"), "invalid byte \"-1\": invalid digit found in string");
    assert_eq!(
        error("a\"\n"),
        "invalid byte \"a\\\"\\n\": invalid digit found in string"
    );
}

#[test]
fn payloads_are_filled_up_and_checked() {
    let texts = |raw: &[&str]| raw.iter().map(|s| s.to_string()).collect::<Vec<String>>();
    let mut expected = [0u8; 16];
    expected[0] = 8;
    expected[1] = 0x10;
    assert_eq!(report8_payload(&texts(&["8", "0x10"]), false), Ok(expected));
    expected[15] = 85 - 8 - 16 - 8;
    assert_eq!(report8_payload(&texts(&["8", "0x10"]), true), Ok(expected));
    assert_eq!(
        report8_payload(&texts(&["1"; 17]), true).unwrap_err().text(),
        "report8 payload accepts at most 16 byte(s), got 17"
    );
    assert_eq!(
        report8_payload(&texts(&["1", "x", "y"]), true).unwrap_err().text(),
        "invalid byte \"x\": invalid digit found in string"
    );
}

#[test]
fn numbers_are_printed() {
    assert_eq!(format_bytes(&[0, 0x0A, 0xFF]), "00 0a ff");
    assert_eq!(format_bytes(&[]), "");
    assert_eq!(rates_hz(&RATES_1K), vec![125, 250, 500, 1000]);
    assert_eq!(optional_hex(Some(0xFF02)), "0xff02");
    assert_eq!(optional_hex(None), "unknown");
}

#[test]
fn devices_are_listed() {
    let device = DeviceSnapshot {
        path: "p".to_string(),
        vid: 0x33E4,
        pid: 0x0517,
        product_name: None,
        vendor_name: "G-Wolves",
        model_name: "Fenrir",
        connection: ConnectionKind::Receiver,
        protocol: ProtocolKind::Eeprom16,
        supported_rates: vec![PollingRate::Hz125, PollingRate::Hz1000],
        current_rate: Some(PollingRate::Hz1000),
        battery: Some(BatteryStatus::level_only(80)),
        cached_rate: false,
        cached_battery: false,
        battery_error: Some("late".to_string()),
        read_error: None,
    };
    assert_eq!(
        list_lines(&device),
        vec![
            "33e4:0517 G-Wolves  Fenrir             receiver current: 1000 Hz  battery: 80%                      supported: 125, 1000",
            "  battery error: late",
        ]
    );
    let unknown = DeviceSnapshot {
        current_rate: None,
        battery: None,
        battery_error: None,
        read_error: Some("asleep".to_string()),
        ..device
    };
    assert_eq!(
        list_lines(&unknown),
        vec![
            "33e4:0517 G-Wolves  Fenrir             receiver current: unknown  battery: unknown                  supported: 125, 1000",
            "  read error: asleep",
        ]
    );
}

#[test]
fn changes_are_printed() {
    assert_eq!(
        rate_set_line(
            "Fenrir",
            ConnectionKind::Wired,
            None,
            Some(PollingRate::Hz500),
            PollingRate::Hz1000,
        ),
        "Fenrir wired: unknown -> 500 Hz"
    );
    assert_eq!(
        rate_set_line(
            "Fenrir",
            ConnectionKind::Wired,
            Some(PollingRate::Hz125),
            None,
            PollingRate::Hz1000,
        ),
        "Fenrir wired: 125 Hz -> 1000 Hz"
    );
    assert_eq!(
        dpi_set_line("Piao", ConnectionKind::Wireless, Some(800), None, 1600),
        "Piao wireless DPI: 800 -> 1600"
    );
    assert_eq!(
        dpi_set_line("Piao", ConnectionKind::Wireless, None, Some(400), 1600),
        "Piao wireless DPI: unknown -> 400"
    );
    assert_eq!(
        exchange_lines("Fenrir", ConnectionKind::Wired, &[8, 0], &Vec::new()),
        vec!["Fenrir wired report8 tx: 08 00", "no report8 response"]
    );
    assert_eq!(
        exchange_lines(
            "Fenrir",
            ConnectionKind::Wired,
            &[8],
            &vec![vec![1, 2], vec![]],
        ),
        vec![
            "Fenrir wired report8 tx: 08",
            "report8 rx: 01 02",
            "report8 rx: ",
        ]
    );
    assert_eq!(
        watching_line(2, "orpheus.toml", 100),
        "watching 2 rule(s) from orpheus.toml every 250 ms"
    );
    assert_eq!(
        watching_line(0, "x", 1_000),
        "watching 0 rule(s) from x every 1000 ms"
    );
}
