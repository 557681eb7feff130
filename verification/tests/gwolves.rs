use orpheus::gwolves::{
    build_eeprom16_set_rate, build_feature64_set_rate, find_model, ConnectionKind, PollingRate,
    ProtocolKind, GWOLVES_VENDOR_ID,
};


#[test]
fn gwolves_parses_rates() {
    assert_eq!("1000".parse::<PollingRate>().unwrap(), PollingRate::Hz1000);
    assert_eq!("8k".parse::<PollingRate>().unwrap(), PollingRate::Hz8000);
    assert!("1234".parse::<PollingRate>().is_err());
}

#[test]
fn gwolves_maps_feature64_rate_codes() {
    assert_eq!(PollingRate::Hz1000.feature64_code(), 1);
    assert_eq!(PollingRate::Hz2000.feature64_code(), 32);
    assert_eq!(PollingRate::Hz4000.feature64_code(), 64);
    assert_eq!(PollingRate::Hz8000.feature64_code(), 128);
    assert_eq!(
        PollingRate::from_feature64_code(128),
        Some(PollingRate::Hz8000)
    );
}

#[test]
fn gwolves_maps_eeprom16_rate_codes() {
    assert_eq!(PollingRate::Hz1000.eeprom16_code(), 1);
    assert_eq!(PollingRate::Hz2000.eeprom16_code(), 16);
    assert_eq!(PollingRate::Hz4000.eeprom16_code(), 32);
    assert_eq!(PollingRate::Hz8000.eeprom16_code(), 64);
    assert_eq!(
        PollingRate::from_eeprom16_code(64),
        Some(PollingRate::Hz8000)
    );
}

#[test]
fn gwolves_finds_fenrir_models() {
    let (model, connection) = find_model(GWOLVES_VENDOR_ID, 0x3854).unwrap();
    assert_eq!(model.name, "Fenrir Pro");
    assert_eq!(connection, ConnectionKind::Receiver);

    let (model, connection) = find_model(GWOLVES_VENDOR_ID, 0x3508).unwrap();
    assert_eq!(model.name, "Fenrir");
    assert_eq!(connection, ConnectionKind::Wired);
}

#[test]
fn gwolves_builds_feature64_new_rate_reports() {
    let report = build_feature64_set_rate(
        ProtocolKind::Feature64 {
            new_protocol: true,
            wired_device_id: 2,
        },
        ConnectionKind::Receiver,
        1,
        PollingRate::Hz8000,
    );
    assert_eq!(&report[2..8], &[2, 2, 1, 0, 1, 128]);
}

#[test]
fn gwolves_old_feature64_models_also_probe_new_protocol() {
    let (model, _) = find_model(GWOLVES_VENDOR_ID, 0x3517).unwrap();
    assert_eq!(
        model.protocol_candidates(),
        vec![
            ProtocolKind::Feature64 {
                new_protocol: false,
                wired_device_id: 2,
            },
            ProtocolKind::Feature64 {
                new_protocol: true,
                wired_device_id: 2,
            },
        ]
    );
}

#[test]
fn gwolves_builds_eeprom16_rate_reports() {
    let report = build_eeprom16_set_rate(PollingRate::Hz8000);
    assert_eq!(&report[0..7], &[7, 0, 0, 0, 2, 64, 21]);
}
