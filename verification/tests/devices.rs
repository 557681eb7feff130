use orpheus::devices::{
    build_eeprom16_set_rate, build_feature64_get_battery, build_feature64_set_rate,
    build_ipi_pix_v1_get_basic_info, build_ipi_pix_v1_get_rate, build_ipi_pix_v1_set_rate,
    find_model, ipi_pix_v1_rate_from_sensor_byte, ConnectionKind, PollingRate, ProtocolKind,
    GWOLVES_VENDOR_ID, IPI_VENDOR_ID, LOGITECH_VENDOR_ID, RAZER_VENDOR_ID,
};


#[test]
fn devices_parses_rates() {
    assert_eq!("1000".parse::<PollingRate>().unwrap(), PollingRate::Hz1000);
    assert_eq!("8k".parse::<PollingRate>().unwrap(), PollingRate::Hz8000);
    assert!("1234".parse::<PollingRate>().is_err());
}

#[test]
fn devices_maps_feature64_rate_codes() {
    assert_eq!(PollingRate::Hz1000.feature64_code(), 1);
    assert_eq!(PollingRate::Hz2000.feature64_code(), 32);
    assert_eq!(PollingRate::Hz4000.feature64_code(), 64);
    assert_eq!(PollingRate::Hz8000.feature64_code(), 128);
    assert_eq!(
        PollingRate::from_feature64_code(128),
        Some(PollingRate::Hz8000)
    );
}

#[test]
fn devices_maps_eeprom16_rate_codes() {
    assert_eq!(PollingRate::Hz1000.eeprom16_code(), 1);
    assert_eq!(PollingRate::Hz2000.eeprom16_code(), 16);
    assert_eq!(PollingRate::Hz4000.eeprom16_code(), 32);
    assert_eq!(PollingRate::Hz8000.eeprom16_code(), 64);
    assert_eq!(
        PollingRate::from_eeprom16_code(64),
        Some(PollingRate::Hz8000)
    );
}

#[test]
fn maps_ipi_pix_v1_rate_codes() {
    assert_eq!(PollingRate::Hz1000.ipi_pix_v1_code(), 0);
    assert_eq!(PollingRate::Hz8000.ipi_pix_v1_code(), 4);
    assert_eq!(
        PollingRate::from_ipi_pix_v1_code(6),
        Some(PollingRate::Hz2000)
    );
}

#[test]
fn maps_logitech_hidpp_rate_codes() {
    assert_eq!(PollingRate::Hz1000.logitech_hidpp_code(), Some(0x01));
    assert_eq!(PollingRate::Hz500.logitech_hidpp_code(), Some(0x02));
    assert_eq!(PollingRate::Hz250.logitech_hidpp_code(), Some(0x04));
    assert_eq!(PollingRate::Hz125.logitech_hidpp_code(), Some(0x08));
    assert_eq!(PollingRate::Hz4000.logitech_hidpp_code(), None);
}

#[test]
fn maps_razer_v1_polling_masks() {
    assert_eq!(PollingRate::Hz125.razer_v1_mask(false), 0x01);
    assert_eq!(PollingRate::Hz8000.razer_v1_mask(false), 0x40);
    assert_eq!(PollingRate::Hz125.razer_v1_mask(true), 0x40);
    assert_eq!(PollingRate::Hz8000.razer_v1_mask(true), 0x01);
    assert_eq!(PollingRate::Hz1000.razer_v1_mask(true), 0x08);
}

#[test]
fn devices_finds_fenrir_models() {
    let (model, connection) = find_model(GWOLVES_VENDOR_ID, 0x3854).unwrap();
    assert_eq!(model.name, "Fenrir Pro");
    assert_eq!(connection, ConnectionKind::Receiver);

    let (model, connection) = find_model(GWOLVES_VENDOR_ID, 0x3508).unwrap();
    assert_eq!(model.name, "Fenrir");
    assert_eq!(connection, ConnectionKind::Wired);
}

#[test]
fn finds_ipi_piao_models() {
    let (model, connection) = find_model(IPI_VENDOR_ID, 0x1014).unwrap();
    assert_eq!(model.vendor_name, "IPI");
    assert_eq!(model.name, "Piao");
    assert_eq!(connection, ConnectionKind::Wireless);
}

#[test]
fn finds_logitech_models() {
    let (model, connection) = find_model(LOGITECH_VENDOR_ID, 0xC547).unwrap();
    assert_eq!(model.name, "Lightspeed Receiver");
    assert_eq!(connection, ConnectionKind::Receiver);
    assert_eq!(model.protocol, ProtocolKind::LogitechHidpp);

    let (model, connection) = find_model(LOGITECH_VENDOR_ID, 0xC09B).unwrap();
    assert_eq!(model.name, "PRO X SUPERLIGHT 2");
    assert_eq!(connection, ConnectionKind::Wired);
}

#[test]
fn finds_razer_models() {
    let (model, connection) = find_model(RAZER_VENDOR_ID, 0x00C1).unwrap();
    assert_eq!(model.name, "Viper V3 Pro");
    assert_eq!(connection, ConnectionKind::Wireless);
    assert_eq!(
        model.protocol,
        ProtocolKind::RazerV1 {
            tx_id: 0x1F,
            polling_reversed: true
        }
    );

    let (model, connection) = find_model(RAZER_VENDOR_ID, 0x007C).unwrap();
    assert_eq!(model.name, "DeathAdder V2 Pro");
    assert_eq!(connection, ConnectionKind::Wireless);
    assert_eq!(
        model.protocol,
        ProtocolKind::RazerV1 {
            tx_id: 0x3F,
            polling_reversed: false
        }
    );
}

#[test]
fn devices_builds_feature64_new_rate_reports() {
    let report = build_feature64_set_rate(
        ProtocolKind::Feature64 {
            new_protocol: true,
            wired_device_id: 2,
        },
        ConnectionKind::Receiver,
        1,
        PollingRate::Hz8000,
    );
    assert_eq!(&report[2..8], &[2, 2, 1, 0, 1, 128]);
}

#[test]
fn builds_feature64_battery_reports() {
    let new_report = build_feature64_get_battery(
        ProtocolKind::Feature64 {
            new_protocol: true,
            wired_device_id: 2,
        },
        ConnectionKind::Receiver,
    );
    assert_eq!(&new_report[2..6], &[2, 2, 0, 131]);

    let old_report = build_feature64_get_battery(
        ProtocolKind::Feature64 {
            new_protocol: false,
            wired_device_id: 2,
        },
        ConnectionKind::Receiver,
    );
    assert_eq!(&old_report[1..4], &[2, 143, 1]);
}

#[test]
fn devices_old_feature64_models_also_probe_new_protocol() {
    let (model, _) = find_model(GWOLVES_VENDOR_ID, 0x3517).unwrap();
    assert_eq!(
        model.protocol_candidates(),
        vec![
            ProtocolKind::Feature64 {
                new_protocol: false,
                wired_device_id: 2,
            },
            ProtocolKind::Feature64 {
                new_protocol: true,
                wired_device_id: 2,
            },
        ]
    );
}

#[test]
fn devices_builds_eeprom16_rate_reports() {
    let report = build_eeprom16_set_rate(PollingRate::Hz8000);
    assert_eq!(&report[0..7], &[7, 0, 0, 0, 2, 64, 21]);
}

#[test]
fn builds_ipi_pix_v1_rate_reports() {
    let get_report = build_ipi_pix_v1_get_rate();
    assert_eq!(&get_report[0..6], &[233, 80, 0, 10, 79, 64]);

    let set_wired = build_ipi_pix_v1_set_rate(ConnectionKind::Wired, PollingRate::Hz8000);
    assert_eq!(&set_wired[0..7], &[252, 80, 1, 49, 53, 1, 68]);

    let set_wireless = build_ipi_pix_v1_set_rate(ConnectionKind::Wireless, PollingRate::Hz8000);
    assert_eq!(&set_wireless[0..7], &[188, 80, 1, 49, 53, 1, 4]);
}

#[test]
fn builds_ipi_pix_v1_basic_info_report() {
    let report = build_ipi_pix_v1_get_basic_info();
    assert_eq!(&report[0..6], &[34, 80, 0, 2, 79, 129]);
}

#[test]
fn parses_ipi_pix_v1_sensor_rate_byte() {
    assert_eq!(
        ipi_pix_v1_rate_from_sensor_byte(ConnectionKind::Wired, 0x40),
        Some(PollingRate::Hz8000)
    );
    assert_eq!(
        ipi_pix_v1_rate_from_sensor_byte(ConnectionKind::Wireless, 4),
        Some(PollingRate::Hz8000)
    );
}
