use orpheus::devices::{
    build_eeprom16_set_rate, ChargeState, ConnectionKind, ModelInfo, PollingRate, ProtocolKind,
    GWOLVES_VENDOR_ID, LOGITECH_VENDOR_ID, RATES_1K, RATES_8K, RAZER_VENDOR_ID,
};
use orpheus::protocols::{
    build_razer_v1_command, normalize_feature_payload, normalize_ipi_pix_v1_payload,
    normalize_logitech_hidpp_payload, normalize_report8_payload, razer_v1_crc, write_report8_crc,
    ProtocolDevice, FEATURE_PAYLOAD_LEN, FEATURE_REPORT_ID, HIDPP_LONG_ID, HIDPP_LONG_PAYLOAD_LEN,
    HIDPP_SHORT_ID, RAZER_V1_PAYLOAD_LEN, RAZER_V1_REPORT_ID, REPORT8_BUFFER_LEN, REPORT8_ID,
    REPORT8_PAYLOAD_LEN,
};
use orpheus::transport::{ScriptedTransport, SentRequest};

const HIDPP_DEVICE_INDEX: u8 = 0x01;
const HIDPP_ROOT_FEATURE_INDEX: u8 = 0x00;
const RAZER_STATUS_SUCCESS: u8 = 0x02;

fn test_model() -> &'static ModelInfo {
    &ModelInfo {
        vendor_name: "Test",
        name: "Mouse",
        vid: GWOLVES_VENDOR_ID,
        wired_pid: Some(0x1234),
        wireless_pid: None,
        receiver_pid: None,
        receiver_idvd_pid: None,
        protocol: ProtocolKind::Feature64 {
            new_protocol: true,
            wired_device_id: 2,
        },
        wired_rates: &RATES_8K,
        wireless_rates: &RATES_8K,
        receiver_rates: &RATES_8K,
    }
}

fn logitech_test_model() -> &'static ModelInfo {
    &ModelInfo {
        vendor_name: "Logitech",
        name: "Test Logitech",
        vid: LOGITECH_VENDOR_ID,
        wired_pid: Some(0xC09B),
        wireless_pid: None,
        receiver_pid: None,
        receiver_idvd_pid: None,
        protocol: ProtocolKind::LogitechHidpp,
        wired_rates: &RATES_1K,
        wireless_rates: &RATES_1K,
        receiver_rates: &RATES_1K,
    }
}

fn razer_test_model() -> &'static ModelInfo {
    &ModelInfo {
        vendor_name: "Razer",
        name: "Test Razer",
        vid: RAZER_VENDOR_ID,
        wired_pid: Some(0x00C0),
        wireless_pid: None,
        receiver_pid: None,
        receiver_idvd_pid: None,
        protocol: ProtocolKind::RazerV1 {
            tx_id: 0x1F,
            polling_reversed: true,
        },
        wired_rates: &RATES_8K,
        wireless_rates: &RATES_8K,
        receiver_rates: &RATES_8K,
    }
}

fn feature_writes(transport: &ScriptedTransport) -> Vec<(u8, Vec<u8>)> {
    transport
        .log
        .iter()
        .filter_map(|request| match request {
            SentRequest::SendFeature { report_id, payload } => {
                Some((*report_id, payload.clone()))
            }
            _ => None,
        })
        .collect()
}

fn output_writes(transport: &ScriptedTransport) -> Vec<(u8, Vec<u8>)> {
    transport
        .log
        .iter()
        .filter_map(|request| match request {
            SentRequest::WriteOutput { report_id, payload } => {
                Some((*report_id, payload.clone()))
            }
            _ => None,
        })
        .collect()
}

fn report8_response(offset: u8, data: &[u8]) -> Vec<u8> {
    let mut response = vec![0; REPORT8_PAYLOAD_LEN];
    response[0] = 8;
    response[3] = offset;
    response[4] = data.len() as u8;
    response[5..5 + data.len()].copy_from_slice(data);
    response
}

#[test]
fn strips_native_feature_report_id() {
    let mut raw = vec![0; FEATURE_PAYLOAD_LEN + 1];
    raw[1] = 0xA1;
    raw[9] = 1;
    let payload = normalize_feature_payload(&raw, FEATURE_REPORT_ID, FEATURE_PAYLOAD_LEN);
    assert_eq!(payload.len(), FEATURE_PAYLOAD_LEN);
    assert_eq!(payload[0], 0xA1);
    assert_eq!(payload[8], 1);
}

#[test]
fn strips_ipi_checksum_byte() {
    let payload = normalize_ipi_pix_v1_payload(&[233, 80, 0, 10, 79, 64, 0, 68]);
    assert_eq!(payload, vec![80, 0, 10, 79, 64, 0, 68]);
}

#[test]
fn strips_native_report8_id() {
    let mut raw = vec![0; REPORT8_BUFFER_LEN];
    raw[0] = REPORT8_ID;
    raw[1] = 8;
    raw[6] = 64;
    let payload = normalize_report8_payload(&raw);
    assert_eq!(payload.len(), REPORT8_PAYLOAD_LEN);
    assert_eq!(payload[0], 8);
    assert_eq!(payload[5], 64);
}

#[test]
fn strips_logitech_hidpp_report_id() {
    let payload = normalize_logitech_hidpp_payload(&[HIDPP_LONG_ID, 1, 0, 0, 7]);
    assert_eq!(payload, vec![1, 0, 0, 7]);
}

#[test]
fn computes_report8_crc_like_web_driver() {
    let mut report = build_eeprom16_set_rate(PollingRate::Hz8000);
    write_report8_crc(&mut report);
    assert_eq!(report[15], 239);
}

#[test]
fn simulated_feature64_rate_read_uses_protocol_transport() {
    let mut response = vec![0; FEATURE_PAYLOAD_LEN];
    response[0] = 0xA1;
    response[7] = 128;
    let transport = ScriptedTransport::new(vec![response], Vec::new());
    let mut protocol = ProtocolDevice::new(
        transport,
        test_model(),
        ConnectionKind::Receiver,
        ProtocolKind::Feature64 {
            new_protocol: true,
            wired_device_id: 2,
        },
    );

    assert_eq!(protocol.read_rate().unwrap(), PollingRate::Hz8000);
    let writes = feature_writes(&protocol.transport);
    assert_eq!(writes.len(), 1);
    assert_eq!(writes[0].0, FEATURE_REPORT_ID);
    assert_eq!(&writes[0].1[2..7], &[2, 2, 1, 128, 1]);
}

#[test]
fn simulated_eeprom_rate_set_writes_crc_report() {
    let transport = ScriptedTransport::new(Vec::new(), vec![Vec::new(), vec![7; REPORT8_PAYLOAD_LEN]]);
    let mut protocol = ProtocolDevice::new(
        transport,
        test_model(),
        ConnectionKind::Wired,
        ProtocolKind::Eeprom16,
    );

    protocol.set_rate(PollingRate::Hz8000).unwrap();
    let writes = output_writes(&protocol.transport);
    assert_eq!(writes.len(), 1);
    assert_eq!(writes[0].0, REPORT8_ID);
    assert_eq!(&writes[0].1[0..7], &[7, 0, 0, 0, 2, 64, 21]);
    assert_eq!(writes[0].1[15], 239);
}

#[test]
fn report8_timeout_is_bounded_by_attempt_count() {
    let transport = ScriptedTransport::new(vec![], Vec::new());
    let mut protocol = ProtocolDevice::new(
        transport,
        test_model(),
        ConnectionKind::Wired,
        ProtocolKind::Eeprom16,
    );

    let error = protocol.read_rate().unwrap_err().text();

    assert!(error.ends_with("after 5 attempts"));
    assert_eq!(output_writes(&protocol.transport).len(), 5);
}

#[test]
fn simulated_eeprom_battery_reads_level_and_charging_state() {
    let mut response = vec![0; REPORT8_PAYLOAD_LEN];
    response[0] = 4;
    response[4] = 2;
    response[5] = 15;
    response[6] = 0;
    response[7] = 0x0f;
    response[8] = 0x7c;
    let transport = ScriptedTransport::new(Vec::new(), vec![Vec::new(), response]);
    let mut protocol = ProtocolDevice::new(
        transport,
        test_model(),
        ConnectionKind::Receiver,
        ProtocolKind::Eeprom16,
    );

    let battery = protocol.read_battery().unwrap();
    assert_eq!(battery.level_percent, Some(15));
    assert_eq!(
        battery.charge_state,
        ChargeState::Discharging
    );
    assert_eq!(battery.raw_state, Some(0));
    let writes = output_writes(&protocol.transport);
    assert_eq!(writes.len(), 1);
    assert_eq!(writes[0].0, REPORT8_ID);
    assert_eq!(writes[0].1[0], 4);
}

#[test]
fn simulated_eeprom_dpi_read_uses_active_level() {
    let transport = ScriptedTransport::new(Vec::new(), vec![
            Vec::new(),
            report8_response(0, &[1, 0x54, 5, 0x50, 1, 0x54]),
            Vec::new(),
            report8_response(12, &[0x0f, 0x0f, 0, 0x37, 0x17, 0x17, 0, 0x27, 0x1f, 0x1f]),
            Vec::new(),
            report8_response(22, &[0, 0x17, 0x3f, 0x3f, 0, 0xd7, 0x6f, 0x6f, 0, 0x77]),
        ]);
    let mut protocol = ProtocolDevice::new(
        transport,
        test_model(),
        ConnectionKind::Wired,
        ProtocolKind::Eeprom16,
    );

    assert_eq!(protocol.read_dpi().unwrap(), 1200);
}

#[test]
fn simulated_eeprom_dpi_set_writes_active_entry() {
    let transport = ScriptedTransport::new(Vec::new(), vec![
            Vec::new(),
            report8_response(0, &[1, 0x54, 5, 0x50, 1, 0x54]),
            Vec::new(),
            report8_response(12, &[0x0f, 0x0f, 0, 0x37, 0x17, 0x17, 0, 0x27, 0x1f, 0x1f]),
            Vec::new(),
            report8_response(22, &[0, 0x17, 0x3f, 0x3f, 0, 0xd7, 0x6f, 0x6f, 0, 0x77]),
            Vec::new(),
            vec![7; REPORT8_PAYLOAD_LEN],
        ]);
    let mut protocol = ProtocolDevice::new(
        transport,
        test_model(),
        ConnectionKind::Wired,
        ProtocolKind::Eeprom16,
    );

    protocol.set_dpi(3200).unwrap();
    let writes = output_writes(&protocol.transport);
    assert_eq!(writes.len(), 4);
    assert_eq!(&writes[3].1[0..9], &[7, 0, 0, 16, 4, 63, 63, 0, 215]);
}

#[test]
fn simulated_eeprom_dpi_set_accepts_matching_readback_after_missing_ack() {
    let header = &[1, 0x54, 1, 0x54, 0, 0x55];
    let transport = ScriptedTransport::new(Vec::new(), vec![
            Vec::new(),
            report8_response(0, header),
            Vec::new(),
            report8_response(12, &[0x0f, 0x0f, 0, 0x37]),
            Vec::new(),
            Vec::new(),
            Vec::new(),
            Vec::new(),
            Vec::new(),
            Vec::new(),
            Vec::new(),
            report8_response(0, header),
            Vec::new(),
            report8_response(12, &[0x3f, 0x3f, 0, 0xd7]),
        ]);
    let mut protocol = ProtocolDevice::new(
        transport,
        test_model(),
        ConnectionKind::Wired,
        ProtocolKind::Eeprom16,
    );

    protocol.set_dpi(3200).unwrap();
    let writes = output_writes(&protocol.transport);
    let dpi_writes = writes
        .iter()
        .filter(|(_, payload)| payload.first() == Some(&7))
        .collect::<Vec<_>>();
    assert_eq!(dpi_writes.len(), 5);
    assert!(
        dpi_writes
            .iter()
            .all(|(_, payload)| payload[3] == 12 && payload[5] == 0x3f)
    );
}

#[test]
fn builds_razer_v1_command_crc_like_web_driver() {
    let command = build_razer_v1_command(0x1F, 0x00, 0x40, 0x02, &[0x01, 0x01]);
    assert_eq!(&command[0..10], &[0, 0x1F, 0, 0, 0, 2, 0, 0x40, 1, 1]);
    assert_eq!(command[88], razer_v1_crc(&command));
}

#[test]
fn simulated_razer_rate_set_uses_reversed_mask() {
    let transport = ScriptedTransport::new(vec![], Vec::new());
    let mut protocol = ProtocolDevice::new(
        transport,
        razer_test_model(),
        ConnectionKind::Wired,
        ProtocolKind::RazerV1 {
            tx_id: 0x1F,
            polling_reversed: true,
        },
    );

    protocol.set_rate(PollingRate::Hz8000).unwrap();
    let writes = feature_writes(&protocol.transport);
    assert_eq!(writes.len(), 1);
    assert_eq!(writes[0].0, RAZER_V1_REPORT_ID);
    assert_eq!(&writes[0].1[5..10], &[2, 0, 0x40, 1, 1]);
    assert_eq!(
        writes[0].1[88],
        razer_v1_crc(writes[0].1.as_slice().try_into().unwrap())
    );
}

#[test]
fn simulated_razer_battery_reads_level_and_charging() {
    let mut level = vec![0; RAZER_V1_PAYLOAD_LEN];
    level[0] = RAZER_STATUS_SUCCESS;
    level[9] = 204;
    let mut charging = vec![0; RAZER_V1_PAYLOAD_LEN];
    charging[0] = RAZER_STATUS_SUCCESS;
    charging[9] = 1;
    let transport = ScriptedTransport::new(vec![level, charging], Vec::new());
    let mut protocol = ProtocolDevice::new(
        transport,
        razer_test_model(),
        ConnectionKind::Wired,
        ProtocolKind::RazerV1 {
            tx_id: 0x1F,
            polling_reversed: true,
        },
    );

    let battery = protocol.read_battery().unwrap();
    assert_eq!(battery.level_percent, Some(80));
    assert_eq!(battery.charge_state, ChargeState::Charging);
    assert_eq!(feature_writes(&protocol.transport).len(), 2);
}

#[test]
fn simulated_logitech_rate_set_discovers_report_rate_feature() {
    let mut report_rate_feature = vec![0; HIDPP_LONG_PAYLOAD_LEN];
    report_rate_feature[0] = HIDPP_DEVICE_INDEX;
    report_rate_feature[1] = HIDPP_ROOT_FEATURE_INDEX;
    report_rate_feature[3] = 0x0A;
    let transport = ScriptedTransport::new(Vec::new(), vec![report_rate_feature]);
    let mut protocol = ProtocolDevice::new(
        transport,
        logitech_test_model(),
        ConnectionKind::Wired,
        ProtocolKind::LogitechHidpp,
    );

    protocol.set_rate(PollingRate::Hz1000).unwrap();
    let writes = output_writes(&protocol.transport);
    assert_eq!(writes.len(), 2);
    assert_eq!(writes[0].0, HIDPP_SHORT_ID);
    assert_eq!(
        writes[0].1,
        vec![HIDPP_DEVICE_INDEX, 0, 0x0D, 0x80, 0x60, 0]
    );
    assert_eq!(writes[1].1, vec![0xFF, 0x0A, 0x2E, 0x01, 0, 0]);
}

#[test]
fn simulated_logitech_battery_discovers_unified_feature() {
    let mut battery_feature = vec![0; HIDPP_LONG_PAYLOAD_LEN];
    battery_feature[0] = HIDPP_DEVICE_INDEX;
    battery_feature[1] = HIDPP_ROOT_FEATURE_INDEX;
    battery_feature[3] = 0x07;
    let mut battery_response = vec![0; HIDPP_LONG_PAYLOAD_LEN];
    battery_response[0] = HIDPP_DEVICE_INDEX;
    battery_response[1] = 0x07;
    battery_response[3] = 84;
    battery_response[5] = 1;
    let transport = ScriptedTransport::new(Vec::new(), vec![battery_feature, battery_response]);
    let mut protocol = ProtocolDevice::new(
        transport,
        logitech_test_model(),
        ConnectionKind::Wired,
        ProtocolKind::LogitechHidpp,
    );

    let battery = protocol.read_battery().unwrap();
    assert_eq!(battery.level_percent, Some(84));
    assert_eq!(battery.charge_state, ChargeState::Charging);
    let writes = output_writes(&protocol.transport);
    assert_eq!(writes.len(), 3);
    assert_eq!(
        writes[0].1,
        vec![HIDPP_DEVICE_INDEX, 0, 0x0D, 0x10, 0x04, 0]
    );
    assert_eq!(writes[1].1, vec![HIDPP_DEVICE_INDEX, 0x07, 0x1D, 0, 0, 0]);
    assert_eq!(writes[2].1, vec![HIDPP_DEVICE_INDEX, 0x07, 0x1D, 0, 0, 0]);
}
