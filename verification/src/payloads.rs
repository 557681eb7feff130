//! Payloads on their way to and from a device: report ids, checksums and
//! commands.
use crate::bytes::{all_bytes, at, byte_sum, byte_xor, copy_bytes, filled, sum_bytes, xor_bytes};
use crate::devices::{outcome, ChargeState};
use crate::error::{plain_error, DeviceError, ErrorText};
use crate::reports::{block_checksum, eeprom16_block_checksum, eeprom16_raw_to_dpi, raw_to_dpi};
use crate::text::{append_decimal, append_hex2, decimal, hex2};
use vstd::prelude::*;

verus! {

pub const FEATURE_REPORT_ID: u8 = 0;

pub const REPORT8_ID: u8 = 8;

pub const FEATURE_PAYLOAD_LEN: usize = 64;

pub const REPORT8_PAYLOAD_LEN: usize = 16;

pub const REPORT8_BUFFER_LEN: usize = REPORT8_PAYLOAD_LEN + 1;

pub const IPI_PIX_PAYLOAD_LEN: usize = 63;

pub const RAZER_V1_REPORT_ID: u8 = 0;

pub const RAZER_V1_PAYLOAD_LEN: usize = 90;

pub const HIDPP_SHORT_ID: u8 = 0x10;

pub const HIDPP_LONG_ID: u8 = 0x11;

pub const HIDPP_SHORT_PAYLOAD_LEN: usize = 6;

pub const HIDPP_LONG_PAYLOAD_LEN: usize = 19;

/// Whether `raw` is a payload of the given length with the report id in front.
pub open spec fn has_report_id(raw: Seq<u8>, report_id: u8, payload_len: nat) -> bool {
    raw.len() == payload_len + 1 && raw[0] == report_id
}

/// `raw` without its first byte.
pub open spec fn without_first(raw: Seq<u8>) -> Seq<u8> {
    raw.subrange(1, raw.len() as int)
}

/// A feature report without its report id, where it has it in front.
pub open spec fn feature_payload(raw: Seq<u8>, report_id: u8, payload_len: nat) -> Seq<u8> {
    if has_report_id(raw, report_id, payload_len) {
        without_first(raw)
    } else {
        raw
    }
}

/// A feature report without its report id, where it has it in front.
pub fn normalize_feature_payload(raw: &[u8], report_id: u8, payload_len: usize) -> (r: Vec<u8>)
    requires
        payload_len < usize::MAX,
    ensures
        r@ == feature_payload(raw@, report_id, payload_len as nat),
{
    if raw.len() == payload_len + 1 && raw[0] == report_id {
        copy_bytes(raw, 1, raw.len())
    } else {
        all_bytes(raw)
    }
}

/// An IPI report without the checksum in front.
pub open spec fn ipi_payload(raw: Seq<u8>) -> Seq<u8> {
    if raw.len() == 0 {
        raw
    } else {
        without_first(raw)
    }
}

/// An IPI report without the checksum in front.
pub fn normalize_ipi_pix_v1_payload(raw: &[u8]) -> (r: Vec<u8>)
    ensures
        r@ == ipi_payload(raw@),
{
    if raw.len() == 0 {
        all_bytes(raw)
    } else {
        copy_bytes(raw, 1, raw.len())
    }
}

/// An input report without its report id, where it has it in front, and cut to
/// the given length.
pub open spec fn report_payload(raw: Seq<u8>, report_id: u8, payload_len: nat) -> Seq<u8> {
    if has_report_id(raw, report_id, payload_len) {
        without_first(raw)
    } else if raw.len() <= payload_len {
        raw
    } else {
        raw.take(payload_len as int)
    }
}

/// An input report without its report id, where it has it in front, and cut to
/// the given length.
pub fn normalize_report_payload(raw: &[u8], report_id: u8, payload_len: usize) -> (r: Vec<u8>)
    requires
        payload_len < usize::MAX,
    ensures
        r@ == report_payload(raw@, report_id, payload_len as nat),
{
    if raw.len() == payload_len + 1 && raw[0] == report_id {
        copy_bytes(raw, 1, raw.len())
    } else if raw.len() <= payload_len {
        all_bytes(raw)
    } else {
        copy_bytes(raw, 0, payload_len)
    }
}

/// A report8 answer without its report id, where it has it in front.
pub fn normalize_report8_payload(raw: &[u8]) -> (r: Vec<u8>)
    ensures
        r@ == report_payload(raw@, REPORT8_ID, REPORT8_PAYLOAD_LEN as nat),
{
    normalize_report_payload(raw, REPORT8_ID, REPORT8_PAYLOAD_LEN)
}

/// A HID++ report without its report id, where it has it in front.
pub open spec fn hidpp_payload(raw: Seq<u8>) -> Seq<u8> {
    if at(raw, 0) == Some(HIDPP_SHORT_ID) || at(raw, 0) == Some(HIDPP_LONG_ID) {
        without_first(raw)
    } else {
        raw
    }
}

/// A HID++ report without its report id, where it has it in front.
pub fn normalize_logitech_hidpp_payload(raw: &[u8]) -> (r: Vec<u8>)
    ensures
        r@ == hidpp_payload(raw@),
{
    if raw.len() > 0 && (raw[0] == HIDPP_SHORT_ID || raw[0] == HIDPP_LONG_ID) {
        copy_bytes(raw, 1, raw.len())
    } else {
        all_bytes(raw)
    }
}

/// What reading one entry of a resolution table gives.
pub open spec fn decoded_dpi_entry(entry: Seq<u8>) -> Result<u16, ErrorText> {
    if entry.len() != 4 {
        Err(
            plain_error(
                "report8 DPI entries must be "@ + decimal(4) + " byte(s), got "@ + decimal(
                    entry.len(),
                ),
            ),
        )
    } else if entry[3] != block_checksum(entry.take(3)) {
        Err(
            plain_error(
                "report8 DPI entry checksum mismatch: expected 0x"@ + hex2(
                    block_checksum(entry.take(3)),
                ) + ", got 0x"@ + hex2(entry[3]),
            ),
        )
    } else if entry[0] != entry[1] {
        Err(
            plain_error(
                "report8 DPI entry has different X/Y raw values: "@ + decimal(entry[0] as nat)
                    + " != "@ + decimal(entry[1] as nat),
            ),
        )
    } else if entry[2] != 0 {
        Err(plain_error("unsupported report8 DPI high-byte encoding 0x"@ + hex2(entry[2])))
    } else {
        Ok(raw_to_dpi(entry[0]))
    }
}

/// Reads one entry of a resolution table.
pub fn decode_eeprom16_dpi_entry(entry: &[u8]) -> (r: Result<u16, DeviceError>)
    ensures
        outcome(r) == decoded_dpi_entry(entry@),
{
    if entry.len() != 4 {
        let mut message = "report8 DPI entries must be ".to_owned();
        append_decimal(&mut message, 4);
        message.append(" byte(s), got ");
        append_decimal(&mut message, entry.len() as u128);
        return Err(DeviceError::new(message));
    }
    let front = copy_bytes(entry, 0, 3);
    assert(front@ =~= entry@.take(3));
    let expected = eeprom16_block_checksum(&front);
    if entry[3] != expected {
        let mut message = "report8 DPI entry checksum mismatch: expected 0x".to_owned();
        append_hex2(&mut message, expected);
        message.append(", got 0x");
        append_hex2(&mut message, entry[3]);
        return Err(DeviceError::new(message));
    }
    if entry[0] != entry[1] {
        let mut message = "report8 DPI entry has different X/Y raw values: ".to_owned();
        append_decimal(&mut message, entry[0] as u128);
        message.append(" != ");
        append_decimal(&mut message, entry[1] as u128);
        return Err(DeviceError::new(message));
    }
    if entry[2] != 0 {
        let mut message = "unsupported report8 DPI high-byte encoding 0x".to_owned();
        append_hex2(&mut message, entry[2]);
        return Err(DeviceError::new(message));
    }
    Ok(eeprom16_raw_to_dpi(entry[0]))
}

/// What brings the sum of the first fifteen bytes to 85, in eight bits.
pub open spec fn report8_checksum(payload: Seq<u8>) -> u8 {
    ((85 - byte_sum(payload.take(15))) % 256) as u8
}

/// What brings the sum of the first fifteen bytes to 85, in eight bits.
pub fn report8_crc(payload: &[u8; REPORT8_PAYLOAD_LEN]) -> (r: u8)
    ensures
        r == report8_checksum(payload@),
{
    let sum = sum_bytes(payload, 0, REPORT8_PAYLOAD_LEN - 1);
    assert(payload@.subrange(0, 15) =~= payload@.take(15));
    85u8.wrapping_sub(sum)
}

/// A report8 payload with its checksum, which counts the report id in.
pub open spec fn with_report8_crc(payload: Seq<u8>) -> Seq<u8> {
    payload.update(15, ((report8_checksum(payload) - REPORT8_ID) % 256) as u8)
}

/// Puts the checksum, which counts the report id in, at the end.
pub fn write_report8_crc(payload: &mut [u8; REPORT8_PAYLOAD_LEN])
    ensures
        final(payload)@ == with_report8_crc(old(payload)@),
{
    let crc = report8_crc(payload).wrapping_sub(REPORT8_ID);
    payload[15] = crc;
}

/// A Razer command before its checksum is in: at most 80 bytes of arguments.
pub open spec fn razer_frame(tx_id: u8, class: u8, id: u8, size: u8, args: Seq<u8>) -> Seq<u8> {
    filled(
        seq![0, tx_id, 0, 0, 0, size, class, id] + if args.len() <= 80 {
            args
        } else {
            args.take(80)
        },
        90,
    )
}

/// The checksum of a Razer command: the exclusive or of the bytes behind the
/// first two, up to its own place.
pub open spec fn razer_checksum(payload: Seq<u8>) -> u8 {
    byte_xor(payload.subrange(2, 88))
}

/// A Razer command with its checksum.
pub open spec fn razer_command(tx_id: u8, class: u8, id: u8, size: u8, args: Seq<u8>) -> Seq<u8> {
    let frame = razer_frame(tx_id, class, id, size, args);
    frame.update(88, razer_checksum(frame))
}

/// A Razer command with its checksum.
pub fn build_razer_v1_command(tx_id: u8, class: u8, id: u8, size: u8, args: &[u8]) -> (r: [u8;
    RAZER_V1_PAYLOAD_LEN])
    ensures
        r@ == razer_command(tx_id, class, id, size, args@),
{
    let mut payload: [u8; 90] = [0; 90];
    payload[1] = tx_id;
    payload[5] = size;
    payload[6] = class;
    payload[7] = id;
    let count: usize = if args.len() <= 80 {
        args.len()
    } else {
        80
    };
    let ghost head = seq![0u8, tx_id, 0, 0, 0, size, class, id];
    assert(payload@ =~= filled(head + args@.take(0), 90));
    for i in 0..count
        invariant
            count <= 80,
            count <= args@.len(),
            head.len() == 8,
            payload@ == filled(head + args@.take(i as int), 90),
    {
        payload[8 + i] = args[i];
        assert(payload@ =~= filled(head + args@.take(i + 1), 90));
    }
    assert(args@.take(args@.len() as int) =~= args@);
    let crc = razer_v1_crc(&payload);
    payload[88] = crc;
    payload
}

/// The checksum of a Razer command.
pub fn razer_v1_crc(payload: &[u8; RAZER_V1_PAYLOAD_LEN]) -> (r: u8)
    ensures
        r == razer_checksum(payload@),
{
    xor_bytes(payload, 2, 88)
}

/// What a status byte of a Logitech mouse says of its battery.
pub open spec fn logitech_charge_state(status: u8) -> ChargeState {
    match status {
        0x00 | 0x04 => ChargeState::Discharging,
        0x01 | 0x02 => ChargeState::Charging,
        0x03 => ChargeState::Full,
        raw => ChargeState::Raw(raw),
    }
}

/// What a status byte of a Logitech mouse says of its battery.
pub fn logitech_charge_state_from_status(status: u8) -> (r: ChargeState)
    ensures
        r == logitech_charge_state(status),
{
    match status {
        0x00 | 0x04 => ChargeState::Discharging,
        0x01 | 0x02 => ChargeState::Charging,
        0x03 => ChargeState::Full,
        raw => ChargeState::Raw(raw),
    }
}

} // verus!
