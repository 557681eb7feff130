//! The reports that mice are asked and told things with.
use crate::bytes::{byte_sum, filled, sum_bytes};
use crate::devices::{ConnectionKind, PollingRate, ProtocolKind};
use crate::error::{plain_error, DeviceError, ErrorText};
use crate::text::{append_decimal, decimal};
use vstd::prelude::*;

verus! {

/// Where the resolution table starts in the memory of report8 mice.
pub const EEPROM16_DPI_TABLE_OFFSET: u8 = 12;

/// The bytes of one entry of that table.
pub const EEPROM16_DPI_ENTRY_LEN: u8 = 4;

/// The most bytes that one report8 request can read or write.
pub const EEPROM16_MAX_TRANSFER_LEN: usize = 10;

/// The question for the rate in 64-byte feature reports; all zero for the
/// protocols that have no such report.
pub open spec fn feature64_get_rate(
    protocol: ProtocolKind,
    connection: ConnectionKind,
    profile: u8,
) -> Seq<u8> {
    match protocol {
        ProtocolKind::Feature64 { new_protocol: true, wired_device_id } => filled(
            seq![0, 0, wired_device_id, 2, 1, 128, profile],
            64,
        ),
        ProtocolKind::Feature64 { new_protocol: false, .. } => filled(
            seq![0, 2, 130, if connection.is_wired() { 0 } else { 1 }],
            64,
        ),
        _ => filled(seq![], 64),
    }
}

/// The question for the rate in 64-byte feature reports; all zero for the
/// protocols that have no such report.
pub fn build_feature64_get_rate(
    protocol: ProtocolKind,
    connection: ConnectionKind,
    profile: u8,
) -> (r: [u8; 64])
    ensures
        r@ == feature64_get_rate(protocol, connection, profile),
{
    let mut report: [u8; 64] = [0; 64];
    match protocol {
        ProtocolKind::Feature64 { new_protocol: true, wired_device_id } => {
            report[2] = wired_device_id;
            report[3] = 2;
            report[4] = 1;
            report[5] = 128;
            report[6] = profile;
        },
        ProtocolKind::Feature64 { new_protocol: false, .. } => {
            report[1] = 2;
            report[2] = 130;
            if !connection.is_wired() {
                report[3] = 1;
            }
        },
        _ => {},
    }
    assert(report@ =~= feature64_get_rate(protocol, connection, profile));
    report
}

/// The order to set the rate in 64-byte feature reports; all zero for the
/// protocols that have no such report.
pub open spec fn feature64_set_rate(
    protocol: ProtocolKind,
    connection: ConnectionKind,
    profile: u8,
    rate: PollingRate,
) -> Seq<u8> {
    match protocol {
        ProtocolKind::Feature64 { new_protocol: true, wired_device_id } => filled(
            seq![0, 0, wired_device_id, 2, 1, 0, profile, rate.feature64_code()],
            64,
        ),
        ProtocolKind::Feature64 { new_protocol: false, .. } => filled(
            seq![0, 2, 2, if connection.is_wired() { 0 } else { 1 }, rate.feature64_code()],
            64,
        ),
        _ => filled(seq![], 64),
    }
}

/// The order to set the rate in 64-byte feature reports; all zero for the
/// protocols that have no such report.
pub fn build_feature64_set_rate(
    protocol: ProtocolKind,
    connection: ConnectionKind,
    profile: u8,
    rate: PollingRate,
) -> (r: [u8; 64])
    ensures
        r@ == feature64_set_rate(protocol, connection, profile, rate),
{
    let mut report: [u8; 64] = [0; 64];
    let code = protocol.rate_code(rate);
    match protocol {
        ProtocolKind::Feature64 { new_protocol: true, wired_device_id } => {
            report[2] = wired_device_id;
            report[3] = 2;
            report[4] = 1;
            report[5] = 0;
            report[6] = profile;
            report[7] = code;
        },
        ProtocolKind::Feature64 { new_protocol: false, .. } => {
            report[1] = 2;
            report[2] = 2;
            if !connection.is_wired() {
                report[3] = 1;
            }
            report[4] = code;
        },
        _ => {},
    }
    assert(report@ =~= feature64_set_rate(protocol, connection, profile, rate));
    report
}

/// The question for the battery in 64-byte feature reports; all zero for the
/// protocols that have no such report.
pub open spec fn feature64_get_battery(
    protocol: ProtocolKind,
    connection: ConnectionKind,
) -> Seq<u8> {
    match protocol {
        ProtocolKind::Feature64 { new_protocol: true, wired_device_id } => filled(
            seq![0, 0, wired_device_id, 2, 0, 131],
            64,
        ),
        ProtocolKind::Feature64 { new_protocol: false, .. } => filled(
            seq![0, 2, 143, if connection.is_wired() { 0 } else { 1 }],
            64,
        ),
        _ => filled(seq![], 64),
    }
}

/// The question for the battery in 64-byte feature reports; all zero for the
/// protocols that have no such report.
pub fn build_feature64_get_battery(protocol: ProtocolKind, connection: ConnectionKind) -> (r: [u8;
    64])
    ensures
        r@ == feature64_get_battery(protocol, connection),
{
    let mut report: [u8; 64] = [0; 64];
    match protocol {
        ProtocolKind::Feature64 { new_protocol: true, wired_device_id } => {
            report[2] = wired_device_id;
            report[3] = 2;
            report[5] = 131;
        },
        ProtocolKind::Feature64 { new_protocol: false, .. } => {
            report[1] = 2;
            report[2] = 143;
            if !connection.is_wired() {
                report[3] = 1;
            }
        },
        _ => {},
    }
    assert(report@ =~= feature64_get_battery(protocol, connection));
    report
}

/// What brings the sum of a block of memory to 85, in eight bits.
pub open spec fn block_checksum(block: Seq<u8>) -> u8 {
    ((85 - byte_sum(block)) % 256) as u8
}

/// What brings the sum of a block of memory to 85, in eight bits.
pub fn eeprom16_block_checksum(block: &[u8]) -> (r: u8)
    ensures
        r == block_checksum(block@),
{
    let sum = sum_bytes(block, 0, block.len());
    assert(block@.subrange(0, block@.len() as int) =~= block@);
    85u8.wrapping_sub(sum)
}

/// The report8 question for the rate.
pub open spec fn eeprom16_get_rate() -> Seq<u8> {
    filled(seq![8, 0, 0, 0, 2], 16)
}

/// The report8 question for the rate.
pub fn build_eeprom16_get_rate() -> (r: [u8; 16])
    ensures
        r@ == eeprom16_get_rate(),
{
    let mut report: [u8; 16] = [0; 16];
    report[0] = 8;
    report[4] = 2;
    assert(report@ =~= eeprom16_get_rate());
    report
}

/// The report8 order to set the rate: a write of the code and its checksum.
pub open spec fn eeprom16_set_rate(rate: PollingRate) -> Seq<u8> {
    let code = rate.eeprom16_code();
    filled(seq![7, 0, 0, 0, 2, code, (85 - code) as u8], 16)
}

/// The report8 order to set the rate: a write of the code and its checksum.
pub fn build_eeprom16_set_rate(rate: PollingRate) -> (r: [u8; 16])
    ensures
        r@ == eeprom16_set_rate(rate),
{
    let mut report: [u8; 16] = [0; 16];
    let code = rate.eeprom16_code();
    report[0] = 7;
    report[4] = 2;
    report[5] = code;
    report[6] = 85u8.wrapping_sub(code);
    assert(report@ =~= eeprom16_set_rate(rate));
    report
}

/// The report8 question for the battery.
pub open spec fn eeprom16_get_battery() -> Seq<u8> {
    filled(seq![4], 16)
}

/// The report8 question for the battery.
pub fn build_eeprom16_get_battery() -> (r: [u8; 16])
    ensures
        r@ == eeprom16_get_battery(),
{
    let mut report: [u8; 16] = [0; 16];
    report[0] = 4;
    assert(report@ =~= eeprom16_get_battery());
    report
}

/// The refusal to move `len` bytes with one report8 request.
pub open spec fn transfer_too_long(len: nat) -> ErrorText {
    plain_error("report8 eeprom transfer of "@ + decimal(len) + " byte(s) is too long"@)
}

/// The refusal to move `len` bytes with one report8 request.
fn transfer_error(len: usize) -> (e: DeviceError)
    ensures
        e@ == transfer_too_long(len as nat),
{
    let mut message = "report8 eeprom transfer of ".to_owned();
    append_decimal(&mut message, len as u128);
    message.append(" byte(s) is too long");
    DeviceError::new(message)
}

/// The report8 question for `len` bytes of memory from `offset` on.
pub open spec fn eeprom16_read(offset: u8, len: u8) -> Result<Seq<u8>, ErrorText> {
    if len > EEPROM16_MAX_TRANSFER_LEN {
        Err(transfer_too_long(len as nat))
    } else {
        Ok(filled(seq![8, 0, 0, offset, len], 16))
    }
}

/// A report that may have been refused, in view.
pub open spec fn report_outcome<const N: usize>(r: Result<[u8; N], DeviceError>) -> Result<
    Seq<u8>,
    ErrorText,
> {
    match r {
        Ok(report) => Ok(report@),
        Err(e) => Err(e@),
    }
}

/// The report8 question for `len` bytes of memory from `offset` on.
pub fn build_eeprom16_read(offset: u8, len: u8) -> (r: Result<[u8; 16], DeviceError>)
    ensures
        report_outcome(r) == eeprom16_read(offset, len),
{
    if len as usize > EEPROM16_MAX_TRANSFER_LEN {
        return Err(transfer_error(len as usize));
    }
    let mut report: [u8; 16] = [0; 16];
    report[0] = 8;
    report[3] = offset;
    report[4] = len;
    assert(report@ =~= filled(seq![8, 0, 0, offset, len], 16));
    Ok(report)
}

/// The report8 order to write `data` into memory from `offset` on.
pub open spec fn eeprom16_write(offset: u8, data: Seq<u8>) -> Result<Seq<u8>, ErrorText> {
    if data.len() > EEPROM16_MAX_TRANSFER_LEN {
        Err(transfer_too_long(data.len()))
    } else {
        Ok(filled(seq![7, 0, 0, offset, data.len() as u8] + data, 16))
    }
}

/// The report8 order to write `data` into memory from `offset` on.
pub fn build_eeprom16_write(offset: u8, data: &[u8]) -> (r: Result<[u8; 16], DeviceError>)
    ensures
        report_outcome(r) == eeprom16_write(offset, data@),
{
    if data.len() > EEPROM16_MAX_TRANSFER_LEN {
        return Err(transfer_error(data.len()));
    }
    let mut report: [u8; 16] = [0; 16];
    report[0] = 7;
    report[3] = offset;
    report[4] = data.len() as u8;
    let ghost head = seq![7u8, 0, 0, offset, data@.len() as u8];
    for i in 0..data.len()
        invariant
            data@.len() <= 10,
            head.len() == 5,
            report@ == filled(head + data@.take(i as int), 16),
    {
        report[5 + i] = data[i];
        assert(report@ =~= filled(head + data@.take(i + 1), 16));
    }
    assert(data@.take(data@.len() as int) =~= data@);
    Ok(report)
}

/// The resolution that the raw byte of a table entry stands for.
pub open spec fn raw_to_dpi(raw: u8) -> u16 {
    ((raw + 1) * 50) as u16
}

/// The resolution that the raw byte of a table entry stands for.
pub fn eeprom16_raw_to_dpi(raw: u8) -> (r: u16)
    ensures
        r == raw_to_dpi(raw),
{
    (raw as u16 + 1) * 50
}

/// Whether a table entry can hold the resolution.
pub open spec fn is_eeprom16_dpi(dpi: u16) -> bool {
    50 <= dpi <= 12800 && dpi % 50 == 0
}

/// The table entry for a resolution: the raw byte for each axis, a zero byte
/// and the checksum.
pub open spec fn eeprom16_dpi_entry(dpi: u16) -> Result<Seq<u8>, ErrorText> {
    if is_eeprom16_dpi(dpi) {
        let raw = (dpi / 50 - 1) as u8;
        Ok(seq![raw, raw, 0, block_checksum(seq![raw, raw, 0])])
    } else {
        Err(
            plain_error(
                "report8 DPI must be a multiple of 50 from 50 to 12800, got "@ + decimal(
                    dpi as nat,
                ),
            ),
        )
    }
}

/// The table entry for a resolution: the raw byte for each axis, a zero byte
/// and the checksum.
pub fn build_eeprom16_dpi_entry(dpi: u16) -> (r: Result<[u8; 4], DeviceError>)
    ensures
        report_outcome(r) == eeprom16_dpi_entry(dpi),
{
    if dpi < 50 || dpi > 12800 || dpi % 50 != 0 {
        let mut message = "report8 DPI must be a multiple of 50 from 50 to 12800, got ".to_owned();
        append_decimal(&mut message, dpi as u128);
        return Err(DeviceError::new(message));
    }
    let raw = (dpi / 50 - 1) as u8;
    let block: [u8; 3] = [raw, raw, 0];
    assert(block@ =~= seq![raw, raw, 0]);
    let entry: [u8; 4] = [raw, raw, 0, eeprom16_block_checksum(&block)];
    assert(entry@ =~= seq![raw, raw, 0, block_checksum(seq![raw, raw, 0])]);
    Ok(entry)
}

/// An IPI report with the last eight bits of the sum of the other bytes in
/// front.
pub open spec fn with_ipi_checksum(payload: Seq<u8>) -> Seq<u8> {
    payload.update(0, (byte_sum(payload.subrange(1, payload.len() as int)) % 256) as u8)
}

/// Puts the last eight bits of the sum of the other bytes in front.
pub fn write_ipi_checksum(payload: &mut [u8])
    requires
        old(payload)@.len() > 0,
    ensures
        final(payload)@ == with_ipi_checksum(old(payload)@),
{
    let len = payload.len();
    let sum = sum_bytes(payload, 1, len);
    payload[0] = sum;
}

/// The IPI question for the sensor page, which holds the rate.
pub open spec fn ipi_pix_v1_get_rate() -> Seq<u8> {
    with_ipi_checksum(filled(seq![0, 80, 0, 10, 79, 64], 63))
}

/// The IPI question for the sensor page, which holds the rate.
pub fn build_ipi_pix_v1_get_rate() -> (r: [u8; 63])
    ensures
        r@ == ipi_pix_v1_get_rate(),
{
    let mut report: [u8; 63] = [0; 63];
    report[1] = 80;
    report[3] = 10;
    report[4] = 79;
    report[5] = 64;
    assert(report@ =~= filled(seq![0, 80, 0, 10, 79, 64], 63));
    write_ipi_checksum(&mut report);
    report
}

/// The IPI question for the basic facts, which hold the battery.
pub open spec fn ipi_pix_v1_get_basic_info() -> Seq<u8> {
    with_ipi_checksum(filled(seq![0, 80, 0, 2, 79, 129], 63))
}

/// The IPI question for the basic facts, which hold the battery.
pub fn build_ipi_pix_v1_get_basic_info() -> (r: [u8; 63])
    ensures
        r@ == ipi_pix_v1_get_basic_info(),
{
    let mut report: [u8; 63] = [0; 63];
    report[1] = 80;
    report[3] = 2;
    report[4] = 79;
    report[5] = 129;
    assert(report@ =~= filled(seq![0, 80, 0, 2, 79, 129], 63));
    write_ipi_checksum(&mut report);
    report
}

/// The byte that tells an IPI mouse its rate: the code in both halves, or in
/// the lower one alone for the fast rates of a wireless mouse.
pub open spec fn ipi_pix_v1_rate_byte(connection: ConnectionKind, rate: PollingRate) -> u8 {
    let code = rate.ipi_pix_v1_code();
    if connection == ConnectionKind::Wireless && code >= 4 {
        code
    } else {
        (code * 16 + code) as u8
    }
}

/// The IPI order to set the rate.
pub open spec fn ipi_pix_v1_set_rate(connection: ConnectionKind, rate: PollingRate) -> Seq<u8> {
    with_ipi_checksum(
        filled(seq![0, 80, 1, 49, 53, 1, ipi_pix_v1_rate_byte(connection, rate)], 63),
    )
}

/// The IPI order to set the rate.
pub fn build_ipi_pix_v1_set_rate(connection: ConnectionKind, rate: PollingRate) -> (r: [u8; 63])
    ensures
        r@ == ipi_pix_v1_set_rate(connection, rate),
{
    let mut report: [u8; 63] = [0; 63];
    let code = rate.ipi_pix_v1_code();
    let encoded = if connection == ConnectionKind::Wireless && code >= 4 {
        code
    } else {
        assert(code <= 6 ==> code << 4 | code == code * 16 + code) by (bit_vector);
        code << 4 | code
    };
    report[1] = 80;
    report[2] = 1;
    report[3] = 49;
    report[4] = 53;
    report[5] = 1;
    report[6] = encoded;
    assert(report@ =~= filled(
        seq![0, 80, 1, 49, 53, 1, ipi_pix_v1_rate_byte(connection, rate)],
        63,
    ));
    write_ipi_checksum(&mut report);
    report
}

/// The rate code in the sensor byte of an IPI mouse: three bits, the lowest of
/// the lower half for a wireless mouse, of the upper half for the others.
pub open spec fn sensor_code(connection: ConnectionKind, raw: u8) -> u8 {
    if connection == ConnectionKind::Wireless {
        raw % 8
    } else {
        (raw / 16) % 8
    }
}

/// The rate with the given IPI code, where there is one.
pub open spec fn ipi_rate_coded(code: u8) -> Option<PollingRate> {
    (ProtocolKind::IpiPixV1 { report_id: 0 }).rate_coded(code)
}

/// The rate that the sensor byte of an IPI mouse tells.
pub fn ipi_pix_v1_rate_from_sensor_byte(connection: ConnectionKind, raw: u8) -> (r: Option<
    PollingRate,
>)
    ensures
        r == ipi_rate_coded(sensor_code(connection, raw)),
{
    let code = if connection == ConnectionKind::Wireless {
        assert(raw & 0x07 == raw % 8) by (bit_vector);
        raw & 0x07
    } else {
        assert((raw & 0x70) >> 4 == (raw / 16) % 8) by (bit_vector);
        (raw & 0x70) >> 4
    };
    (ProtocolKind::IpiPixV1 { report_id: 0 }).rate_from_code(code)
}

} // verus!
