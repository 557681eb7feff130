//! The course of each operation on a device, as a function of the wire: which
//! requests go out, in which order, and what comes of the replies.
use crate::bytes::at;
use crate::devices::{
    gwolves_charge_state, BatteryStatus, ChargeState, ConnectionKind, PollingRate, ProtocolKind,
};
use crate::error::{plain_error, ErrorText};
use crate::models::ModelData;
use crate::payloads::{
    decoded_dpi_entry, hidpp_payload, ipi_payload, logitech_charge_state, razer_command,
    with_report8_crc, FEATURE_REPORT_ID, HIDPP_LONG_ID, HIDPP_SHORT_ID, RAZER_V1_REPORT_ID,
    REPORT8_ID,
};
use crate::reports::{
    eeprom16_dpi_entry, eeprom16_get_battery, eeprom16_get_rate, eeprom16_read, eeprom16_set_rate,
    eeprom16_write, feature64_get_battery, feature64_get_rate, feature64_set_rate,
    ipi_pix_v1_get_basic_info, ipi_pix_v1_get_rate, ipi_pix_v1_set_rate, ipi_rate_coded,
    sensor_code, EEPROM16_DPI_TABLE_OFFSET, EEPROM16_MAX_TRANSFER_LEN,
};
use crate::text::decimal;
use crate::transport::{status, Request, Wire};
use vstd::prelude::*;

verus! {

pub const DEFAULT_PROFILE: u8 = 1;

pub const HIDPP_DEVICE_INDEX: u8 = 0x01;

pub const HIDPP_ROOT_FEATURE_INDEX: u8 = 0x00;

pub const HIDPP_SW_ID: u8 = 0x0D;

pub const HIDPP_REPORT_RATE_FEATURE_ID: u16 = 0x8060;

pub const HIDPP_UNIFIED_BATTERY_FEATURE_ID: u16 = 0x1004;

pub const HIDPP_BATTERY_STATUS_FEATURE_ID: u16 = 0x1000;

pub const HIDPP_REPORT_RATE_FALLBACK_INDEX: u8 = 0x0A;

pub const HIDPP_SCAN_DISCOVERY_TIMEOUT_MS: i32 = 500;

pub const HIDPP_BATTERY_TIMEOUT_MS: i32 = 1_500;

pub const RAZER_STATUS_NEW: u8 = 0x00;

pub const RAZER_STATUS_BUSY: u8 = 0x01;

pub const RAZER_STATUS_SUCCESS: u8 = 0x02;

pub const RAZER_STATUS_FAILURE: u8 = 0x03;

/// The most stale reports that are thrown away before a report8 exchange.
pub const FLUSH_LIMIT: u64 = u64::MAX;

/// The course of an operation: the wire as it is left, and what came of it.
pub struct Run<V> {
    pub wire: Wire,
    pub outcome: Result<V, ErrorText>,
}

/// A course that ends in an error.
pub open spec fn failed<V>(wire: Wire, error: ErrorText) -> Run<V> {
    Run { wire, outcome: Err(error) }
}

/// A course that ends well.
pub open spec fn gave<V>(wire: Wire, value: V) -> Run<V> {
    Run { wire, outcome: Ok(value) }
}

/// The course of a feature report sent, a wait, and a feature report read.
pub open spec fn exchange_run(
    wire: Wire,
    report_id: u8,
    payload: Seq<u8>,
    delay: nat,
    payload_len: nat,
) -> Run<Seq<u8>> {
    let send = Request::SendFeature { report_id, payload };
    match wire.reply(send) {
        Err(e) => failed(wire.after(send), e),
        Ok(_) => {
            let waited = wire.after(send).after(Request::Sleep { milliseconds: delay });
            let get = Request::GetFeature { report_id, payload_len };
            Run { wire: waited.after(get), outcome: waited.reply(get) }
        },
    }
}

/// The rate that a code read from the device stands for.
pub open spec fn rate_for_code(protocol: ProtocolKind, code: u8) -> Result<
    PollingRate,
    ErrorText,
> {
    match protocol.rate_coded(code) {
        Some(rate) => Ok(rate),
        None => Err(
            plain_error("device returned unknown polling-rate code "@ + decimal(code as nat)),
        ),
    }
}

/// The rate code in a 64-byte feature report, which may lack its first byte.
/// A wired mouse of the old protocol says 64 for 1.
pub open spec fn feature64_rate_code(
    new_protocol: bool,
    connection: ConnectionKind,
    response: Seq<u8>,
) -> Result<u8, ErrorText> {
    let shift: int = if response.len() > 0 && response[0] >= 0xA0 {
        1
    } else {
        0
    };
    let place: int = if new_protocol {
        8
    } else {
        5
    };
    match at(response, place - shift) {
        None => Err(plain_error("short feature response while reading polling rate"@)),
        Some(code) => if !new_protocol && connection.is_wired() && code == 64 {
            Ok(1)
        } else {
            Ok(code)
        },
    }
}

/// The course of reading the rate with 64-byte feature reports.
pub open spec fn feature64_rate_run(
    wire: Wire,
    protocol: ProtocolKind,
    connection: ConnectionKind,
) -> Run<PollingRate> {
    let answer = exchange_run(
        wire,
        FEATURE_REPORT_ID,
        feature64_get_rate(protocol, connection, DEFAULT_PROFILE),
        20,
        64,
    );
    Run {
        wire: answer.wire,
        outcome: match answer.outcome {
            Err(e) => Err(e),
            Ok(response) => match feature64_rate_code(
                protocol->new_protocol,
                connection,
                response,
            ) {
                Err(e) => Err(e),
                Ok(code) => rate_for_code(protocol, code),
            },
        },
    }
}

/// The course of setting the rate with 64-byte feature reports. What the
/// device answers is not looked at.
pub open spec fn feature64_set_rate_run(
    wire: Wire,
    protocol: ProtocolKind,
    connection: ConnectionKind,
    rate: PollingRate,
) -> Run<()> {
    let payload = feature64_set_rate(protocol, connection, DEFAULT_PROFILE, rate);
    let answer = exchange_run(wire, FEATURE_REPORT_ID, payload, 20, 64);
    Run {
        wire: answer.wire,
        outcome: status(
            wire.reply(Request::SendFeature { report_id: FEATURE_REPORT_ID, payload }),
        ),
    }
}

/// The error for a byte that is missing from a battery report.
pub open spec fn short_battery_report(what: Seq<char>) -> ErrorText {
    plain_error("short feature response while reading battery "@ + what)
}

/// State and level in a battery report whose layout starts at `shift`; nothing
/// where the marks of such a report are not there.
pub open spec fn feature64_battery_at(new_protocol: bool, response: Seq<u8>, shift: int) -> Option<
    Result<(u8, u8), ErrorText>,
> {
    let (mark, command, state): (int, int, int) = if new_protocol {
        (3, 5, 6)
    } else {
        (1, 2, 4)
    };
    let code: u8 = if new_protocol {
        131
    } else {
        143
    };
    if at(response, shift) == Some(0xA1u8) && at(response, mark + shift) == Some(2u8) && at(
        response,
        command + shift,
    ) == Some(code) {
        Some(
            match (at(response, state + shift), at(response, state + 1 + shift)) {
                (None, _) => Err(short_battery_report("state"@)),
                (Some(_), None) => Err(short_battery_report("level"@)),
                (Some(raw_state), Some(level)) => Ok((raw_state, level)),
            },
        )
    } else {
        None
    }
}

/// State and level in a battery report, which may lack its first byte.
pub open spec fn feature64_battery(new_protocol: bool, response: Seq<u8>) -> Result<
    (u8, u8),
    ErrorText,
> {
    match feature64_battery_at(new_protocol, response, 1) {
        Some(found) => found,
        None => match feature64_battery_at(new_protocol, response, 0) {
            Some(found) => found,
            None => Err(plain_error("device returned an unrecognized battery response"@)),
        },
    }
}

/// A battery of which all is known.
pub open spec fn known_battery(level: u8, charge_state: ChargeState, raw_state: u8) -> BatteryStatus {
    BatteryStatus { level_percent: Some(level), charge_state, raw_state: Some(raw_state) }
}

/// The course of reading the battery with 64-byte feature reports.
pub open spec fn feature64_battery_run(
    wire: Wire,
    protocol: ProtocolKind,
    connection: ConnectionKind,
) -> Run<BatteryStatus> {
    let answer = exchange_run(
        wire,
        FEATURE_REPORT_ID,
        feature64_get_battery(protocol, connection),
        if protocol->new_protocol {
            100
        } else {
            50
        },
        64,
    );
    Run {
        wire: answer.wire,
        outcome: match answer.outcome {
            Err(e) => Err(e),
            Ok(response) => match feature64_battery(protocol->new_protocol, response) {
                Err(e) => Err(e),
                Ok((raw_state, level)) => Ok(
                    known_battery(level, gwolves_charge_state(raw_state), raw_state),
                ),
            },
        },
    }
}

/// The request for one report8 answer.
pub open spec fn report8_read(timeout_ms: int) -> Request {
    Request::ReadInput { report_id: REPORT8_ID, payload_len: 16, timeout_ms }
}

/// The wire after stale reports were thrown away: reads up to the first that
/// fails or brings nothing.
pub open spec fn flushed(wire: Wire, left: nat) -> Wire
    decreases left,
{
    let read = report8_read(1);
    if left > 0 && (wire.reply(read) matches Ok(bytes) && bytes.len() > 0) {
        flushed(wire.after(read), (left - 1) as nat)
    } else {
        wire.after(read)
    }
}

/// The error for a report8 command that was not answered.
pub open spec fn report8_timeout(command: u8, attempts: nat) -> ErrorText {
    plain_error(
        "timed out waiting for report8 command "@ + decimal(command as nat) + " after "@ + decimal(
            attempts,
        ) + " attempts"@,
    )
}

/// The course of the `left` tries that are left of `attempts`: each writes the
/// payload and reads once, and the first answer to the command is taken.
pub open spec fn report8_tries(
    wire: Wire,
    payload: Seq<u8>,
    command: u8,
    delay: int,
    left: nat,
    attempts: nat,
) -> Run<Seq<u8>>
    decreases left,
{
    let write = Request::WriteOutput { report_id: REPORT8_ID, payload };
    let written = wire.after(write);
    let read = report8_read(delay);
    if left == 0 {
        failed(wire, report8_timeout(command, attempts))
    } else {
        match wire.reply(write) {
            Err(e) => failed(written, e),
            Ok(_) => match written.reply(read) {
                Err(e) => failed(written.after(read), e),
                Ok(response) => if at(response, 0) == Some(command) {
                    gave(written.after(read), response)
                } else {
                    report8_tries(
                        written.after(read),
                        payload,
                        command,
                        delay,
                        (left - 1) as nat,
                        attempts,
                    )
                },
            },
        }
    }
}

/// The course of a report8 exchange.
pub open spec fn report8_run(
    wire: Wire,
    payload: Seq<u8>,
    command: u8,
    delay: int,
    attempts: nat,
) -> Run<Seq<u8>> {
    report8_tries(
        flushed(wire, FLUSH_LIMIT as nat),
        with_report8_crc(payload),
        command,
        delay,
        attempts,
        attempts,
    )
}

/// The course of reading the rate of a report8 mouse.
pub open spec fn eeprom16_rate_run(wire: Wire, protocol: ProtocolKind) -> Run<PollingRate> {
    let answer = report8_run(wire, eeprom16_get_rate(), 8, 50, 5);
    Run {
        wire: answer.wire,
        outcome: match answer.outcome {
            Err(e) => Err(e),
            Ok(response) => match at(response, 5) {
                None => Err(plain_error("short report8 response while reading polling rate"@)),
                Some(code) => rate_for_code(protocol, code),
            },
        },
    }
}

/// The course of setting the rate of a report8 mouse.
pub open spec fn eeprom16_set_rate_run(wire: Wire, rate: PollingRate) -> Run<()> {
    let answer = report8_run(wire, eeprom16_set_rate(rate), 7, 50, 5);
    Run { wire: answer.wire, outcome: status(answer.outcome) }
}

/// A percentage that is at most 100.
pub open spec fn capped(level: u8) -> u8 {
    if level > 100 {
        100
    } else {
        level
    }
}

/// What the charging byte of a report8 mouse says.
pub open spec fn eeprom16_charge_state(raw_state: u8) -> ChargeState {
    match raw_state {
        0 => ChargeState::Discharging,
        1 => ChargeState::Charging,
        raw => ChargeState::Raw(raw),
    }
}

/// The course of reading the battery of a report8 mouse.
pub open spec fn eeprom16_battery_run(wire: Wire) -> Run<BatteryStatus> {
    let answer = report8_run(wire, eeprom16_get_battery(), 4, 50, 5);
    Run {
        wire: answer.wire,
        outcome: match answer.outcome {
            Err(e) => Err(e),
            Ok(response) => match (at(response, 5), at(response, 6)) {
                (None, _) => Err(
                    plain_error("short report8 response while reading battery level"@),
                ),
                (Some(_), None) => Err(
                    plain_error("short report8 response while reading charging state"@),
                ),
                (Some(level), Some(raw_state)) => Ok(
                    known_battery(capped(level), eeprom16_charge_state(raw_state), raw_state),
                ),
            },
        },
    }
}

/// How many bytes the next report8 read asks for.
pub open spec fn chunk_len(left: nat) -> nat {
    if left > EEPROM16_MAX_TRANSFER_LEN {
        EEPROM16_MAX_TRANSFER_LEN as nat
    } else {
        left
    }
}

/// The bytes in the answer to a report8 read.
pub open spec fn read_bytes(response: Seq<u8>, offset: int, len: nat) -> Result<
    Seq<u8>,
    ErrorText,
> {
    if at(response, 3) != Some(offset as u8) || at(response, 4) != Some(len as u8) {
        Err(
            plain_error(
                "report8 eeprom response did not match offset "@ + decimal(offset as nat)
                    + " length "@ + decimal(len),
            ),
        )
    } else if response.len() < 5 + len {
        Err(
            plain_error(
                "short report8 eeprom response at offset "@ + decimal(offset as nat) + ": "@
                    + decimal(response.len()) + " byte(s)"@,
            ),
        )
    } else {
        Ok(response.subrange(5, 5 + len as int))
    }
}

/// The course of reading the rest of `len` bytes of memory from `offset` on,
/// where those in `got` were read before.
pub open spec fn eeprom16_bytes_run(wire: Wire, offset: u8, len: nat, got: Seq<u8>) -> Run<Seq<u8>>
    decreases len - got.len(),
{
    if got.len() >= len {
        gave(wire, got)
    } else {
        let chunk = chunk_len((len - got.len()) as nat);
        let place = offset + got.len() % 256;
        if place > 255 {
            failed(wire, plain_error("report8 eeprom offset overflow"@))
        } else {
            let answer = report8_run(
                wire,
                eeprom16_read(place as u8, chunk as u8)->Ok_0,
                8,
                50,
                5,
            );
            match answer.outcome {
                Err(e) => failed(answer.wire, e),
                Ok(response) => match read_bytes(response, place, chunk) {
                    Err(e) => failed(answer.wire, e),
                    Ok(bytes) => eeprom16_bytes_run(answer.wire, offset, len, got + bytes),
                },
            }
        }
    }
}

/// The resolutions in the first `count` entries of a table.
pub open spec fn dpi_levels(table: Seq<u8>, count: nat) -> Result<Seq<u16>, ErrorText>
    decreases count,
{
    if count == 0 {
        Ok(seq![])
    } else {
        match dpi_levels(table, (count - 1) as nat) {
            Err(e) => Err(e),
            Ok(levels) => match decoded_dpi_entry(table.subrange(4 * (count - 1), 4 * count as int)) {
                Err(e) => Err(e),
                Ok(dpi) => Ok(levels.push(dpi)),
            },
        }
    }
}

/// The count of resolutions and the active one, out of the head of the memory.
pub open spec fn dpi_header(header: Seq<u8>) -> Result<(nat, nat), ErrorText> {
    match (at(header, 2), at(header, 4)) {
        (None, _) => Err(plain_error("short report8 header while reading DPI level count"@)),
        (Some(count), active) => if count == 0 {
            Err(plain_error("device returned zero report8 DPI levels"@))
        } else {
            match active {
                None => Err(
                    plain_error("short report8 header while reading active DPI level"@),
                ),
                Some(index) => if index >= count {
                    Err(
                        plain_error(
                            "device active report8 DPI level "@ + decimal(index as nat)
                                + " is outside "@ + decimal(count as nat)
                                + " configured level(s)"@,
                        ),
                    )
                } else {
                    Ok((count as nat, index as nat))
                },
            }
        },
    }
}

/// The course of reading the active level and all resolutions of a report8
/// mouse.
pub open spec fn eeprom16_dpi_config_run(wire: Wire) -> Run<(nat, Seq<u16>)> {
    let head = eeprom16_bytes_run(wire, 0, 6, seq![]);
    match head.outcome {
        Err(e) => failed(head.wire, e),
        Ok(header) => match dpi_header(header) {
            Err(e) => failed(head.wire, e),
            Ok((count, active)) => {
                let rest = eeprom16_bytes_run(
                    head.wire,
                    EEPROM16_DPI_TABLE_OFFSET,
                    count * 4,
                    seq![],
                );
                match rest.outcome {
                    Err(e) => failed(rest.wire, e),
                    Ok(table) => match dpi_levels(table, count) {
                        Err(e) => failed(rest.wire, e),
                        Ok(levels) => gave(rest.wire, (active, levels)),
                    },
                }
            },
        },
    }
}

/// The course of reading the active resolution of a report8 mouse.
pub open spec fn eeprom16_dpi_run(wire: Wire) -> Run<u16> {
    let config = eeprom16_dpi_config_run(wire);
    Run {
        wire: config.wire,
        outcome: match config.outcome {
            Err(e) => Err(e),
            Ok((active, levels)) => if active < levels.len() {
                Ok(levels[active as int])
            } else {
                Err(plain_error("missing active report8 DPI level "@ + decimal(active + 1)))
            },
        },
    }
}

/// Where the entry of a level stands in memory.
pub open spec fn dpi_entry_offset(level: nat) -> Result<u8, ErrorText> {
    if EEPROM16_DPI_TABLE_OFFSET + 4 * level > 255 {
        Err(plain_error("report8 DPI table offset overflow"@))
    } else {
        Ok((EEPROM16_DPI_TABLE_OFFSET + 4 * level) as u8)
    }
}

/// The course of the check after a write that was not acknowledged: it still
/// counts where the resolution reads back.
pub open spec fn dpi_readback_run(wire: Wire, dpi: u16, write_error: ErrorText) -> Run<()> {
    let back = eeprom16_dpi_run(wire);
    Run {
        wire: back.wire,
        outcome: match back.outcome {
            Ok(after) => if after == dpi {
                Ok(())
            } else {
                Err(
                    plain_error(
                        write_error.message + "; active DPI readback is "@ + decimal(after as nat)
                            + ", expected "@ + decimal(dpi as nat),
                    ),
                )
            },
            Err(read_error) => Err(
                plain_error(
                    write_error.message + "; active DPI readback failed: "@ + read_error.message,
                ),
            ),
        },
    }
}

/// The course of setting the active resolution of a report8 mouse.
pub open spec fn eeprom16_set_dpi_run(wire: Wire, dpi: u16) -> Run<()> {
    let config = eeprom16_dpi_config_run(wire);
    match config.outcome {
        Err(e) => failed(config.wire, e),
        Ok((active, _)) => match eeprom16_dpi_entry(dpi) {
            Err(e) => failed(config.wire, e),
            Ok(entry) => match dpi_entry_offset(active) {
                Err(e) => failed(config.wire, e),
                Ok(offset) => {
                    let write = report8_run(
                        config.wire,
                        eeprom16_write(offset, entry)->Ok_0,
                        7,
                        50,
                        5,
                    );
                    match write.outcome {
                        Ok(_) => gave(write.wire, ()),
                        Err(e) => dpi_readback_run(write.wire, dpi, e),
                    }
                },
            },
        },
    }
}

/// The course of waiting for the answer to an IPI command, with `left` tries.
pub open spec fn ipi_response_run(wire: Wire, report_id: u8, command: u8, left: nat) -> Run<Seq<u8>>
    decreases left,
{
    let get = Request::GetFeature { report_id, payload_len: 63 };
    if left == 0 {
        failed(
            wire,
            plain_error("timed out waiting for ipi pix v1 command "@ + decimal(command as nat)),
        )
    } else {
        match wire.reply(get) {
            Err(e) => failed(wire.after(get), e),
            Ok(raw) => {
                let response = ipi_payload(raw);
                if at(response, 3) == Some(command) && response.len() > 6 {
                    gave(wire.after(get), response)
                } else {
                    ipi_response_run(
                        wire.after(get).after(Request::Sleep { milliseconds: 50 }),
                        report_id,
                        command,
                        (left - 1) as nat,
                    )
                }
            },
        }
    }
}

/// The course of sending an IPI report and waiting for its answer.
pub open spec fn ipi_ask_run(wire: Wire, report_id: u8, report: Seq<u8>, delay: nat) -> Run<
    Seq<u8>,
> {
    let send = Request::SendFeature { report_id, payload: report };
    match wire.reply(send) {
        Err(e) => failed(wire.after(send), e),
        Ok(_) => ipi_response_run(
            wire.after(send).after(Request::Sleep { milliseconds: delay }),
            report_id,
            report[3],
            4,
        ),
    }
}

/// The course of reading the rate of an IPI mouse.
pub open spec fn ipi_rate_run(wire: Wire, report_id: u8, connection: ConnectionKind) -> Run<
    PollingRate,
> {
    let answer = ipi_ask_run(wire, report_id, ipi_pix_v1_get_rate(), 50);
    Run {
        wire: answer.wire,
        outcome: match answer.outcome {
            Err(e) => Err(e),
            Ok(response) => match at(response, 6) {
                None => Err(
                    plain_error("short ipi pix v1 response while reading polling rate"@),
                ),
                Some(raw) => match ipi_rate_coded(sensor_code(connection, raw)) {
                    Some(rate) => Ok(rate),
                    None => Err(
                        plain_error(
                            "device returned unknown ipi pix v1 polling-rate byte "@ + decimal(
                                raw as nat,
                            ),
                        ),
                    ),
                },
            },
        },
    }
}

/// The course of setting the rate of an IPI mouse. What the device answers is
/// not looked at.
pub open spec fn ipi_set_rate_run(
    wire: Wire,
    report_id: u8,
    connection: ConnectionKind,
    rate: PollingRate,
) -> Run<()> {
    let payload = ipi_pix_v1_set_rate(connection, rate);
    let answer = ipi_ask_run(wire, report_id, payload, 60);
    Run {
        wire: answer.wire,
        outcome: status(wire.reply(Request::SendFeature { report_id, payload })),
    }
}

/// The course of reading the battery of an IPI mouse.
pub open spec fn ipi_battery_run(wire: Wire, report_id: u8) -> Run<BatteryStatus> {
    let answer = ipi_ask_run(wire, report_id, ipi_pix_v1_get_basic_info(), 100);
    Run {
        wire: answer.wire,
        outcome: match answer.outcome {
            Err(e) => Err(e),
            Ok(response) => match at(response, 5) {
                None => Err(plain_error("short ipi pix v1 response while reading battery"@)),
                Some(level) => Ok(
                    BatteryStatus {
                        level_percent: Some(level),
                        charge_state: ChargeState::Unknown,
                        raw_state: None,
                    },
                ),
            },
        },
    }
}

/// The course of reading the remaining pages of six, from the given one on,
/// where the bytes in `got` were read before. The first page has one byte more
/// in front than the others.
pub open spec fn ipi_pages_run(
    wire: Wire,
    report_id: u8,
    page_requests: Seq<[u8; 63]>,
    page: nat,
    got: Seq<u8>,
) -> Run<Seq<u8>>
    decreases 6 - page,
{
    if page >= 6 {
        gave(wire, got)
    } else {
        let answer = ipi_ask_run(wire, report_id, page_requests[page as int]@, 20);
        match answer.outcome {
            Err(e) => failed(answer.wire, e),
            Ok(response) => if response.len() < 15 {
                failed(
                    answer.wire,
                    plain_error(
                        "short ipi pix v1 response while reading DPI page "@ + decimal(page),
                    ),
                )
            } else {
                ipi_pages_run(
                    answer.wire,
                    report_id,
                    page_requests,
                    page + 1,
                    got + response.subrange(
                        if page == 0 {
                            6
                        } else {
                            5
                        },
                        15,
                    ),
                )
            },
        }
    }
}

/// The first `count` words of two bytes, low byte first.
pub open spec fn words(bytes: Seq<u8>, count: nat) -> Seq<u16> {
    Seq::new(count, |i: int| (bytes[2 * i] + 256 * bytes[2 * i + 1]) as u16)
}

/// `count` colours of three bytes from `from` on.
pub open spec fn colors(bytes: Seq<u8>, from: int, count: nat) -> Seq<Seq<u8>> {
    Seq::new(count, |i: int| bytes.subrange(from + 3 * i, from + 3 * i + 3))
}

/// The resolutions of an IPI mouse as it stores them.
pub struct IpiDpiData {
    pub profile: u8,
    pub raw_levels: Seq<u16>,
    pub colors: Seq<Seq<u8>>,
}

/// The resolutions in the bytes of all pages: up to eight words, then the
/// colours.
pub open spec fn ipi_dpi_data(profile: u8, bytes: Seq<u8>, levels: nat, color_bytes: nat) -> Result<
    IpiDpiData,
    ErrorText,
> {
    if bytes.len() < 16 + color_bytes {
        Err(
            plain_error(
                "short ipi pix v1 DPI config response: "@ + decimal(bytes.len()) + " byte(s)"@,
            ),
        )
    } else {
        Ok(
            IpiDpiData {
                profile,
                raw_levels: words(
                    bytes,
                    if levels < 8 {
                        levels
                    } else {
                        8
                    },
                ),
                colors: colors(bytes, 16, color_bytes / 3),
            },
        )
    }
}

/// The course of reading the resolutions of an IPI mouse.
pub open spec fn ipi_dpi_config_run(
    wire: Wire,
    report_id: u8,
    page_requests: Seq<[u8; 63]>,
    levels: nat,
    color_bytes: nat,
) -> Run<IpiDpiData> {
    let sensor = ipi_ask_run(wire, report_id, ipi_pix_v1_get_rate(), 50);
    match sensor.outcome {
        Err(e) => failed(sensor.wire, e),
        Ok(response) => match at(response, 7) {
            None => failed(
                sensor.wire,
                plain_error("short ipi pix v1 response while reading DPI profile"@),
            ),
            Some(profile) => {
                let pages = ipi_pages_run(sensor.wire, report_id, page_requests, 0, seq![]);
                Run {
                    wire: pages.wire,
                    outcome: match pages.outcome {
                        Err(e) => Err(e),
                        Ok(bytes) => ipi_dpi_data(profile, bytes, levels, color_bytes),
                    },
                }
            },
        },
    }
}

/// The course of waiting for the answer to a resolution order, with `left`
/// rounds.
pub open spec fn ipi_dpi_answer_run(wire: Wire, report_id: u8, command: u8, left: nat) -> Run<()>
    decreases left,
{
    if left == 0 {
        failed(wire, plain_error("timed out waiting for ipi pix v1 DPI write response"@))
    } else {
        let answer = ipi_response_run(
            wire.after(Request::Sleep { milliseconds: 20 }),
            report_id,
            command,
            4,
        );
        match answer.outcome {
            Ok(_) => gave(answer.wire, ()),
            Err(_) => ipi_dpi_answer_run(answer.wire, report_id, command, (left - 1) as nat),
        }
    }
}

/// The course of giving an IPI mouse a resolution order.
pub open spec fn ipi_dpi_order_run(wire: Wire, report_id: u8, report: Seq<u8>) -> Run<()> {
    let send = Request::SendFeature { report_id, payload: report };
    match wire.reply(send) {
        Err(e) => failed(wire.after(send), e),
        Ok(_) => ipi_dpi_answer_run(wire.after(send), report_id, report[3], 3),
    }
}

/// The course of giving an IPI mouse a resolution order that may not have come
/// about: nothing goes out for one that did not.
pub open spec fn ipi_made_order_run(
    wire: Wire,
    report_id: u8,
    order: Result<Seq<u8>, ErrorText>,
) -> Run<()> {
    match order {
        Err(e) => failed(wire, e),
        Ok(report) => ipi_dpi_order_run(wire, report_id, report),
    }
}

/// How many reads of 50 milliseconds make up a time: at least one.
pub open spec fn hidpp_reads(timeout_ms: i32) -> nat {
    if timeout_ms < 1 {
        1
    } else {
        ((timeout_ms + 49) / 50) as nat
    }
}

/// The course of waiting for a HID++ answer of the device with the given
/// second byte, with `left` reads.
pub open spec fn hidpp_matching_run(wire: Wire, second: u8, left: nat) -> Run<Option<Seq<u8>>>
    decreases left,
{
    let read = Request::ReadInput { report_id: HIDPP_LONG_ID, payload_len: 19, timeout_ms: 50 };
    if left == 0 {
        gave(wire, None)
    } else {
        match wire.reply(read) {
            Err(e) => failed(wire.after(read), e),
            Ok(raw) => {
                let response = hidpp_payload(raw);
                if raw.len() > 0 && at(response, 0) == Some(HIDPP_DEVICE_INDEX) && at(response, 1)
                    == Some(second) {
                    gave(wire.after(read), Some(response))
                } else {
                    hidpp_matching_run(wire.after(read), second, (left - 1) as nat)
                }
            },
        }
    }
}

/// The question for the index of a HID++ feature.
pub open spec fn hidpp_discover_request(feature_id: u16) -> Request {
    Request::WriteOutput {
        report_id: HIDPP_SHORT_ID,
        payload: seq![
            HIDPP_DEVICE_INDEX,
            HIDPP_ROOT_FEATURE_INDEX,
            HIDPP_SW_ID,
            (feature_id / 256) as u8,
            (feature_id % 256) as u8,
            0,
        ],
    }
}

/// The course of asking for the index of a HID++ feature: none where the
/// device fails, does not answer or answers zero.
pub open spec fn hidpp_discover_run(wire: Wire, feature_id: u16, timeout_ms: i32) -> (
    Wire,
    Option<u8>,
) {
    let ask = hidpp_discover_request(feature_id);
    match wire.reply(ask) {
        Err(_) => (wire.after(ask), None),
        Ok(_) => {
            let answer = hidpp_matching_run(
                wire.after(ask),
                HIDPP_ROOT_FEATURE_INDEX,
                hidpp_reads(timeout_ms),
            );
            (
                answer.wire,
                match answer.outcome {
                    Ok(Some(response)) => match at(response, 3) {
                        Some(index) => if index == 0 {
                            None
                        } else {
                            Some(index)
                        },
                        None => None,
                    },
                    _ => None,
                },
            )
        },
    }
}

/// The order to set the rate of a HID++ mouse.
pub open spec fn hidpp_rate_request(index: u8, code: u8) -> Request {
    Request::WriteOutput {
        report_id: HIDPP_SHORT_ID,
        payload: seq![0xFF, index, 0x2E, code, 0x00, 0x00],
    }
}

/// The course of setting the rate of a HID++ mouse.
pub open spec fn hidpp_set_rate_run(wire: Wire, rate: PollingRate) -> Run<()> {
    match rate.logitech_hidpp_code() {
        None => failed(
            wire,
            plain_error("unsupported logitech hid++ polling rate "@ + rate.spec_text()),
        ),
        Some(code) => {
            let (found, index) = hidpp_discover_run(wire, HIDPP_REPORT_RATE_FEATURE_ID, 2_000);
            let order = hidpp_rate_request(
                match index {
                    Some(index) => index,
                    None => HIDPP_REPORT_RATE_FALLBACK_INDEX,
                },
                code,
            );
            Run { wire: found.after(order), outcome: status(found.reply(order)) }
        },
    }
}

/// The course of looking for either of the two battery features.
pub open spec fn hidpp_battery_feature_run(wire: Wire) -> (Wire, Option<u8>) {
    let (found, index) = hidpp_discover_run(
        wire,
        HIDPP_UNIFIED_BATTERY_FEATURE_ID,
        HIDPP_SCAN_DISCOVERY_TIMEOUT_MS,
    );
    match index {
        Some(_) => (found, index),
        None => hidpp_discover_run(
            found,
            HIDPP_BATTERY_STATUS_FEATURE_ID,
            HIDPP_SCAN_DISCOVERY_TIMEOUT_MS,
        ),
    }
}

/// The byte at `i`, or zero where there is none.
pub open spec fn at_or_zero(bytes: Seq<u8>, i: int) -> u8 {
    match at(bytes, i) {
        Some(byte) => byte,
        None => 0,
    }
}

/// The battery that a HID++ answer tells.
pub open spec fn hidpp_battery(response: Seq<u8>) -> BatteryStatus {
    let raw_state = at_or_zero(response, 5);
    known_battery(capped(at_or_zero(response, 3)), logitech_charge_state(raw_state), raw_state)
}

/// The course of reading the battery of a HID++ mouse.
pub open spec fn hidpp_battery_run(wire: Wire) -> Run<BatteryStatus> {
    let (found, index) = hidpp_battery_feature_run(wire);
    match index {
        None => failed(
            found,
            plain_error("battery feature not found on this logitech hid++ device"@),
        ),
        Some(index) => {
            let query = Request::WriteOutput {
                report_id: HIDPP_SHORT_ID,
                payload: seq![HIDPP_DEVICE_INDEX, index, 0x1D, 0x00, 0x00, 0x00],
            };
            let waited = found.after(query).after(Request::Sleep { milliseconds: 500 });
            match found.reply(query) {
                Err(e) => failed(found.after(query), e),
                Ok(_) => match waited.reply(query) {
                    Err(e) => failed(waited.after(query), e),
                    Ok(_) => {
                        let answer = hidpp_matching_run(
                            waited.after(query),
                            index,
                            hidpp_reads(HIDPP_BATTERY_TIMEOUT_MS),
                        );
                        Run {
                            wire: answer.wire,
                            outcome: match answer.outcome {
                                Err(e) => Err(e),
                                Ok(None) => Err(
                                    plain_error(
                                        "battery query timed out; device may be asleep or out of range"@,
                                    ),
                                ),
                                Ok(Some(response)) => Ok(hidpp_battery(response)),
                            },
                        }
                    },
                },
            }
        },
    }
}

/// The course of waiting for the answer to a Razer command, from the given try
/// of ten on. The waits grow by ten milliseconds.
pub open spec fn razer_response_run(wire: Wire, attempt: nat) -> Run<Seq<u8>>
    decreases 10 - attempt,
{
    let waited = wire.after(Request::Sleep { milliseconds: 20 + attempt * 10 });
    let get = Request::GetFeature { report_id: RAZER_V1_REPORT_ID, payload_len: 90 };
    if attempt >= 10 {
        failed(wire, plain_error("timed out waiting for razer v1 command response"@))
    } else {
        match waited.reply(get) {
            Err(e) => failed(waited.after(get), e),
            Ok(response) => match at(response, 0) {
                None => razer_response_run(waited.after(get), attempt + 1),
                Some(status) => if status == RAZER_STATUS_SUCCESS {
                    gave(waited.after(get), response)
                } else if status == RAZER_STATUS_FAILURE {
                    failed(waited.after(get), plain_error("razer v1 command returned failure"@))
                } else if status == RAZER_STATUS_BUSY || status == RAZER_STATUS_NEW {
                    razer_response_run(waited.after(get), attempt + 1)
                } else {
                    failed(
                        waited.after(get),
                        plain_error(
                            "razer v1 command returned unknown status "@ + decimal(status as nat),
                        ),
                    )
                },
            },
        }
    }
}

/// The course of a Razer command with an answer.
pub open spec fn razer_run(wire: Wire, command: Seq<u8>) -> Run<Seq<u8>> {
    let send = Request::SendFeature { report_id: RAZER_V1_REPORT_ID, payload: command };
    match wire.reply(send) {
        Err(e) => failed(wire.after(send), e),
        Ok(_) => razer_response_run(wire.after(send), 0),
    }
}

/// The course of setting the rate of a Razer mouse.
pub open spec fn razer_set_rate_run(
    wire: Wire,
    tx_id: u8,
    polling_reversed: bool,
    rate: PollingRate,
) -> Run<()> {
    let order = Request::SendFeature {
        report_id: RAZER_V1_REPORT_ID,
        payload: razer_command(
            tx_id,
            0x00,
            0x40,
            0x02,
            seq![0x01, rate.razer_v1_mask(polling_reversed)],
        ),
    };
    Run { wire: wire.after(order), outcome: status(wire.reply(order)) }
}

/// The Razer question for the battery level.
pub open spec fn razer_level_command(tx_id: u8) -> Seq<u8> {
    razer_command(tx_id, 0x07, 0x80, 0x02, seq![0x00, 0x00])
}

/// The Razer question for the charging state.
pub open spec fn razer_charge_command(tx_id: u8) -> Seq<u8> {
    razer_command(tx_id, 0x07, 0x84, 0x02, seq![0x00, 0x00])
}

/// A level of 255 parts in percent, to the nearest.
pub open spec fn razer_percent(raw_level: u8) -> u8 {
    ((raw_level * 100 + 127) / 255) as u8
}

/// The battery that the level byte and the charging byte of a Razer mouse
/// tell.
pub open spec fn razer_battery(raw_level: u8, raw_state: u8) -> BatteryStatus {
    known_battery(
        razer_percent(raw_level),
        if raw_state == 0 {
            ChargeState::Discharging
        } else {
            ChargeState::Charging
        },
        raw_state,
    )
}

/// The course of reading the battery of a Razer mouse.
pub open spec fn razer_battery_run(wire: Wire, tx_id: u8) -> Run<BatteryStatus> {
    let level = razer_run(wire, razer_level_command(tx_id));
    match level.outcome {
        Err(e) => failed(level.wire, e),
        Ok(level_response) => match at(level_response, 9) {
            None => failed(level.wire, plain_error("short razer v1 battery level response"@)),
            Some(raw_level) => {
                let charge = razer_run(
                    level.wire.after(Request::Sleep { milliseconds: 60 }),
                    razer_charge_command(tx_id),
                );
                Run {
                    wire: charge.wire,
                    outcome: match charge.outcome {
                        Err(e) => Err(e),
                        Ok(charge_response) => match at(charge_response, 9) {
                            None => Err(plain_error("short razer v1 charging-state response"@)),
                            Some(raw_state) => Ok(razer_battery(raw_level, raw_state)),
                        },
                    },
                }
            },
        },
    }
}

/// The course of reading the rate.
pub open spec fn rate_run(wire: Wire, protocol: ProtocolKind, connection: ConnectionKind) -> Run<
    PollingRate,
> {
    match protocol {
        ProtocolKind::Feature64 { .. } => feature64_rate_run(wire, protocol, connection),
        ProtocolKind::Eeprom16 => eeprom16_rate_run(wire, protocol),
        ProtocolKind::IpiPixV1 { report_id } => ipi_rate_run(wire, report_id, connection),
        ProtocolKind::LogitechHidpp => failed(
            wire,
            plain_error(
                "current polling-rate read is not implemented for logitech hid++ protocol"@,
            ),
        ),
        ProtocolKind::RazerV1 { .. } => failed(
            wire,
            plain_error("current polling-rate read is not implemented for razer v1 protocol"@),
        ),
    }
}

/// The course of reading the battery.
pub open spec fn battery_run(
    wire: Wire,
    protocol: ProtocolKind,
    connection: ConnectionKind,
) -> Run<BatteryStatus> {
    match protocol {
        ProtocolKind::Feature64 { .. } => feature64_battery_run(wire, protocol, connection),
        ProtocolKind::Eeprom16 => eeprom16_battery_run(wire),
        ProtocolKind::IpiPixV1 { report_id } => ipi_battery_run(wire, report_id),
        ProtocolKind::LogitechHidpp => hidpp_battery_run(wire),
        ProtocolKind::RazerV1 { tx_id, .. } => razer_battery_run(wire, tx_id),
    }
}

/// The course of setting the rate: nothing goes out for a rate that the model
/// does not offer.
pub open spec fn set_rate_run(
    wire: Wire,
    model: ModelData,
    protocol: ProtocolKind,
    connection: ConnectionKind,
    rate: PollingRate,
) -> Run<()> {
    match model.required_rate(connection, rate) {
        Err(e) => failed(wire, e),
        Ok(_) => match protocol {
            ProtocolKind::Feature64 { .. } => feature64_set_rate_run(
                wire,
                protocol,
                connection,
                rate,
            ),
            ProtocolKind::Eeprom16 => eeprom16_set_rate_run(wire, rate),
            ProtocolKind::IpiPixV1 { report_id } => ipi_set_rate_run(
                wire,
                report_id,
                connection,
                rate,
            ),
            ProtocolKind::LogitechHidpp => hidpp_set_rate_run(wire, rate),
            ProtocolKind::RazerV1 { tx_id, polling_reversed } => razer_set_rate_run(
                wire,
                tx_id,
                polling_reversed,
                rate,
            ),
        },
    }
}

/// The course of reading the active resolution.
pub open spec fn dpi_run(wire: Wire, protocol: ProtocolKind) -> Run<u16> {
    if protocol.supports_dpi() {
        eeprom16_dpi_run(wire)
    } else {
        failed(
            wire,
            plain_error(
                "DPI read is not implemented for "@ + protocol.spec_text() + " protocol"@,
            ),
        )
    }
}

/// The course of setting the active resolution.
pub open spec fn set_dpi_run(wire: Wire, protocol: ProtocolKind, dpi: u16) -> Run<()> {
    if protocol.supports_dpi() {
        eeprom16_set_dpi_run(wire, dpi)
    } else {
        failed(
            wire,
            plain_error(
                "DPI writes are not implemented for "@ + protocol.spec_text() + " protocol"@,
            ),
        )
    }
}

/// The course of finding out whether a device answers in a protocol.
pub open spec fn probe_run(wire: Wire, protocol: ProtocolKind, connection: ConnectionKind) -> Run<
    (),
> {
    match protocol {
        ProtocolKind::LogitechHidpp => {
            let (found, index) = hidpp_discover_run(
                wire,
                HIDPP_REPORT_RATE_FEATURE_ID,
                HIDPP_SCAN_DISCOVERY_TIMEOUT_MS,
            );
            match index {
                Some(_) => gave(found, ()),
                None => failed(
                    found,
                    plain_error("logitech hid++ control feature did not answer"@),
                ),
            }
        },
        ProtocolKind::RazerV1 { tx_id, .. } => {
            let answer = razer_run(wire, razer_level_command(tx_id));
            Run { wire: answer.wire, outcome: status(answer.outcome) }
        },
        _ => {
            let read = rate_run(wire, protocol, connection);
            Run {
                wire: read.wire,
                outcome: match read.outcome {
                    Ok(_) => Ok(()),
                    Err(e) => Err(e),
                },
            }
        },
    }
}

} // verus!
