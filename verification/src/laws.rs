//! What holds of the protocols as a whole.
use crate::bytes::byte_sum;
use crate::courses::{
    battery_run, dpi_run, eeprom16_bytes_run, eeprom16_dpi_config_run, eeprom16_set_dpi_run,
    flushed, hidpp_battery_feature_run, hidpp_battery_run, hidpp_discover_run, hidpp_matching_run,
    hidpp_reads, ipi_ask_run, ipi_response_run, probe_run, rate_run, razer_response_run, razer_run,
    report8_run, report8_tries, set_dpi_run, set_rate_run, FLUSH_LIMIT,
};
use crate::devices::{ConnectionKind, PollingRate, ProtocolKind};
use crate::models::ModelData;
use crate::payloads::{
    decoded_dpi_entry, razer_checksum, razer_command, razer_frame, with_report8_crc, REPORT8_ID,
};
use crate::reports::{
    block_checksum, eeprom16_dpi_entry, ipi_pix_v1_rate_byte, ipi_rate_coded, is_eeprom16_dpi,
    raw_to_dpi, sensor_code, with_ipi_checksum,
};
use crate::transport::{Request, Wire};
use vstd::prelude::*;

verus! {

/// The code of a rate stands for that rate, in each protocol that can read the
/// rate back.
pub proof fn law_rate_code_round_trip(protocol: ProtocolKind, rate: PollingRate)
    requires
        protocol.supports_rate_read(),
    ensures
        protocol.rate_coded(protocol.rate_code(rate)) == Some(rate),
{
}

/// A code that stands for a rate is the code of that rate.
pub proof fn law_read_codes_are_written_codes(protocol: ProtocolKind, code: u8)
    ensures
        protocol.rate_coded(code) matches Some(rate) ==> protocol.rate_code(rate) == code,
{
}

/// Two rates that a protocol can set have different codes.
pub proof fn law_rate_codes_differ(protocol: ProtocolKind, a: PollingRate, b: PollingRate)
    requires
        a != b,
        protocol is LogitechHidpp ==> a.logitech_hidpp_code() is Some && b.logitech_hidpp_code() is Some,
    ensures
        protocol.rate_code(a) != protocol.rate_code(b),
{
}

/// The bit of a rate counts steps of 125 Hz, and the reversed one how often the
/// rate goes into 8000 Hz.
pub proof fn law_razer_masks(rate: PollingRate)
    ensures
        rate.razer_v1_mask(false) * 125 == rate.hz(),
        rate.razer_v1_mask(true) * rate.hz() == 8000,
{
    match rate {
        PollingRate::Hz125 => assert(64 * 125 == 8000),
        PollingRate::Hz250 => assert(32 * 250 == 8000),
        PollingRate::Hz500 => assert(16 * 500 == 8000),
        PollingRate::Hz1000 => assert(8 * 1000 == 8000),
        PollingRate::Hz2000 => assert(4 * 2000 == 8000),
        PollingRate::Hz4000 => assert(2 * 4000 == 8000),
        PollingRate::Hz8000 => assert(1 * 8000 == 8000),
    }
}

/// The byte that sets the rate of an IPI mouse, read as a sensor byte, tells
/// the same rate, however the mouse is attached.
pub proof fn law_ipi_rate_byte_round_trip(connection: ConnectionKind, rate: PollingRate)
    ensures
        ipi_rate_coded(sensor_code(connection, ipi_pix_v1_rate_byte(connection, rate))) == Some(
            rate,
        ),
{
    law_rate_code_round_trip(ProtocolKind::IpiPixV1 { report_id: 0 }, rate);
    assert(sensor_code(connection, ipi_pix_v1_rate_byte(connection, rate))
        == rate.ipi_pix_v1_code());
}

/// A table entry made for a resolution reads as that resolution.
pub proof fn law_dpi_entry_reads_back(dpi: u16)
    requires
        is_eeprom16_dpi(dpi),
    ensures
        eeprom16_dpi_entry(dpi) matches Ok(entry) && decoded_dpi_entry(entry) == Ok::<
            u16,
            crate::error::ErrorText,
        >(dpi),
{
    let raw = (dpi / 50 - 1) as u8;
    let entry = seq![raw, raw, 0u8, block_checksum(seq![raw, raw, 0u8])];
    assert(entry.take(3) =~= seq![raw, raw, 0u8]);
    assert(raw_to_dpi(raw) == dpi);
}

/// A table entry that reads as a resolution is the one made for it.
pub proof fn law_dpi_entry_unique(entry: Seq<u8>, dpi: u16)
    requires
        decoded_dpi_entry(entry) == Ok::<u16, crate::error::ErrorText>(dpi),
    ensures
        is_eeprom16_dpi(dpi),
        eeprom16_dpi_entry(dpi) == Ok::<Seq<u8>, crate::error::ErrorText>(entry),
{
    let raw = entry[0];
    assert((dpi / 50 - 1) as u8 == raw);
    assert(entry.take(3) =~= seq![raw, raw, 0u8]);
    assert(entry =~= seq![raw, raw, 0u8, block_checksum(seq![raw, raw, 0u8])]);
}

/// Every report8 payload that is sent sums up to 85 with its report id, in
/// eight bits.
pub proof fn law_report8_checksum(payload: Seq<u8>)
    requires
        payload.len() == 16,
    ensures
        (byte_sum(with_report8_crc(payload)) + REPORT8_ID) % 256 == 85,
{
    let sent = with_report8_crc(payload);
    assert(sent.drop_last() =~= payload.take(15));
    assert(byte_sum(sent) == byte_sum(payload.take(15)) + sent[15]);
}

/// The first byte of an IPI report is the sum of the others, in eight bits.
pub proof fn law_ipi_checksum(payload: Seq<u8>)
    requires
        payload.len() > 0,
    ensures
        with_ipi_checksum(payload)[0] == byte_sum(
            with_ipi_checksum(payload).subrange(1, payload.len() as int),
        ) % 256,
{
    assert(with_ipi_checksum(payload).subrange(1, payload.len() as int) =~= payload.subrange(
        1,
        payload.len() as int,
    ));
}

/// The checksum byte of a Razer command is the checksum of the command.
pub proof fn law_razer_checksum(tx_id: u8, class: u8, id: u8, size: u8, args: Seq<u8>)
    ensures
        razer_command(tx_id, class, id, size, args).len() == 90,
        razer_command(tx_id, class, id, size, args)[88] == razer_checksum(
            razer_command(tx_id, class, id, size, args),
        ),
{
    let frame = razer_frame(tx_id, class, id, size, args);
    assert(razer_command(tx_id, class, id, size, args).subrange(2, 88) =~= frame.subrange(2, 88));
}

/// How many output reports stand in a course of requests.
pub open spec fn writes_in(sent: Seq<Request>) -> nat
    decreases sent.len(),
{
    if sent.len() == 0 {
        0
    } else {
        writes_in(sent.drop_last()) + if sent.last() is WriteOutput {
            1nat
        } else {
            0nat
        }
    }
}

proof fn lemma_writes_after(wire: Wire, request: Request)
    ensures
        writes_in(wire.after(request).sent) == writes_in(wire.sent) + if request is WriteOutput {
            1nat
        } else {
            0nat
        },
{
    assert(wire.after(request).sent.drop_last() =~= wire.sent);
}

proof fn lemma_flush_writes_nothing(wire: Wire, left: nat)
    ensures
        writes_in(flushed(wire, left).sent) == writes_in(wire.sent),
    decreases left,
{
    let read = crate::courses::report8_read(1);
    lemma_writes_after(wire, read);
    if left > 0 && (wire.reply(read) matches Ok(bytes) && bytes.len() > 0) {
        lemma_flush_writes_nothing(wire.after(read), (left - 1) as nat);
    }
}

proof fn lemma_tries_writes(
    wire: Wire,
    payload: Seq<u8>,
    command: u8,
    delay: int,
    left: nat,
    attempts: nat,
)
    ensures
        writes_in(report8_tries(wire, payload, command, delay, left, attempts).wire.sent)
            <= writes_in(wire.sent) + left,
    decreases left,
{
    if left > 0 {
        let write = Request::WriteOutput { report_id: REPORT8_ID, payload };
        let written = wire.after(write);
        let read = crate::courses::report8_read(delay);
        lemma_writes_after(wire, write);
        lemma_writes_after(written, read);
        lemma_tries_writes(
            written.after(read),
            payload,
            command,
            delay,
            (left - 1) as nat,
            attempts,
        );
    }
}

/// A report8 exchange writes its payload no more often than it has attempts.
pub proof fn law_report8_writes_are_bounded(
    wire: Wire,
    payload: Seq<u8>,
    command: u8,
    delay: int,
    attempts: nat,
)
    ensures
        writes_in(report8_run(wire, payload, command, delay, attempts).wire.sent) <= writes_in(
            wire.sent,
        ) + attempts,
{
    lemma_flush_writes_nothing(wire, FLUSH_LIMIT as nat);
    lemma_tries_writes(
        flushed(wire, FLUSH_LIMIT as nat),
        with_report8_crc(payload),
        command,
        delay,
        attempts,
        attempts,
    );
}

/// A rate that the model does not offer over the connection is refused before
/// anything goes out.
pub proof fn law_unlisted_rate_sends_nothing(
    wire: Wire,
    model: ModelData,
    protocol: ProtocolKind,
    connection: ConnectionKind,
    rate: PollingRate,
)
    requires
        !model.rates_for(connection).contains(rate),
    ensures
        set_rate_run(wire, model, protocol, connection, rate).wire == wire,
        set_rate_run(wire, model, protocol, connection, rate).outcome is Err,
{
}

/// A resolution that no table entry can hold is refused before anything is
/// written to the table.
pub proof fn law_bad_dpi_is_not_written(wire: Wire, dpi: u16)
    requires
        !is_eeprom16_dpi(dpi),
    ensures
        eeprom16_set_dpi_run(wire, dpi).wire == eeprom16_dpi_config_run(wire).wire,
        eeprom16_set_dpi_run(wire, dpi).outcome is Err,
{
}

/// Whether `after` is the same wire with more requests made.
pub open spec fn continues(before: Wire, after: Wire) -> bool {
    &&& after.answers == before.answers
    &&& before.sent.len() <= after.sent.len()
    &&& after.sent.take(before.sent.len() as int) == before.sent
}

pub proof fn lemma_continues_after(first: Wire, wire: Wire, request: Request)
    requires
        continues(first, wire),
    ensures
        continues(first, wire.after(request)),
{
    assert(wire.after(request).sent.take(first.sent.len() as int) =~= wire.sent.take(
        first.sent.len() as int,
    ));
}

pub proof fn lemma_continues_self(wire: Wire)
    ensures
        continues(wire, wire),
{
    assert(wire.sent.take(wire.sent.len() as int) =~= wire.sent);
}

pub proof fn lemma_flushed_continues(first: Wire, wire: Wire, left: nat)
    requires
        continues(first, wire),
    ensures
        continues(first, flushed(wire, left)),
    decreases left,
{
    let read = crate::courses::report8_read(1);
    lemma_continues_after(first, wire, read);
    if left > 0 && (wire.reply(read) matches Ok(bytes) && bytes.len() > 0) {
        lemma_flushed_continues(first, wire.after(read), (left - 1) as nat);
    }
}

pub proof fn lemma_tries_continues(
    first: Wire,
    wire: Wire,
    payload: Seq<u8>,
    command: u8,
    delay: int,
    left: nat,
    attempts: nat,
)
    requires
        continues(first, wire),
    ensures
        continues(first, report8_tries(wire, payload, command, delay, left, attempts).wire),
    decreases left,
{
    if left > 0 {
        let write = Request::WriteOutput { report_id: REPORT8_ID, payload };
        let written = wire.after(write);
        let read = crate::courses::report8_read(delay);
        lemma_continues_after(first, wire, write);
        lemma_continues_after(first, written, read);
        lemma_tries_continues(
            first,
            written.after(read),
            payload,
            command,
            delay,
            (left - 1) as nat,
            attempts,
        );
    }
}

proof fn lemma_report8_continues(
    first: Wire,
    wire: Wire,
    payload: Seq<u8>,
    command: u8,
    delay: int,
    attempts: nat,
)
    requires
        continues(first, wire),
    ensures
        continues(first, report8_run(wire, payload, command, delay, attempts).wire),
{
    lemma_flushed_continues(first, wire, FLUSH_LIMIT as nat);
    lemma_tries_continues(
        first,
        flushed(wire, FLUSH_LIMIT as nat),
        with_report8_crc(payload),
        command,
        delay,
        attempts,
        attempts,
    );
}

proof fn lemma_eeprom16_bytes_continues(
    first: Wire,
    wire: Wire,
    offset: u8,
    len: nat,
    got: Seq<u8>,
)
    requires
        continues(first, wire),
    ensures
        continues(first, eeprom16_bytes_run(wire, offset, len, got).wire),
    decreases len - got.len(),
{
    if got.len() < len {
        let chunk = crate::courses::chunk_len((len - got.len()) as nat);
        let place = offset + got.len() % 256;
        if place <= 255 {
            let report = crate::reports::eeprom16_read(place as u8, chunk as u8)->Ok_0;
            lemma_report8_continues(first, wire, report, 8, 50, 5);
            let answer = report8_run(wire, report, 8, 50, 5);
            if let Ok(response) = answer.outcome {
                if let Ok(bytes) = crate::courses::read_bytes(response, place, chunk) {
                    lemma_eeprom16_bytes_continues(first, answer.wire, offset, len, got + bytes);
                }
            }
        }
    }
}

proof fn lemma_dpi_config_continues(first: Wire, wire: Wire)
    requires
        continues(first, wire),
    ensures
        continues(first, eeprom16_dpi_config_run(wire).wire),
{
    let head = eeprom16_bytes_run(wire, 0, 6, seq![]);
    lemma_eeprom16_bytes_continues(first, wire, 0, 6, seq![]);
    if let Ok(header) = head.outcome {
        if let Ok((count, active)) = crate::courses::dpi_header(header) {
            lemma_eeprom16_bytes_continues(first, head.wire, 12, count * 4, seq![]);
        }
    }
}

proof fn lemma_set_dpi_continues(first: Wire, wire: Wire, dpi: u16)
    requires
        continues(first, wire),
    ensures
        continues(first, eeprom16_set_dpi_run(wire, dpi).wire),
{
    lemma_dpi_config_continues(first, wire);
    let config = eeprom16_dpi_config_run(wire);
    if let Ok((active, levels)) = config.outcome {
        if let Ok(entry) = eeprom16_dpi_entry(dpi) {
            if let Ok(offset) = crate::courses::dpi_entry_offset(active) {
                let report = crate::reports::eeprom16_write(offset, entry)->Ok_0;
                lemma_report8_continues(first, config.wire, report, 7, 50, 5);
                let write = report8_run(config.wire, report, 7, 50, 5);
                lemma_dpi_config_continues(first, write.wire);
            }
        }
    }
}

pub proof fn lemma_ipi_response_continues(
    first: Wire,
    wire: Wire,
    report_id: u8,
    command: u8,
    left: nat,
)
    requires
        continues(first, wire),
    ensures
        continues(first, ipi_response_run(wire, report_id, command, left).wire),
    decreases left,
{
    if left > 0 {
        let get = Request::GetFeature { report_id, payload_len: 63 };
        let pause = Request::Sleep { milliseconds: 50 };
        lemma_continues_after(first, wire, get);
        lemma_continues_after(first, wire.after(get), pause);
        lemma_ipi_response_continues(
            first,
            wire.after(get).after(pause),
            report_id,
            command,
            (left - 1) as nat,
        );
    }
}

pub proof fn lemma_ipi_ask_continues(
    first: Wire,
    wire: Wire,
    report_id: u8,
    report: Seq<u8>,
    delay: nat,
)
    requires
        continues(first, wire),
    ensures
        continues(first, ipi_ask_run(wire, report_id, report, delay).wire),
{
    let send = Request::SendFeature { report_id, payload: report };
    let pause = Request::Sleep { milliseconds: delay };
    lemma_continues_after(first, wire, send);
    lemma_continues_after(first, wire.after(send), pause);
    lemma_ipi_response_continues(first, wire.after(send).after(pause), report_id, report[3], 4);
}

proof fn lemma_hidpp_matching_continues(first: Wire, wire: Wire, second: u8, left: nat)
    requires
        continues(first, wire),
    ensures
        continues(first, hidpp_matching_run(wire, second, left).wire),
    decreases left,
{
    if left > 0 {
        let read = Request::ReadInput {
            report_id: crate::payloads::HIDPP_LONG_ID,
            payload_len: 19,
            timeout_ms: 50,
        };
        lemma_continues_after(first, wire, read);
        lemma_hidpp_matching_continues(first, wire.after(read), second, (left - 1) as nat);
    }
}

pub proof fn lemma_hidpp_discover_continues(first: Wire, wire: Wire, feature_id: u16, timeout_ms: i32)
    requires
        continues(first, wire),
    ensures
        continues(first, hidpp_discover_run(wire, feature_id, timeout_ms).0),
{
    let ask = crate::courses::hidpp_discover_request(feature_id);
    lemma_continues_after(first, wire, ask);
    lemma_hidpp_matching_continues(first, wire.after(ask), 0, hidpp_reads(timeout_ms));
}

proof fn lemma_hidpp_battery_continues(first: Wire, wire: Wire)
    requires
        continues(first, wire),
    ensures
        continues(first, hidpp_battery_run(wire).wire),
{
    let unified = hidpp_discover_run(wire, 0x1004, 500).0;
    lemma_hidpp_discover_continues(first, wire, 0x1004, 500);
    lemma_hidpp_discover_continues(first, unified, 0x1000, 500);
    let (found, index) = hidpp_battery_feature_run(wire);
    assert(continues(first, found));
    if let Some(index) = index {
        let query = Request::WriteOutput {
            report_id: crate::payloads::HIDPP_SHORT_ID,
            payload: seq![crate::courses::HIDPP_DEVICE_INDEX, index, 0x1D, 0x00, 0x00, 0x00],
        };
        let pause = Request::Sleep { milliseconds: 500 };
        lemma_continues_after(first, found, query);
        lemma_continues_after(first, found.after(query), pause);
        let waited = found.after(query).after(pause);
        lemma_continues_after(first, waited, query);
        lemma_hidpp_matching_continues(first, waited.after(query), index, hidpp_reads(1_500));
    }
}

proof fn lemma_razer_response_continues(first: Wire, wire: Wire, attempt: nat)
    requires
        continues(first, wire),
    ensures
        continues(first, razer_response_run(wire, attempt).wire),
    decreases 10 - attempt,
{
    if attempt < 10 {
        let pause = Request::Sleep { milliseconds: 20 + attempt * 10 };
        let get = Request::GetFeature {
            report_id: crate::payloads::RAZER_V1_REPORT_ID,
            payload_len: 90,
        };
        lemma_continues_after(first, wire, pause);
        lemma_continues_after(first, wire.after(pause), get);
        lemma_razer_response_continues(first, wire.after(pause).after(get), attempt + 1);
    }
}

proof fn lemma_razer_continues(first: Wire, wire: Wire, command: Seq<u8>)
    requires
        continues(first, wire),
    ensures
        continues(first, razer_run(wire, command).wire),
{
    let send = Request::SendFeature {
        report_id: crate::payloads::RAZER_V1_REPORT_ID,
        payload: command,
    };
    lemma_continues_after(first, wire, send);
    lemma_razer_response_continues(first, wire.after(send), 0);
}

pub proof fn lemma_exchange_continues(
    first: Wire,
    wire: Wire,
    report_id: u8,
    payload: Seq<u8>,
    delay: nat,
    payload_len: nat,
)
    requires
        continues(first, wire),
    ensures
        continues(
            first,
            crate::courses::exchange_run(wire, report_id, payload, delay, payload_len).wire,
        ),
{
    let send = Request::SendFeature { report_id, payload };
    let pause = Request::Sleep { milliseconds: delay };
    let get = Request::GetFeature { report_id, payload_len };
    lemma_continues_after(first, wire, send);
    lemma_continues_after(first, wire.after(send), pause);
    lemma_continues_after(first, wire.after(send).after(pause), get);
}

/// Reading the rate only adds requests to those made before.
pub proof fn law_reading_rate_continues(
    wire: Wire,
    protocol: ProtocolKind,
    connection: ConnectionKind,
)
    ensures
        continues(wire, rate_run(wire, protocol, connection).wire),
{
    lemma_continues_self(wire);
    match protocol {
        ProtocolKind::Feature64 { .. } => {
            lemma_exchange_continues(
                wire,
                wire,
                0,
                crate::reports::feature64_get_rate(protocol, connection, 1),
                20,
                64,
            );
        },
        ProtocolKind::Eeprom16 => {
            lemma_report8_continues(wire, wire, crate::reports::eeprom16_get_rate(), 8, 50, 5);
        },
        ProtocolKind::IpiPixV1 { report_id } => {
            lemma_ipi_ask_continues(
                wire,
                wire,
                report_id,
                crate::reports::ipi_pix_v1_get_rate(),
                50,
            );
        },
        _ => {},
    }
}

/// Reading the battery only adds requests to those made before.
pub proof fn law_reading_battery_continues(
    wire: Wire,
    protocol: ProtocolKind,
    connection: ConnectionKind,
)
    ensures
        continues(wire, battery_run(wire, protocol, connection).wire),
{
    lemma_continues_self(wire);
    match protocol {
        ProtocolKind::Feature64 { new_protocol, .. } => {
            lemma_exchange_continues(
                wire,
                wire,
                0,
                crate::reports::feature64_get_battery(protocol, connection),
                if new_protocol {
                    100
                } else {
                    50
                },
                64,
            );
        },
        ProtocolKind::Eeprom16 => {
            lemma_report8_continues(wire, wire, crate::reports::eeprom16_get_battery(), 4, 50, 5);
        },
        ProtocolKind::IpiPixV1 { report_id } => {
            lemma_ipi_ask_continues(
                wire,
                wire,
                report_id,
                crate::reports::ipi_pix_v1_get_basic_info(),
                100,
            );
        },
        ProtocolKind::LogitechHidpp => {
            lemma_hidpp_battery_continues(wire, wire);
        },
        ProtocolKind::RazerV1 { tx_id, .. } => {
            let level = razer_run(wire, crate::courses::razer_level_command(tx_id));
            let pause = Request::Sleep { milliseconds: 60 };
            lemma_razer_continues(wire, wire, crate::courses::razer_level_command(tx_id));
            lemma_continues_after(wire, level.wire, pause);
            lemma_razer_continues(
                wire,
                level.wire.after(pause),
                crate::courses::razer_charge_command(tx_id),
            );
        },
    }
}

/// Setting the rate only adds requests to those made before.
pub proof fn law_setting_rate_continues(
    wire: Wire,
    model: ModelData,
    protocol: ProtocolKind,
    connection: ConnectionKind,
    rate: PollingRate,
)
    ensures
        continues(wire, set_rate_run(wire, model, protocol, connection, rate).wire),
{
    lemma_continues_self(wire);
    match protocol {
        ProtocolKind::Feature64 { .. } => {
            lemma_exchange_continues(
                wire,
                wire,
                0,
                crate::reports::feature64_set_rate(protocol, connection, 1, rate),
                20,
                64,
            );
        },
        ProtocolKind::Eeprom16 => {
            lemma_report8_continues(
                wire,
                wire,
                crate::reports::eeprom16_set_rate(rate),
                7,
                50,
                5,
            );
        },
        ProtocolKind::IpiPixV1 { report_id } => {
            lemma_ipi_ask_continues(
                wire,
                wire,
                report_id,
                crate::reports::ipi_pix_v1_set_rate(connection, rate),
                60,
            );
        },
        ProtocolKind::LogitechHidpp => {
            if let Some(code) = rate.logitech_hidpp_code() {
                lemma_hidpp_discover_continues(wire, wire, 0x8060, 2_000);
                let (found, index) = hidpp_discover_run(wire, 0x8060, 2_000);
                let order = crate::courses::hidpp_rate_request(
                    match index {
                        Some(index) => index,
                        None => 0x0A,
                    },
                    code,
                );
                lemma_continues_after(wire, found, order);
            }
        },
        ProtocolKind::RazerV1 { tx_id, polling_reversed } => {
            lemma_continues_after(
                wire,
                wire,
                Request::SendFeature {
                    report_id: crate::payloads::RAZER_V1_REPORT_ID,
                    payload: razer_command(
                        tx_id,
                        0x00,
                        0x40,
                        0x02,
                        seq![0x01, rate.razer_v1_mask(polling_reversed)],
                    ),
                },
            );
        },
    }
}

/// Reading and setting the resolution only add requests to those made before.
pub proof fn law_resolution_continues(wire: Wire, protocol: ProtocolKind, dpi: u16)
    ensures
        continues(wire, dpi_run(wire, protocol).wire),
        continues(wire, set_dpi_run(wire, protocol, dpi).wire),
{
    lemma_continues_self(wire);
    lemma_dpi_config_continues(wire, wire);
    lemma_set_dpi_continues(wire, wire, dpi);
}

/// Probing only adds requests to those made before.
pub proof fn law_probing_continues(
    wire: Wire,
    protocol: ProtocolKind,
    connection: ConnectionKind,
)
    ensures
        continues(wire, probe_run(wire, protocol, connection).wire),
{
    lemma_continues_self(wire);
    law_reading_rate_continues(wire, protocol, connection);
    match protocol {
        ProtocolKind::LogitechHidpp => {
            lemma_hidpp_discover_continues(wire, wire, 0x8060, 500);
        },
        ProtocolKind::RazerV1 { tx_id, .. } => {
            lemma_razer_continues(wire, wire, crate::courses::razer_level_command(tx_id));
        },
        _ => {},
    }
}

} // verus!
