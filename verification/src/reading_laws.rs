//! What reading from a device never does: no rate is ordered and no memory is
//! written.
use crate::courses::{
    battery_run, chunk_len, dpi_header, dpi_run, eeprom16_bytes_run, exchange_run, flushed,
    hidpp_battery_feature_run, hidpp_battery_run, hidpp_discover_request, hidpp_discover_run,
    hidpp_matching_run, hidpp_reads, ipi_ask_run, ipi_response_run, probe_run, rate_run,
    razer_battery_run, razer_charge_command, razer_level_command, razer_response_run, razer_run,
    read_bytes, report8_read, report8_run, report8_tries, DEFAULT_PROFILE, FLUSH_LIMIT,
    HIDPP_DEVICE_INDEX,
};
use crate::device_laws::is_rate_order;
use crate::devices::{ConnectionKind, PollingRate, ProtocolKind};
use crate::laws::{continues, lemma_continues_after, lemma_continues_self};
use crate::payloads::{
    razer_command, with_report8_crc, FEATURE_REPORT_ID, HIDPP_LONG_ID, HIDPP_SHORT_ID,
    RAZER_V1_REPORT_ID, REPORT8_ID,
};
use crate::probing::{diagnosis_run, live_probe_run};
use crate::reports::{
    eeprom16_get_battery, eeprom16_get_rate, eeprom16_read, eeprom16_set_rate,
    feature64_get_battery, feature64_get_rate, feature64_set_rate, ipi_pix_v1_get_basic_info,
    ipi_pix_v1_get_rate, ipi_pix_v1_set_rate, EEPROM16_DPI_TABLE_OFFSET,
};
use crate::transport::{Request, Wire};
use vstd::prelude::*;

verus! {

/// The report8 command that writes memory.
pub const REPORT8_WRITE: u8 = 7;

/// Whether a request writes the memory of a report8 mouse, where its rate and
/// its resolutions are kept.
pub open spec fn writes_memory(request: Request) -> bool {
    request matches Request::WriteOutput { report_id, payload } && report_id == REPORT8_ID
        && payload.len() > 0 && payload[0] == REPORT8_WRITE
}

/// Whether a request is no order to a device: it sets no rate, in whatever
/// protocol it is read, and writes no memory.
pub open spec fn orders_nothing(request: Request) -> bool {
    &&& !writes_memory(request)
    &&& forall|protocol: ProtocolKind, connection: ConnectionKind, rate: PollingRate|
        !#[trigger] is_rate_order(protocol, connection, rate, request)
}

/// Whether `after` is the same wire with more requests made, none of which is
/// an order.
pub open spec fn only_read(before: Wire, after: Wire) -> bool {
    &&& continues(before, after)
    &&& forall|i: int|
        before.sent.len() <= i < after.sent.len() ==> orders_nothing(#[trigger] after.sent[i])
}

/// The bytes by which the orders are known.
proof fn lemma_order_bytes(protocol: ProtocolKind, connection: ConnectionKind, rate: PollingRate)
    ensures
        match protocol {
            ProtocolKind::Feature64 { new_protocol, .. } => {
                let order = feature64_set_rate(protocol, connection, DEFAULT_PROFILE, rate);
                &&& order.len() == 64
                &&& if new_protocol {
                    order[1] == 0 && order[4] == 1 && order[5] == 0
                } else {
                    order[1] == 2 && order[2] == 2
                }
            },
            ProtocolKind::Eeprom16 => {
                let order = with_report8_crc(eeprom16_set_rate(rate));
                order.len() == 16 && order[0] == REPORT8_WRITE
            },
            ProtocolKind::IpiPixV1 { .. } => {
                let order = ipi_pix_v1_set_rate(connection, rate);
                order.len() == 63 && order[2] == 1
            },
            ProtocolKind::RazerV1 { tx_id, polling_reversed } => {
                let order = razer_command(
                    tx_id,
                    0x00,
                    0x40,
                    0x02,
                    seq![0x01, rate.razer_v1_mask(polling_reversed)],
                );
                order.len() == 90 && order[6] == 0x00
            },
            ProtocolKind::LogitechHidpp => true,
        },
{
}

/// A feature report without the marks of an order orders nothing. The reports of
/// the protocols differ in length.
proof fn lemma_feature_questions(report_id: u8, payload: Seq<u8>)
    requires
        payload.len() == 64 ==> {
            &&& payload[1] == 0 ==> payload[4] != 1 || payload[5] != 0
            &&& payload[1] == 2 ==> payload[2] != 2
        },
        payload.len() == 63 ==> payload[2] != 1,
        payload.len() == 90 ==> payload[6] != 0,
    ensures
        orders_nothing(Request::SendFeature { report_id, payload }),
{
    let question = Request::SendFeature { report_id, payload };
    assert forall|p: ProtocolKind, c: ConnectionKind, rate: PollingRate|
        !#[trigger] is_rate_order(p, c, rate, question) by {
        lemma_order_bytes(p, c, rate);
    }
}

/// A report8 command other than the write orders nothing.
proof fn lemma_report8_questions(payload: Seq<u8>)
    requires
        payload.len() == 16,
        payload[0] != REPORT8_WRITE,
    ensures
        orders_nothing(
            Request::WriteOutput { report_id: REPORT8_ID, payload: with_report8_crc(payload) },
        ),
{
    let question = Request::WriteOutput {
        report_id: REPORT8_ID,
        payload: with_report8_crc(payload),
    };
    assert(with_report8_crc(payload)[0] == payload[0]);
    assert forall|p: ProtocolKind, c: ConnectionKind, rate: PollingRate|
        !#[trigger] is_rate_order(p, c, rate, question) by {
        lemma_order_bytes(p, c, rate);
    }
}

/// A HID++ report to the device itself orders nothing: orders go to all
/// devices of a receiver.
proof fn lemma_hidpp_questions(payload: Seq<u8>)
    requires
        payload.len() == 6,
        payload[0] == HIDPP_DEVICE_INDEX,
    ensures
        orders_nothing(Request::WriteOutput { report_id: HIDPP_SHORT_ID, payload }),
{
    let question = Request::WriteOutput { report_id: HIDPP_SHORT_ID, payload };
    assert forall|p: ProtocolKind, c: ConnectionKind, rate: PollingRate|
        !#[trigger] is_rate_order(p, c, rate, question) by {
        lemma_order_bytes(p, c, rate);
    }
}

proof fn lemma_only_read_after(first: Wire, wire: Wire, request: Request)
    requires
        only_read(first, wire),
        orders_nothing(request),
    ensures
        only_read(first, wire.after(request)),
{
    lemma_continues_after(first, wire, request);
    let after = wire.after(request);
    assert forall|i: int| first.sent.len() <= i < after.sent.len() implies orders_nothing(
        #[trigger] after.sent[i],
    ) by {
        if i < wire.sent.len() {
            assert(after.sent[i] == wire.sent[i]);
        }
    }
}

proof fn lemma_only_read_self(wire: Wire)
    ensures
        only_read(wire, wire),
{
    lemma_continues_self(wire);
}

proof fn lemma_exchange_only_reads(
    first: Wire,
    wire: Wire,
    report_id: u8,
    payload: Seq<u8>,
    delay: nat,
    payload_len: nat,
)
    requires
        only_read(first, wire),
        orders_nothing(Request::SendFeature { report_id, payload }),
    ensures
        only_read(first, exchange_run(wire, report_id, payload, delay, payload_len).wire),
{
    let send = Request::SendFeature { report_id, payload };
    let pause = Request::Sleep { milliseconds: delay };
    let get = Request::GetFeature { report_id, payload_len };
    lemma_only_read_after(first, wire, send);
    lemma_only_read_after(first, wire.after(send), pause);
    lemma_only_read_after(first, wire.after(send).after(pause), get);
}

proof fn lemma_flushed_only_reads(first: Wire, wire: Wire, left: nat)
    requires
        only_read(first, wire),
    ensures
        only_read(first, flushed(wire, left)),
    decreases left,
{
    let read = report8_read(1);
    lemma_only_read_after(first, wire, read);
    if left > 0 && (wire.reply(read) matches Ok(bytes) && bytes.len() > 0) {
        lemma_flushed_only_reads(first, wire.after(read), (left - 1) as nat);
    }
}

proof fn lemma_tries_only_read(
    first: Wire,
    wire: Wire,
    payload: Seq<u8>,
    command: u8,
    delay: int,
    left: nat,
    attempts: nat,
)
    requires
        only_read(first, wire),
        orders_nothing(Request::WriteOutput { report_id: REPORT8_ID, payload }),
    ensures
        only_read(first, report8_tries(wire, payload, command, delay, left, attempts).wire),
    decreases left,
{
    if left > 0 {
        let write = Request::WriteOutput { report_id: REPORT8_ID, payload };
        let written = wire.after(write);
        let read = report8_read(delay);
        lemma_only_read_after(first, wire, write);
        lemma_only_read_after(first, written, read);
        lemma_tries_only_read(
            first,
            written.after(read),
            payload,
            command,
            delay,
            (left - 1) as nat,
            attempts,
        );
    }
}

proof fn lemma_report8_only_reads(
    first: Wire,
    wire: Wire,
    payload: Seq<u8>,
    command: u8,
    delay: int,
    attempts: nat,
)
    requires
        only_read(first, wire),
        payload.len() == 16,
        payload[0] != REPORT8_WRITE,
    ensures
        only_read(first, report8_run(wire, payload, command, delay, attempts).wire),
{
    lemma_report8_questions(payload);
    lemma_flushed_only_reads(first, wire, FLUSH_LIMIT as nat);
    lemma_tries_only_read(
        first,
        flushed(wire, FLUSH_LIMIT as nat),
        with_report8_crc(payload),
        command,
        delay,
        attempts,
        attempts,
    );
}

proof fn lemma_eeprom16_bytes_only_reads(
    first: Wire,
    wire: Wire,
    offset: u8,
    len: nat,
    got: Seq<u8>,
)
    requires
        only_read(first, wire),
    ensures
        only_read(first, eeprom16_bytes_run(wire, offset, len, got).wire),
    decreases len - got.len(),
{
    if got.len() < len {
        let chunk = chunk_len((len - got.len()) as nat);
        let place = offset + got.len() % 256;
        if place <= 255 {
            let report = eeprom16_read(place as u8, chunk as u8)->Ok_0;
            lemma_report8_only_reads(first, wire, report, 8, 50, 5);
            let answer = report8_run(wire, report, 8, 50, 5);
            if let Ok(response) = answer.outcome {
                if let Ok(bytes) = read_bytes(response, place, chunk) {
                    lemma_eeprom16_bytes_only_reads(first, answer.wire, offset, len, got + bytes);
                }
            }
        }
    }
}

proof fn lemma_ipi_response_only_reads(
    first: Wire,
    wire: Wire,
    report_id: u8,
    command: u8,
    left: nat,
)
    requires
        only_read(first, wire),
    ensures
        only_read(first, ipi_response_run(wire, report_id, command, left).wire),
    decreases left,
{
    if left > 0 {
        let get = Request::GetFeature { report_id, payload_len: 63 };
        let pause = Request::Sleep { milliseconds: 50 };
        lemma_only_read_after(first, wire, get);
        lemma_only_read_after(first, wire.after(get), pause);
        lemma_ipi_response_only_reads(
            first,
            wire.after(get).after(pause),
            report_id,
            command,
            (left - 1) as nat,
        );
    }
}

proof fn lemma_ipi_ask_only_reads(
    first: Wire,
    wire: Wire,
    report_id: u8,
    report: Seq<u8>,
    delay: nat,
)
    requires
        only_read(first, wire),
        orders_nothing(Request::SendFeature { report_id, payload: report }),
    ensures
        only_read(first, ipi_ask_run(wire, report_id, report, delay).wire),
{
    let send = Request::SendFeature { report_id, payload: report };
    let pause = Request::Sleep { milliseconds: delay };
    lemma_only_read_after(first, wire, send);
    lemma_only_read_after(first, wire.after(send), pause);
    lemma_ipi_response_only_reads(first, wire.after(send).after(pause), report_id, report[3], 4);
}

proof fn lemma_hidpp_matching_only_reads(first: Wire, wire: Wire, second: u8, left: nat)
    requires
        only_read(first, wire),
    ensures
        only_read(first, hidpp_matching_run(wire, second, left).wire),
    decreases left,
{
    if left > 0 {
        let read = Request::ReadInput { report_id: HIDPP_LONG_ID, payload_len: 19, timeout_ms: 50 };
        lemma_only_read_after(first, wire, read);
        lemma_hidpp_matching_only_reads(first, wire.after(read), second, (left - 1) as nat);
    }
}

proof fn lemma_hidpp_discover_only_reads(
    first: Wire,
    wire: Wire,
    feature_id: u16,
    timeout_ms: i32,
)
    requires
        only_read(first, wire),
    ensures
        only_read(first, hidpp_discover_run(wire, feature_id, timeout_ms).0),
{
    let ask = hidpp_discover_request(feature_id);
    lemma_hidpp_questions(ask->WriteOutput_payload);
    lemma_only_read_after(first, wire, ask);
    lemma_hidpp_matching_only_reads(first, wire.after(ask), 0, hidpp_reads(timeout_ms));
}

proof fn lemma_hidpp_battery_only_reads(first: Wire, wire: Wire)
    requires
        only_read(first, wire),
    ensures
        only_read(first, hidpp_battery_run(wire).wire),
{
    let unified = hidpp_discover_run(wire, 0x1004, 500).0;
    lemma_hidpp_discover_only_reads(first, wire, 0x1004, 500);
    lemma_hidpp_discover_only_reads(first, unified, 0x1000, 500);
    let (found, index) = hidpp_battery_feature_run(wire);
    assert(only_read(first, found));
    if let Some(index) = index {
        let payload = seq![HIDPP_DEVICE_INDEX, index, 0x1D, 0x00, 0x00, 0x00];
        let query = Request::WriteOutput { report_id: HIDPP_SHORT_ID, payload };
        let pause = Request::Sleep { milliseconds: 500 };
        lemma_hidpp_questions(payload);
        lemma_only_read_after(first, found, query);
        lemma_only_read_after(first, found.after(query), pause);
        let waited = found.after(query).after(pause);
        lemma_only_read_after(first, waited, query);
        lemma_hidpp_matching_only_reads(first, waited.after(query), index, hidpp_reads(1_500));
    }
}

proof fn lemma_razer_response_only_reads(first: Wire, wire: Wire, attempt: nat)
    requires
        only_read(first, wire),
    ensures
        only_read(first, razer_response_run(wire, attempt).wire),
    decreases 10 - attempt,
{
    if attempt < 10 {
        let pause = Request::Sleep { milliseconds: 20 + attempt * 10 };
        let get = Request::GetFeature { report_id: RAZER_V1_REPORT_ID, payload_len: 90 };
        lemma_only_read_after(first, wire, pause);
        lemma_only_read_after(first, wire.after(pause), get);
        lemma_razer_response_only_reads(first, wire.after(pause).after(get), attempt + 1);
    }
}

proof fn lemma_razer_only_reads(first: Wire, wire: Wire, command: Seq<u8>)
    requires
        only_read(first, wire),
        orders_nothing(Request::SendFeature { report_id: RAZER_V1_REPORT_ID, payload: command }),
    ensures
        only_read(first, razer_run(wire, command).wire),
{
    let send = Request::SendFeature { report_id: RAZER_V1_REPORT_ID, payload: command };
    lemma_only_read_after(first, wire, send);
    lemma_razer_response_only_reads(first, wire.after(send), 0);
}

proof fn lemma_razer_battery_only_reads(first: Wire, wire: Wire, tx_id: u8)
    requires
        only_read(first, wire),
    ensures
        only_read(first, razer_battery_run(wire, tx_id).wire),
{
    let level = razer_run(wire, razer_level_command(tx_id));
    let pause = Request::Sleep { milliseconds: 60 };
    lemma_feature_questions(RAZER_V1_REPORT_ID, razer_level_command(tx_id));
    lemma_feature_questions(RAZER_V1_REPORT_ID, razer_charge_command(tx_id));
    lemma_razer_only_reads(first, wire, razer_level_command(tx_id));
    lemma_only_read_after(first, level.wire, pause);
    lemma_razer_only_reads(first, level.wire.after(pause), razer_charge_command(tx_id));
}

proof fn lemma_rate_only_reads(
    first: Wire,
    wire: Wire,
    protocol: ProtocolKind,
    connection: ConnectionKind,
)
    requires
        only_read(first, wire),
    ensures
        only_read(first, rate_run(wire, protocol, connection).wire),
{
    match protocol {
        ProtocolKind::Feature64 { .. } => {
            let question = feature64_get_rate(protocol, connection, DEFAULT_PROFILE);
            lemma_feature_questions(FEATURE_REPORT_ID, question);
            lemma_exchange_only_reads(first, wire, FEATURE_REPORT_ID, question, 20, 64);
        },
        ProtocolKind::Eeprom16 => {
            lemma_report8_only_reads(first, wire, eeprom16_get_rate(), 8, 50, 5);
        },
        ProtocolKind::IpiPixV1 { report_id } => {
            lemma_feature_questions(report_id, ipi_pix_v1_get_rate());
            lemma_ipi_ask_only_reads(first, wire, report_id, ipi_pix_v1_get_rate(), 50);
        },
        _ => {},
    }
}

proof fn lemma_battery_only_reads(
    first: Wire,
    wire: Wire,
    protocol: ProtocolKind,
    connection: ConnectionKind,
)
    requires
        only_read(first, wire),
    ensures
        only_read(first, battery_run(wire, protocol, connection).wire),
{
    match protocol {
        ProtocolKind::Feature64 { new_protocol, .. } => {
            let question = feature64_get_battery(protocol, connection);
            lemma_feature_questions(FEATURE_REPORT_ID, question);
            lemma_exchange_only_reads(
                first,
                wire,
                FEATURE_REPORT_ID,
                question,
                if new_protocol {
                    100
                } else {
                    50
                },
                64,
            );
        },
        ProtocolKind::Eeprom16 => {
            lemma_report8_only_reads(first, wire, eeprom16_get_battery(), 4, 50, 5);
        },
        ProtocolKind::IpiPixV1 { report_id } => {
            lemma_feature_questions(report_id, ipi_pix_v1_get_basic_info());
            lemma_ipi_ask_only_reads(first, wire, report_id, ipi_pix_v1_get_basic_info(), 100);
        },
        ProtocolKind::LogitechHidpp => lemma_hidpp_battery_only_reads(first, wire),
        ProtocolKind::RazerV1 { tx_id, .. } => lemma_razer_battery_only_reads(first, wire, tx_id),
    }
}

/// Reading the rate orders nothing from a device.
pub proof fn law_reading_rate_orders_nothing(
    wire: Wire,
    protocol: ProtocolKind,
    connection: ConnectionKind,
)
    ensures
        only_read(wire, rate_run(wire, protocol, connection).wire),
{
    lemma_only_read_self(wire);
    lemma_rate_only_reads(wire, wire, protocol, connection);
}

/// Reading the battery orders nothing from a device.
pub proof fn law_reading_battery_orders_nothing(
    wire: Wire,
    protocol: ProtocolKind,
    connection: ConnectionKind,
)
    ensures
        only_read(wire, battery_run(wire, protocol, connection).wire),
{
    lemma_only_read_self(wire);
    lemma_battery_only_reads(wire, wire, protocol, connection);
}

/// Reading the resolution orders nothing from a device.
pub proof fn law_reading_dpi_orders_nothing(wire: Wire, protocol: ProtocolKind)
    ensures
        only_read(wire, dpi_run(wire, protocol).wire),
{
    lemma_only_read_self(wire);
    let head = eeprom16_bytes_run(wire, 0, 6, seq![]);
    lemma_eeprom16_bytes_only_reads(wire, wire, 0, 6, seq![]);
    if let Ok(header) = head.outcome {
        if let Ok((count, _)) = dpi_header(header) {
            lemma_eeprom16_bytes_only_reads(
                wire,
                head.wire,
                EEPROM16_DPI_TABLE_OFFSET,
                count * 4,
                seq![],
            );
        }
    }
}

/// Finding out whether a device answers orders nothing from it.
pub proof fn law_probing_control_orders_nothing(
    wire: Wire,
    protocol: ProtocolKind,
    connection: ConnectionKind,
)
    ensures
        only_read(wire, probe_run(wire, protocol, connection).wire),
{
    lemma_only_read_self(wire);
    match protocol {
        ProtocolKind::LogitechHidpp => lemma_hidpp_discover_only_reads(wire, wire, 0x8060, 500),
        ProtocolKind::RazerV1 { tx_id, .. } => {
            lemma_feature_questions(RAZER_V1_REPORT_ID, razer_level_command(tx_id));
            lemma_razer_only_reads(wire, wire, razer_level_command(tx_id));
        },
        _ => lemma_rate_only_reads(wire, wire, protocol, connection),
    }
}

/// Questioning a device in a scan orders nothing from it, in whichever protocol
/// it is tried.
pub proof fn law_scanning_orders_nothing(
    wire: Wire,
    protocol: ProtocolKind,
    connection: ConnectionKind,
)
    ensures
        only_read(wire, live_probe_run(wire, protocol, connection).wire),
{
    lemma_only_read_self(wire);
    let asked = if protocol.supports_rate_read() {
        rate_run(wire, protocol, connection).wire
    } else {
        wire
    };
    lemma_rate_only_reads(wire, wire, protocol, connection);
    lemma_battery_only_reads(wire, asked, protocol, connection);
}

/// Diagnosing a device orders nothing from it: no rate and no resolution is set.
pub proof fn law_diagnosing_orders_nothing(
    wire: Wire,
    protocol: ProtocolKind,
    connection: ConnectionKind,
)
    ensures
        only_read(wire, diagnosis_run(wire, protocol, connection).0),
{
    law_probing_control_orders_nothing(wire, protocol, connection);
    let control = probe_run(wire, protocol, connection).wire;
    let asked = if protocol.supports_rate_read() {
        rate_run(control, protocol, connection).wire
    } else {
        control
    };
    lemma_rate_only_reads(wire, control, protocol, connection);
    lemma_battery_only_reads(wire, asked, protocol, connection);
}

} // verus!
