//! What the memory of a report8 mouse holds after an order, and what is read
//! from it. The mouse is played by its memory: it carries out the writes that
//! were sent to it and answers each report that was not answered yet.
use crate::bytes::filled;
use crate::courses::{
    chunk_len, dpi_entry_offset, dpi_header, dpi_levels, dpi_readback_run, dpi_run,
    eeprom16_bytes_run,
    eeprom16_dpi_config_run, eeprom16_dpi_run, eeprom16_set_dpi_run, flushed, rate_run, read_bytes,
    report8_read, report8_run, set_dpi_run, set_rate_run, FLUSH_LIMIT,
};
use crate::devices::{ConnectionKind, PollingRate, ProtocolKind};
use crate::error::ErrorText;
use crate::laws::law_dpi_entry_reads_back;
use crate::models::ModelData;
use crate::payloads::{decoded_dpi_entry, with_report8_crc};
use crate::reports::{
    eeprom16_dpi_entry, eeprom16_get_rate, eeprom16_read, eeprom16_set_rate, eeprom16_write,
};
use crate::transport::{Reply, Request, Wire};
use vstd::prelude::*;

verus! {

/// Bytes of a memory replaced from an offset on.
pub open spec fn overlaid(memory: Seq<u8>, offset: int, data: Seq<u8>) -> Seq<u8> {
    Seq::new(
        memory.len(),
        |i: int|
            if offset <= i < offset + data.len() {
                data[i - offset]
            } else {
                memory[i]
            },
    )
}

/// A memory after a report: a write puts the bytes behind the fifth at the
/// offset that the fourth tells; the fifth tells how many.
pub open spec fn stored(memory: Seq<u8>, report: Seq<u8>) -> Seq<u8> {
    if report.len() == 16 && report[0] == 7 && report[4] <= 10 {
        overlaid(memory, report[3] as int, report.subrange(5, 5 + report[4] as int))
    } else {
        memory
    }
}

/// A memory after all reports that were sent.
pub open spec fn memory_after_all(memory: Seq<u8>, sent: Seq<Request>) -> Seq<u8>
    decreases sent.len(),
{
    if sent.len() == 0 {
        memory
    } else {
        let before = memory_after_all(memory, sent.drop_last());
        match sent.last() {
            Request::WriteOutput { report_id, payload } => if report_id == 8 {
                stored(before, payload)
            } else {
                before
            },
            _ => before,
        }
    }
}

/// The answer to a report: the bytes that it asks for, behind a head that names
/// them, or an acknowledgement.
pub open spec fn answer_from(memory: Seq<u8>, report: Seq<u8>) -> Seq<u8> {
    if report[0] == 8 {
        filled(
            seq![8, 0, 0, report[3], report[4]] + memory.subrange(
                report[3] as int,
                report[3] + report[4],
            ),
            16,
        )
    } else {
        report
    }
}

/// What a mouse with this memory says to the last of the requests made of it.
pub open spec fn memory_reply(memory: Seq<u8>, sent: Seq<Request>) -> Reply {
    match sent.last() {
        Request::ReadInput { .. } => if sent.len() >= 2 {
            match sent[sent.len() - 2] {
                Request::WriteOutput { payload, .. } => Ok(
                    answer_from(memory_after_all(memory, sent), payload),
                ),
                _ => Ok(seq![]),
            }
        } else {
            Ok(seq![])
        },
        _ => Ok(seq![]),
    }
}

/// Whether a mouse with this memory is at the other end of the wire.
pub open spec fn plays(wire: Wire, memory: Seq<u8>) -> bool {
    &&& memory.len() == 256
    &&& forall|sent: Seq<Request>| #[trigger] (wire.answers)(sent) == memory_reply(memory, sent)
}

/// What the memory of that mouse holds now.
pub open spec fn held(wire: Wire, memory: Seq<u8>) -> Seq<u8> {
    memory_after_all(memory, wire.sent)
}

proof fn lemma_held_len(memory: Seq<u8>, sent: Seq<Request>)
    ensures
        memory_after_all(memory, sent).len() == memory.len(),
    decreases sent.len(),
{
    if sent.len() > 0 {
        lemma_held_len(memory, sent.drop_last());
    }
}

proof fn lemma_held_after(wire: Wire, memory: Seq<u8>, request: Request)
    ensures
        held(wire.after(request), memory) == match request {
            Request::WriteOutput { report_id, payload } => if report_id == 8 {
                stored(held(wire, memory), payload)
            } else {
                held(wire, memory)
            },
            _ => held(wire, memory),
        },
{
    assert(wire.after(request).sent.drop_last() =~= wire.sent);
}

proof fn lemma_flushed_holds(wire: Wire, memory: Seq<u8>, left: nat)
    ensures
        held(flushed(wire, left), memory) == held(wire, memory),
        flushed(wire, left).answers == wire.answers,
    decreases left,
{
    let read = report8_read(1);
    lemma_held_after(wire, memory, read);
    if left > 0 && (wire.reply(read) matches Ok(bytes) && bytes.len() > 0) {
        lemma_flushed_holds(wire.after(read), memory, (left - 1) as nat);
    }
}

/// A report to such a mouse is carried out and answered.
proof fn lemma_exchange_with_memory(wire: Wire, memory: Seq<u8>, report: Seq<u8>)
    requires
        plays(wire, memory),
        report.len() == 16,
        report[0] == 7 || report[0] == 8,
        report[0] == 8 ==> report[3] + report[4] <= 256 && report[4] <= 10,
    ensures
        ({
            let run = report8_run(wire, report, report[0], 50, 5);
            let after = stored(held(wire, memory), with_report8_crc(report));
            &&& plays(run.wire, memory)
            &&& held(run.wire, memory) == after
            &&& run.outcome == Ok::<Seq<u8>, ErrorText>(answer_from(after, with_report8_crc(report)))
        }),
{
    let clean = flushed(wire, FLUSH_LIMIT as nat);
    let payload = with_report8_crc(report);
    lemma_flushed_holds(wire, memory, FLUSH_LIMIT as nat);
    let write = Request::WriteOutput { report_id: 8, payload };
    let written = clean.after(write);
    let read = report8_read(50);
    let done = written.after(read);
    lemma_held_after(clean, memory, write);
    lemma_held_after(written, memory, read);
    assert(written.sent.last() == write);
    assert(done.sent.last() == read);
    assert(done.sent[done.sent.len() - 2] == write);
    assert(payload[0] == report[0]);
    lemma_held_len(memory, done.sent);
    let after = held(done, memory);
    assert(answer_from(after, payload).len() > 0 && answer_from(after, payload)[0] == report[0]);
    assert(memory_reply(memory, written.sent) == Ok::<Seq<u8>, ErrorText>(seq![]));
    assert(memory_reply(memory, done.sent) == Ok::<Seq<u8>, ErrorText>(
        answer_from(after, payload),
    ));
}

/// Bytes that are read are those of the memory, which stays as it is.
proof fn lemma_bytes_of_memory(
    wire: Wire,
    memory: Seq<u8>,
    offset: u8,
    len: nat,
    got: Seq<u8>,
)
    requires
        plays(wire, memory),
        offset + len <= 256,
        got.len() <= len,
        got == held(wire, memory).subrange(offset as int, offset + got.len()),
    ensures
        ({
            let run = eeprom16_bytes_run(wire, offset, len, got);
            &&& plays(run.wire, memory)
            &&& held(run.wire, memory) == held(wire, memory)
            &&& run.outcome == Ok::<Seq<u8>, ErrorText>(
                held(wire, memory).subrange(offset as int, offset + len),
            )
        }),
    decreases len - got.len(),
{
    let now = held(wire, memory);
    lemma_held_len(memory, wire.sent);
    if got.len() < len {
        let chunk = chunk_len((len - got.len()) as nat);
        let place = offset + got.len();
        assert(got.len() % 256 == got.len());
        let report = eeprom16_read(place as u8, chunk as u8)->Ok_0;
        lemma_exchange_with_memory(wire, memory, report);
        let run = report8_run(wire, report, 8, 50, 5);
        let answer = answer_from(now, with_report8_crc(report));
        assert(stored(now, with_report8_crc(report)) == now);
        let bytes = now.subrange(place as int, place + chunk);
        assert(answer.subrange(5, 5 + chunk as int) =~= bytes);
        assert(answer[3] == place as u8 && answer[4] == chunk as u8);
        assert(read_bytes(answer, place, chunk) == Ok::<Seq<u8>, ErrorText>(bytes));
        assert(got + bytes =~= now.subrange(offset as int, offset + (got + bytes).len()));
        lemma_bytes_of_memory(run.wire, memory, offset, len, got + bytes);
    }
}

/// The four bytes of a level in the table of resolutions, which starts behind
/// the twelfth byte.
pub open spec fn level_bytes(memory: Seq<u8>, level: int) -> Seq<u8> {
    memory.subrange(12 + 4 * level, 16 + 4 * level)
}

/// Whether a memory holds a table of resolutions that can be read: the third
/// byte tells how many levels there are, and the fifth which is active.
pub open spec fn has_levels(memory: Seq<u8>) -> bool {
    &&& memory.len() == 256
    &&& 0 < memory[2] <= 61
    &&& memory[4] < memory[2]
    &&& forall|level: int|
        0 <= level < memory[2] ==> decoded_dpi_entry(#[trigger] level_bytes(memory, level)) is Ok
}

/// The resolution of a level.
pub open spec fn level_dpi(memory: Seq<u8>, level: int) -> u16 {
    decoded_dpi_entry(level_bytes(memory, level))->Ok_0
}

proof fn lemma_levels_of_table(memory: Seq<u8>, table: Seq<u8>, count: nat)
    requires
        has_levels(memory),
        count <= memory[2],
        table == memory.subrange(12, 12 + 4 * memory[2]),
    ensures
        dpi_levels(table, count) matches Ok(levels) && levels.len() == count && (forall|level: int|
            0 <= level < count ==> #[trigger] levels[level] == level_dpi(memory, level)),
    decreases count,
{
    if count > 0 {
        lemma_levels_of_table(memory, table, (count - 1) as nat);
        assert(table.subrange(4 * (count - 1), 4 * count as int) =~= level_bytes(
            memory,
            count - 1,
        ));
    }
}

proof fn lemma_config_of_memory(wire: Wire, memory: Seq<u8>)
    requires
        plays(wire, memory),
        has_levels(held(wire, memory)),
    ensures
        ({
            let now = held(wire, memory);
            let run = eeprom16_dpi_config_run(wire);
            &&& plays(run.wire, memory)
            &&& held(run.wire, memory) == now
            &&& run.outcome matches Ok((active, levels)) && active == now[4] && levels.len()
                == now[2] && (forall|level: int|
                0 <= level < now[2] ==> #[trigger] levels[level] == level_dpi(now, level))
        }),
{
    let now = held(wire, memory);
    assert(Seq::<u8>::empty() =~= now.subrange(0, 0));
    lemma_bytes_of_memory(wire, memory, 0, 6, seq![]);
    let head = eeprom16_bytes_run(wire, 0, 6, seq![]);
    let header = now.subrange(0, 6);
    assert(header[2] == now[2] && header[4] == now[4]);
    assert(dpi_header(header) == Ok::<(nat, nat), ErrorText>((now[2] as nat, now[4] as nat)));
    let count = now[2] as nat;
    assert(Seq::<u8>::empty() =~= now.subrange(12, 12));
    lemma_bytes_of_memory(head.wire, memory, 12, count * 4, seq![]);
    lemma_levels_of_table(now, now.subrange(12, 12 + 4 * now[2]), count);
    assert(now.subrange(12, 12 + (count * 4) as int) == now.subrange(12, 12 + 4 * now[2]));
}

/// The resolution that is read is that of the active level, as the memory holds
/// it.
pub proof fn law_active_resolution_is_read(wire: Wire, memory: Seq<u8>)
    requires
        plays(wire, memory),
        has_levels(held(wire, memory)),
    ensures
        ({
            let now = held(wire, memory);
            let run = dpi_run(wire, ProtocolKind::Eeprom16);
            &&& run.outcome == Ok::<u16, ErrorText>(level_dpi(now, now[4] as int))
            &&& held(run.wire, memory) == now
        }),
{
    lemma_config_of_memory(wire, memory);
}

/// A resolution that can be stored is set in the active level and in no other:
/// the write goes to the four bytes from which a read takes that level, all
/// other bytes stay, and a read afterwards gives the resolution that was set.
pub proof fn law_set_resolutions_are_read_back(wire: Wire, memory: Seq<u8>, dpi: u16)
    requires
        plays(wire, memory),
        has_levels(held(wire, memory)),
        50 <= dpi <= 12800,
        dpi % 50 == 0,
    ensures
        ({
            let before = held(wire, memory);
            let active = before[4] as int;
            let run = set_dpi_run(wire, ProtocolKind::Eeprom16, dpi);
            let after = held(run.wire, memory);
            &&& run.outcome is Ok
            &&& plays(run.wire, memory)
            &&& has_levels(after)
            &&& level_dpi(after, active) == dpi
            &&& forall|level: int|
                0 <= level < before[2] && level != active ==> #[trigger] level_bytes(after, level)
                    == level_bytes(before, level)
            &&& forall|i: int|
                0 <= i < 256 && !(12 + 4 * active <= i < 16 + 4 * active) ==> #[trigger] after[i]
                    == before[i]
            &&& dpi_run(run.wire, ProtocolKind::Eeprom16).outcome == Ok::<u16, ErrorText>(dpi)
        }),
{
    let before = held(wire, memory);
    let active = before[4] as int;
    lemma_config_of_memory(wire, memory);
    let config = eeprom16_dpi_config_run(wire);
    law_dpi_entry_reads_back(dpi);
    let entry = eeprom16_dpi_entry(dpi)->Ok_0;
    let offset = (12 + 4 * active) as u8;
    assert(dpi_entry_offset(active as nat) == Ok::<u8, ErrorText>(offset));
    let order = eeprom16_write(offset, entry)->Ok_0;
    lemma_exchange_with_memory(config.wire, memory, order);
    let payload = with_report8_crc(order);
    let after = stored(before, payload);
    assert(payload[3] == offset && payload[4] == 4);
    assert(payload.subrange(5, 9) =~= entry);
    let run = eeprom16_set_dpi_run(wire, dpi);
    assert(held(run.wire, memory) == after);
    assert(after =~= overlaid(before, 12 + 4 * active, entry));
    assert(level_bytes(after, active) =~= entry);
    assert forall|level: int| 0 <= level < before[2] && level != active implies #[trigger] level_bytes(
        after,
        level,
    ) == level_bytes(before, level) by {
        assert(level_bytes(after, level) =~= level_bytes(before, level));
    }
    assert forall|level: int| 0 <= level < after[2] implies decoded_dpi_entry(
        #[trigger] level_bytes(after, level),
    ) is Ok by {
        if level != active {
            assert(level_bytes(after, level) == level_bytes(before, level));
            assert(decoded_dpi_entry(level_bytes(before, level)) is Ok);
        }
    }
    law_active_resolution_is_read(run.wire, memory);
}

/// A resolution that cannot be stored is refused, and the memory stays.
pub proof fn law_other_resolutions_are_refused(wire: Wire, memory: Seq<u8>, dpi: u16)
    requires
        plays(wire, memory),
        has_levels(held(wire, memory)),
        !(50 <= dpi <= 12800 && dpi % 50 == 0),
    ensures
        ({
            let run = set_dpi_run(wire, ProtocolKind::Eeprom16, dpi);
            &&& run.outcome is Err
            &&& held(run.wire, memory) == held(wire, memory)
        }),
{
    lemma_config_of_memory(wire, memory);
}

/// The rate that is read is the one whose code the memory holds in its first
/// byte.
pub proof fn law_rate_in_memory_is_read(
    wire: Wire,
    memory: Seq<u8>,
    connection: ConnectionKind,
    rate: PollingRate,
)
    requires
        plays(wire, memory),
        held(wire, memory)[0] == rate.eeprom16_code(),
    ensures
        ({
            let run = rate_run(wire, ProtocolKind::Eeprom16, connection);
            &&& run.outcome == Ok::<PollingRate, ErrorText>(rate)
            &&& plays(run.wire, memory)
            &&& held(run.wire, memory) == held(wire, memory)
        }),
{
    let now = held(wire, memory);
    lemma_held_len(memory, wire.sent);
    lemma_exchange_with_memory(wire, memory, eeprom16_get_rate());
    let answer = answer_from(now, with_report8_crc(eeprom16_get_rate()));
    assert(stored(now, with_report8_crc(eeprom16_get_rate())) == now);
    assert(answer[5] == now.subrange(0, 2)[0]);
}

/// A rate that is set reads back: the order puts its code into the first byte
/// of the memory and its complement into the second, and leaves the rest.
pub proof fn law_set_rates_are_read_back(
    wire: Wire,
    memory: Seq<u8>,
    model: ModelData,
    connection: ConnectionKind,
    rate: PollingRate,
)
    requires
        plays(wire, memory),
        model.rates_for(connection).contains(rate),
    ensures
        ({
            let run = set_rate_run(wire, model, ProtocolKind::Eeprom16, connection, rate);
            let before = held(wire, memory);
            let after = held(run.wire, memory);
            &&& run.outcome is Ok
            &&& plays(run.wire, memory)
            &&& after[0] == rate.eeprom16_code()
            &&& after[0] + after[1] == 85
            &&& forall|i: int| 2 <= i < 256 ==> #[trigger] after[i] == before[i]
            &&& rate_run(run.wire, ProtocolKind::Eeprom16, connection).outcome == Ok::<
                PollingRate,
                ErrorText,
            >(rate)
        }),
{
    let before = held(wire, memory);
    lemma_held_len(memory, wire.sent);
    let order = eeprom16_set_rate(rate);
    lemma_exchange_with_memory(wire, memory, order);
    let payload = with_report8_crc(order);
    let run = set_rate_run(wire, model, ProtocolKind::Eeprom16, connection, rate);
    let after = held(run.wire, memory);
    assert(payload[3] == 0 && payload[4] == 2);
    assert(payload.subrange(5, 7)[0] == rate.eeprom16_code());
    assert(payload.subrange(5, 7)[1] == 85 - rate.eeprom16_code());
    assert(after == overlaid(before, 0, payload.subrange(5, 7)));
    law_rate_in_memory_is_read(run.wire, memory, connection, rate);
}

/// The head of the memory tells how many levels there are and which is active;
/// it makes sense where there is at least one and the active one is among them.
pub proof fn law_level_heads(header: Seq<u8>)
    ensures
        dpi_header(header) is Ok <==> header.len() > 4 && 0 < header[2] && header[4] < header[2],
        dpi_header(header) matches Ok((count, active)) ==> count == header[2] && active
            == header[4],
        dpi_header(header) matches Err(e) ==> {
            &&& header.len() <= 2 ==> e.message
                == "short report8 header while reading DPI level count"@
            &&& header.len() > 2 && header[2] == 0 ==> e.message
                == "device returned zero report8 DPI levels"@
            &&& 2 < header.len() <= 4 && header[2] > 0 ==> e.message
                == "short report8 header while reading active DPI level"@
        },
{
}

/// An answer with bytes of the memory counts just where it names the offset and
/// the length that were asked for and holds as many bytes behind them.
pub proof fn law_answers_name_their_bytes(answer: Seq<u8>, offset: u8, len: nat)
    requires
        len <= 10,
    ensures
        read_bytes(answer, offset as int, len) is Ok <==> answer.len() >= 5 + len && answer[3]
            == offset && answer[4] == len,
        read_bytes(answer, offset as int, len) matches Ok(bytes) ==> bytes == answer.subrange(
            5,
            5 + len as int,
        ),
{
}

/// The table of resolutions reaches as far as the memory can be named.
pub proof fn law_level_places(level: nat)
    ensures
        dpi_entry_offset(level) is Ok <==> level <= 60,
        dpi_entry_offset(level) matches Ok(offset) ==> offset == 12 + 4 * level,
{
}

/// A write that is not acknowledged still counts where the resolution reads
/// back, and only there.
pub proof fn law_unacknowledged_resolutions(wire: Wire, dpi: u16, error: ErrorText)
    ensures
        ({
            let back = eeprom16_dpi_run(wire);
            let run = dpi_readback_run(wire, dpi, error);
            &&& run.wire == back.wire
            &&& run.outcome is Ok <==> back.outcome == Ok::<u16, ErrorText>(dpi)
        }),
{
}

/// A resolution that can be stored is written once the levels are known; what
/// then counts is the answer to the write, or else what reads back.
pub proof fn law_resolutions_are_written(wire: Wire, dpi: u16, active: nat, levels: Seq<u16>)
    requires
        eeprom16_dpi_config_run(wire).outcome == Ok::<(nat, Seq<u16>), ErrorText>((active, levels)),
        50 <= dpi <= 12800,
        dpi % 50 == 0,
        active <= 60,
    ensures
        ({
            let known = eeprom16_dpi_config_run(wire);
            let entry = eeprom16_dpi_entry(dpi)->Ok_0;
            let order = eeprom16_write((12 + 4 * active) as u8, entry)->Ok_0;
            let write = report8_run(known.wire, order, 7, 50, 5);
            let run = eeprom16_set_dpi_run(wire, dpi);
            &&& write.outcome is Ok ==> run.outcome is Ok && run.wire == write.wire
            &&& write.outcome is Err ==> (run.outcome is Ok <==> eeprom16_dpi_run(
                write.wire,
            ).outcome == Ok::<u16, ErrorText>(dpi))
        }),
{
}

/// Resolutions are read and set in the one protocol that shows the memory; in
/// any other nothing is sent for them.
pub proof fn law_resolutions_of_other_mice(wire: Wire, protocol: ProtocolKind, dpi: u16)
    requires
        !(protocol is Eeprom16),
    ensures
        dpi_run(wire, protocol).wire == wire && dpi_run(wire, protocol).outcome is Err,
        set_dpi_run(wire, protocol, dpi).wire == wire && set_dpi_run(wire, protocol, dpi).outcome
            is Err,
{
}

} // verus!
