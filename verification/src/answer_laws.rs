//! What is made of the answers of a mouse, in terms of the bytes that it sent
//! and of the requests that went out before them.
use crate::courses::{
    battery_run, flushed, hidpp_discover_run, hidpp_matching_run, hidpp_reads, ipi_ask_run,
    ipi_dpi_answer_run, ipi_dpi_config_run, ipi_made_order_run, ipi_pages_run, ipi_response_run,
    probe_run, rate_run, razer_charge_command, razer_level_command, razer_response_run, razer_run,
    report8_read, report8_run, report8_tries, set_rate_run, Run, FLUSH_LIMIT,
};
use crate::devices::{BatteryStatus, ChargeState, ConnectionKind, PollingRate, ProtocolKind};
use crate::error::{DeviceError, ErrorText};
use crate::models::ModelData;
use crate::payloads::{
    feature_payload, hidpp_payload, ipi_payload, razer_command, report_payload, with_report8_crc,
};
use crate::protocols::ProtocolDevice;
use crate::reports::{
    eeprom16_get_battery, eeprom16_get_rate, eeprom16_set_rate, feature64_get_battery,
    feature64_get_rate, feature64_set_rate, ipi_pix_v1_get_basic_info, ipi_pix_v1_get_rate,
    ipi_pix_v1_set_rate,
};
use crate::transport::{
    feature_reads_in, input_reads_in, scripted_reply, DeviceTransport, Reply, Request, Wire,
};
use vstd::prelude::*;

verus! {

/// The reply to the last request that was made.
pub open spec fn last_reply(wire: Wire) -> Reply {
    (wire.answers)(wire.sent)
}

/// The rate of a mouse with 64-byte reports is asked for with one report and
/// read from the one that answers, at byte 8 in the new form and at byte 5 in
/// the old; one place earlier where the answer lacks its first byte. An old
/// wired mouse says 64 and means 1000. Where the question or the answer fails,
/// so does the read.
pub proof fn law_feature64_rate_is_read(
    wire: Wire,
    new_protocol: bool,
    wired_device_id: u8,
    connection: ConnectionKind,
)
    ensures
        ({
            let protocol = ProtocolKind::Feature64 { new_protocol, wired_device_id };
            let run = rate_run(wire, protocol, connection);
            let asked = wire.after(
                Request::SendFeature {
                    report_id: 0,
                    payload: feature64_get_rate(protocol, connection, 1),
                },
            );
            let got = asked.after(Request::Sleep { milliseconds: 20 }).after(
                Request::GetFeature { report_id: 0, payload_len: 64 },
            );
            &&& last_reply(asked) matches Err(e) ==> run.wire == asked && run.outcome == Err::<
                PollingRate,
                ErrorText,
            >(e)
            &&& last_reply(asked) is Ok ==> run.wire == got
            &&& last_reply(asked) is Ok ==> (last_reply(got) matches Err(e) ==> run.outcome == Err::<
                PollingRate,
                ErrorText,
            >(e))
            &&& last_reply(asked) is Ok ==> (last_reply(got) matches Ok(answer) ==> {
                let place = (if new_protocol {
                    8int
                } else {
                    5int
                }) - (if answer.len() > 0 && answer[0] >= 0xA0 {
                    1int
                } else {
                    0int
                });
                let odd = !new_protocol && connection == ConnectionKind::Wired && answer[place]
                    == 64;
                &&& place >= answer.len() ==> run.outcome is Err
                &&& place < answer.len() && odd ==> run.outcome == Ok::<PollingRate, ErrorText>(
                    PollingRate::Hz1000,
                )
                &&& place < answer.len() && !odd ==> {
                    &&& run.outcome matches Ok(rate) ==> rate.feature64_code() == answer[place]
                    &&& run.outcome is Err ==> forall|rate: PollingRate|
                        (#[trigger] rate.feature64_code()) != answer[place]
                }
            })
        }),
{
}

/// Where the marks of a battery report stand that starts at `shift`.
pub open spec fn marked_at(new_protocol: bool, answer: Seq<u8>, shift: int) -> bool {
    if new_protocol {
        &&& answer.len() > 5 + shift
        &&& answer[shift] == 0xA1
        &&& answer[3 + shift] == 2
        &&& answer[5 + shift] == 131
    } else {
        &&& answer.len() > 2 + shift
        &&& answer[shift] == 0xA1
        &&& answer[1 + shift] == 2
        &&& answer[2 + shift] == 143
    }
}

/// Whether a battery has this level and this status byte.
pub open spec fn is_battery(battery: BatteryStatus, level: u8, status: u8) -> bool {
    battery.level_percent == Some(level) && battery.raw_state == Some(status)
}

/// The battery of a mouse with 64-byte reports is asked for with one report and
/// read from the one that answers. The report starts at its second byte, or at
/// the first where the marks stand there; it tells the state first and then the
/// level. A state of 0 is discharging, 1 charging, 2 full.
pub proof fn law_feature64_battery_is_read(
    wire: Wire,
    new_protocol: bool,
    wired_device_id: u8,
    connection: ConnectionKind,
)
    ensures
        ({
            let protocol = ProtocolKind::Feature64 { new_protocol, wired_device_id };
            let run = battery_run(wire, protocol, connection);
            let asked = wire.after(
                Request::SendFeature {
                    report_id: 0,
                    payload: feature64_get_battery(protocol, connection),
                },
            );
            let got = asked.after(
                Request::Sleep {
                    milliseconds: if new_protocol {
                        100
                    } else {
                        50
                    },
                },
            ).after(Request::GetFeature { report_id: 0, payload_len: 64 });
            &&& last_reply(asked) matches Err(e) ==> run.wire == asked && run.outcome == Err::<
                BatteryStatus,
                ErrorText,
            >(e)
            &&& last_reply(asked) is Ok ==> run.wire == got
            &&& last_reply(asked) is Ok ==> (last_reply(got) matches Err(e) ==> run.outcome == Err::<
                BatteryStatus,
                ErrorText,
            >(e))
            &&& last_reply(asked) is Ok ==> (last_reply(got) matches Ok(answer) ==> {
                let shift = if marked_at(new_protocol, answer, 1) {
                    1int
                } else {
                    0int
                };
                let place = shift + if new_protocol {
                    6int
                } else {
                    4int
                };
                let told = marked_at(new_protocol, answer, shift) && answer.len() > place + 1;
                &&& !told ==> run.outcome is Err
                &&& told ==> (run.outcome matches Ok(battery) && {
                    &&& is_battery(battery, answer[place + 1], answer[place])
                    &&& battery.charge_state is Discharging <==> answer[place] == 0
                    &&& battery.charge_state is Charging <==> answer[place] == 1
                    &&& battery.charge_state is Full <==> answer[place] == 2
                    &&& answer[place] > 2 ==> battery.charge_state == ChargeState::Raw(
                        answer[place],
                    )
                })
            })
        }),
{
}

/// Setting the rate of a mouse with 64-byte reports sends the order first, and
/// succeeds just where it is accepted, whatever is answered then. Nothing goes
/// out for a rate that the model does not list.
pub proof fn law_feature64_rate_is_set(
    wire: Wire,
    model: ModelData,
    new_protocol: bool,
    wired_device_id: u8,
    connection: ConnectionKind,
    rate: PollingRate,
)
    ensures
        ({
            let protocol = ProtocolKind::Feature64 { new_protocol, wired_device_id };
            let run = set_rate_run(wire, model, protocol, connection, rate);
            let ordered = wire.after(
                Request::SendFeature {
                    report_id: 0,
                    payload: feature64_set_rate(protocol, connection, 1, rate),
                },
            );
            let listed = listed_rates(model, connection).contains(rate);
            &&& run.outcome is Ok <==> listed && last_reply(ordered) is Ok
            &&& !listed ==> run.wire == wire
            &&& listed && last_reply(ordered) is Err ==> run.wire == ordered
            &&& listed && last_reply(ordered) is Ok ==> run.wire == ordered.after(
                Request::Sleep { milliseconds: 20 },
            ).after(Request::GetFeature { report_id: 0, payload_len: 64 })
        }),
{
}

/// The rates that a model lists for a connection.
pub open spec fn listed_rates(model: ModelData, connection: ConnectionKind) -> Seq<PollingRate> {
    match connection {
        ConnectionKind::Wired => model.wired_rates,
        ConnectionKind::Wireless => model.wireless_rates,
        ConnectionKind::Receiver => model.receiver_rates,
    }
}

/// Whether the last two requests on a wire are a report8 write of these bytes
/// and the read of its answer.
pub open spec fn ends_with_exchange(wire: Wire, payload: Seq<u8>, timeout_ms: int) -> bool {
    &&& wire.sent.len() >= 2
    &&& wire.sent[wire.sent.len() - 2] == (Request::WriteOutput { report_id: 8, payload })
    &&& wire.sent.last() == (Request::ReadInput { report_id: 8, payload_len: 16, timeout_ms })
}

/// A report8 exchange ends well just where the last answer starts with the
/// command; that answer is what it gives. It then ends with a write of the
/// report, checksum and all, and the read of that answer.
pub proof fn law_report8_answers(
    wire: Wire,
    payload: Seq<u8>,
    command: u8,
    delay: int,
    attempts: nat,
)
    requires
        attempts > 0,
    ensures
        ({
            let run = report8_run(wire, payload, command, delay, attempts);
            &&& run.outcome matches Ok(answer) ==> {
                &&& last_reply(run.wire) == Ok::<Seq<u8>, ErrorText>(answer)
                &&& answer.len() > 0 && answer[0] == command
                &&& ends_with_exchange(run.wire, with_report8_crc(payload), delay)
            }
            &&& run.outcome is Err ==> (last_reply(run.wire) matches Ok(answer) ==> answer.len()
                == 0 || answer[0] != command)
        }),
{
    lemma_tries_answers(
        flushed(wire, FLUSH_LIMIT as nat),
        with_report8_crc(payload),
        command,
        delay,
        attempts,
        attempts,
    );
}

proof fn lemma_tries_answers(
    wire: Wire,
    payload: Seq<u8>,
    command: u8,
    delay: int,
    left: nat,
    attempts: nat,
)
    requires
        left > 0,
    ensures
        ({
            let run = report8_tries(wire, payload, command, delay, left, attempts);
            &&& run.outcome matches Ok(answer) ==> {
                &&& last_reply(run.wire) == Ok::<Seq<u8>, ErrorText>(answer)
                &&& answer.len() > 0 && answer[0] == command
                &&& ends_with_exchange(run.wire, payload, delay)
            }
            &&& run.outcome is Err ==> (last_reply(run.wire) matches Ok(answer) ==> answer.len()
                == 0 || answer[0] != command)
        }),
    decreases left,
{
    let write = Request::WriteOutput { report_id: 8, payload };
    let written = wire.after(write);
    let read = report8_read(delay);
    let next = written.after(read);
    assert(next.sent[next.sent.len() - 2] == write);
    if left > 1 {
        lemma_tries_answers(next, payload, command, delay, (left - 1) as nat, attempts);
    } else {
        assert(report8_tries(next, payload, command, delay, 0, attempts).wire == next);
    }
}

/// A report8 exchange tries again while the answers are to something else: the
/// tries that are left start from where the first one ended. A write or a read
/// that fails ends it with that error.
pub proof fn law_report8_tries_again(
    wire: Wire,
    payload: Seq<u8>,
    command: u8,
    delay: int,
    left: nat,
    attempts: nat,
)
    requires
        left > 0,
    ensures
        ({
            let run = report8_tries(wire, payload, command, delay, left, attempts);
            let written = wire.after(Request::WriteOutput { report_id: 8, payload });
            let read = written.after(
                Request::ReadInput { report_id: 8, payload_len: 16, timeout_ms: delay },
            );
            &&& last_reply(written) matches Err(e) ==> run.wire == written && run.outcome == Err::<
                Seq<u8>,
                ErrorText,
            >(e)
            &&& last_reply(written) is Ok ==> (last_reply(read) matches Err(e) ==> run.wire == read
                && run.outcome == Err::<Seq<u8>, ErrorText>(e))
            &&& last_reply(written) is Ok ==> (last_reply(read) matches Ok(answer) ==> {
                let fits = answer.len() > 0 && answer[0] == command;
                &&& fits ==> run.wire == read && run.outcome == Ok::<Seq<u8>, ErrorText>(answer)
                &&& !fits && left == 1 ==> run.wire == read && run.outcome is Err
                &&& !fits && left > 1 ==> run == report8_tries(
                    read,
                    payload,
                    command,
                    delay,
                    (left - 1) as nat,
                    attempts,
                )
            })
        }),
{
    let written = wire.after(Request::WriteOutput { report_id: 8, payload });
    let read = written.after(
        Request::ReadInput { report_id: 8, payload_len: 16, timeout_ms: delay },
    );
    assert(report8_tries(read, payload, command, delay, 0, attempts).wire == read);
    assert(report8_tries(read, payload, command, delay, 0, attempts).outcome is Err);
}

/// Stale reports are read one after the other until a read fails or brings
/// nothing; the report goes out then, at most five times.
pub proof fn law_stale_reports_are_dropped(
    wire: Wire,
    payload: Seq<u8>,
    command: u8,
    delay: int,
    attempts: nat,
    left: nat,
)
    ensures
        report8_run(wire, payload, command, delay, attempts) == report8_tries(
            flushed(wire, u64::MAX as nat),
            with_report8_crc(payload),
            command,
            delay,
            attempts,
            attempts,
        ),
        ({
            let read = wire.after(
                Request::ReadInput { report_id: 8, payload_len: 16, timeout_ms: 1 },
            );
            let stale = last_reply(read) matches Ok(bytes) && bytes.len() > 0;
            &&& stale && left > 0 ==> flushed(wire, left) == flushed(read, (left - 1) as nat)
            &&& !stale || left == 0 ==> flushed(wire, left) == read
        }),
{
}

/// The rate of a report8 mouse is the sixth byte of the answer to its question;
/// it is told just where that byte is the code of a rate.
pub proof fn law_report8_rate_is_read(wire: Wire, connection: ConnectionKind)
    ensures
        ({
            let run = rate_run(wire, ProtocolKind::Eeprom16, connection);
            let asked = report8_run(wire, eeprom16_get_rate(), 8, 50, 5);
            &&& run.wire == asked.wire
            &&& asked.outcome matches Err(e) ==> run.outcome == Err::<PollingRate, ErrorText>(e)
            &&& asked.outcome matches Ok(answer) ==> {
                &&& answer.len() <= 5 ==> run.outcome is Err
                &&& answer.len() > 5 ==> {
                    &&& run.outcome matches Ok(rate) ==> rate.eeprom16_code() == answer[5]
                    &&& run.outcome is Err ==> forall|rate: PollingRate|
                        (#[trigger] rate.eeprom16_code()) != answer[5]
                }
            }
        }),
{
}

/// The battery of a report8 mouse stands in the answer to its question: the
/// level, at most 100, in the sixth byte, and in the seventh 0 for discharging
/// and 1 for charging.
pub proof fn law_report8_battery_is_read(wire: Wire, connection: ConnectionKind)
    ensures
        ({
            let run = battery_run(wire, ProtocolKind::Eeprom16, connection);
            let asked = report8_run(wire, eeprom16_get_battery(), 4, 50, 5);
            &&& run.wire == asked.wire
            &&& asked.outcome matches Err(e) ==> run.outcome == Err::<BatteryStatus, ErrorText>(e)
            &&& asked.outcome matches Ok(answer) ==> {
                &&& answer.len() <= 6 ==> run.outcome is Err
                &&& answer.len() > 6 ==> (run.outcome matches Ok(battery) && {
                    &&& answer[5] <= 100 ==> is_battery(battery, answer[5], answer[6])
                    &&& answer[5] > 100 ==> is_battery(battery, 100, answer[6])
                    &&& battery.charge_state is Discharging <==> answer[6] == 0
                    &&& battery.charge_state is Charging <==> answer[6] == 1
                    &&& answer[6] > 1 ==> battery.charge_state == ChargeState::Raw(answer[6])
                })
            }
        }),
{
}

/// Setting the rate of a report8 mouse succeeds just where the write is
/// answered as such.
pub proof fn law_report8_rate_is_set(
    wire: Wire,
    model: ModelData,
    connection: ConnectionKind,
    rate: PollingRate,
)
    ensures
        ({
            let run = set_rate_run(wire, model, ProtocolKind::Eeprom16, connection, rate);
            let ordered = report8_run(wire, eeprom16_set_rate(rate), 7, 50, 5);
            let listed = listed_rates(model, connection).contains(rate);
            &&& run.outcome is Ok <==> listed && ordered.outcome is Ok
            &&& listed ==> run.wire == ordered.wire
            &&& !listed ==> run.wire == wire
        }),
{
}

/// An IPI report goes out first. The answer is then asked for up to four times,
/// 50 milliseconds apart, until one names the command of the report; what stands
/// behind its first byte is what it says.
pub proof fn law_ipi_answers(wire: Wire, report_id: u8, report: Seq<u8>, delay: nat)
    ensures
        ({
            let run = ipi_ask_run(wire, report_id, report, delay);
            let asked = wire.after(Request::SendFeature { report_id, payload: report });
            &&& last_reply(asked) matches Err(e) ==> run.wire == asked && run.outcome == Err::<
                Seq<u8>,
                ErrorText,
            >(e)
            &&& last_reply(asked) is Ok ==> run == ipi_response_run(
                asked.after(Request::Sleep { milliseconds: delay }),
                report_id,
                report[3],
                4,
            )
            &&& run.outcome matches Ok(answer) ==> {
                &&& last_reply(run.wire) matches Ok(raw) && raw.len() > 7 && answer == raw.skip(1)
                &&& answer[3] == report[3]
                &&& run.wire.sent.last() == (Request::GetFeature { report_id, payload_len: 63 })
            }
        }),
{
    let asked = wire.after(Request::SendFeature { report_id, payload: report });
    lemma_ipi_response(
        asked.after(Request::Sleep { milliseconds: delay }),
        report_id,
        report[3],
        4,
    );
}

proof fn lemma_ipi_response(wire: Wire, report_id: u8, command: u8, left: nat)
    ensures
        ({
            let run = ipi_response_run(wire, report_id, command, left);
            run.outcome matches Ok(answer) ==> {
                &&& last_reply(run.wire) matches Ok(raw) && raw.len() > 7 && answer == raw.skip(1)
                &&& answer[3] == command
                &&& run.wire.sent.last() == (Request::GetFeature { report_id, payload_len: 63 })
            }
        }),
    decreases left,
{
    if left > 0 {
        let get = Request::GetFeature { report_id, payload_len: 63 };
        if let Ok(raw) = wire.reply(get) {
            if raw.len() > 0 {
                assert(ipi_payload(raw) =~= raw.skip(1));
            }
        }
        lemma_ipi_response(
            wire.after(get).after(Request::Sleep { milliseconds: 50 }),
            report_id,
            command,
            (left - 1) as nat,
        );
    }
}

/// The wait for an IPI answer takes the first that names the command and has
/// more than six bytes behind its first; it goes on after any other, and fails
/// where a read fails or none is left.
pub proof fn law_ipi_waits(wire: Wire, report_id: u8, command: u8, left: nat)
    ensures
        ({
            let run = ipi_response_run(wire, report_id, command, left);
            let got = wire.after(Request::GetFeature { report_id, payload_len: 63 });
            &&& left == 0 ==> run.wire == wire && run.outcome is Err
            &&& left > 0 ==> (last_reply(got) matches Err(e) ==> run.wire == got && run.outcome
                == Err::<Seq<u8>, ErrorText>(e))
            &&& left > 0 ==> (last_reply(got) matches Ok(raw) ==> {
                let fits = raw.len() > 7 && raw[4] == command;
                &&& fits ==> run.wire == got && run.outcome == Ok::<Seq<u8>, ErrorText>(raw.skip(1))
                &&& !fits ==> run == ipi_response_run(
                    got.after(Request::Sleep { milliseconds: 50 }),
                    report_id,
                    command,
                    (left - 1) as nat,
                )
            })
        }),
{
    let get = Request::GetFeature { report_id, payload_len: 63 };
    if left > 0 {
        if let Ok(raw) = wire.reply(get) {
            if raw.len() > 0 {
                assert(ipi_payload(raw) =~= raw.skip(1));
            }
        }
    }
}

/// The rate and the battery of an IPI mouse stand in the answers to their
/// questions: the rate in the byte behind the sixth, in the half that counts
/// for the connection, the level in the sixth. It tells no state.
pub proof fn law_ipi_rate_and_battery_are_read(
    wire: Wire,
    report_id: u8,
    connection: ConnectionKind,
)
    ensures
        ({
            let protocol = ProtocolKind::IpiPixV1 { report_id };
            let rate_read = rate_run(wire, protocol, connection);
            let asked = ipi_ask_run(wire, report_id, ipi_pix_v1_get_rate(), 50);
            let battery_read = battery_run(wire, protocol, connection);
            let info = ipi_ask_run(wire, report_id, ipi_pix_v1_get_basic_info(), 100);
            &&& rate_read.wire == asked.wire
            &&& asked.outcome matches Err(e) ==> rate_read.outcome == Err::<
                PollingRate,
                ErrorText,
            >(e)
            &&& asked.outcome matches Ok(answer) ==> {
                let half = if connection == ConnectionKind::Wireless {
                    answer[6] % 16
                } else {
                    answer[6] / 16
                };
                &&& rate_read.outcome matches Ok(rate) ==> rate.ipi_pix_v1_code() == half % 8
                &&& rate_read.outcome is Ok <==> answer.len() > 6 && half % 8 != 7
            }
            &&& battery_read.wire == info.wire
            &&& info.outcome matches Err(e) ==> battery_read.outcome == Err::<
                BatteryStatus,
                ErrorText,
            >(e)
            &&& info.outcome matches Ok(answer) ==> {
                &&& battery_read.outcome is Ok <==> answer.len() > 5
                &&& battery_read.outcome matches Ok(battery) ==> battery == (BatteryStatus {
                    level_percent: Some(answer[5]),
                    charge_state: ChargeState::Unknown,
                    raw_state: None,
                })
            }
        }),
{
    let asked = ipi_ask_run(wire, report_id, ipi_pix_v1_get_rate(), 50);
    if let Ok(answer) = asked.outcome {
        if answer.len() > 6 {
            crate::report_laws::law_ipi_rate_byte_is_read(connection, answer[6]);
        }
    }
}

/// Setting the rate of an IPI mouse sends the order first, and succeeds just
/// where it is accepted, whatever is answered then.
pub proof fn law_ipi_rate_is_set(
    wire: Wire,
    model: ModelData,
    report_id: u8,
    connection: ConnectionKind,
    rate: PollingRate,
)
    ensures
        ({
            let protocol = ProtocolKind::IpiPixV1 { report_id };
            let run = set_rate_run(wire, model, protocol, connection, rate);
            let order = ipi_pix_v1_set_rate(connection, rate);
            let ordered = wire.after(Request::SendFeature { report_id, payload: order });
            let listed = listed_rates(model, connection).contains(rate);
            &&& run.outcome is Ok <==> listed && last_reply(ordered) is Ok
            &&& listed ==> run.wire == ipi_ask_run(wire, report_id, order, 60).wire
            &&& !listed ==> run.wire == wire
        }),
{
}

/// A Razer command goes out first. Its answer is asked for up to ten times,
/// after 20 milliseconds and each time after ten more; a success is what it
/// gives, and only that.
pub proof fn law_razer_answers(wire: Wire, command: Seq<u8>)
    ensures
        ({
            let run = razer_run(wire, command);
            let sent = wire.after(Request::SendFeature { report_id: 0, payload: command });
            &&& last_reply(sent) matches Err(e) ==> run.wire == sent && run.outcome == Err::<
                Seq<u8>,
                ErrorText,
            >(e)
            &&& last_reply(sent) is Ok ==> run == razer_response_run(sent, 0)
            &&& run.outcome matches Ok(answer) ==> {
                &&& last_reply(run.wire) == Ok::<Seq<u8>, ErrorText>(answer)
                &&& answer.len() > 0 && answer[0] == 2
                &&& run.wire.sent.last() == (Request::GetFeature { report_id: 0, payload_len: 90 })
            }
        }),
{
    lemma_razer_response(wire.after(Request::SendFeature { report_id: 0, payload: command }), 0);
}

proof fn lemma_razer_response(wire: Wire, attempt: nat)
    ensures
        ({
            let run = razer_response_run(wire, attempt);
            run.outcome matches Ok(answer) ==> {
                &&& last_reply(run.wire) == Ok::<Seq<u8>, ErrorText>(answer)
                &&& answer.len() > 0 && answer[0] == 2
                &&& run.wire.sent.last() == (Request::GetFeature { report_id: 0, payload_len: 90 })
            }
        }),
    decreases 10 - attempt,
{
    if attempt < 10 {
        let pause = Request::Sleep { milliseconds: 20 + attempt * 10 };
        let get = Request::GetFeature { report_id: 0, payload_len: 90 };
        lemma_razer_response(wire.after(pause).after(get), attempt + 1);
    }
}

/// The wait for a Razer answer ends with a success (2), a failure (3) or an
/// unknown status, or where a read fails; it goes on while the mouse is busy
/// (1), has not begun (0) or says nothing.
pub proof fn law_razer_waits(wire: Wire, attempt: nat)
    ensures
        ({
            let run = razer_response_run(wire, attempt);
            let got = wire.after(Request::Sleep { milliseconds: 20 + attempt * 10 }).after(
                Request::GetFeature { report_id: 0, payload_len: 90 },
            );
            &&& attempt >= 10 ==> run.wire == wire && run.outcome is Err
            &&& attempt < 10 ==> (last_reply(got) matches Err(e) ==> run.wire == got && run.outcome
                == Err::<Seq<u8>, ErrorText>(e))
            &&& attempt < 10 ==> (last_reply(got) matches Ok(answer) ==> {
                let open = answer.len() == 0 || answer[0] == 0 || answer[0] == 1;
                &&& open ==> run == razer_response_run(got, attempt + 1)
                &&& !open ==> run.wire == got
                &&& !open && answer[0] == 2 ==> run.outcome == Ok::<Seq<u8>, ErrorText>(answer)
                &&& !open && answer[0] != 2 ==> run.outcome is Err
            })
        }),
{
}

/// The battery of a Razer mouse takes two questions, 60 milliseconds apart. The
/// tenth byte of the first answer is the level in 255 parts, told in percent to
/// the nearest. The tenth byte of the second is 0 just where the mouse
/// discharges; with any other value it charges.
pub proof fn law_razer_battery_is_read(
    wire: Wire,
    tx_id: u8,
    polling_reversed: bool,
    connection: ConnectionKind,
)
    ensures
        ({
            let protocol = ProtocolKind::RazerV1 { tx_id, polling_reversed };
            let run = battery_run(wire, protocol, connection);
            let level = razer_run(wire, razer_level_command(tx_id));
            let charge = razer_run(
                level.wire.after(Request::Sleep { milliseconds: 60 }),
                razer_charge_command(tx_id),
            );
            let leveled = level.outcome matches Ok(answer) && answer.len() > 9;
            &&& !leveled ==> run.outcome is Err && run.wire == level.wire
            &&& leveled ==> run.wire == charge.wire
            &&& leveled ==> (charge.outcome matches Err(e) ==> run.outcome == Err::<
                BatteryStatus,
                ErrorText,
            >(e))
            &&& leveled ==> (charge.outcome matches Ok(answer) ==> {
                let raw_level = level.outcome->Ok_0[9];
                &&& run.outcome is Ok <==> answer.len() > 9
                &&& run.outcome matches Ok(battery) ==> {
                    &&& battery.raw_state == Some(answer[9])
                    &&& answer[9] == 0 ==> battery.charge_state == ChargeState::Discharging
                    &&& answer[9] != 0 ==> battery.charge_state == ChargeState::Charging
                    &&& battery.level_percent matches Some(percent) && -127 <= percent * 255
                        - raw_level * 100 <= 127
                }
            })
        }),
{
    let level = razer_run(wire, razer_level_command(tx_id));
    if let Ok(answer) = level.outcome {
        if answer.len() > 9 {
            let raw = answer[9] as int;
            assert((raw * 100 + 127) / 255 <= 100);
        }
    }
}

/// Setting the rate of a Razer mouse is one order with the mask of the rate in
/// the tenth byte; it succeeds just where the order is accepted.
pub proof fn law_razer_rate_is_set(
    wire: Wire,
    model: ModelData,
    tx_id: u8,
    polling_reversed: bool,
    connection: ConnectionKind,
    rate: PollingRate,
)
    ensures
        ({
            let protocol = ProtocolKind::RazerV1 { tx_id, polling_reversed };
            let run = set_rate_run(wire, model, protocol, connection, rate);
            let listed = listed_rates(model, connection).contains(rate);
            &&& !listed ==> run.wire == wire && run.outcome is Err
            &&& listed ==> run.wire.sent.len() == wire.sent.len() + 1 && run.wire.answers
                == wire.answers && run.wire.sent.drop_last() == wire.sent
            &&& listed ==> (run.outcome is Ok <==> last_reply(run.wire) is Ok)
            &&& listed ==> (run.wire.sent.last() matches Request::SendFeature { report_id, payload }
                && {
                &&& report_id == 0
                &&& payload.len() == 90
                &&& payload[1] == tx_id
                &&& payload[5] == 2 && payload[6] == 0 && payload[7] == 0x40
                &&& payload[8] == 1
                &&& polling_reversed ==> payload[9] * rate.hz() == 8000
                &&& !polling_reversed ==> payload[9] * 125 == rate.hz()
                &&& payload[88] == crate::bytes::byte_xor(payload.subrange(2, 88))
            })
        }),
{
    let mask = rate.razer_v1_mask(polling_reversed);
    let command = razer_command(tx_id, 0x00, 0x40, 0x02, seq![0x01, mask]);
    crate::report_laws::law_razer_reports(tx_id, 0x00, 0x40, 0x02, seq![0x01, mask]);
    crate::laws::law_razer_masks(rate);
    assert(command.subrange(8, 10)[0] == command[8]);
    assert(command.subrange(8, 10)[1] == command[9]);
    let sent = wire.after(Request::SendFeature { report_id: 0, payload: command });
    assert(sent.sent.drop_last() =~= wire.sent);
}

/// Reads of HID++ answers go on until one comes from the device and the feature
/// that was asked; there are as many as fit into the time, one for each 50
/// milliseconds, and at least one.
pub proof fn law_hidpp_waits(wire: Wire, second: u8, left: nat, timeout_ms: i32)
    ensures
        ({
            let run = hidpp_matching_run(wire, second, left);
            let got = wire.after(
                Request::ReadInput { report_id: 0x11, payload_len: 19, timeout_ms: 50 },
            );
            &&& left == 0 ==> run.wire == wire && run.outcome == Ok::<Option<Seq<u8>>, ErrorText>(
                None,
            )
            &&& left > 0 ==> (last_reply(got) matches Err(e) ==> run.wire == got && run.outcome
                == Err::<Option<Seq<u8>>, ErrorText>(e))
            &&& left > 0 ==> (last_reply(got) matches Ok(raw) ==> {
                let answer = hidpp_payload(raw);
                let fits = raw.len() > 0 && answer.len() > 1 && answer[0] == 1 && answer[1]
                    == second;
                &&& fits ==> run.wire == got && run.outcome == Ok::<Option<Seq<u8>>, ErrorText>(
                    Some(answer),
                )
                &&& !fits ==> run == hidpp_matching_run(got, second, (left - 1) as nat)
            })
        }),
        hidpp_reads(timeout_ms) >= 1,
        hidpp_reads(timeout_ms) * 50 >= timeout_ms,
        timeout_ms >= 1 ==> (hidpp_reads(timeout_ms) - 1) * 50 < timeout_ms,
{
}

/// The index of a HID++ feature is the fourth byte of the answer to the
/// question for it; zero means that there is none, as do silence and failure.
pub proof fn law_hidpp_features_are_found(wire: Wire, feature_id: u16, timeout_ms: i32)
    ensures
        ({
            let (after, index) = hidpp_discover_run(wire, feature_id, timeout_ms);
            let asked = wire.after(
                Request::WriteOutput {
                    report_id: 0x10,
                    payload: seq![
                        1,
                        0,
                        0x0D,
                        (feature_id / 256) as u8,
                        (feature_id % 256) as u8,
                        0,
                    ],
                },
            );
            let answered = hidpp_matching_run(asked, 0, hidpp_reads(timeout_ms));
            &&& last_reply(asked) is Err ==> after == asked && index is None
            &&& last_reply(asked) is Ok ==> after == answered.wire
            &&& last_reply(asked) is Ok ==> (index is Some <==> (answered.outcome matches Ok(
                Some(answer),
            ) && answer.len() > 3 && answer[3] != 0))
            &&& index matches Some(index) ==> (answered.outcome matches Ok(Some(answer)) && answer[3]
                == index)
        }),
{
}

/// The battery of a HID++ mouse is that of the unified battery feature, or of
/// the older one where that is missing. It is asked for twice, half a second
/// apart; the fourth byte of the answer is the level, at most 100, and the sixth
/// the state. A mouse without either feature, and one that does not answer, has
/// none to tell.
pub proof fn law_hidpp_battery_is_read(wire: Wire, connection: ConnectionKind)
    ensures
        ({
            let run = battery_run(wire, ProtocolKind::LogitechHidpp, connection);
            let (first, unified) = hidpp_discover_run(wire, 0x1004, 500);
            let (second, status) = hidpp_discover_run(first, 0x1000, 500);
            let found = if unified is Some {
                first
            } else {
                second
            };
            let index = if unified is Some {
                unified
            } else {
                status
            };
            &&& index is None ==> run.outcome is Err && run.wire == found
            &&& index matches Some(index) ==> {
                let query = Request::WriteOutput {
                    report_id: 0x10,
                    payload: seq![1, index, 0x1D, 0, 0, 0],
                };
                let once = found.after(query);
                let twice = once.after(Request::Sleep { milliseconds: 500 }).after(query);
                let answered = hidpp_matching_run(twice, index, 30);
                &&& last_reply(once) is Err ==> run.wire == once && run.outcome is Err
                &&& last_reply(once) is Ok && last_reply(twice) is Err ==> run.wire == twice
                    && run.outcome is Err
                &&& last_reply(once) is Ok && last_reply(twice) is Ok ==> {
                    &&& run.wire == answered.wire
                    &&& run.outcome is Ok <==> (answered.outcome matches Ok(Some(_)))
                    &&& answered.outcome matches Ok(Some(answer)) ==> (run.outcome matches Ok(
                        battery,
                    ) && {
                        let level = if answer.len() > 3 {
                            answer[3]
                        } else {
                            0
                        };
                        let status = if answer.len() > 5 {
                            answer[5]
                        } else {
                            0
                        };
                        &&& level <= 100 ==> is_battery(battery, level, status)
                        &&& level > 100 ==> is_battery(battery, 100, status)
                        &&& battery.charge_state is Discharging <==> status == 0 || status == 4
                        &&& battery.charge_state is Charging <==> status == 1 || status == 2
                        &&& battery.charge_state is Full <==> status == 3
                        &&& status > 4 ==> battery.charge_state == ChargeState::Raw(status)
                    })
                }
            }
        }),
{
    assert(hidpp_reads(1_500) == 30);
}

/// Setting the rate of a HID++ mouse looks for the feature of the rate, and
/// orders it there, or at place 10 where it does not answer. The order holds
/// the milliseconds between two reports, and the outcome is that of the order.
pub proof fn law_hidpp_rate_is_set(
    wire: Wire,
    model: ModelData,
    connection: ConnectionKind,
    rate: PollingRate,
)
    ensures
        ({
            let run = set_rate_run(wire, model, ProtocolKind::LogitechHidpp, connection, rate);
            let (found, index) = hidpp_discover_run(wire, 0x8060, 2_000);
            let place = match index {
                Some(index) => index,
                None => 0x0A,
            };
            let orderly = listed_rates(model, connection).contains(rate) && rate.hz() <= 1000;
            &&& !orderly ==> run.wire == wire && run.outcome is Err
            &&& orderly ==> run.wire.sent.len() == found.sent.len() + 1 && run.wire.answers
                == found.answers && run.wire.sent.drop_last() == found.sent
            &&& orderly ==> (run.outcome is Ok <==> last_reply(run.wire) is Ok)
            &&& orderly ==> (run.wire.sent.last() matches Request::WriteOutput {
                report_id,
                payload,
            } && {
                &&& report_id == 0x10
                &&& payload.len() == 6
                &&& payload[0] == 0xFF && payload[1] == place && payload[2] == 0x2E
                &&& payload[3] * rate.hz() == 1000
                &&& payload[4] == 0 && payload[5] == 0
            })
        }),
{
    crate::report_laws::law_codes_follow_from_rates(rate);
    let (found, index) = hidpp_discover_run(wire, 0x8060, 2_000);
    if let Some(code) = rate.logitech_hidpp_code() {
        let place = match index {
            Some(index) => index,
            None => 0x0A,
        };
        let after = found.after(crate::courses::hidpp_rate_request(place, code));
        assert(after.sent.drop_last() =~= found.sent);
    }
}

/// A device answers in a protocol where its rate can be read; a Logitech mouse
/// where it knows the feature of the rate, a Razer mouse where it answers the
/// question for its level.
pub proof fn law_devices_answer(wire: Wire, protocol: ProtocolKind, connection: ConnectionKind)
    ensures
        ({
            let run = probe_run(wire, protocol, connection);
            match protocol {
                ProtocolKind::LogitechHidpp => {
                    let (after, index) = hidpp_discover_run(wire, 0x8060, 500);
                    run.wire == after && (run.outcome is Ok <==> index is Some)
                },
                ProtocolKind::RazerV1 { tx_id, .. } => {
                    let level = razer_run(wire, razer_level_command(tx_id));
                    run.wire == level.wire && (run.outcome is Ok <==> level.outcome is Ok)
                },
                _ => {
                    let read = rate_run(wire, protocol, connection);
                    run.wire == read.wire && (run.outcome is Ok <==> read.outcome is Ok)
                },
            }
        }),
{
}

/// The resolutions of an IPI mouse stand on six pages, which are asked for one
/// after the other. Each brings the bytes behind its head up to the fifteenth;
/// the head of the first is one byte longer.
pub proof fn law_ipi_pages(
    wire: Wire,
    report_id: u8,
    pages: Seq<[u8; 63]>,
    page: nat,
    got: Seq<u8>,
)
    ensures
        ({
            let run = ipi_pages_run(wire, report_id, pages, page, got);
            let asked = ipi_ask_run(wire, report_id, pages[page as int]@, 20);
            let head = if page == 0 {
                6int
            } else {
                5int
            };
            &&& page >= 6 ==> run.wire == wire && run.outcome == Ok::<Seq<u8>, ErrorText>(got)
            &&& page < 6 ==> (asked.outcome matches Err(e) ==> run.wire == asked.wire && run.outcome
                == Err::<Seq<u8>, ErrorText>(e))
            &&& page < 6 ==> (asked.outcome matches Ok(answer) ==> {
                &&& answer.len() < 15 ==> run.wire == asked.wire && run.outcome is Err
                &&& answer.len() >= 15 ==> run == ipi_pages_run(
                    asked.wire,
                    report_id,
                    pages,
                    page + 1,
                    got + answer.subrange(head, 15),
                )
            })
        }),
{
}

/// The bytes of the pages hold up to eight levels of two bytes each, the low one
/// first, and behind the sixteenth the colours of three bytes each. The profile
/// is the eighth byte of the answer that tells the rate.
pub proof fn law_ipi_stored_resolutions(
    wire: Wire,
    report_id: u8,
    pages: Seq<[u8; 63]>,
    levels: nat,
    color_bytes: nat,
)
    ensures
        ({
            let run = ipi_dpi_config_run(wire, report_id, pages, levels, color_bytes);
            let sensor = ipi_ask_run(wire, report_id, ipi_pix_v1_get_rate(), 50);
            let all = ipi_pages_run(sensor.wire, report_id, pages, 0, seq![]);
            let told = sensor.outcome matches Ok(answer) && answer.len() > 7;
            &&& !told ==> run.outcome is Err && run.wire == sensor.wire
            &&& told ==> run.wire == all.wire
            &&& told ==> (run.outcome is Ok <==> (all.outcome matches Ok(bytes) && bytes.len() >= 16
                + color_bytes))
            &&& told ==> (run.outcome matches Ok(data) ==> {
                let bytes = all.outcome->Ok_0;
                &&& data.profile == sensor.outcome->Ok_0[7]
                &&& data.raw_levels.len() == if levels < 8 {
                    levels
                } else {
                    8
                }
                &&& forall|i: int|
                    0 <= i < data.raw_levels.len() ==> #[trigger] data.raw_levels[i] == bytes[2 * i]
                        + 256 * bytes[2 * i + 1]
                &&& data.colors.len() == color_bytes / 3
                &&& forall|i: int|
                    0 <= i < data.colors.len() ==> #[trigger] data.colors[i] == bytes.subrange(
                        16 + 3 * i,
                        19 + 3 * i,
                    )
            })
        }),
{
}

/// A resolution order to an IPI mouse is sent once, where it could be made, and
/// its answer is waited for three times.
pub proof fn law_ipi_resolution_orders(
    wire: Wire,
    report_id: u8,
    report: Seq<u8>,
    command: u8,
    left: nat,
    e: ErrorText,
)
    ensures
        ({
            let run = ipi_made_order_run(wire, report_id, Ok(report));
            let sent = wire.after(Request::SendFeature { report_id, payload: report });
            &&& last_reply(sent) matches Err(e) ==> run.wire == sent && run.outcome == Err::<
                (),
                ErrorText,
            >(e)
            &&& last_reply(sent) is Ok ==> run == ipi_dpi_answer_run(sent, report_id, report[3], 3)
        }),
        ipi_made_order_run(wire, report_id, Err(e)).wire == wire,
        ipi_made_order_run(wire, report_id, Err(e)).outcome == Err::<(), ErrorText>(e),
        ({
            let run = ipi_dpi_answer_run(wire, report_id, command, left);
            let waited = ipi_response_run(
                wire.after(Request::Sleep { milliseconds: 20 }),
                report_id,
                command,
                4,
            );
            &&& left == 0 ==> run.wire == wire && run.outcome is Err
            &&& left > 0 && waited.outcome is Ok ==> run.wire == waited.wire && run.outcome is Ok
            &&& left > 0 && waited.outcome is Err ==> run == ipi_dpi_answer_run(
                waited.wire,
                report_id,
                command,
                (left - 1) as nat,
            )
        }),
{
}

/// A report that does not start with its id, or is not of the length of its
/// payload and the id, is taken as it is.
pub proof fn law_unframed_reports_stay(raw: Seq<u8>, report_id: u8, payload_len: nat)
    requires
        raw.len() != payload_len + 1 || raw[0] != report_id,
    ensures
        feature_payload(raw, report_id, payload_len) == raw,
        raw.len() <= payload_len ==> report_payload(raw, report_id, payload_len) == raw,
        raw.len() > payload_len ==> report_payload(raw, report_id, payload_len) == raw.take(
            payload_len as int,
        ),
{
}

/// A script answers each feature read with the next of its feature reports, and
/// each input read with the next of its input reports, whatever was asked in
/// between; where they are used up, a feature read fails and an input read
/// brings nothing. All else succeeds.
pub proof fn law_scripts_answer_in_order(
    features: Seq<Vec<u8>>,
    inputs: Seq<Vec<u8>>,
    sent: Seq<Request>,
    request: Request,
)
    ensures
        ({
            let reply = scripted_reply(features, inputs, sent.push(request));
            let feature = feature_reads_in(sent);
            let input = input_reads_in(sent);
            &&& feature_reads_in(Seq::<Request>::empty()) == 0
            &&& input_reads_in(Seq::<Request>::empty()) == 0
            &&& request is GetFeature ==> {
                &&& feature_reads_in(sent.push(request)) == feature + 1
                &&& input_reads_in(sent.push(request)) == input
                &&& feature < features.len() ==> reply == Ok::<Seq<u8>, ErrorText>(
                    features[feature as int]@,
                )
                &&& feature >= features.len() ==> reply is Err
            }
            &&& request is ReadInput ==> {
                &&& feature_reads_in(sent.push(request)) == feature
                &&& input_reads_in(sent.push(request)) == input + 1
                &&& input < inputs.len() ==> reply == Ok::<Seq<u8>, ErrorText>(
                    inputs[input as int]@,
                )
                &&& input >= inputs.len() ==> reply == Ok::<Seq<u8>, ErrorText>(seq![])
            }
            &&& !(request is GetFeature) && !(request is ReadInput) ==> {
                &&& feature_reads_in(sent.push(request)) == feature
                &&& input_reads_in(sent.push(request)) == input
                &&& reply == Ok::<Seq<u8>, ErrorText>(seq![])
            }
        }),
{
    assert(sent.push(request).drop_last() =~= sent);
}

/// An operation that took a course left the wire as the course says, and gave
/// what it says; it is still the same device.
pub proof fn law_courses_tell_all<T: DeviceTransport, V>(
    before: ProtocolDevice<T>,
    after: ProtocolDevice<T>,
    result: Result<V, DeviceError>,
    run: Run<V>,
)
    requires
        ProtocolDevice::ran(before, after, result, run),
    ensures
        after.transport.wire() == run.wire,
        after.model == before.model && after.connection == before.connection && after.protocol
            == before.protocol,
        result matches Ok(value) ==> run.outcome == Ok::<V, ErrorText>(value),
        result matches Err(e) ==> (run.outcome matches Err(error) && error.message == e.message@),
{
}

} // verus!
