//! What holds of rates, models and interfaces, and of the answers and orders of
//! devices.
use crate::courses::{
    battery_run, dpi_entry_offset, eeprom16_dpi_config_run, eeprom16_dpi_run, eeprom16_rate_run,
    eeprom16_set_dpi_run, feature64_rate_code, flushed, hidpp_discover_run, hidpp_rate_request,
    ipi_ask_run, ipi_dpi_answer_run, ipi_dpi_config_run, ipi_dpi_order_run, ipi_pages_run,
    ipi_rate_run, ipi_response_run, rate_for_code, rate_run, razer_percent, report8_run,
    set_rate_run, DEFAULT_PROFILE, FLUSH_LIMIT, HIDPP_REPORT_RATE_FEATURE_ID,
};
use crate::devices::{
    parsed_rate, rate_named, rate_numbers, rate_of_number, rate_of_signed_number, written_rate,
    ConnectionKind, PollingRate, ProtocolKind,
};
use crate::error::ErrorText;
use crate::interfaces::{chosen, path_taken, InterfaceData, TargetData};
use crate::laws::{
    continues, law_ipi_rate_byte_round_trip, law_rate_code_round_trip, lemma_continues_after,
    lemma_continues_self, lemma_flushed_continues, lemma_hidpp_discover_continues,
    lemma_ipi_ask_continues, lemma_ipi_response_continues, lemma_tries_continues,
};
use crate::models::{
    catalog, fenrir_catalog, first_match, ipi_piao_catalog, logitech_catalog, razer_catalog,
    ModelData,
};
use crate::payloads::{
    feature_payload, razer_command, report_payload, with_report8_crc, without_first,
    FEATURE_REPORT_ID, RAZER_V1_REPORT_ID, REPORT8_ID,
};
use crate::reports::{
    eeprom16_dpi_entry, eeprom16_get_rate, eeprom16_set_rate, eeprom16_write, feature64_set_rate,
    ipi_pix_v1_get_rate, ipi_pix_v1_rate_byte, ipi_pix_v1_set_rate, is_eeprom16_dpi,
};
use crate::text::{
    decimal, joined, lowered, stands_at, trimmed, without_back, without_part, Margin,
};
use crate::transport::{Request, Wire};
use vstd::prelude::*;

verus! {

/// The digits of the numbers of reports a second.
pub proof fn lemma_rate_digits(rate: PollingRate)
    ensures
        decimal(rate.hz() as nat) == match rate {
            PollingRate::Hz125 => seq!['1', '2', '5'],
            PollingRate::Hz250 => seq!['2', '5', '0'],
            PollingRate::Hz500 => seq!['5', '0', '0'],
            PollingRate::Hz1000 => seq!['1', '0', '0', '0'],
            PollingRate::Hz2000 => seq!['2', '0', '0', '0'],
            PollingRate::Hz4000 => seq!['4', '0', '0', '0'],
            PollingRate::Hz8000 => seq!['8', '0', '0', '0'],
        },
{
    reveal_with_fuel(decimal, 4);
    match rate {
        PollingRate::Hz125 => assert(decimal(125) =~= seq!['1', '2', '5']),
        PollingRate::Hz250 => assert(decimal(250) =~= seq!['2', '5', '0']),
        PollingRate::Hz500 => assert(decimal(500) =~= seq!['5', '0', '0']),
        PollingRate::Hz1000 => assert(decimal(1000) =~= seq!['1', '0', '0', '0']),
        PollingRate::Hz2000 => assert(decimal(2000) =~= seq!['2', '0', '0', '0']),
        PollingRate::Hz4000 => assert(decimal(4000) =~= seq!['4', '0', '0', '0']),
        PollingRate::Hz8000 => assert(decimal(8000) =~= seq!['8', '0', '0', '0']),
    }
}

/// The number of a rate is its name.
proof fn lemma_rate_number_named(rate: PollingRate)
    ensures
        rate_named(decimal(rate.hz() as nat)) == Some(rate),
{
    lemma_rate_digits(rate);
    reveal_strlit("125");
    reveal_strlit("250");
    reveal_strlit("500");
    reveal_strlit("1000");
    reveal_strlit("2000");
    reveal_strlit("4000");
    reveal_strlit("8000");
    reveal_strlit("1k");
    reveal_strlit("2k");
    reveal_strlit("4k");
    reveal_strlit("8k");
    let name = decimal(rate.hz() as nat);
    match rate {
        PollingRate::Hz125 => assert(name =~= "125"@),
        PollingRate::Hz250 => assert(name =~= "250"@),
        PollingRate::Hz500 => assert(name =~= "500"@),
        PollingRate::Hz1000 => assert(name =~= "1000"@),
        PollingRate::Hz2000 => assert(name =~= "2000"@),
        PollingRate::Hz4000 => assert(name =~= "4000"@),
        PollingRate::Hz8000 => assert(name =~= "8000"@),
    }
    assert("125"@[0] == '1' && "125"@.len() == 3);
    assert("250"@[0] == '2' && "250"@.len() == 3);
    assert("500"@[0] == '5' && "500"@.len() == 3);
    assert("1000"@[0] == '1' && "1000"@.len() == 4);
    assert("2000"@[0] == '2' && "2000"@.len() == 4);
    assert("4000"@[0] == '4' && "4000"@.len() == 4);
    assert("8000"@[0] == '8' && "8000"@.len() == 4);
    assert("1k"@.len() == 2 && "2k"@.len() == 2 && "4k"@.len() == 2 && "8k"@.len() == 2);
}

/// A text of digits has no part `hz`.
pub proof fn lemma_digits_stay(s: Seq<char>)
    requires
        forall|i: int| 0 <= i < s.len() ==> '0' <= #[trigger] s[i] <= '9',
    ensures
        lowered(s) == s,
        without_part(s, "hz"@) == s,
        trimmed(s, Margin::WhiteSpace) == s,
    decreases s.len(),
{
    assert(lowered(s) =~= s);
    reveal_strlit("hz");
    if s.len() > 0 {
        if stands_at(s, "hz"@, 0) {
            assert(s.subrange(0, 2)[0] == s[0]);
            assert("hz"@[0] == 'h');
        }
        lemma_digits_stay(s.skip(1));
        assert(without_part(s, "hz"@) =~= s);
    }
}

/// A rate that is written as its number is read as that rate.
pub proof fn law_written_numbers_read_back(rate: PollingRate)
    ensures
        parsed_rate(decimal(rate.hz() as nat)) == Ok::<PollingRate, ErrorText>(rate),
        rate_of_number(rate.hz() as u64) == Ok::<PollingRate, ErrorText>(rate),
        rate_of_signed_number(rate.hz() as i64) == Ok::<PollingRate, ErrorText>(rate),
{
    lemma_rate_digits(rate);
    lemma_digits_stay(decimal(rate.hz() as nat));
    lemma_rate_number_named(rate);
}

/// A text cut wherever the separator stands, from the front on. It does not
/// stand before place `from`.
pub open spec fn cut(text: Seq<char>, separator: Seq<char>, from: nat) -> Seq<Seq<char>>
    decreases text.len(), text.len() - from,
{
    if separator.len() == 0 || from + separator.len() > text.len() {
        seq![text]
    } else if stands_at(text, separator, from as int) {
        seq![text.take(from as int)] + cut(text.skip(from as int + separator.len()), separator, 0)
    } else {
        cut(text, separator, from + 1)
    }
}

/// Whether a text is without the first character of the separator.
spec fn holds_no(text: Seq<char>, separator: Seq<char>) -> bool {
    forall|i: int| 0 <= i < text.len() ==> #[trigger] text[i] != separator[0]
}

/// What is in front of the first separator is the first part.
proof fn lemma_cut_first(part: Seq<char>, separator: Seq<char>, rest: Seq<char>, from: nat)
    requires
        separator.len() > 0,
        holds_no(part, separator),
        from <= part.len(),
    ensures
        cut(part + separator + rest, separator, from) == seq![part] + cut(rest, separator, 0),
    decreases part.len() - from,
{
    let text = part + separator + rest;
    if from < part.len() {
        assert(text.subrange(from as int, from as int + separator.len())[0] == part[from as int]);
        lemma_cut_first(part, separator, rest, from + 1);
    } else {
        assert(text.subrange(from as int, from as int + separator.len()) =~= separator);
        assert(text.take(from as int) =~= part);
        assert(text.skip(from as int + separator.len()) =~= rest);
    }
}

/// A text without the separator is one part.
proof fn lemma_cut_none(text: Seq<char>, separator: Seq<char>, from: nat)
    requires
        separator.len() > 0,
        holds_no(text, separator),
    ensures
        cut(text, separator, from) == seq![text],
    decreases text.len() - from,
{
    if from + separator.len() <= text.len() {
        assert(text.subrange(from as int, from as int + separator.len())[0] == text[from as int]);
        lemma_cut_none(text, separator, from + 1);
    }
}

/// The first of several parts stands in front.
proof fn lemma_joined_first(parts: Seq<Seq<char>>, separator: Seq<char>)
    requires
        parts.len() > 1,
    ensures
        joined(parts, separator) == parts[0] + separator + joined(parts.skip(1), separator),
    decreases parts.len(),
{
    let front = parts.drop_last();
    if parts.len() == 2 {
        assert(joined(front, separator) == parts[0]);
        assert(joined(parts.skip(1), separator) == parts.last());
    } else {
        lemma_joined_first(front, separator);
        assert(parts.skip(1).drop_last() =~= front.skip(1));
        assert(joined(parts, separator) =~= parts[0] + separator + (joined(
            front.skip(1),
            separator,
        ) + separator + parts.last()));
    }
}

/// Parts without the separator come back where the joined text is cut.
proof fn lemma_joined_is_cut(parts: Seq<Seq<char>>, separator: Seq<char>)
    requires
        separator.len() > 0,
        parts.len() > 0,
        forall|i: int| 0 <= i < parts.len() ==> holds_no(#[trigger] parts[i], separator),
    ensures
        cut(joined(parts, separator), separator, 0) == parts,
    decreases parts.len(),
{
    if parts.len() == 1 {
        lemma_cut_none(parts[0], separator, 0);
        assert(seq![parts[0]] =~= parts);
    } else {
        let rest = parts.skip(1);
        assert forall|i: int| 0 <= i < rest.len() implies holds_no(
            #[trigger] rest[i],
            separator,
        ) by {
            assert(rest[i] == parts[i + 1]);
        }
        lemma_joined_first(parts, separator);
        lemma_cut_first(parts[0], separator, joined(rest, separator), 0);
        lemma_joined_is_cut(rest, separator);
        assert(seq![parts[0]] + rest =~= parts);
    }
}

/// A list of rates in words holds the number of each, in order: cut at the
/// commas it gives the numbers back, and each is read as its rate. A list of
/// none is empty.
pub proof fn law_written_lists_read_back(rates: Seq<PollingRate>)
    ensures
        ({
            let text = joined(rate_numbers(rates), ", "@);
            let parts = cut(text, ", "@, 0);
            &&& rates.len() == 0 ==> text == Seq::<char>::empty()
            &&& rates.len() > 0 ==> parts.len() == rates.len()
            &&& rates.len() > 0 ==> forall|i: int|
                0 <= i < rates.len() ==> (#[trigger] parts[i]) == decimal(rates[i].hz() as nat)
                    && parsed_rate(parts[i]) == Ok::<PollingRate, ErrorText>(rates[i])
        }),
{
    let numbers = rate_numbers(rates);
    reveal_strlit(", ");
    if rates.len() > 0 {
        assert forall|i: int| 0 <= i < numbers.len() implies holds_no(
            #[trigger] numbers[i],
            ", "@,
        ) by {
            lemma_rate_digits(rates[i]);
        }
        lemma_joined_is_cut(numbers, ", "@);
        assert forall|i: int| 0 <= i < rates.len() implies (#[trigger] numbers[i]) == decimal(
            rates[i].hz() as nat,
        ) && parsed_rate(numbers[i]) == Ok::<PollingRate, ErrorText>(rates[i]) by {
            law_written_numbers_read_back(rates[i]);
        }
    }
}

/// A rate that is written in words is read as that rate.
pub proof fn law_written_rates_read_back(rate: PollingRate)
    ensures
        parsed_rate(rate.spec_text()) == Ok::<PollingRate, ErrorText>(rate),
{
    let number = decimal(rate.hz() as nat);
    let text = rate.spec_text();
    let low = number + seq![' ', 'h', 'z'];
    let bare = number + seq![' '];
    lemma_rate_digits(rate);
    lemma_digits_stay(number);
    lemma_rate_number_named(rate);
    reveal_strlit(" Hz");
    reveal_strlit("hz");
    assert(text =~= number + seq![' ', 'H', 'z']);
    assert(trimmed(text, Margin::WhiteSpace) == text);
    assert(lowered(text) =~= low);
    assert(without_part(low, "hz"@) == bare) by {
        lemma_tail_is_taken_out(number);
    }
    assert(trimmed(bare, Margin::WhiteSpace) == number) by {
        assert(bare.drop_last() =~= number);
        assert(without_back(bare, Margin::WhiteSpace) == without_back(number, Margin::WhiteSpace));
    }
}

proof fn lemma_tail_is_taken_out(number: Seq<char>)
    requires
        forall|i: int| 0 <= i < number.len() ==> '0' <= #[trigger] number[i] <= '9',
    ensures
        without_part(number + seq![' ', 'h', 'z'], "hz"@) == number + seq![' '],
    decreases number.len(),
{
    reveal_strlit("hz");
    let whole = number + seq![' ', 'h', 'z'];
    if number.len() == 0 {
        assert(whole =~= seq![' ', 'h', 'z']);
        if stands_at(whole, "hz"@, 0) {
            assert(whole.subrange(0, 2)[0] == whole[0]);
            assert("hz"@[0] == 'h');
        }
        let tail = whole.skip(1);
        assert(tail.subrange(0, 2) =~= "hz"@);
        assert(stands_at(tail, "hz"@, 0));
        assert(tail.skip(2) =~= seq![]);
        assert(without_part(tail.skip(2), "hz"@) =~= seq![]);
        assert(without_part(tail, "hz"@) =~= seq![]);
        assert(without_part(whole, "hz"@) =~= number + seq![' ']);
    } else {
        if stands_at(whole, "hz"@, 0) {
            assert(whole.subrange(0, 2)[0] == whole[0]);
            assert("hz"@[0] == 'h');
        }
        assert(whole.skip(1) =~= number.skip(1) + seq![' ', 'h', 'z']);
        lemma_tail_is_taken_out(number.skip(1));
        assert(without_part(whole, "hz"@) =~= number + seq![' ']);
    }
}

/// A rate that can be read from a text is read from it in any case.
pub proof fn law_case_of_rates_does_not_matter(a: Seq<char>, b: Seq<char>)
    requires
        lowered(trimmed(a, Margin::WhiteSpace)) == lowered(trimmed(b, Margin::WhiteSpace)),
    ensures
        written_rate(a) == written_rate(b),
{
}

/// The model that is found for two ids is one of the list, and goes by them
/// when it is attached as found; where none is found, none of the list goes by
/// them.
pub proof fn law_found_model_goes_by_the_ids(models: Seq<ModelData>, vid: u16, pid: u16)
    ensures
        match first_match(models, vid, pid) {
            Some((model, connection)) => models.contains(model) && model.connection_for(vid, pid)
                == Some(connection) && model.vid == vid,
            None => forall|i: int|
                0 <= i < models.len() ==> (#[trigger] models[i]).connection_for(vid, pid) is None,
        },
    decreases models.len(),
{
    if models.len() > 0 {
        let rest = models.skip(1);
        law_found_model_goes_by_the_ids(rest, vid, pid);
        match first_match(models, vid, pid) {
            Some((model, connection)) => {
                if models[0].connection_for(vid, pid) is None {
                    let i = choose|i: int| 0 <= i < rest.len() && rest[i] == model;
                    assert(models[i + 1] == model);
                } else {
                    assert(models[0] == model);
                }
            },
            None => {
                assert forall|i: int| 0 <= i < models.len() implies (
                #[trigger] models[i]).connection_for(vid, pid) is None by {
                    if i > 0 {
                        assert(rest[i - 1] == models[i]);
                    }
                }
            },
        }
    }
}

/// Every rate that a known model offers has a byte in the protocol of the model.
pub proof fn law_offered_rates_can_be_set(i: int, connection: ConnectionKind, rate: PollingRate)
    requires
        0 <= i < catalog().len(),
        catalog()[i].rates_for(connection).contains(rate),
    ensures
        catalog()[i].protocol is LogitechHidpp ==> rate.logitech_hidpp_code() is Some,
{
    let first = fenrir_catalog().len() as int;
    let second = first + ipi_piao_catalog().len();
    let third = second + logitech_catalog().len();
    if i < first {
        assert(catalog()[i] == fenrir_catalog()[i]);
    } else if i < second {
        assert(catalog()[i] == ipi_piao_catalog()[i - first]);
    } else if i < third {
        assert(catalog()[i] == logitech_catalog()[i - second]);
    } else {
        assert(catalog()[i] == razer_catalog()[i - third]);
    }
}

/// Every model of the catalog offers 1000 Hz, however it is attached.
pub proof fn law_all_models_offer_1000_hz(i: int, connection: ConnectionKind)
    requires
        0 <= i < catalog().len(),
    ensures
        catalog()[i].rates_for(connection).contains(PollingRate::Hz1000),
{
    let first = fenrir_catalog().len() as int;
    let second = first + ipi_piao_catalog().len();
    let third = second + logitech_catalog().len();
    assert(crate::models::RATES_1K@[3] == PollingRate::Hz1000);
    assert(crate::models::RATES_4K@[2] == PollingRate::Hz1000);
    assert(crate::models::RATES_8K@[3] == PollingRate::Hz1000);
    if i < first {
        assert(catalog()[i] == fenrir_catalog()[i]);
    } else if i < second {
        assert(catalog()[i] == ipi_piao_catalog()[i - first]);
    } else if i < third {
        assert(catalog()[i] == logitech_catalog()[i - second]);
    } else {
        assert(catalog()[i] == razer_catalog()[i - third]);
    }
}

/// A 64-byte feature report that holds the code of a rate, in its place, tells
/// that rate. The one exception is 4000 Hz on a wired mouse of the old
/// protocol, whose code says 1000 Hz there.
pub proof fn law_feature64_answer_tells_the_rate(
    new_protocol: bool,
    wired_device_id: u8,
    connection: ConnectionKind,
    response: Seq<u8>,
    rate: PollingRate,
)
    requires
        response.len() >= 9,
        response[(if new_protocol {
            8int
        } else {
            5int
        }) - (if response[0] >= 0xA0 {
            1int
        } else {
            0int
        })] == rate.feature64_code(),
    ensures
        ({
            let protocol = ProtocolKind::Feature64 { new_protocol, wired_device_id };
            feature64_rate_code(new_protocol, connection, response) matches Ok(code)
                && rate_for_code(protocol, code) == Ok::<PollingRate, ErrorText>(
                if !new_protocol && connection.is_wired() && rate == PollingRate::Hz4000 {
                    PollingRate::Hz1000
                } else {
                    rate
                },
            )
        }),
{
    let protocol = ProtocolKind::Feature64 { new_protocol, wired_device_id };
    law_rate_code_round_trip(protocol, rate);
    law_rate_code_round_trip(protocol, PollingRate::Hz1000);
}

/// A report8 mouse that answers with the byte of an order to set the rate is
/// read as having that rate.
pub proof fn law_report8_answer_tells_the_rate(wire: Wire, response: Seq<u8>, rate: PollingRate)
    requires
        report8_run(wire, eeprom16_get_rate(), 8, 50, 5).outcome == Ok::<Seq<u8>, ErrorText>(
            response,
        ),
        response.len() > 5,
        response[5] == eeprom16_set_rate(rate)[5],
    ensures
        eeprom16_rate_run(wire, ProtocolKind::Eeprom16).outcome == Ok::<PollingRate, ErrorText>(
            rate,
        ),
{
    law_rate_code_round_trip(ProtocolKind::Eeprom16, rate);
}

/// An IPI mouse that answers with the byte of an order to set the rate is read
/// as having that rate.
pub proof fn law_ipi_answer_tells_the_rate(
    wire: Wire,
    report_id: u8,
    connection: ConnectionKind,
    response: Seq<u8>,
    rate: PollingRate,
)
    requires
        ipi_ask_run(wire, report_id, ipi_pix_v1_get_rate(), 50).outcome == Ok::<
            Seq<u8>,
            ErrorText,
        >(response),
        response.len() > 6,
        response[6] == ipi_pix_v1_set_rate(connection, rate)[6],
    ensures
        ipi_rate_run(wire, report_id, connection).outcome == Ok::<PollingRate, ErrorText>(rate),
{
    law_ipi_rate_byte_round_trip(connection, rate);
    assert(response[6] == ipi_pix_v1_rate_byte(connection, rate));
}

/// A resolution that was set with success can stand in a table entry, and was
/// acknowledged by the mouse or read back from it.
pub proof fn law_set_resolutions_are_confirmed(wire: Wire, dpi: u16)
    requires
        eeprom16_set_dpi_run(wire, dpi).outcome is Ok,
    ensures
        is_eeprom16_dpi(dpi),
        ({
            let config = eeprom16_dpi_config_run(wire);
            &&& config.outcome matches Ok((active, _))
            &&& eeprom16_dpi_entry(dpi) matches Ok(entry)
            &&& dpi_entry_offset(active) matches Ok(offset)
            &&& {
                let write = report8_run(
                    config.wire,
                    eeprom16_write(offset, entry)->Ok_0,
                    7,
                    50,
                    5,
                );
                write.outcome is Ok || eeprom16_dpi_run(write.wire).outcome == Ok::<
                    u16,
                    ErrorText,
                >(dpi)
            }
        }),
{
}

/// A report that was framed with its id is stripped to its payload again.
pub proof fn law_framed_reports_are_stripped(report_id: u8, payload: Seq<u8>)
    ensures
        feature_payload(seq![report_id] + payload, report_id, payload.len()) == payload,
        report_payload(seq![report_id] + payload, report_id, payload.len()) == payload,
{
    assert(without_first(seq![report_id] + payload) =~= payload);
}

/// The levels that report8, HID++ and Razer mice tell are percentages.
pub proof fn law_levels_are_percentages(
    wire: Wire,
    protocol: ProtocolKind,
    connection: ConnectionKind,
)
    requires
        protocol is Eeprom16 || protocol is LogitechHidpp || protocol is RazerV1,
    ensures
        battery_run(wire, protocol, connection).outcome matches Ok(battery)
            ==> battery.level_percent matches Some(level) && level <= 100,
{
    assert forall|raw: u8| #[trigger] razer_percent(raw) <= 100 by {
        assert((raw * 100 + 127) / 255 <= 100);
    }
}

/// Where the protocol cannot read the rate, nothing goes out and the read
/// fails.
pub proof fn law_unreadable_rate_sends_nothing(
    wire: Wire,
    protocol: ProtocolKind,
    connection: ConnectionKind,
)
    requires
        !protocol.supports_rate_read(),
    ensures
        rate_run(wire, protocol, connection).wire == wire,
        rate_run(wire, protocol, connection).outcome is Err,
{
}

/// Whether a request is the order to set the rate.
pub open spec fn is_rate_order(
    protocol: ProtocolKind,
    connection: ConnectionKind,
    rate: PollingRate,
    request: Request,
) -> bool {
    match protocol {
        ProtocolKind::Feature64 { .. } => request == (Request::SendFeature {
            report_id: FEATURE_REPORT_ID,
            payload: feature64_set_rate(protocol, connection, DEFAULT_PROFILE, rate),
        }),
        ProtocolKind::Eeprom16 => request == (Request::WriteOutput {
            report_id: REPORT8_ID,
            payload: with_report8_crc(eeprom16_set_rate(rate)),
        }),
        ProtocolKind::IpiPixV1 { report_id } => request == (Request::SendFeature {
            report_id,
            payload: ipi_pix_v1_set_rate(connection, rate),
        }),
        ProtocolKind::LogitechHidpp => rate.logitech_hidpp_code() matches Some(code) && request
            == hidpp_rate_request(request->WriteOutput_payload[1], code),
        ProtocolKind::RazerV1 { tx_id, polling_reversed } => request == (Request::SendFeature {
            report_id: RAZER_V1_REPORT_ID,
            payload: razer_command(
                tx_id,
                0x00,
                0x40,
                0x02,
                seq![0x01, rate.razer_v1_mask(polling_reversed)],
            ),
        }),
    }
}

/// Whether the order to set the rate is among the requests made since.
pub open spec fn rate_ordered(
    before: Wire,
    after: Wire,
    protocol: ProtocolKind,
    connection: ConnectionKind,
    rate: PollingRate,
) -> bool {
    exists|i: int|
        before.sent.len() <= i < after.sent.len() && is_rate_order(
            protocol,
            connection,
            rate,
            #[trigger] after.sent[i],
        )
}

proof fn lemma_made_is_kept(made: Wire, after: Wire, request: Request)
    requires
        continues(made.after(request), after),
    ensures
        made.sent.len() < after.sent.len(),
        after.sent[made.sent.len() as int] == request,
{
    assert(made.after(request).sent[made.sent.len() as int] == request);
    assert(after.sent.take(made.after(request).sent.len() as int)[made.sent.len() as int]
        == after.sent[made.sent.len() as int]);
}

/// A rate that was set with success was ordered from the device.
pub proof fn law_set_rates_were_ordered(
    wire: Wire,
    model: ModelData,
    protocol: ProtocolKind,
    connection: ConnectionKind,
    rate: PollingRate,
)
    requires
        set_rate_run(wire, model, protocol, connection, rate).outcome is Ok,
    ensures
        rate_ordered(
            wire,
            set_rate_run(wire, model, protocol, connection, rate).wire,
            protocol,
            connection,
            rate,
        ),
{
    let after = set_rate_run(wire, model, protocol, connection, rate).wire;
    lemma_continues_self(wire);
    match protocol {
        ProtocolKind::Feature64 { .. } => {
            let payload = feature64_set_rate(protocol, connection, DEFAULT_PROFILE, rate);
            let send = Request::SendFeature { report_id: FEATURE_REPORT_ID, payload };
            let sent = wire.after(send);
            let pause = Request::Sleep { milliseconds: 20 };
            let get = Request::GetFeature { report_id: FEATURE_REPORT_ID, payload_len: 64 };
            lemma_continues_self(sent);
            lemma_continues_after(sent, sent, pause);
            lemma_continues_after(sent, sent.after(pause), get);
            lemma_made_is_kept(wire, after, send);
            assert(is_rate_order(protocol, connection, rate, after.sent[wire.sent.len() as int]));
        },
        ProtocolKind::Eeprom16 => {
            let payload = with_report8_crc(eeprom16_set_rate(rate));
            let write = Request::WriteOutput { report_id: REPORT8_ID, payload };
            let clean = flushed(wire, FLUSH_LIMIT as nat);
            let written = clean.after(write);
            let read = crate::courses::report8_read(50);
            lemma_flushed_continues(wire, wire, FLUSH_LIMIT as nat);
            lemma_continues_self(written);
            lemma_continues_after(written, written, read);
            lemma_tries_continues(written, written.after(read), payload, 7, 50, 4, 5);
            lemma_made_is_kept(clean, after, write);
            assert(is_rate_order(protocol, connection, rate, after.sent[clean.sent.len() as int]));
        },
        ProtocolKind::IpiPixV1 { report_id } => {
            let payload = ipi_pix_v1_set_rate(connection, rate);
            let send = Request::SendFeature { report_id, payload };
            let sent = wire.after(send);
            let pause = Request::Sleep { milliseconds: 60 };
            lemma_continues_self(sent);
            lemma_continues_after(sent, sent, pause);
            lemma_ipi_response_continues(sent, sent.after(pause), report_id, payload[3], 4);
            lemma_made_is_kept(wire, after, send);
            assert(is_rate_order(protocol, connection, rate, after.sent[wire.sent.len() as int]));
        },
        ProtocolKind::LogitechHidpp => {
            lemma_hidpp_discover_continues(wire, wire, HIDPP_REPORT_RATE_FEATURE_ID, 2_000);
            let found = hidpp_discover_run(wire, HIDPP_REPORT_RATE_FEATURE_ID, 2_000).0;
            let order = after.sent.last();
            assert(after.sent == found.sent.push(order));
            assert(is_rate_order(protocol, connection, rate, after.sent[found.sent.len() as int]));
        },
        ProtocolKind::RazerV1 { .. } => {
            assert(is_rate_order(protocol, connection, rate, after.sent[wire.sent.len() as int]));
        },
    }
}

proof fn lemma_ipi_pages_continues(
    first: Wire,
    wire: Wire,
    report_id: u8,
    page_requests: Seq<[u8; 63]>,
    page: nat,
    got: Seq<u8>,
)
    requires
        continues(first, wire),
    ensures
        continues(first, ipi_pages_run(wire, report_id, page_requests, page, got).wire),
    decreases 6 - page,
{
    if page < 6 {
        let request = page_requests[page as int]@;
        lemma_ipi_ask_continues(first, wire, report_id, request, 20);
        let answer = ipi_ask_run(wire, report_id, request, 20);
        if let Ok(response) = answer.outcome {
            if response.len() >= 15 {
                let part = response.subrange(
                    if page == 0 {
                        6
                    } else {
                        5
                    },
                    15,
                );
                lemma_ipi_pages_continues(
                    first,
                    answer.wire,
                    report_id,
                    page_requests,
                    page + 1,
                    got + part,
                );
            }
        }
    }
}

proof fn lemma_ipi_dpi_answer_continues(
    first: Wire,
    wire: Wire,
    report_id: u8,
    command: u8,
    left: nat,
)
    requires
        continues(first, wire),
    ensures
        continues(first, ipi_dpi_answer_run(wire, report_id, command, left).wire),
    decreases left,
{
    if left > 0 {
        let pause = Request::Sleep { milliseconds: 20 };
        lemma_continues_after(first, wire, pause);
        lemma_ipi_response_continues(first, wire.after(pause), report_id, command, 4);
        let answer = ipi_response_run(wire.after(pause), report_id, command, 4);
        lemma_ipi_dpi_answer_continues(first, answer.wire, report_id, command, (left - 1) as nat);
    }
}

/// Reading the resolutions of an IPI mouse and giving it an order for them only
/// add requests to those made before.
pub proof fn law_ipi_resolution_continues(
    wire: Wire,
    report_id: u8,
    page_requests: Seq<[u8; 63]>,
    levels: nat,
    color_bytes: nat,
    report: Seq<u8>,
)
    ensures
        continues(
            wire,
            ipi_dpi_config_run(wire, report_id, page_requests, levels, color_bytes).wire,
        ),
        continues(wire, ipi_dpi_order_run(wire, report_id, report).wire),
{
    lemma_continues_self(wire);
    lemma_ipi_ask_continues(wire, wire, report_id, ipi_pix_v1_get_rate(), 50);
    let sensor = ipi_ask_run(wire, report_id, ipi_pix_v1_get_rate(), 50);
    lemma_ipi_pages_continues(wire, sensor.wire, report_id, page_requests, 0, seq![]);
    let send = Request::SendFeature { report_id, payload: report };
    lemma_continues_after(wire, wire, send);
    lemma_ipi_dpi_answer_continues(wire, wire.after(send), report_id, report[3], 3);
}

/// Of the interfaces that are looked at, each is of what is looked for, they
/// keep the order of the list, and, unless a path is looked for, no two stand
/// at one path.
pub proof fn law_chosen_interfaces_are_distinct(
    target: TargetData,
    interfaces: Seq<InterfaceData>,
    n: nat,
)
    requires
        n <= interfaces.len(),
    ensures
        ({
            let places = chosen(target, interfaces, n);
            &&& forall|k: int|
                0 <= k < places.len() ==> 0 <= #[trigger] places[k] < n && target.fits(
                    interfaces[places[k]],
                )
            &&& forall|j: int, k: int|
                0 <= j < k < places.len() ==> #[trigger] places[j] < #[trigger] places[k]
            &&& !(target is Path) ==> forall|j: int, k: int|
                0 <= j < k < places.len() ==> interfaces[#[trigger] places[j]].path
                    != interfaces[#[trigger] places[k]].path
        }),
    decreases n,
{
    if n > 0 {
        law_chosen_interfaces_are_distinct(target, interfaces, (n - 1) as nat);
        let before = chosen(target, interfaces, (n - 1) as nat);
        let places = chosen(target, interfaces, n);
        if places != before && !(target is Path) {
            assert forall|j: int, k: int| 0 <= j < k < places.len() implies interfaces[
            #[trigger] places[j]].path != interfaces[#[trigger] places[k]].path by {
                if k == before.len() {
                    assert(places[j] == before[j]);
                    assert(!path_taken(interfaces, before, interfaces[n - 1].path));
                }
            }
        }
    }
}

/// Every interface that is of what is looked for is looked at, or one before it
/// at the same path is.
pub proof fn law_no_path_is_passed_over(
    target: TargetData,
    interfaces: Seq<InterfaceData>,
    n: nat,
    i: int,
)
    requires
        0 <= i < n <= interfaces.len(),
        target.fits(interfaces[i]),
    ensures
        path_taken(interfaces, chosen(target, interfaces, n), interfaces[i].path),
    decreases n,
{
    let before = chosen(target, interfaces, (n - 1) as nat);
    let places = chosen(target, interfaces, n);
    if i < n - 1 {
        law_no_path_is_passed_over(target, interfaces, (n - 1) as nat, i);
        let k = choose|k: int|
            0 <= k < before.len() && interfaces[#[trigger] before[k]].path == interfaces[i].path;
        assert(places[k] == before[k]);
    } else if places != before {
        assert(places[before.len() as int] == i);
    }
}

} // verus!
