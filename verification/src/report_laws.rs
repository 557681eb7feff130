//! What stands in the reports that go to a mouse, byte by byte, and how
//! questions and orders relate.
use crate::bytes::{byte_sum, byte_xor};
use crate::courses::{
    eeprom16_charge_state, hidpp_discover_request, hidpp_rate_request, razer_charge_command,
    razer_level_command,
};
use crate::devices::{
    gwolves_charge_state, BatteryStatus, ChargeState, ConnectionKind, PollingRate, ProtocolKind,
};
use crate::error::ErrorText;
use crate::payloads::{
    decoded_dpi_entry, hidpp_payload, ipi_payload, logitech_charge_state, razer_command,
    razer_frame, report_payload, with_report8_crc,
};
use crate::reports::{
    block_checksum, eeprom16_dpi_entry, eeprom16_get_battery, eeprom16_get_rate, eeprom16_read,
    eeprom16_set_rate, eeprom16_write, feature64_get_battery, feature64_get_rate,
    feature64_set_rate, ipi_pix_v1_get_basic_info, ipi_pix_v1_get_rate, ipi_pix_v1_rate_byte,
    ipi_pix_v1_set_rate, ipi_rate_coded, is_eeprom16_dpi, sensor_code,
};
use crate::transport::Request;
use vstd::prelude::*;

verus! {

/// Whether all bytes of a report from a place on are zero.
pub open spec fn zero_from(report: Seq<u8>, from: int) -> bool {
    forall|i: int| from <= i < report.len() ==> #[trigger] report[i] == 0
}

/// A rate has the number of reports a second that its name tells, and no two
/// rates have the same.
pub proof fn law_rates_and_numbers(rate: PollingRate, other: PollingRate)
    ensures
        rate.hz() == 125 <==> rate == PollingRate::Hz125,
        rate.hz() == 250 <==> rate == PollingRate::Hz250,
        rate.hz() == 500 <==> rate == PollingRate::Hz500,
        rate.hz() == 1000 <==> rate == PollingRate::Hz1000,
        rate.hz() == 2000 <==> rate == PollingRate::Hz2000,
        rate.hz() == 4000 <==> rate == PollingRate::Hz4000,
        rate.hz() == 8000 <==> rate == PollingRate::Hz8000,
        rate.hz() == other.hz() ==> rate == other,
{
}

/// The codes follow from the rates. Up to 1000 reports a second the code is the
/// number of milliseconds between two of them; above it each protocol counts in
/// steps of its own. Logitech has no codes above it.
pub proof fn law_codes_follow_from_rates(rate: PollingRate)
    ensures
        rate.hz() <= 1000 ==> {
            &&& rate.feature64_code() * rate.hz() == 1000
            &&& rate.eeprom16_code() * rate.hz() == 1000
            &&& rate.logitech_hidpp_code() matches Some(code) && code * rate.hz() == 1000
        },
        rate.hz() > 1000 ==> {
            &&& rate.feature64_code() * 125 == rate.hz() * 2
            &&& rate.eeprom16_code() * 125 == rate.hz()
            &&& rate.logitech_hidpp_code() is None
        },
        rate.hz() == 1000 <==> rate.ipi_pix_v1_code() == 0,
        rate.hz() == 500 <==> rate.ipi_pix_v1_code() == 1,
        rate.hz() == 250 <==> rate.ipi_pix_v1_code() == 2,
        rate.hz() == 125 <==> rate.ipi_pix_v1_code() == 3,
        rate.hz() == 8000 <==> rate.ipi_pix_v1_code() == 4,
        rate.hz() == 4000 <==> rate.ipi_pix_v1_code() == 5,
        rate.hz() == 2000 <==> rate.ipi_pix_v1_code() == 6,
{
    match rate {
        PollingRate::Hz125 => {
            assert(rate.hz() == 125 && rate.feature64_code() == 8 && rate.eeprom16_code() == 8);
            assert(rate.logitech_hidpp_code() == Some(8u8));
            assert(8 * 125 == 1000);
        },
        PollingRate::Hz250 => {
            assert(rate.hz() == 250 && rate.feature64_code() == 4 && rate.eeprom16_code() == 4);
            assert(rate.logitech_hidpp_code() == Some(4u8));
            assert(4 * 250 == 1000);
        },
        PollingRate::Hz500 => {
            assert(rate.hz() == 500 && rate.feature64_code() == 2 && rate.eeprom16_code() == 2);
            assert(rate.logitech_hidpp_code() == Some(2u8));
            assert(2 * 500 == 1000);
        },
        PollingRate::Hz1000 => {
            assert(rate.hz() == 1000 && rate.feature64_code() == 1 && rate.eeprom16_code() == 1);
            assert(rate.logitech_hidpp_code() == Some(1u8));
            assert(1 * 1000 == 1000);
        },
        _ => {},
    }
}

/// The bit for a rate in Razer reports: counted from 125 reports a second up, or
/// from 8000 down for the mice that count the other way round.
pub proof fn law_razer_bits(rate: PollingRate)
    ensures
        rate.razer_v1_mask(false) * 125 == rate.hz(),
        rate.razer_v1_mask(true) * rate.hz() == 8000,
{
    match rate {
        PollingRate::Hz125 => assert(0x40 * 125 == 8000),
        PollingRate::Hz250 => assert(0x20 * 250 == 8000),
        PollingRate::Hz500 => assert(0x10 * 500 == 8000),
        PollingRate::Hz1000 => assert(0x08 * 1000 == 8000),
        PollingRate::Hz2000 => assert(0x04 * 2000 == 8000),
        PollingRate::Hz4000 => assert(0x02 * 4000 == 8000),
        PollingRate::Hz8000 => assert(0x01 * 8000 == 8000),
    }
}

/// Which code of a rate counts is a matter of the protocol alone.
pub proof fn law_protocols_use_their_own_codes(
    rate: PollingRate,
    new_protocol: bool,
    id: u8,
    reversed: bool,
    code: u8,
)
    ensures
        (ProtocolKind::Feature64 { new_protocol, wired_device_id: id }).rate_code(rate)
            == rate.feature64_code(),
        ProtocolKind::Eeprom16.rate_code(rate) == rate.eeprom16_code(),
        (ProtocolKind::IpiPixV1 { report_id: id }).rate_code(rate) == rate.ipi_pix_v1_code(),
        rate.logitech_hidpp_code() matches Some(code) ==> ProtocolKind::LogitechHidpp.rate_code(
            rate,
        ) == code,
        rate.logitech_hidpp_code() is None ==> ProtocolKind::LogitechHidpp.rate_code(rate) == 0,
        (ProtocolKind::RazerV1 { tx_id: id, polling_reversed: reversed }).rate_code(rate)
            == rate.razer_v1_mask(reversed),
        ProtocolKind::LogitechHidpp.rate_coded(code) is None,
        (ProtocolKind::RazerV1 { tx_id: id, polling_reversed: reversed }).rate_coded(code) is None,
{
}

/// The rate can be read in all protocols but those of Logitech and Razer, the
/// battery in all, the resolution in the one that shows the memory.
pub proof fn law_what_protocols_can_tell(protocol: ProtocolKind)
    ensures
        protocol.supports_rate_read() <==> !(protocol is LogitechHidpp) && !(protocol is RazerV1),
        protocol.supports_battery_read(),
        protocol.supports_dpi() <==> protocol is Eeprom16,
{
}

/// A status byte means a state of its own, whatever the vendor: discharging,
/// charging or full where the vendor says so, and itself where no meaning is
/// known.
pub proof fn law_status_bytes(status: u8)
    ensures
        gwolves_charge_state(status) is Discharging <==> status == 0,
        gwolves_charge_state(status) is Charging <==> status == 1,
        gwolves_charge_state(status) is Full <==> status == 2,
        status > 2 <==> gwolves_charge_state(status) == ChargeState::Raw(status),
        eeprom16_charge_state(status) is Discharging <==> status == 0,
        eeprom16_charge_state(status) is Charging <==> status == 1,
        status > 1 <==> eeprom16_charge_state(status) == ChargeState::Raw(status),
        logitech_charge_state(status) is Discharging <==> status == 0 || status == 4,
        logitech_charge_state(status) is Charging <==> status == 1 || status == 2,
        logitech_charge_state(status) is Full <==> status == 3,
        status > 4 <==> logitech_charge_state(status) == ChargeState::Raw(status),
{
}

/// A battery counts as plugged in while it charges or is full, as not plugged
/// in while it discharges, and as neither where its state is not known; its
/// level does not matter.
pub proof fn law_plugged_in_states(battery: BatteryStatus)
    ensures
        battery.is_charging_like() == Some(true) <==> battery.charge_state is Charging
            || battery.charge_state is Full,
        battery.is_charging_like() == Some(false) <==> battery.charge_state is Discharging,
        battery.is_charging_like() is None <==> battery.charge_state is Unknown
            || battery.charge_state is Raw,
        battery.charge_state.is_charging_like() == battery.is_charging_like(),
{
}

/// In the old form of the 64-byte reports the fourth byte says whether the mouse
/// is behind a radio link: it is 0 for a wired mouse and 1 for any other, in
/// the order and in both questions alike. The third byte tells the three apart,
/// and only the order holds a code. The profile does not matter.
pub proof fn law_old_feature64_reports(
    wired_device_id: u8,
    connection: ConnectionKind,
    profile: u8,
    rate: PollingRate,
)
    ensures
        ({
            let protocol = ProtocolKind::Feature64 { new_protocol: false, wired_device_id };
            let order = feature64_set_rate(protocol, connection, profile, rate);
            let asks_rate = feature64_get_rate(protocol, connection, profile);
            let asks_battery = feature64_get_battery(protocol, connection);
            &&& order.len() == 64 && asks_rate.len() == 64 && asks_battery.len() == 64
            &&& order[0] == 0 && asks_rate[0] == 0 && asks_battery[0] == 0
            &&& order[1] == 2 && asks_rate[1] == 2 && asks_battery[1] == 2
            &&& order[2] == 2 && asks_rate[2] == 130 && asks_battery[2] == 143
            &&& connection == ConnectionKind::Wired ==> order[3] == 0
            &&& connection == ConnectionKind::Wireless ==> order[3] == 1
            &&& connection == ConnectionKind::Receiver ==> order[3] == 1
            &&& asks_rate[3] == order[3]
            &&& asks_battery[3] == order[3]
            &&& order[4] == rate.feature64_code()
            &&& zero_from(order, 5)
            &&& zero_from(asks_rate, 4)
            &&& zero_from(asks_battery, 4)
        }),
{
}

/// In the new form the third byte is the id of the mouse, in the order and in
/// both questions alike; the order and the rate question name the profile, and
/// the order holds the code behind it. The connection does not matter.
pub proof fn law_new_feature64_reports(
    wired_device_id: u8,
    connection: ConnectionKind,
    profile: u8,
    rate: PollingRate,
)
    ensures
        ({
            let protocol = ProtocolKind::Feature64 { new_protocol: true, wired_device_id };
            let order = feature64_set_rate(protocol, connection, profile, rate);
            let asks_rate = feature64_get_rate(protocol, connection, profile);
            let asks_battery = feature64_get_battery(protocol, connection);
            &&& order.len() == 64 && asks_rate.len() == 64 && asks_battery.len() == 64
            &&& order[0] == 0 && asks_rate[0] == 0 && asks_battery[0] == 0
            &&& order[1] == 0 && asks_rate[1] == 0 && asks_battery[1] == 0
            &&& order[2] == wired_device_id
            &&& asks_rate[2] == wired_device_id
            &&& asks_battery[2] == wired_device_id
            &&& order[3] == 2 && asks_rate[3] == 2 && asks_battery[3] == 2
            &&& order[4] == 1 && asks_rate[4] == 1 && asks_battery[4] == 0
            &&& order[5] == 0 && asks_rate[5] == 128 && asks_battery[5] == 131
            &&& order[6] == profile && asks_rate[6] == profile
            &&& order[7] == rate.feature64_code()
            &&& zero_from(order, 8)
            &&& zero_from(asks_rate, 7)
            &&& zero_from(asks_battery, 6)
        }),
{
}

/// Protocols without 64-byte reports have blank ones.
pub proof fn law_no_feature64_reports(
    protocol: ProtocolKind,
    connection: ConnectionKind,
    profile: u8,
    rate: PollingRate,
)
    requires
        !(protocol is Feature64),
    ensures
        feature64_set_rate(protocol, connection, profile, rate).len() == 64,
        zero_from(feature64_set_rate(protocol, connection, profile, rate), 0),
        feature64_get_rate(protocol, connection, profile).len() == 64,
        zero_from(feature64_get_rate(protocol, connection, profile), 0),
        feature64_get_battery(protocol, connection).len() == 64,
        zero_from(feature64_get_battery(protocol, connection), 0),
{
}

/// A report8 question names an offset and a length, and a report8 order these
/// and the bytes; neither moves more than ten bytes.
pub proof fn law_report8_memory_reports(offset: u8, len: u8, data: Seq<u8>)
    ensures
        eeprom16_read(offset, len) is Ok <==> len <= 10,
        eeprom16_read(offset, len) matches Ok(question) ==> {
            &&& question.len() == 16
            &&& question[0] == 8 && question[1] == 0 && question[2] == 0
            &&& question[3] == offset
            &&& question[4] == len
            &&& zero_from(question, 5)
        },
        eeprom16_write(offset, data) is Ok <==> data.len() <= 10,
        eeprom16_write(offset, data) matches Ok(order) ==> {
            &&& order.len() == 16
            &&& order[0] == 7 && order[1] == 0 && order[2] == 0
            &&& order[3] == offset
            &&& order[4] == data.len()
            &&& order.subrange(5, 5 + data.len() as int) == data
            &&& zero_from(order, 5 + data.len() as int)
        },
{
    if data.len() <= 10 {
        let order = eeprom16_write(offset, data)->Ok_0;
        assert(order.subrange(5, 5 + data.len() as int) =~= data);
    }
}

/// The rate of a report8 mouse is the first byte of its memory, with the
/// complement to 85 behind it: it is asked for and ordered as these two bytes.
pub proof fn law_report8_rate_reports(rate: PollingRate)
    ensures
        eeprom16_read(0, 2) == Ok::<Seq<u8>, ErrorText>(eeprom16_get_rate()),
        eeprom16_write(0, seq![rate.eeprom16_code(), (85 - rate.eeprom16_code()) as u8]) == Ok::<
            Seq<u8>,
            ErrorText,
        >(eeprom16_set_rate(rate)),
        rate.eeprom16_code() < 85,
        eeprom16_get_battery().len() == 16,
        eeprom16_get_battery()[0] == 4,
        zero_from(eeprom16_get_battery(), 1),
{
    let code = rate.eeprom16_code();
    assert(eeprom16_write(0, seq![code, (85 - code) as u8])->Ok_0 =~= eeprom16_set_rate(rate));
    assert(eeprom16_read(0, 2)->Ok_0 =~= eeprom16_get_rate());
}

/// The checksum of a report8 report is its last byte; the others stay.
pub proof fn law_report8_checksum_is_last(payload: Seq<u8>, i: int)
    requires
        payload.len() == 16,
        0 <= i < 15,
    ensures
        with_report8_crc(payload).len() == 16,
        with_report8_crc(payload)[i] == payload[i],
{
}

/// A resolution can be stored where it is a multiple of 50 from 50 to 12800. It
/// is stored as the same count of steps of 50 for both axes, one less than it
/// is, with a zero and a byte behind it that brings the sum to 85.
pub proof fn law_stored_resolutions(dpi: u16)
    ensures
        is_eeprom16_dpi(dpi) <==> exists|steps: int|
            1 <= steps <= 256 && dpi == #[trigger] (steps * 50),
        eeprom16_dpi_entry(dpi) is Ok <==> is_eeprom16_dpi(dpi),
        eeprom16_dpi_entry(dpi) matches Ok(entry) ==> {
            &&& entry.len() == 4
            &&& (entry[0] + 1) * 50 == dpi
            &&& entry[1] == entry[0]
            &&& entry[2] == 0
            &&& (entry[0] + entry[1] + entry[2] + entry[3]) % 256 == 85
        },
{
    if is_eeprom16_dpi(dpi) {
        let steps = dpi as int / 50;
        assert(dpi == steps * 50);
        let raw = (dpi / 50 - 1) as u8;
        lemma_sum_of_three(raw, raw, 0);
    }
}

/// A stored resolution is read just where both axes agree, the third byte is
/// zero and the four sum up to 85; it is then the steps of 50 that the first
/// byte counts.
pub proof fn law_read_resolutions(entry: Seq<u8>)
    ensures
        decoded_dpi_entry(entry) is Ok <==> {
            &&& entry.len() == 4
            &&& entry[0] == entry[1]
            &&& entry[2] == 0
            &&& (entry[0] + entry[1] + entry[2] + entry[3]) % 256 == 85
        },
        decoded_dpi_entry(entry) matches Ok(dpi) ==> dpi == (entry[0] + 1) * 50,
{
    if entry.len() == 4 {
        lemma_sum_of_three(entry[0], entry[1], entry[2]);
        assert(entry.take(3) =~= seq![entry[0], entry[1], entry[2]]);
    }
}

proof fn lemma_sum_of_three(a: u8, b: u8, c: u8)
    ensures
        byte_sum(seq![a, b, c]) == a + b + c,
        (a + b + c + block_checksum(seq![a, b, c])) % 256 == 85,
        forall|d: u8| #[trigger] (a + b + c + d) % 256 == 85 ==> d == block_checksum(
            seq![a, b, c],
        ),
{
    reveal_with_fuel(byte_sum, 4);
    assert(seq![a, b, c].drop_last() =~= seq![a, b]);
    assert(seq![a, b].drop_last() =~= seq![a]);
    assert(seq![a].drop_last() =~= Seq::<u8>::empty());
}

/// The IPI reports: the second byte is always 80, the third is 1 in the order
/// and 0 in the questions, the next names the command. The order holds the rate
/// byte at the end.
pub proof fn law_ipi_reports(connection: ConnectionKind, rate: PollingRate)
    ensures
        ({
            let order = ipi_pix_v1_set_rate(connection, rate);
            let asks_rate = ipi_pix_v1_get_rate();
            let asks_info = ipi_pix_v1_get_basic_info();
            &&& order.len() == 63 && asks_rate.len() == 63 && asks_info.len() == 63
            &&& order[1] == 80 && asks_rate[1] == 80 && asks_info[1] == 80
            &&& order[2] == 1 && asks_rate[2] == 0 && asks_info[2] == 0
            &&& order[3] == 49 && asks_rate[3] == 10 && asks_info[3] == 2
            &&& order[4] == 53 && asks_rate[4] == 79 && asks_info[4] == 79
            &&& order[5] == 1 && asks_rate[5] == 64 && asks_info[5] == 129
            &&& order[6] == ipi_pix_v1_rate_byte(connection, rate)
            &&& zero_from(order, 7)
            &&& zero_from(asks_rate, 6)
            &&& zero_from(asks_info, 6)
        }),
{
}

/// The rate byte of an IPI mouse holds the code in its upper half, except for
/// the rates above 1000 of a wireless mouse, where that half is zero; the lower
/// half always holds the code.
pub proof fn law_ipi_rate_byte(connection: ConnectionKind, rate: PollingRate)
    ensures
        ipi_pix_v1_rate_byte(connection, rate) % 16 == rate.ipi_pix_v1_code(),
        ipi_pix_v1_rate_byte(connection, rate) / 16 == if connection == ConnectionKind::Wireless
            && rate.hz() > 1000 {
            0
        } else {
            rate.ipi_pix_v1_code()
        },
{
}

/// A rate byte is read by the lower three bits of the half that counts: the
/// lower half for a wireless mouse, the upper one for any other.
pub proof fn law_ipi_rate_byte_is_read(connection: ConnectionKind, raw: u8)
    ensures
        ({
            let half = if connection == ConnectionKind::Wireless {
                raw % 16
            } else {
                raw / 16
            };
            let code = half % 8;
            &&& ipi_rate_coded(sensor_code(connection, raw)) is Some <==> code != 7
            &&& ipi_rate_coded(sensor_code(connection, raw)) matches Some(rate)
                ==> rate.ipi_pix_v1_code() == code
        }),
{
    assert((raw % 16) % 8 == raw % 8) by (nonlinear_arith);
}

/// A Razer command: the transaction id second, then the size, class and id of
/// the command and its arguments, all else zero but for the checksum.
pub proof fn law_razer_reports(tx_id: u8, class: u8, id: u8, size: u8, args: Seq<u8>)
    requires
        args.len() <= 80,
    ensures
        ({
            let command = razer_command(tx_id, class, id, size, args);
            &&& command.len() == 90
            &&& command[0] == 0
            &&& command[1] == tx_id
            &&& command[2] == 0 && command[3] == 0 && command[4] == 0
            &&& command[5] == size
            &&& command[6] == class
            &&& command[7] == id
            &&& command.subrange(8, 8 + args.len() as int) == args
            &&& forall|i: int| 8 + args.len() <= i < 88 ==> #[trigger] command[i] == 0
            &&& command[88] == byte_xor(command.subrange(2, 88))
            &&& command[89] == 0
        }),
{
    let command = razer_command(tx_id, class, id, size, args);
    let frame = razer_frame(tx_id, class, id, size, args);
    assert(command.subrange(8, 8 + args.len() as int) =~= args);
    assert(command.subrange(2, 88) =~= frame.subrange(2, 88));
}

/// The Razer questions for the battery level and for charging are commands of
/// the same class that differ in their id.
pub proof fn law_razer_questions(tx_id: u8)
    ensures
        ({
            let level = razer_level_command(tx_id);
            let charge = razer_charge_command(tx_id);
            &&& level.len() == 90 && charge.len() == 90
            &&& level[1] == tx_id && charge[1] == tx_id
            &&& level[5] == 2 && charge[5] == 2
            &&& level[6] == 0x07 && charge[6] == 0x07
            &&& level[7] == 0x80 && charge[7] == 0x84
            &&& forall|i: int| 8 <= i < 88 ==> #[trigger] level[i] == 0 && charge[i] == 0
            &&& level[88] == byte_xor(level.subrange(2, 88))
            &&& charge[88] == byte_xor(charge.subrange(2, 88))
        }),
{
    law_razer_reports(tx_id, 0x07, 0x80, 0x02, seq![0x00, 0x00]);
    law_razer_reports(tx_id, 0x07, 0x84, 0x02, seq![0x00, 0x00]);
    let level = razer_level_command(tx_id);
    let charge = razer_charge_command(tx_id);
    assert forall|i: int| 8 <= i < 88 implies #[trigger] level[i] == 0 && charge[i] == 0 by {
        if i < 10 {
            assert(level[i] == level.subrange(8, 10)[i - 8]);
            assert(charge[i] == charge.subrange(8, 10)[i - 8]);
        }
    }
}

/// The HID++ reports: a question goes to the device and its root feature and
/// names the feature high byte first; the order goes to all devices and names
/// the feature by its index, with the code behind it.
pub proof fn law_hidpp_reports(feature_id: u16, index: u8, code: u8)
    ensures
        hidpp_discover_request(feature_id) matches Request::WriteOutput { report_id, payload } && {
            &&& report_id == 0x10
            &&& payload.len() == 6
            &&& payload[0] == 1 && payload[1] == 0 && payload[2] == 0x0D
            &&& payload[3] * 256 + payload[4] == feature_id
            &&& payload[5] == 0
        },
        hidpp_rate_request(index, code) == (Request::WriteOutput {
            report_id: 0x10,
            payload: seq![0xFF, index, 0x2E, code, 0, 0],
        }),
{
}

/// What stands behind the report id is what a HID++ or IPI answer says. A HID++
/// answer that starts with neither id of such reports, and an input report that
/// is no longer than asked for, are taken as they are.
pub proof fn law_answers_behind_ids(raw: Seq<u8>, payload_len: nat)
    ensures
        hidpp_payload(seq![0x10u8] + raw) == raw,
        hidpp_payload(seq![0x11u8] + raw) == raw,
        raw.len() > 0 && raw[0] != 0x10 && raw[0] != 0x11 ==> hidpp_payload(raw) == raw,
        hidpp_payload(Seq::empty()) == Seq::<u8>::empty(),
        raw.len() > 0 ==> ipi_payload(raw) == raw.skip(1),
        ipi_payload(Seq::empty()) == Seq::<u8>::empty(),
        raw.len() <= payload_len ==> report_payload(raw, 8, payload_len) == raw,
        raw.len() > payload_len + 1 ==> report_payload(raw, 8, payload_len) == raw.take(
            payload_len as int,
        ),
{
    assert(hidpp_payload(seq![0x10u8] + raw) =~= raw);
    assert(hidpp_payload(seq![0x11u8] + raw) =~= raw);
    if raw.len() > 0 {
        assert(ipi_payload(raw) =~= raw.skip(1));
    }
}

/// Sums and checksums count each byte once.
pub proof fn law_sums_count_each_byte(bytes: Seq<u8>, byte: u8)
    ensures
        byte_sum(Seq::empty()) == 0,
        byte_sum(bytes.push(byte)) == byte_sum(bytes) + byte,
        byte_xor(Seq::empty()) == 0,
        byte_xor(bytes.push(byte)) == byte_xor(bytes) ^ byte,
{
    assert(bytes.push(byte).drop_last() =~= bytes);
}

/// The checksum of four bytes of memory is what is left to 85.
pub proof fn law_block_checksum(block: Seq<u8>)
    ensures
        (byte_sum(block) + block_checksum(block)) % 256 == 85,
{
}

} // verus!
