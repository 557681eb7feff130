//! What a scan, a search and a diagnosis make of the interfaces of a system and
//! of what the devices behind them answer.
use crate::courses::{battery_run, probe_run, rate_run};
use crate::devices::{BatteryStatus, ConnectionKind, PollingRate, ProtocolKind};
use crate::error::ErrorText;
use crate::interfaces::{
    access_candidate, access_list, all_attempts, attempts_for, candidate_at, denies_access,
    fits_unprobed, ids_text, no_unprobed_error, open_ids_error, selects, FailureData, HidInterface,
    InterfaceData, OpenAttempt, SelectedInterface, TargetData,
};
use crate::models::ModelData;
use crate::probing::{
    battery_data, control_data, diagnosis_run, live_probe_run, milliseconds, probed_snapshot,
    rate_data, silent_probe, AnswersData, DeviceDiagnostic, OutcomeData, ProbeData,
    ProtocolDiagnostic,
};
use crate::snapshots::{merged, merged_one, visible_keys, SnapshotData, SnapshotKeyData};
use crate::text::{has_part, lowered, maybe_text, stands_at};
use crate::transport::Wire;
use vstd::prelude::*;

verus! {

/// What a device answers is what the scan shows of it. A battery that is read
/// is kept, in every protocol, whether the rate can be read or not; a rate that
/// is read is kept, whether the battery can be read or not. What was not read
/// is missing, with the error beside it. A device that answers neither is none.
pub proof fn law_answers_are_kept(wire: Wire, protocol: ProtocolKind, connection: ConnectionKind)
    ensures
        ({
            let readable = !(protocol is LogitechHidpp) && !(protocol is RazerV1);
            let rate = rate_run(wire, protocol, connection);
            let asked = if readable {
                rate.wire
            } else {
                wire
            };
            let battery = battery_run(asked, protocol, connection);
            let run = live_probe_run(wire, protocol, connection);
            let has_rate = readable && rate.outcome is Ok;
            &&& run.wire == battery.wire
            &&& run.outcome is Ok <==> has_rate || battery.outcome is Ok
            &&& run.outcome matches Ok(probe) ==> {
                &&& probe.protocol == protocol
                &&& battery.outcome matches Ok(status) ==> probe.battery == Some(status)
                    && probe.battery_error is None
                &&& battery.outcome matches Err(e) ==> probe.battery is None && probe.battery_error
                    == Some(e.message)
                &&& has_rate ==> probe.current_rate == Some(rate.outcome->Ok_0) && probe.read_error
                    is None
                &&& !has_rate ==> probe.current_rate is None
                &&& readable ==> (rate.outcome matches Err(e) ==> probe.read_error == Some(
                    e.message,
                ))
                &&& !readable ==> probe.read_error is None
            }
        }),
{
}

/// A device that answered in no protocol is shown under the protocol of its
/// model, with nothing known but the errors, one after the other.
pub proof fn law_silent_devices(model: ModelData, errors: Seq<Seq<char>>, error: Seq<char>)
    ensures
        ({
            let probe = silent_probe(model, errors);
            &&& probe.protocol == model.protocol
            &&& probe.current_rate is None
            &&& probe.battery is None
            &&& probe.battery_error is None
            &&& probe.read_error is Some
            &&& errors.len() == 1 ==> probe.read_error == Some(errors[0])
            &&& errors.len() > 0 ==> silent_probe(model, errors.push(error)).read_error == Some(
                probe.read_error->Some_0 + "; "@ + error,
            )
        }),
{
    assert(errors.push(error).drop_last() =~= errors);
}

/// A snapshot names its interface, and its model with the rates for the way it
/// is attached; the rest is what was found.
pub proof fn law_snapshots_show_what_was_found(
    path: Seq<char>,
    vid: u16,
    pid: u16,
    product: Option<Seq<char>>,
    model: ModelData,
    connection: ConnectionKind,
    probe: ProbeData,
)
    ensures
        ({
            let shown = probed_snapshot(path, vid, pid, product, model, connection, probe);
            &&& shown.path == path && shown.vid == vid && shown.pid == pid
            &&& shown.product_name == product
            &&& shown.vendor_name == model.vendor_name
            &&& shown.model_name == model.name
            &&& shown.connection == connection
            &&& shown.protocol == probe.protocol
            &&& shown.current_rate == probe.current_rate
            &&& shown.battery == probe.battery
            &&& shown.battery_error == probe.battery_error
            &&& shown.read_error == probe.read_error
            &&& !shown.cached_rate && !shown.cached_battery
            &&& shown.supported_rates == match connection {
                ConnectionKind::Wired => model.wired_rates,
                ConnectionKind::Wireless => model.wireless_rates,
                ConnectionKind::Receiver => model.receiver_rates,
            }
        }),
{
}

/// The protocol of a model is tried first, and no other but the new form of the
/// 64-byte reports after the old one, with the same id.
pub proof fn law_tried_protocols(model: ModelData)
    ensures
        model.candidates().len() >= 1,
        model.candidates()[0] == model.protocol,
        model.protocol matches ProtocolKind::Feature64 { new_protocol: false, wired_device_id } ==> {
            &&& model.candidates().len() == 2
            &&& model.candidates()[1] == (ProtocolKind::Feature64 {
                new_protocol: true,
                wired_device_id,
            })
        },
        !(model.protocol matches ProtocolKind::Feature64 { new_protocol: false, .. })
            ==> model.candidates().len() == 1,
{
}

/// Two snapshots are of one device where the ids and the way it is attached are
/// the same.
pub proof fn law_same_devices(a: SnapshotData, b: SnapshotData)
    ensures
        a.same_device(b) <==> a.vid == b.vid && a.pid == b.pid && a.connection == b.connection,
        a.key() == b.key() <==> a.same_device(b),
{
}

/// A further snapshot of a device adds what is missing and takes nothing away:
/// a rate that is known stays, and one that was missing is taken with all that
/// came with it; a battery that is known stays with its rate, and one that was
/// missing beside a known rate is taken.
pub proof fn law_merged_devices(existing: SnapshotData, new: SnapshotData)
    requires
        existing.same_device(new),
    ensures
        ({
            let one = merged_one(existing, new);
            &&& one.same_device(existing)
            &&& existing.current_rate is Some ==> one.current_rate == existing.current_rate
                && one.path == existing.path && one.protocol == existing.protocol
            &&& existing.current_rate is None && new.current_rate is Some ==> one == new
            &&& existing.current_rate is None && new.current_rate is None ==> one.current_rate
                is None && one.path == existing.path
            &&& existing.battery is Some && (existing.current_rate is Some || new.current_rate
                is None) ==> one.battery == existing.battery
            &&& existing.current_rate is Some && existing.battery is None ==> one.battery
                == new.battery
            &&& existing.current_rate is Some && existing.battery is None && new.battery is Some
                ==> one.battery_error is None
            &&& existing.current_rate is Some && existing.battery is None && new.battery is None
                && existing.battery_error is None ==> one.battery_error == new.battery_error
            &&& existing.current_rate is None && new.current_rate is None && existing.read_error
                is None ==> one.read_error == new.read_error
        }),
{
}

/// A snapshot joins the first one of its device, or goes to the end where there
/// is none; all others keep their places.
pub proof fn law_merged_lists(devices: Seq<SnapshotData>, new: SnapshotData)
    ensures
        ({
            let after = merged(devices, new);
            let known = exists|i: int|
                0 <= i < devices.len() && (#[trigger] devices[i]).same_device(new);
            &&& known ==> after.len() == devices.len()
            &&& !known ==> after == devices.push(new)
            &&& forall|i: int|
                0 <= i < devices.len() && !(#[trigger] devices[i]).same_device(new) ==> after[i]
                    == devices[i]
            &&& forall|i: int|
                0 <= i < devices.len() && (#[trigger] devices[i]).same_device(new) && (forall|j: int|
                    0 <= j < i ==> !(#[trigger] devices[j]).same_device(new)) ==> after[i]
                    == merged_one(devices[i], new)
        }),
    decreases devices.len(),
{
    let after = merged(devices, new);
    if devices.len() == 0 {
        assert(after =~= devices.push(new));
    } else if devices[0].same_device(new) {
    } else {
        let rest = devices.skip(1);
        law_merged_lists(rest, new);
        let tail = merged(rest, new);
        assert(forall|i: int| 0 <= i < tail.len() ==> after[i + 1] == #[trigger] tail[i]);
        assert forall|i: int| 0 <= i < devices.len() && !(#[trigger] devices[i]).same_device(
            new,
        ) implies after[i] == devices[i] by {
            if i > 0 {
                assert(rest[i - 1] == devices[i]);
                assert(after[i] == tail[i - 1]);
            }
        }
        assert forall|i: int|
            0 <= i < devices.len() && (#[trigger] devices[i]).same_device(new) && (forall|j: int|
                0 <= j < i ==> !(#[trigger] devices[j]).same_device(new)) implies after[i]
            == merged_one(devices[i], new) by {
            assert(i > 0);
            assert(rest[i - 1] == devices[i]);
            assert(after[i] == tail[i - 1]);
            assert forall|j: int| 0 <= j < i - 1 implies !(#[trigger] rest[j]).same_device(new) by {
                assert(rest[j] == devices[j + 1]);
            }
        }
        if exists|i: int| 0 <= i < devices.len() && (#[trigger] devices[i]).same_device(new) {
            let i = choose|i: int|
                0 <= i < devices.len() && (#[trigger] devices[i]).same_device(new);
            assert(rest[i - 1] == devices[i]);
        } else {
            assert forall|i: int| 0 <= i < rest.len() implies !(#[trigger] rest[i]).same_device(
                new,
            ) by {
                assert(rest[i] == devices[i + 1]);
            }
            assert(after =~= devices.push(new));
        }
    }
}

/// A mouse is attached the way that the id tells under which it shows up.
pub proof fn law_connections_follow_the_ids(model: ModelData, vid: u16, pid: u16)
    ensures
        ({
            let connection = model.connection_for(vid, pid);
            let wired = model.wired_pid == Some(pid);
            let receiver = model.receiver_pid == Some(pid) || model.receiver_idvd_pid == Some(pid);
            let wireless = model.wireless_pid == Some(pid);
            &&& connection is Some <==> vid == model.vid && (wired || receiver || wireless)
            &&& vid == model.vid && wired ==> connection == Some(ConnectionKind::Wired)
            &&& vid == model.vid && receiver && !wired ==> connection == Some(
                ConnectionKind::Receiver,
            )
            &&& vid == model.vid && wireless && !wired && !receiver ==> connection == Some(
                ConnectionKind::Wireless,
            )
        }),
{
}

/// The rates of a model are those of the connection, and a rate can be set just
/// where it is among them.
pub proof fn law_rates_go_by_the_connection(
    model: ModelData,
    connection: ConnectionKind,
    rate: PollingRate,
)
    ensures
        connection == ConnectionKind::Wired ==> model.rates_for(connection) == model.wired_rates,
        connection == ConnectionKind::Wireless ==> model.rates_for(connection)
            == model.wireless_rates,
        connection == ConnectionKind::Receiver ==> model.rates_for(connection)
            == model.receiver_rates,
        model.required_rate(connection, rate) is Ok <==> model.rates_for(connection).contains(rate),
{
}

/// An interface is used where its ids are known; a report8 mouse is spoken to
/// over the one interface that controls it. A search takes those that it is
/// after.
pub proof fn law_used_interfaces(interface: InterfaceData, vid: u16, pid: u16, path: Seq<char>)
    ensures
        interface.usable() <==> (interface.model() matches Some((model, _)) && (!(model.protocol
            is Eeprom16) || interface.usage_page == 0xFF02 && interface.usage == 2)),
        TargetData::Any.fits(interface) <==> interface.usable(),
        (TargetData::Ids { vid, pid }).fits(interface) <==> interface.usable() && interface.vid
            == vid && interface.pid == pid,
        (TargetData::Path { path }).fits(interface) <==> interface.usable() && interface.path
            == path,
{
}

/// Without a probe, an interface is taken by its number alone where one is
/// given, as long as its ids are known.
pub proof fn law_unprobed_interfaces(interface: InterfaceData, wanted: i32)
    ensures
        fits_unprobed(interface, Some(wanted)) <==> interface.interface_number == wanted
            && interface.model() is Some,
        fits_unprobed(interface, None) <==> interface.usable(),
{
}

/// A search for a device of the user's choice ends where its interface does not
/// open; a search for any goes on. No search ends where a device does not
/// answer.
pub proof fn law_searches_end(target: TargetData, error: Seq<char>)
    ensures
        target.fatal(FailureData::NotOpened { error }) is Some <==> !(target is Any),
        target.fatal(FailureData::NotOpened { error }) matches Some(e) ==> e.cause == Some(error),
        target.fatal(FailureData::NoAnswer { error }) is None,
{
}

/// Every protocol of every chosen interface is tried, and nothing else.
pub proof fn law_all_protocols_are_tried(
    selected: Seq<SelectedInterface>,
    n: nat,
    attempt: OpenAttempt,
)
    requires
        n <= selected.len(),
    ensures
        all_attempts(selected, n).contains(attempt) <==> exists|k: int|
            0 <= k < n && #[trigger] selected[k] == attempt.selected
                && attempt.selected.model@.candidates().contains(attempt.protocol),
    decreases n,
{
    if n > 0 {
        let m = (n - 1) as nat;
        let before = all_attempts(selected, m);
        let own = attempts_for(selected[m as int]);
        law_all_protocols_are_tried(selected, m, attempt);
        let candidates = selected[m as int].model@.candidates();
        if own.contains(attempt) {
            let i = choose|i: int| 0 <= i < own.len() && own[i] == attempt;
            assert(candidates[i] == attempt.protocol);
            assert(candidates.contains(attempt.protocol));
        }
        if selected[m as int] == attempt.selected && candidates.contains(attempt.protocol) {
            let i = choose|i: int| 0 <= i < candidates.len() && candidates[i] == attempt.protocol;
            assert(own[i] == attempt);
            assert(own.contains(attempt));
            assert((before + own)[before.len() + i] == attempt);
        }
        if before.contains(attempt) {
            let i = choose|i: int| 0 <= i < before.len() && before[i] == attempt;
            assert((before + own)[i] == attempt);
        }
        if (before + own).contains(attempt) {
            let i = choose|i: int| 0 <= i < (before + own).len() && (before + own)[i] == attempt;
            if i < before.len() {
                assert(before[i] == attempt);
            } else {
                assert(own[i - before.len()] == attempt);
            }
        }
    }
}

/// The protocols of an interface that was chosen earlier are tried earlier, and
/// those of one interface in the order of its model.
pub proof fn law_attempts_are_in_order(selected: Seq<SelectedInterface>, n: nat, i: int)
    requires
        0 < n <= selected.len(),
        0 <= i < selected[n - 1].model@.candidates().len(),
    ensures
        ({
            let all = all_attempts(selected, n);
            let before = all_attempts(selected, (n - 1) as nat);
            let own = selected[n - 1].model@.candidates();
            &&& all.len() == before.len() + own.len()
            &&& all.take(before.len() as int) == before
            &&& all[before.len() + i].protocol == own[i]
            &&& all[before.len() + i].selected == selected[n - 1]
        }),
{
    let before = all_attempts(selected, (n - 1) as nat);
    assert(all_attempts(selected, n).take(before.len() as int) =~= before);
}

/// An error tells of missing rights where it says so in one of the known ways,
/// in capitals or not.
pub proof fn law_denials(error: Seq<char>, other: Seq<char>)
    ensures
        denies_access(error) <==> has_part(lowered(error), "permission denied"@) || has_part(
            lowered(error),
            "access denied"@,
        ) || has_part(lowered(error), "operation not permitted"@) || has_part(
            lowered(error),
            "os error 13"@,
        ),
        lowered(error) == lowered(other) ==> denies_access(error) == denies_access(other),
{
}

/// An interface is in need of rights where it would be used, is a hidraw file,
/// and was denied.
pub proof fn law_interfaces_in_need(interface: InterfaceData, error: Option<Seq<char>>)
    ensures
        access_candidate(interface, error) is Some <==> interface.usable() && stands_at(
            interface.path,
            "/dev/hidraw"@,
            0,
        ) && (error matches Some(error) && denies_access(error)),
        access_candidate(interface, error) matches Some(candidate) ==> {
            &&& candidate.path == interface.path
            &&& candidate.vid == interface.vid
            &&& candidate.pid == interface.pid
            &&& interface.model() matches Some((model, _)) && candidate.vendor_name
                == model.vendor_name && candidate.model_name == model.name
        },
{
}

/// The list of interfaces in need holds each path once, and each that is in
/// need.
pub proof fn law_interfaces_in_need_are_listed_once(
    interfaces: Seq<InterfaceData>,
    errors: Seq<Option<String>>,
    n: nat,
    i: int,
)
    requires
        0 <= i < n <= interfaces.len(),
    ensures
        ({
            let list = access_list(interfaces, errors, n);
            &&& access_candidate(interfaces[i], maybe_text(errors[i])) is Some ==> candidate_at(
                list,
                interfaces[i].path,
            )
            &&& forall|j: int, k: int|
                0 <= j < k < list.len() ==> (#[trigger] list[j]).path != (#[trigger] list[k]).path
            &&& forall|k: int|
                0 <= k < list.len() ==> exists|j: int|
                    0 <= j < n && access_candidate(
                        #[trigger] interfaces[j],
                        maybe_text(errors[j]),
                    ) == Some(#[trigger] list[k])
        }),
    decreases n,
{
    let m = (n - 1) as nat;
    let before = access_list(interfaces, errors, m);
    let list = access_list(interfaces, errors, n);
    if m > 0 {
        law_interfaces_in_need_are_listed_once(
            interfaces,
            errors,
            m,
            if i < m {
                i
            } else {
                0
            },
        );
    }
    let found = access_candidate(interfaces[m as int], maybe_text(errors[m as int]));
    assert forall|k: int| 0 <= k < list.len() implies exists|j: int|
        0 <= j < n && access_candidate(#[trigger] interfaces[j], maybe_text(errors[j])) == Some(
            #[trigger] list[k],
        ) by {
        if k < before.len() {
            assert(list[k] == before[k]);
            let j = choose|j: int|
                0 <= j < m && access_candidate(#[trigger] interfaces[j], maybe_text(errors[j]))
                    == Some(before[k]);
            assert(access_candidate(interfaces[j], maybe_text(errors[j])) == Some(list[k]));
        } else {
            assert(access_candidate(interfaces[m as int], maybe_text(errors[m as int])) == Some(
                list[k],
            ));
        }
    }
    if i < m && candidate_at(before, interfaces[i].path) {
        let k = choose|k: int|
            0 <= k < before.len() && (#[trigger] before[k]).path == interfaces[i].path;
        assert(list[k].path == interfaces[i].path);
    }
    if i == m && found is Some && !candidate_at(before, interfaces[i].path) {
        assert(list[before.len() as int].path == interfaces[i].path);
    }
    assert forall|j: int, k: int| 0 <= j < k < list.len() implies (#[trigger] list[j]).path != (
    #[trigger] list[k]).path by {
        if k == before.len() {
            assert(list[j] == before[j]);
            assert(!candidate_at(before, list[k].path));
        }
    }
}

/// A diagnosis asks a device whether it answers, then for its rate where the
/// protocol can tell it, then for its battery, each where the one before ended.
pub proof fn law_diagnoses_ask(wire: Wire, protocol: ProtocolKind, connection: ConnectionKind)
    ensures
        ({
            let readable = !(protocol is LogitechHidpp) && !(protocol is RazerV1);
            let (done, answers) = diagnosis_run(wire, protocol, connection);
            let control = probe_run(wire, protocol, connection);
            let rate = rate_run(control.wire, protocol, connection);
            let battery = battery_run(
                if readable {
                    rate.wire
                } else {
                    control.wire
                },
                protocol,
                connection,
            );
            &&& answers.control == control.outcome
            &&& readable ==> answers.rate == Some(rate.outcome)
            &&& !readable ==> answers.rate is None
            &&& answers.battery == Some(battery.outcome)
            &&& done == battery.wire
        }),
{
}

/// A step of a diagnosis passes just where it was taken and went well, and tells
/// what it brought; where it went wrong it tells the error with its cause. One
/// that was not taken took no time.
pub proof fn law_diagnoses_tell(
    control: Result<(), ErrorText>,
    rate: Option<Result<PollingRate, ErrorText>>,
    battery: Option<Result<BatteryStatus, ErrorText>>,
    ms: u128,
)
    ensures
        control_data(control, ms) is Passed <==> control is Ok,
        control matches Err(e) ==> control_data(control, ms) == (OutcomeData::Error {
            error: e.full(),
            elapsed_ms: ms,
        }),
        rate is None <==> rate_data(rate, ms) is Skipped,
        rate matches Some(Ok(found)) ==> rate_data(rate, ms) == (OutcomeData::Passed {
            detail: found.spec_text(),
            elapsed_ms: ms,
        }),
        rate matches Some(Err(e)) ==> rate_data(rate, ms) == (OutcomeData::Error {
            error: e.full(),
            elapsed_ms: ms,
        }),
        battery is None <==> battery_data(battery, ms) is Skipped,
        battery matches Some(Ok(found)) ==> battery_data(battery, ms) == (OutcomeData::Passed {
            detail: found.spec_text(),
            elapsed_ms: ms,
        }),
        battery matches Some(Err(e)) ==> battery_data(battery, ms) == (OutcomeData::Error {
            error: e.full(),
            elapsed_ms: ms,
        }),
        control_data(control, ms).elapsed() == Some(ms),
        rate is None ==> rate_data(rate, ms).elapsed() is None,
        rate is Some ==> rate_data(rate, ms).elapsed() == Some(ms),
        control_data(control, ms).status() == if control is Ok {
            "ok"@
        } else {
            "error"@
        },
        rate is None ==> rate_data(rate, ms).status() == "skipped"@,
{
}

/// An error in full is its message, with the cause behind it where there is one.
pub proof fn law_errors_in_full(error: ErrorText)
    ensures
        error.cause is None ==> error.full() == error.message,
        error.cause matches Some(cause) ==> error.full() == error.message + ": "@ + cause,
{
}

/// The time between two readings of a clock is counted in whole milliseconds,
/// and is none where the clock went back.
pub proof fn law_milliseconds(now: u128, then: u128)
    ensures
        now >= then ==> milliseconds(now, then) * 1_000_000 <= now - then < (milliseconds(now, then)
            + 1) * 1_000_000,
        now < then ==> milliseconds(now, then) == 0,
{
}

/// The keys in sight are those of the devices, by ids and connection.
pub proof fn law_keys_in_sight(devices: Seq<SnapshotData>, key: SnapshotKeyData)
    ensures
        visible_keys(devices).contains(key) <==> exists|i: int|
            0 <= i < devices.len() && (#[trigger] devices[i]).vid == key.vid && devices[i].pid
                == key.pid && devices[i].connection == key.connection,
{
    if visible_keys(devices).contains(key) {
        let i = choose|i: int| 0 <= i < devices.len() && #[trigger] devices[i].key() == key;
        assert(devices[i].vid == key.vid);
    }
    if exists|i: int|
        0 <= i < devices.len() && (#[trigger] devices[i]).vid == key.vid && devices[i].pid
            == key.pid && devices[i].connection == key.connection {
        let i = choose|i: int|
            0 <= i < devices.len() && (#[trigger] devices[i]).vid == key.vid && devices[i].pid
                == key.pid && devices[i].connection == key.connection;
        assert(devices[i].key() == key);
    }
}

/// The errors of a search say what it was after and what was found last.
pub proof fn law_search_errors(
    vid: u16,
    pid: u16,
    path: Seq<char>,
    error: Seq<char>,
    wanted: i32,
)
    ensures
        (TargetData::Ids { vid, pid }).exhausted(Some(error)).message == "found "@ + ids_text(
            vid,
            pid,
        ) + ", but no interface answered: "@ + error,
        (TargetData::Ids { vid, pid }).exhausted(None).message
            == "no supported device found for "@ + ids_text(vid, pid),
        (TargetData::Path { path }).exhausted(Some(error)).message == "found "@ + path
            + ", but its control interface did not answer: "@ + error,
        (TargetData::Path { path }).exhausted(None).message
            == "no supported control interface found at "@ + path,
        TargetData::Any.exhausted(Some(error)) == TargetData::Any.exhausted(None),
        TargetData::Any.exhausted(None).message == "no supported polling-rate device found"@,
        (TargetData::Ids { vid, pid }).fatal(FailureData::NotOpened { error }) == Some(
            open_ids_error(vid, pid, error),
        ),
        open_ids_error(vid, pid, error).message == "failed to open "@ + ids_text(vid, pid),
        open_ids_error(vid, pid, error).cause == Some(error),
        (TargetData::Path { path }).fatal(FailureData::NotOpened { error })->Some_0.message
            == "failed to open "@ + path,
        no_unprobed_error(Some(wanted)).message == "no supported HID interface "@
            + crate::text::signed_decimal(wanted as int) + " found"@,
        no_unprobed_error(None).message == "no supported HID interface found"@,
{
}

/// The diagnosis of an interface names it and its model in full.
pub proof fn law_diagnoses_name_their_interface(
    diagnostic: DeviceDiagnostic,
    interface: HidInterface,
    model: ModelData,
    connection: ConnectionKind,
)
    requires
        diagnostic.is_of(interface, model, connection),
    ensures
        diagnostic.path@ == interface.path@,
        diagnostic.vid == interface.vid && diagnostic.pid == interface.pid,
        maybe_text(diagnostic.manufacturer) == maybe_text(interface.manufacturer),
        maybe_text(diagnostic.product) == maybe_text(interface.product),
        maybe_text(diagnostic.serial) == maybe_text(interface.serial),
        diagnostic.release_number == interface.release_number,
        diagnostic.usage_page == Some(interface.usage_page),
        diagnostic.usage == Some(interface.usage),
        diagnostic.interface_number == interface.interface_number,
        diagnostic.bus_type@ == interface.bus_type@,
        diagnostic.vendor_name@ == model.vendor_name,
        diagnostic.model_name@ == model.name,
        diagnostic.connection == connection,
        diagnostic.supported_rates@ == model.rates_for(connection),
{
}

/// A record of a diagnosis is of its protocol. Where the interface did not open
/// nothing else was tried; where it did, just those questions were left out that
/// the protocol cannot answer.
pub proof fn law_records_of_diagnoses(record: ProtocolDiagnostic, protocol: ProtocolKind)
    requires
        record.fits(protocol),
    ensures
        record.protocol == protocol,
        !(record.open@ is Skipped),
        record.open@ is Error ==> record.control_probe@ is Skipped && record.rate_read@ is Skipped
            && record.battery_read@ is Skipped,
        record.open@ is Passed ==> {
            &&& !(record.control_probe@ is Skipped)
            &&& !(record.battery_read@ is Skipped)
            &&& record.rate_read@ is Skipped <==> protocol is LogitechHidpp || protocol is RazerV1
        },
{
}

/// A record of an open interface tells what was answered, step by step.
pub proof fn law_records_tell_the_answers(record: ProtocolDiagnostic, answers: AnswersData)
    requires
        record.tells(answers),
    ensures
        record.open@ is Passed,
        record.control_probe@ is Passed <==> answers.control is Ok,
        record.rate_read@ is Skipped <==> answers.rate is None,
        answers.rate matches Some(Ok(rate)) ==> (record.rate_read@ matches OutcomeData::Passed {
            detail,
            ..
        } && detail == rate.spec_text()),
        answers.rate matches Some(Err(_)) ==> record.rate_read@ is Error,
        record.battery_read@ is Skipped <==> answers.battery is None,
        answers.battery matches Some(Ok(battery)) ==> (
        record.battery_read@ matches OutcomeData::Passed { detail, .. } && detail
            == battery.spec_text()),
        answers.battery matches Some(Err(_)) ==> record.battery_read@ is Error,
{
}

/// What is chosen is told with the model and the connection that its ids stand
/// for.
pub proof fn law_chosen_interfaces_are_known(
    interfaces: Seq<InterfaceData>,
    selected: Seq<SelectedInterface>,
    places: Seq<int>,
    k: int,
)
    requires
        selects(interfaces, selected, places),
        0 <= k < places.len(),
    ensures
        selected.len() == places.len(),
        selected[k].index == places[k],
        interfaces[places[k]].model() == Some((selected[k].model@, selected[k].connection)),
{
}

} // verus!
