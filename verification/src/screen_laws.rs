//! What the terminal, the window and the command line show and do.
use crate::cli::{
    diagnosis, dpi_set_words, exchange_words, listed, protocol_lines, rate_set_words, step_words,
    watching_words,
};
use crate::courses::{dpi_run, flushed, rate_run, set_dpi_run, set_rate_run};
use crate::device_laws::{law_set_rates_were_ordered, rate_ordered};
use crate::devices::{
    rate_numbers, BatteryStatus, ChargeState, ConnectionKind, PollingRate, ProtocolKind,
};
use crate::error::ErrorText;
use crate::gui::{
    age_words, badge, battery_words, charge_words, first_target, hint_words, set_words, shown_rate,
    title_words, with_targets, worker_result, GuiData, PendingWorkerRate, Tone,
};
use crate::hid_device::{report8_exchange_run, report8_reads_run};
use crate::interfaces::{ids_text, AccessData};
use crate::models::ModelData;
use crate::payloads::with_report8_crc;
use crate::probing::{DeviceDiagnostic, OutcomeData, ProtocolDiagnostic};
use crate::snapshots::{cache_steps, visible_keys, SnapshotData, SnapshotKeyData};
use crate::text::{decimal, has_part, hex2, hex4, joined, stands_at};
use crate::transport::{Request, Wire};
use crate::tui::{
    command_for, is_unavailable, preferred_rate, rate_place, set_and_read_dpi_run, set_and_read_run,
    Command, DpiData, Key, PendingTuiRateChange, RateOrder, TuiData,
};
use crate::tui_text::{
    candidate_lines, candidate_words, capped_product, current_detail_words, current_words, less,
    level_words, note_words,
    power_detail_words, power_words, rate_cell_words, refresh_words, row_words, status_words,
    udev_rule, udev_rules,
};
use crate::watch::{first_device_words, rate_words};
use crate::watcher::DesiredData;
use vstd::prelude::*;
use vstd::utf8::is_ascii_chars_encode_utf8;

verus! {

/// A device counts as asleep where it is not wired and its read timed out.
pub proof fn law_devices_asleep(device: SnapshotData)
    ensures
        device.connection == ConnectionKind::Wired ==> !is_unavailable(device),
        device.read_error is None ==> !is_unavailable(device),
        device.connection != ConnectionKind::Wired ==> (device.read_error matches Some(error)
            ==> is_unavailable(device) == has_part(error, "timed out waiting for"@)),
{
}

/// The rate that is offered first is the one that the device runs at, where it
/// is on offer; else 1000 where that is; else the first on offer.
pub proof fn law_preferred_rates(device: SnapshotData)
    ensures
        ({
            let offered = device.supported_rates;
            let current = device.current_rate is Some && offered.contains(
                device.current_rate->Some_0,
            );
            &&& current ==> preferred_rate(device) == device.current_rate
            &&& !current && offered.contains(PollingRate::Hz1000) ==> preferred_rate(device)
                == Some(PollingRate::Hz1000)
            &&& !current && !offered.contains(PollingRate::Hz1000) && offered.len() > 0
                ==> preferred_rate(device) == Some(offered[0])
            &&& offered.len() == 0 ==> preferred_rate(device) is None
        }),
{
}

/// The display is refreshed each second while a change waits; else every five
/// seconds where a device is asleep; else each second with the focus and every
/// five seconds without it.
pub proof fn law_refresh_intervals(app: TuiData, i: int)
    ensures
        app.pending_rate is Some ==> app.interval_ms() == 1_000,
        app.pending_rate is None && 0 <= i < app.devices.len() && is_unavailable(app.devices[i])
            ==> app.interval_ms() == 5_000,
        app.pending_rate is None && !app.focused ==> app.interval_ms() == 5_000,
        app.pending_rate is None && app.focused && (forall|j: int|
            0 <= j < app.devices.len() ==> !is_unavailable(#[trigger] app.devices[j]))
            ==> app.interval_ms() == 1_000,
{
}

/// Moving on selects the next device and moving back the one before, round the
/// ends; the target is then what the new device prefers. Nothing else changes.
pub proof fn law_selection_moves(app: TuiData)
    requires
        0 <= app.selected_device < app.devices.len(),
    ensures
        ({
            let n = app.devices.len() as int;
            let i = app.selected_device;
            let next = if i + 1 < n {
                i + 1
            } else {
                0
            };
            let previous = if i > 0 {
                i - 1
            } else {
                n - 1
            };
            &&& app.device_moved(1).selected_device == next
            &&& app.device_moved(-1).selected_device == previous
            &&& app.device_moved(1).target_rate == preferred_rate(app.devices[next])
            &&& app.device_moved(-1).target_rate == preferred_rate(app.devices[previous])
            &&& !app.device_moved(1).target_dirty && !app.device_moved(-1).target_dirty
            &&& app.device_moved(1).devices == app.devices
            &&& app.device_moved(1).pending_rate == app.pending_rate
        }),
{
    let n = app.devices.len() as int;
    let i = app.selected_device;
    lemma_one_on(i, n);
}

proof fn lemma_one_on(i: int, n: int)
    requires
        0 <= i < n,
    ensures
        (i + 1) % n == if i + 1 < n {
            i + 1
        } else {
            0
        },
        (i - 1) % n == if i > 0 {
            i - 1
        } else {
            n - 1
        },
{
    if i + 1 < n {
        vstd::arithmetic::div_mod::lemma_small_mod((i + 1) as nat, n as nat);
    } else {
        vstd::arithmetic::div_mod::lemma_mod_self_0(n);
    }
    if i > 0 {
        vstd::arithmetic::div_mod::lemma_small_mod((i - 1) as nat, n as nat);
    } else {
        vstd::arithmetic::div_mod::lemma_fundamental_div_mod_converse(-1, n, -1, n - 1);
    }
}

/// Moving the target goes through the rates on offer, round the ends, and marks
/// it as chosen by the user; the selection stays.
pub proof fn law_targets_move(app: TuiData, device: SnapshotData, i: int)
    requires
        app.selected() == Some(device),
        0 <= i < device.supported_rates.len(),
        app.target_rate == Some(device.supported_rates[i]),
        forall|j: int| 0 <= j < i ==> #[trigger] device.supported_rates[j] != device.supported_rates[i],
    ensures
        ({
            let offered = device.supported_rates;
            let n = offered.len() as int;
            let next = if i + 1 < n {
                i + 1
            } else {
                0
            };
            let previous = if i > 0 {
                i - 1
            } else {
                n - 1
            };
            &&& app.rate_moved(1).target_rate == Some(offered[next])
            &&& app.rate_moved(-1).target_rate == Some(offered[previous])
            &&& app.rate_moved(1).target_dirty && app.rate_moved(-1).target_dirty
            &&& app.rate_moved(1).selected_device == app.selected_device
            &&& app.rate_moved(1).devices == app.devices
        }),
{
    let offered = device.supported_rates;
    assert(offered.contains(offered[i]));
    let place = rate_place(offered, app.target_rate);
    offered.index_of_first_ensures(offered[i]);
    assert(place == i);
    lemma_one_on(i, offered.len() as int);
}

/// A target that the user chose stays while it is on offer; any other is what
/// the device prefers.
pub proof fn law_chosen_targets_stay(app: TuiData)
    ensures
        ({
            let next = app.with_target();
            &&& next.selected_device == app.selected_device && next.devices == app.devices
            &&& app.selected() is None ==> next.target_rate is None && !next.target_dirty
            &&& app.selected() matches Some(device) ==> {
                let chosen = app.target_dirty && app.target_rate is Some
                    && device.supported_rates.contains(app.target_rate->Some_0);
                &&& chosen ==> next == app
                &&& !chosen ==> next.target_rate == preferred_rate(device) && !next.target_dirty
            }
        }),
{
}

/// The target becomes the rate that the device runs at, where it is known.
pub proof fn law_targets_are_synced(app: TuiData)
    ensures
        app.selected() matches Some(device) ==> {
            &&& device.current_rate is Some ==> app.synced().target_rate == device.current_rate
                && !app.synced().target_dirty
            &&& device.current_rate is None ==> app.synced() == app
        },
        app.selected() is None ==> app.synced() == app,
        app.synced().devices == app.devices,
        app.synced().pending_rate == app.pending_rate,
{
}

/// After a scan the display shows the devices, completed from memory. The
/// selection stays where it was, or goes to the first where that is gone.
pub proof fn law_scans_are_shown(app: TuiData, devices: Seq<SnapshotData>)
    ensures
        ({
            let next = app.scanned(devices);
            let (memory, shown) = cache_steps(app.memory, devices, devices.len());
            &&& next.devices == shown
            &&& next.memory == memory.restrict(visible_keys(devices))
            &&& app.selected_device < shown.len() ==> next.selected_device == app.selected_device
            &&& app.selected_device >= shown.len() ==> next.selected_device == 0
            &&& next.pending_rate == app.pending_rate
            &&& next.focused == app.focused
            &&& shown.len() == 0 ==> next.status == "no supported device found"@
            &&& shown.len() > 0 ==> next.status == decimal(shown.len())
                + " device(s), refreshed now"@
        }),
{
}

/// The question for rights is asked where something needs them, once, unless the
/// user said no.
pub proof fn law_rights_are_asked_for(app: TuiData, candidates: Seq<AccessData>)
    ensures
        ({
            let next = app.access_checked(candidates);
            let asks = app.access_prompt is None && !app.access_prompt_dismissed
                && candidates.len() > 0;
            &&& asks ==> next.access_prompt == Some(candidates)
            &&& !asks ==> next == app
            &&& next.devices == app.devices && next.access_prompt_dismissed
                == app.access_prompt_dismissed
        }),
{
}

/// Whether a change waits for a device.
pub open spec fn waits_for(pending: PendingTuiRateChange, device: SnapshotData) -> bool {
    pending.vid == device.vid && pending.pid == device.pid && pending.connection
        == device.connection
}

/// Asked to write the target, the terminal does so just where the selected
/// device tells live that it runs at another rate: to that device, with that
/// rate. Where it runs at it, nothing is written and what waited for it is
/// gone. Where its rate is not live, the change waits.
pub proof fn law_rates_are_asked_for(app: TuiData, device: SnapshotData, rate: PollingRate)
    requires
        app.selected() == Some(device),
        app.target_rate == Some(rate),
    ensures
        ({
            let (next, order) = app.rate_asked();
            let met = device.current_rate == Some(rate);
            let stale = device.cached_rate || device.current_rate is None;
            &&& order is Some <==> !met && !stale
            &&& order matches Some(order) ==> order == (RateOrder {
                vid: device.vid,
                pid: device.pid,
                connection: device.connection,
                rate,
            }) && next == app
            &&& met ==> !next.target_dirty
            &&& met ==> next.pending_rate == if app.pending_rate is Some && waits_for(
                app.pending_rate->Some_0,
                device,
            ) {
                None
            } else {
                app.pending_rate
            }
            &&& !met && stale ==> next.pending_rate == Some(
                PendingTuiRateChange {
                    vid: device.vid,
                    pid: device.pid,
                    connection: device.connection,
                    target: rate,
                },
            )
            &&& next.devices == app.devices && next.selected_device == app.selected_device
        }),
{
}

/// Without a device or a target nothing is written, and it is said why.
pub proof fn law_nothing_to_ask_for(app: TuiData)
    ensures
        app.selected() is None ==> app.rate_asked().1 is None && app.rate_asked().0.status
            == "no device selected"@,
        app.selected() is Some && app.target_rate is None ==> app.rate_asked().1 is None
            && app.rate_asked().0.status == "no target rate selected"@,
{
}

/// A change that waits is written as soon as its device tells live that it runs
/// at another rate. It is done where it runs at the target, and waits on in all
/// other cases.
pub proof fn law_waiting_rates_are_tried(
    app: TuiData,
    pending: PendingTuiRateChange,
    i: int,
)
    requires
        app.pending_rate == Some(pending),
        0 <= i < app.devices.len(),
        waits_for(pending, app.devices[i]),
        forall|j: int| 0 <= j < i ==> !waits_for(pending, #[trigger] app.devices[j]),
    ensures
        ({
            let device = app.devices[i];
            let (next, order) = app.pending_tried();
            let met = device.current_rate == Some(pending.target);
            let stale = device.cached_rate || device.current_rate is None;
            &&& order is Some <==> !met && !stale
            &&& order matches Some(order) ==> order == (RateOrder {
                vid: device.vid,
                pid: device.pid,
                connection: device.connection,
                rate: pending.target,
            })
            &&& met ==> next.pending_rate is None
            &&& !met ==> next.pending_rate == app.pending_rate
        }),
{
    lemma_first_waiting(app, pending, 0, i);
}

proof fn lemma_first_waiting(app: TuiData, pending: PendingTuiRateChange, from: int, i: int)
    requires
        0 <= from <= i < app.devices.len(),
        waits_for(pending, app.devices[i]),
        forall|j: int| 0 <= j < i ==> !waits_for(pending, #[trigger] app.devices[j]),
    ensures
        app.pending_place(pending, from) == Some(i),
    decreases i - from,
{
    if from < i {
        assert(!waits_for(pending, app.devices[from]));
        lemma_first_waiting(app, pending, from + 1, i);
    }
}

/// A change whose device is out of sight waits on, and nothing is written.
pub proof fn law_waiting_rates_out_of_sight(app: TuiData, pending: PendingTuiRateChange)
    requires
        app.pending_rate == Some(pending),
        forall|j: int| 0 <= j < app.devices.len() ==> !waits_for(pending, #[trigger] app.devices[j]),
    ensures
        app.pending_tried().1 is None,
        app.pending_tried().0.pending_rate == app.pending_rate,
{
    lemma_none_waiting(app, pending, 0);
}

proof fn lemma_none_waiting(app: TuiData, pending: PendingTuiRateChange, from: int)
    requires
        0 <= from,
        forall|j: int| 0 <= j < app.devices.len() ==> !waits_for(pending, #[trigger] app.devices[j]),
    ensures
        app.pending_place(pending, from) is None,
    decreases app.devices.len() - from,
{
    if from < app.devices.len() {
        assert(!waits_for(pending, app.devices[from]));
        lemma_none_waiting(app, pending, from + 1);
    }
}

/// A rate that reads back as ordered is done: what waited for that device is
/// gone, and what waits for another stays. One that does not waits from then on.
pub proof fn law_written_rates(
    app: TuiData,
    order: RateOrder,
    result: Result<PollingRate, ErrorText>,
)
    ensures
        ({
            let (next, words) = app.rate_written(order, result);
            let done = result matches Ok(after) && after == order.rate;
            let own = app.pending_rate matches Some(pending) && pending.vid == order.vid
                && pending.pid == order.pid && pending.connection == order.connection;
            &&& done && own ==> next.pending_rate is None
            &&& done && !own ==> next.pending_rate == app.pending_rate
            &&& done ==> !next.target_dirty
            &&& !done ==> next.pending_rate == Some(
                PendingTuiRateChange {
                    vid: order.vid,
                    pid: order.pid,
                    connection: order.connection,
                    target: order.rate,
                },
            )
            &&& words is Some <==> result is Ok
            &&& next.devices == app.devices && next.selected_device == app.selected_device
        }),
{
}

/// What each key does. A question on the screen takes the keys first: that for
/// rights before that for a resolution.
pub proof fn law_keys(key: Key, c: char, asks_dpi: bool)
    ensures
        command_for(Key::Char('q'), false, false) == Command::Quit,
        command_for(Key::Esc, false, false) == Command::Quit,
        command_for(Key::Char('r'), false, false) == Command::Refresh,
        command_for(Key::Up, false, false) == Command::MoveDevice((-1) as isize),
        command_for(Key::Char('k'), false, false) == command_for(Key::Up, false, false),
        command_for(Key::Down, false, false) == Command::MoveDevice(1),
        command_for(Key::Char('j'), false, false) == command_for(Key::Down, false, false),
        command_for(Key::Left, false, false) == Command::MoveRate((-1) as isize),
        command_for(Key::Char('h'), false, false) == command_for(Key::Left, false, false),
        command_for(Key::Right, false, false) == Command::MoveRate(1),
        command_for(Key::Char('l'), false, false) == command_for(Key::Right, false, false),
        command_for(Key::Enter, false, false) == Command::ApplyRate,
        command_for(Key::Char(' '), false, false) == Command::SyncTarget,
        command_for(Key::Char('d'), false, false) == Command::OpenDpi,
        command_for(key, false, false) is ApplyRate <==> key == Key::Enter,
        command_for(key, true, asks_dpi) == command_for(key, true, false),
        command_for(key, true, asks_dpi) is EnableAccess <==> key == Key::Enter || key == Key::Char(
            'y',
        ),
        command_for(key, true, asks_dpi) is DismissAccess <==> key == Key::Esc || key == Key::Char(
            'n',
        ),
        command_for(key, true, asks_dpi) is Quit <==> key == Key::Char('q'),
        command_for(Key::Char(c), false, true) == if '0' <= c <= '9' {
            Command::PushDpiDigit(c)
        } else {
            Command::Nothing
        },
        command_for(key, false, true) is ApplyDpi <==> key == Key::Enter,
        command_for(key, false, true) is DismissDpi <==> key == Key::Esc,
        command_for(key, false, true) is RemoveDpiDigit <==> key == Key::Backspace,
        command_for(key, false, true) is ClearDpiInput <==> key == Key::Delete,
{
}

/// A digit that is rubbed out is the last; where the input is to be replaced,
/// all of it goes. The resolution that is asked for is the number typed, where
/// it is more than zero and fits.
pub proof fn law_typed_resolutions(prompt: DpiData, dpi: u16)
    ensures
        prompt.replace_on_input ==> prompt.rubbed().input.len() == 0,
        !prompt.replace_on_input && prompt.input.len() > 0 ==> prompt.rubbed().input
            == prompt.input.drop_last(),
        !prompt.rubbed().replace_on_input && prompt.rubbed().error is None,
        prompt.rubbed().current == prompt.current,
        dpi > 0 && prompt.input == decimal(dpi as nat) ==> prompt.asked() == Some(dpi),
        prompt.input.len() == 0 ==> prompt.asked() is None,
        prompt.asked() != Some(0u16),
{
    if prompt.input == decimal(dpi as nat) {
        crate::text_laws::law_written_numbers_are_read(dpi as nat, 65535);
    }
    crate::text_laws::law_other_numbers_are_refused(prompt.input, 10, 65535);
}

/// A resolution is ordered for the selected device; a number that is none is
/// refused, and the question stays.
pub proof fn law_resolutions_are_asked_for(app: TuiData, prompt: DpiData)
    requires
        app.dpi_prompt == Some(prompt),
    ensures
        ({
            let asked = app.dpi_asked();
            &&& prompt.asked() is None ==> asked.order is None && asked.next.dpi_prompt is Some
                && asked.next.dpi_prompt->Some_0.error is Some
            &&& prompt.asked() is Some && app.selected() is None ==> asked.order is None
                && asked.next.dpi_prompt is None
            &&& prompt.asked() matches Some(dpi) ==> (app.selected() matches Some(device) ==> {
                &&& asked.order == Some((device.path, device.model_name, dpi))
                &&& asked.next == app
            })
            &&& asked.next.devices == app.devices
        }),
{
}

/// A resolution that reads back as ordered closes the question; any other keeps
/// it open, with what the device tells or what went wrong.
pub proof fn law_written_resolutions(
    app: TuiData,
    prompt: DpiData,
    name: Seq<char>,
    requested: u16,
    result: Result<u16, ErrorText>,
    now: u128,
)
    requires
        app.dpi_prompt == Some(prompt),
    ensures
        ({
            let next = app.dpi_written(name, requested, result, now);
            let done = result == Ok::<u16, ErrorText>(requested);
            &&& next.dpi_prompt is None <==> done
            &&& done ==> next.last_refresh == now
            &&& !done ==> next.dpi_prompt->Some_0.error is Some
                && next.dpi_prompt->Some_0.replace_on_input
            &&& !done ==> (result matches Ok(after) ==> next.dpi_prompt->Some_0.current == after)
            &&& result matches Err(e) ==> next.dpi_prompt->Some_0.error == Some(e.message)
            &&& next.devices == app.devices && next.pending_rate == app.pending_rate
        }),
{
}

/// Setting a rate from the terminal orders it, waits 80 milliseconds and gives
/// what the device then tells.
pub proof fn law_set_rates_are_checked(
    wire: Wire,
    model: ModelData,
    protocol: ProtocolKind,
    connection: ConnectionKind,
    rate: PollingRate,
)
    ensures
        ({
            let run = set_and_read_run(wire, model, protocol, connection, rate);
            let set = set_rate_run(wire, model, protocol, connection, rate);
            let read = rate_run(
                set.wire.after(Request::Sleep { milliseconds: 80 }),
                protocol,
                connection,
            );
            &&& set.outcome matches Err(e) ==> run.outcome == Err::<PollingRate, ErrorText>(e)
                && run.wire == set.wire
            &&& set.outcome is Ok ==> run.outcome == read.outcome && run.wire == read.wire
            &&& set.outcome is Ok ==> rate_ordered(wire, set.wire, protocol, connection, rate)
        }),
{
    if set_rate_run(wire, model, protocol, connection, rate).outcome is Ok {
        law_set_rates_were_ordered(wire, model, protocol, connection, rate);
    }
}

/// Setting a resolution gives what the device tells after the wait.
pub proof fn law_set_resolutions_are_checked(
    wire: Wire,
    protocol: ProtocolKind,
    dpi: u16,
    delay: nat,
)
    ensures
        ({
            let run = set_and_read_dpi_run(wire, protocol, dpi, delay);
            let set = set_dpi_run(wire, protocol, dpi);
            let read = dpi_run(set.wire.after(Request::Sleep { milliseconds: delay }), protocol);
            &&& set.outcome matches Err(e) ==> run.outcome == Err::<u16, ErrorText>(e) && run.wire
                == set.wire
            &&& set.outcome is Ok ==> run.outcome == read.outcome && run.wire == read.wire
            &&& !(protocol is Eeprom16) ==> run.outcome is Err && run.wire == wire
        }),
{
}

/// A raw exchange drops stale reports, writes the report as it is or with its
/// checksum, and gives every answer that is not empty, in order, of as many
/// reads as were asked for.
pub proof fn law_raw_exchanges(
    wire: Wire,
    payload: Seq<u8>,
    write_crc: bool,
    timeout_ms: int,
    reads: nat,
    got: Seq<Seq<u8>>,
)
    ensures
        ({
            let run = report8_exchange_run(wire, payload, write_crc, timeout_ms, reads);
            let start = flushed(wire, u64::MAX as nat);
            let written = start.after(
                Request::WriteOutput {
                    report_id: 8,
                    payload: if write_crc {
                        with_report8_crc(payload)
                    } else {
                        payload
                    },
                },
            );
            &&& (written.answers)(written.sent) matches Err(e) ==> run.wire == written
                && run.outcome == Err::<Seq<Seq<u8>>, ErrorText>(e)
            &&& (written.answers)(written.sent) is Ok ==> run == report8_reads_run(
                written,
                timeout_ms,
                reads,
                seq![],
            )
        }),
        ({
            let run = report8_reads_run(wire, timeout_ms, reads, got);
            let read = wire.after(Request::ReadInput { report_id: 8, payload_len: 16, timeout_ms });
            &&& reads == 0 ==> run.wire == wire && run.outcome == Ok::<Seq<Seq<u8>>, ErrorText>(got)
            &&& reads > 0 ==> ((read.answers)(read.sent) matches Err(e) ==> run.wire == read
                && run.outcome == Err::<Seq<Seq<u8>>, ErrorText>(e))
            &&& reads > 0 ==> ((read.answers)(read.sent) matches Ok(answer) ==> run
                == report8_reads_run(
                read,
                timeout_ms,
                (reads - 1) as nat,
                if answer.len() > 0 {
                    got.push(answer)
                } else {
                    got
                },
            ))
        }),
{
}

/// In the window each device in sight has a target: the one that it had, or
/// what it prefers, or 1000 where it offers nothing.
pub proof fn law_window_targets(
    targets: Map<SnapshotKeyData, PollingRate>,
    devices: Seq<SnapshotData>,
    n: nat,
    key: SnapshotKeyData,
)
    requires
        n <= devices.len(),
    ensures
        ({
            let after = with_targets(targets, devices, n);
            &&& targets.contains_key(key) ==> after.contains_key(key) && after[key] == targets[key]
            &&& !targets.contains_key(key) && after.contains_key(key) ==> exists|i: int|
                0 <= i < n && (#[trigger] devices[i]).key() == key && after[key] == first_target(
                    devices[i],
                )
        }),
        n > 0 ==> ({
            let first = first_target(devices[0]);
            &&& preferred_rate(devices[0]) is Some ==> Some(first) == preferred_rate(devices[0])
            &&& preferred_rate(devices[0]) is None ==> first == PollingRate::Hz1000
        }),
    decreases n,
{
    if n > 0 {
        law_window_targets(targets, devices, (n - 1) as nat, key);
        if !targets.contains_key(key) && with_targets(targets, devices, n).contains_key(key) {
            let before = with_targets(targets, devices, (n - 1) as nat);
            if before.contains_key(key) {
                let i = choose|i: int|
                    0 <= i < n - 1 && (#[trigger] devices[i]).key() == key && before[key]
                        == first_target(devices[i]);
                assert(devices[i].key() == key);
            } else {
                assert(devices[n - 1].key() == key);
            }
        }
    }
}

/// The selection of the window stays while its device is in sight, and goes to
/// the first device otherwise. A scan that worked clears the last error and says
/// how many devices are in sight.
pub proof fn law_window_selection(state: GuiData, devices: Seq<SnapshotData>, at: u128)
    ensures
        ({
            let next = state.scanned(devices, at);
            let seen = state.selected matches Some(key) && visible_keys(devices).contains(key);
            &&& seen ==> next.selected == state.selected
            &&& !seen && devices.len() > 0 ==> next.selected == Some(devices[0].key())
            &&& !seen && devices.len() == 0 ==> next.selected is None
            &&& next.devices == devices
            &&& next.last_refresh == Some(at)
            &&& next.last_error is None
            &&& devices.len() == 0 ==> next.status == "No supported device visible"@
            &&& devices.len() > 0 ==> next.status == decimal(devices.len())
                + " supported device(s)"@
            &&& forall|key: SnapshotKeyData|
                visible_keys(devices).contains(key) && #[trigger] state.targets.contains_key(key)
                    ==> next.targets.contains_key(key) && next.targets[key] == state.targets[key]
        }),
{
    let first = GuiData { devices, last_refresh: Some(at), last_error: None, ..state };
    if let Some(key) = state.selected {
        lemma_place_in_sight(first, key, 0);
    }
    let kept = state.targets.restrict(visible_keys(devices));
    assert forall|key: SnapshotKeyData|
        visible_keys(devices).contains(key) && #[trigger] state.targets.contains_key(
            key,
        ) implies state.scanned(devices, at).targets.contains_key(key) && state.scanned(
        devices,
        at,
    ).targets[key] == state.targets[key] by {
        law_window_targets(kept, devices, devices.len(), key);
    }
}

proof fn lemma_place_in_sight(state: GuiData, key: SnapshotKeyData, from: int)
    requires
        0 <= from <= state.devices.len(),
    ensures
        state.place_of(key, from) is Some <==> exists|i: int|
            from <= i < state.devices.len() && (#[trigger] state.devices[i]).key() == key,
        state.place_of(key, from) matches Some(i) ==> from <= i < state.devices.len()
            && state.devices[i].key() == key,
    decreases state.devices.len() - from,
{
    if from < state.devices.len() {
        lemma_place_in_sight(state, key, from + 1);
    }
}

/// A device is selected in the window where one of the devices has the selected
/// key, and it is then one of those.
pub proof fn law_window_shows_the_selected(state: GuiData)
    ensures
        state.selected_device() is Some <==> (state.selected matches Some(key) && visible_keys(
            state.devices,
        ).contains(key)),
        state.selected_device() matches Some(device) ==> state.selected == Some(device.key()),
{
    if let Some(key) = state.selected {
        lemma_place_in_sight(state, key, 0);
    }
}

/// The worker of the window is done with a rate where it reads back, and says
/// so; else it keeps what waits and says why.
pub proof fn law_worker_results(
    waiting: Option<PendingWorkerRate>,
    pending: PendingWorkerRate,
    result: Result<PollingRate, ErrorText>,
)
    ensures
        ({
            let (next, words) = worker_result(waiting, pending, result);
            let done = result matches Ok(after) && after == pending.rate;
            &&& done ==> next is None && words == "Set "@ + ids_text(pending.vid, pending.pid)
                + " to "@ + pending.rate.spec_text()
            &&& !done ==> next == waiting && stands_at(words, "Queued "@, 0)
        }),
{
    let done = result matches Ok(after) && after == pending.rate;
    if !done {
        let words = worker_result(waiting, pending, result).1;
        assert(words.subrange(0, "Queued "@.len() as int) =~= "Queued "@);
    }
}

/// A level is shown in percent, and a state in its word; a value from memory is
/// marked, and one that is missing is told from one that could not be read.
pub proof fn law_window_words(device: SnapshotData, rate: PollingRate, level: u8, raw: u8)
    ensures
        shown_rate(Some(rate), false) == decimal(rate.hz() as nat) + " Hz"@,
        shown_rate(Some(rate), true) == decimal(rate.hz() as nat) + " Hz cached"@,
        shown_rate(None, false) == "unknown"@ && shown_rate(None, true) == "unknown"@,
        charge_words(ChargeState::Charging) == " charging"@,
        charge_words(ChargeState::Full) == " full"@,
        charge_words(ChargeState::Discharging) == " discharging"@,
        charge_words(ChargeState::Unknown).len() == 0,
        charge_words(ChargeState::Raw(raw)) == " raw "@ + decimal(raw as nat),
        device.battery is None && device.battery_error is Some ==> battery_words(device)
            == "read error"@,
        device.battery is None && device.battery_error is None ==> battery_words(device)
            == "unknown"@,
        device.battery matches Some(battery) ==> (battery.level_percent == Some(level) ==> {
            let words = decimal(level as nat) + "%"@ + charge_words(battery.charge_state);
            battery_words(device) == if device.cached_battery {
                words + " cached"@
            } else {
                words
            }
        }),
        set_words(Some(rate)) == "Set "@ + decimal(rate.hz() as nat) + " Hz"@,
        set_words(None) == "Set rate"@,
{
}

/// The badge of a device tells the worst of it: an error of the rate, then
/// memory, then an error of the battery.
pub proof fn law_badges(device: SnapshotData)
    ensures
        device.read_error is Some ==> badge(device) == ("error"@, Tone::Error),
        device.read_error is None && (device.cached_rate || device.cached_battery) ==> badge(device)
            == ("cached"@, Tone::Muted),
        device.read_error is None && !device.cached_rate && !device.cached_battery
            && device.battery_error is Some ==> badge(device) == ("battery"@, Tone::Muted),
        device.read_error is None && !device.cached_rate && !device.cached_battery
            && device.battery_error is None ==> badge(device) == ("live"@, Tone::Live),
{
}

/// A hint says whether there is anything to set, or that it will take a while.
pub proof fn law_hints(device: SnapshotData, target: Option<PollingRate>)
    ensures
        device.current_rate == target ==> hint_words(device, target) == Some("Already at target"@),
        device.current_rate != target && (device.cached_rate || device.current_rate is None)
            ==> hint_words(device, target) == Some("Will retry when the device answers"@),
        device.current_rate != target && !device.cached_rate && device.current_rate is Some
            ==> hint_words(device, target) is None,
{
}

/// The age of a scan is told in whole seconds.
pub proof fn law_ages(at: u128, now: u128, seconds: u128)
    requires
        at <= now,
        seconds * 1_000_000_000 <= now - at < (seconds + 1) * 1_000_000_000,
    ensures
        age_words(None, now) == "waiting for first scan"@,
        seconds == 0 ==> age_words(Some(at), now) == "refreshed just now"@,
        seconds > 0 ==> age_words(Some(at), now) == "refreshed "@ + decimal(seconds as nat)
            + "s ago"@,
{
    assert((now - at) / 1_000_000_000 == seconds);
}

/// A battery in words: the level in percent, the state and the byte that told
/// it, as far as they are known.
pub proof fn law_batteries_in_words(battery: BatteryStatus, level: u8, raw: u8)
    ensures
        ({
            let word = match battery.charge_state {
                ChargeState::Discharging => "discharging"@,
                ChargeState::Charging => "charging"@,
                ChargeState::Full => "full"@,
                _ => "unknown"@,
            };
            let known = !(battery.charge_state is Raw);
            let told = word + " (raw "@ + decimal(raw as nat) + ")"@;
            &&& battery.level_percent == Some(level) && known && battery.raw_state == Some(raw)
                ==> battery.spec_text() == decimal(level as nat) + "% "@ + told
            &&& battery.level_percent is None && known && battery.raw_state == Some(raw)
                ==> battery.spec_text() == told
            &&& battery.level_percent == Some(level) && known && battery.raw_state is None
                && !(battery.charge_state is Unknown) ==> battery.spec_text() == decimal(
                level as nat,
            ) + "% "@ + word
            &&& battery.level_percent == Some(level) && battery.charge_state is Unknown
                && battery.raw_state is None ==> battery.spec_text() == decimal(level as nat) + "%"@
            &&& battery.level_percent == Some(level) && battery.charge_state == ChargeState::Raw(
                raw,
            ) ==> battery.spec_text() == decimal(level as nat) + "% "@ + ("raw "@ + decimal(
                raw as nat,
            ))
        }),
{
}

/// The words for protocols and connections, one for each.
pub proof fn law_names(new_protocol: bool, id: u8, reversed: bool)
    ensures
        ConnectionKind::Wired.spec_text() == "wired"@,
        ConnectionKind::Wireless.spec_text() == "wireless"@,
        ConnectionKind::Receiver.spec_text() == "receiver"@,
        (ProtocolKind::Feature64 { new_protocol, wired_device_id: id }).spec_text()
            == if new_protocol {
            "feature64 new"@
        } else {
            "feature64 old"@
        },
        ProtocolKind::Eeprom16.spec_text() == "report8 eeprom"@,
        (ProtocolKind::IpiPixV1 { report_id: id }).spec_text() == "ipi pix v1"@,
        ProtocolKind::LogitechHidpp.spec_text() == "logitech hid++"@,
        (ProtocolKind::RazerV1 { tx_id: id, polling_reversed: reversed }).spec_text()
            == if reversed {
            "razer v1 reversed"@
        } else {
            "razer v1"@
        },
{
}

/// The battery of a device in words: that of its report, marked where it is from
/// memory, or that it is unknown or could not be read.
pub proof fn law_device_batteries_in_words(device: SnapshotData)
    ensures
        device.battery matches Some(battery) ==> {
            &&& !device.cached_battery ==> device.battery_text() == battery.spec_text()
            &&& device.cached_battery ==> device.battery_text() == battery.spec_text()
                + " (cached)"@
        },
        device.battery is None && device.battery_error is Some ==> device.battery_text()
            == "battery read error"@,
        device.battery is None && device.battery_error is None ==> device.battery_text()
            == "unknown"@,
        device.current_rate matches Some(rate) ==> rate_words(device.current_rate)
            == rate.spec_text(),
        rate_words(None) == "unknown"@,
{
}

/// The list shows each device on a line of its own: the ids first, then the
/// rate, the battery and the rates on offer; an error of either kind follows on
/// a further line.
pub proof fn law_listed_devices(device: SnapshotData)
    ensures
        ({
            let lines = listed(device);
            let errors = (if device.read_error is Some {
                1int
            } else {
                0int
            }) + (if device.battery_error is Some {
                1int
            } else {
                0int
            });
            &&& lines.len() == 1 + errors
            &&& stands_at(lines[0], ids_text(device.vid, device.pid), 0)
            &&& has_part(lines[0], " current: "@ + rate_words(device.current_rate))
            &&& has_part(lines[0], " battery: "@ + device.battery_text())
            &&& has_part(lines[0], " supported: "@ + device.rates_text())
            &&& has_part(lines[0], device.vendor_name) && has_part(lines[0], device.model_name)
            &&& device.read_error matches Some(error) ==> lines[1] == "  read error: "@ + error
            &&& device.battery_error matches Some(error) ==> lines.last() == "  battery error: "@
                + error
        }),
{
    let line = listed(device)[0];
    let ids = ids_text(device.vid, device.pid);
    let vendor = crate::text::padded(device.vendor_name, 9);
    let model = crate::text::padded(device.model_name, 18);
    let connection = device.connection.spec_text();
    let rate = crate::text::padded(rate_words(device.current_rate), 8);
    let battery = crate::text::padded(device.battery_text(), 24);
    let rates = device.rates_text();
    crate::text_laws::law_padded_texts(device.vendor_name, 9);
    crate::text_laws::law_padded_texts(device.model_name, 18);
    crate::text_laws::law_padded_texts(rate_words(device.current_rate), 8);
    crate::text_laws::law_padded_texts(device.battery_text(), 24);
    let a = ids + " "@;
    let b = a + vendor + " "@;
    let c = b + model + " "@ + connection;
    let d = c + " current: "@ + rate;
    let e = d + " battery: "@ + battery;
    assert(line.subrange(0, ids.len() as int) =~= ids);
    lemma_part_at(line, device.vendor_name, a.len() as int);
    lemma_part_at(line, device.model_name, b.len() as int);
    lemma_part_at(line, " current: "@ + rate_words(device.current_rate), c.len() as int);
    lemma_part_at(line, " battery: "@ + device.battery_text(), d.len() as int);
    lemma_part_at(line, " supported: "@ + rates, e.len() as int);
}

proof fn lemma_part_at(whole: Seq<char>, part: Seq<char>, at: int)
    requires
        0 <= at <= whole.len() - part.len(),
        forall|i: int| 0 <= i < part.len() ==> whole[at + i] == #[trigger] part[i],
    ensures
        has_part(whole, part),
{
    assert(whole.subrange(at, at + part.len()) =~= part);
    assert(stands_at(whole, part, at));
}

/// What the terminal shows of a device: the level with a mark for its state, the
/// rate with a mark where it is from memory, and what is amiss.
pub proof fn law_terminal_words(device: SnapshotData, level: u8, rate: PollingRate)
    ensures
        device.battery is None ==> power_words(device) == if device.battery_error is Some {
            "error"@
        } else {
            "-"@
        },
        device.battery matches Some(battery) ==> (battery.level_percent == Some(level) ==> {
            let percent = decimal(level as nat) + "%"@;
            &&& level_words(battery) == percent
            &&& battery.charge_state is Charging ==> power_words(device) == percent + " "@
                + crate::tui::CHARGING_ICON@
            &&& battery.charge_state is Full ==> power_words(device) == percent + " full"@
            &&& battery.charge_state is Discharging || battery.charge_state is Unknown
                || battery.charge_state is Raw ==> power_words(device) == percent
            &&& battery.charge_state is Discharging && !device.cached_battery
                ==> power_detail_words(device) == percent + " discharging"@
            &&& battery.charge_state is Full && !device.cached_battery ==> power_detail_words(
                device,
            ) == percent + " full"@
            &&& battery.charge_state is Unknown && !device.cached_battery ==> power_detail_words(
                device,
            ) == percent + " (state unknown)"@
        }),
        device.current_rate == Some(rate) && device.cached_rate ==> current_detail_words(device)
            == rate.spec_text() + " (cached)"@,
        device.current_rate == Some(rate) && !device.cached_rate ==> current_detail_words(device)
            == rate.spec_text(),
        device.current_rate is None ==> current_detail_words(device) == "unknown"@,
        device.cached_rate || device.cached_battery ==> status_words(device) == "cached"@,
        !device.cached_rate && !device.cached_battery ==> {
            &&& is_unavailable(device) ==> status_words(device) == "asleep"@
            &&& !is_unavailable(device) && device.read_error is Some ==> status_words(device)
                == "read error"@
            &&& device.read_error is None && device.battery_error is Some ==> status_words(device)
                == "battery"@
            &&& device.read_error is None && device.battery_error is None ==> status_words(device)
                == "ok"@
        },
{
}

/// A row of the terminal: the place and the vendor, the model, the ids, how it is
/// attached and spoken to, the rate, the power, the rates on offer and what is
/// amiss.
pub proof fn law_terminal_rows(device: SnapshotData, index: nat)
    ensures
        ({
            let row = row_words(device, index);
            &&& row.len() == 9
            &&& row[0] == decimal(index + 1) + " "@ + device.vendor_name
            &&& row[1] == device.model_name
            &&& row[2] == ids_text(device.vid, device.pid)
            &&& row[3] == device.connection.spec_text()
            &&& row[4] == device.protocol.spec_text()
            &&& row[5] == current_words(device)
            &&& row[6] == power_words(device)
            &&& row[7] == device.rates_text()
            &&& row[8] == status_words(device)
        }),
{
}

/// Each rate on offer has a cell with its number, and the target is marked, if
/// it is among them, and no other.
pub proof fn law_rate_cells(offered: Seq<PollingRate>, target: Option<PollingRate>, i: int)
    requires
        0 <= i < offered.len(),
    ensures
        rate_cell_words(offered, target).len() == offered.len(),
        rate_cell_words(offered, target)[i].1 <==> target == Some(offered[i]),
        rate_cell_words(offered, target)[i].0 == " "@ + decimal(offered[i].hz() as nat) + " "@,
{
}

/// The notes on a device tell what went wrong: that it may be asleep, or the
/// error of the rate, and that of the battery.
pub proof fn law_notes(device: SnapshotData)
    ensures
        ({
            let notes = note_words(device);
            let first = device.read_error is Some;
            let second = device.battery_error is Some;
            &&& notes.len() == (if first {
                1int
            } else {
                0
            }) + (if second {
                1int
            } else {
                0
            })
            &&& first && is_unavailable(device) ==> notes[0].0 == "unavailable "@
            &&& first && !is_unavailable(device) ==> notes[0] == (
                "read error "@,
                device.read_error->Some_0,
            )
            &&& second ==> notes.last() == ("battery error "@, device.battery_error->Some_0)
        }),
{
}

/// The time to the next refresh is what is left of the interval.
pub proof fn law_time_to_refresh(app: TuiData, now: u128)
    requires
        app.last_refresh <= now,
    ensures
        ({
            let gone = (now - app.last_refresh) / 1_000_000;
            let left = if gone < app.interval_ms() {
                app.interval_ms() - gone
            } else {
                0
            };
            let focus = if app.focused {
                "focused"@
            } else {
                "unfocused"@
            };
            refresh_words(app, now) == "auto-refresh "@ + decimal(left as nat) + " ms ("@ + focus
                + ")"@
        }),
{
}

/// Up to four interfaces in need of rights are named, and the others counted.
pub proof fn law_named_interfaces(candidates: Seq<AccessData>, i: int)
    ensures
        candidates.len() <= 4 ==> candidate_lines(candidates).len() == candidates.len(),
        candidates.len() > 4 ==> candidate_lines(candidates).len() == 5 && candidate_lines(
            candidates,
        )[4] == "- ...and "@ + decimal((candidates.len() - 4) as nat) + " more"@,
        0 <= i < candidates.len() && i < 4 ==> candidate_lines(candidates)[i] == candidate_words(
            candidates[i],
        ),
        0 <= i < candidates.len() ==> candidate_words(candidates[i]) == "- "@
            + candidates[i].vendor_name + " "@ + candidates[i].model_name + " "@ + ids_text(
            candidates[i].vid,
            candidates[i].pid,
        ) + " "@ + candidates[i].path,
{
}

/// The rules for the system give users access to each pair of ids, one line
/// each, behind the head.
pub proof fn law_access_rules(pairs: Seq<(u16, u16)>, n: nat)
    requires
        0 < n <= pairs.len(),
    ensures
        udev_rules(pairs, n) == udev_rules(pairs, (n - 1) as nat) + udev_rule(pairs[n - 1]),
        udev_rule(pairs[n - 1]) == "SUBSYSTEM==\"hidraw\", ATTRS{idVendor}==\""@ + hex4(
            pairs[n - 1].0,
        ) + "\", ATTRS{idProduct}==\""@ + hex4(pairs[n - 1].1) + "\", TAG+=\"uaccess\"\n"@,
{
}

/// What is said of a rate or a resolution that was set: what it was, and what
/// it is, as read back or, where that failed, as ordered.
pub proof fn law_set_values_in_words(
    model: Seq<char>,
    connection: ConnectionKind,
    before: Option<PollingRate>,
    after: Option<PollingRate>,
    rate: PollingRate,
    dpi: u16,
    dpi_after: Option<u16>,
)
    ensures
        ({
            let now = if after is Some {
                after->Some_0
            } else {
                rate
            };
            let was = if before is Some {
                before->Some_0.spec_text()
            } else {
                "unknown"@
            };
            let dpi_now = if dpi_after is Some {
                dpi_after->Some_0
            } else {
                dpi
            };
            &&& rate_set_words(model, connection, before, after, rate) == model + " "@
                + connection.spec_text() + ": "@ + was + " -> "@ + now.spec_text()
            &&& dpi_set_words(model, connection, None, dpi_after, dpi) == model + " "@
                + connection.spec_text() + " DPI: "@ + "unknown"@ + " -> "@ + decimal(
                dpi_now as nat,
            )
            &&& dpi_set_words(model, connection, Some(dpi), dpi_after, dpi) == model + " "@
                + connection.spec_text() + " DPI: "@ + decimal(dpi as nat) + " -> "@ + decimal(
                dpi_now as nat,
            )
        }),
{
}

/// What is said of the first device: the rates before and after, what was wanted
/// and how long it took.
pub proof fn law_first_device_in_words(
    model: Seq<char>,
    connection: ConnectionKind,
    before: PollingRate,
    after: PollingRate,
    desired: DesiredData,
    ms: u128,
)
    ensures
        first_device_words(model, connection, Some(before), Some(after), desired, ms) == model
            + " "@ + connection.spec_text() + ": "@ + before.spec_text() + " -> "@
            + after.spec_text() + " ("@ + desired.text() + ", "@ + decimal(ms as nat) + " ms)"@,
        first_device_words(model, connection, Some(before), None, desired, ms)
            == first_device_words(model, connection, Some(before), Some(desired.rate), desired, ms),
        desired.exe matches Some(exe) ==> desired.text() == exe + " active -> "@
            + desired.rate.spec_text(),
        desired.exe is None ==> desired.text() == "restore -> "@ + desired.rate.spec_text(),
{
}

/// A step of a diagnosis is printed with what it brought or why it failed, and
/// how long it took.
pub proof fn law_steps_in_words(label: Seq<char>, words: Seq<char>, ms: u128)
    ensures
        step_words(label, OutcomeData::Passed { detail: words, elapsed_ms: ms }) == "    "@ + label
            + (": ok ("@ + words + ", "@ + decimal(ms as nat) + " ms)"@),
        step_words(label, OutcomeData::Error { error: words, elapsed_ms: ms }) == "    "@ + label + (
        ": error ("@ + words + ", "@ + decimal(ms as nat) + " ms)"@),
        step_words(label, OutcomeData::Skipped { reason: words }) == "    "@ + label + (
        ": skipped ("@ + words + ")"@),
{
}

/// A raw exchange is printed with what went out, and each answer on a line of
/// its own, or that there was none.
pub proof fn law_exchanges_in_words(
    model: Seq<char>,
    connection: ConnectionKind,
    payload: Seq<u8>,
    responses: Seq<Seq<u8>>,
)
    ensures
        ({
            let lines = exchange_words(model, connection, payload, responses);
            &&& lines.len() == if responses.len() == 0 {
                2
            } else {
                1 + responses.len()
            }
            &&& responses.len() == 0 ==> lines[1] == "no report8 response"@
            &&& stands_at(lines[0], model, 0)
        }),
{
    let lines = exchange_words(model, connection, payload, responses);
    assert(lines[0].subrange(0, model.len() as int) =~= model);
}

/// The watcher says how many rules it follows and how often it looks, which is
/// never more often than every 250 milliseconds.
pub proof fn law_watching_in_words(rules: nat, path: Seq<char>, ms: u64)
    ensures
        watching_words(rules, path, ms) == "watching "@ + decimal(rules) + " rule(s) from "@ + path
            + " every "@ + decimal(
            if ms >= 250 {
                ms as nat
            } else {
                250
            },
        ) + " ms"@,
{
}

/// The rate in a row of the terminal is its number, with a star where it is from
/// memory.
pub proof fn law_rates_in_rows(device: SnapshotData, rate: PollingRate)
    ensures
        device.current_rate is None ==> current_words(device) == "-"@,
        device.current_rate == Some(rate) && !device.cached_rate ==> current_words(device)
            == decimal(rate.hz() as nat),
        device.current_rate == Some(rate) && device.cached_rate ==> current_words(device)
            == decimal(rate.hz() as nat) + "*"@,
        device.rates_text() == joined(rate_numbers(device.supported_rates), ", "@),
{
}

/// The power of a device in detail, where it charges, tells a byte without a
/// meaning, has no level, or is from memory.
pub proof fn law_power_in_detail(device: SnapshotData, level: u8, raw: u8)
    ensures
        device.battery is None ==> power_detail_words(device) == device.battery_text(),
        device.battery matches Some(battery) ==> {
            let end = if device.cached_battery {
                " (cached)"@
            } else {
                seq![]
            };
            let level = level_words(battery);
            &&& battery.level_percent is None ==> level == "level unknown"@
            &&& battery.charge_state is Charging ==> power_detail_words(device) == level + " "@
                + crate::tui::CHARGING_ICON@ + " charging"@ + end
            &&& battery.charge_state is Full ==> power_detail_words(device) == level + " full"@ + end
            &&& battery.charge_state is Discharging ==> power_detail_words(device) == level
                + " discharging"@ + end
            &&& battery.charge_state == ChargeState::Raw(raw) ==> power_detail_words(device) == level
                + " raw state "@ + decimal(raw as nat) + end
            &&& battery.charge_state is Unknown && battery.level_percent is None
                ==> power_detail_words(device) == "state unknown"@ + end
            &&& battery.charge_state is Unknown && battery.level_percent is Some
                ==> power_detail_words(device) == level + " (state unknown)"@ + end
            &&& battery.charge_state == ChargeState::Raw(raw) && battery.level_percent is None
                ==> power_words(device) == "raw "@ + decimal(raw as nat)
        },
{
    if let Some(battery) = device.battery {
        if !device.cached_battery {
            assert(power_detail_words(device) + Seq::<char>::empty() =~= power_detail_words(device));
        }
    }
}

/// A diagnosis is printed with the interface first, then what is known of it,
/// then five lines for each protocol, in order.
pub proof fn law_printed_diagnoses(device: DeviceDiagnostic, n: nat)
    requires
        0 < n <= device.protocols@.len(),
    ensures
        ({
            let lines = diagnosis(device);
            let extra = (if device.product is Some {
                1int
            } else {
                0
            }) + (if device.manufacturer is Some {
                1int
            } else {
                0
            }) + (if device.serial is Some {
                1int
            } else {
                0
            });
            let p = device.protocols@[n - 1];
            let at = 3 + extra + 5 * (n - 1);
            &&& lines.len() == 3 + extra + 5 * device.protocols@.len()
            &&& stands_at(lines[0], ids_text(device.vid, device.pid), 0)
            &&& lines[1] == "  path: "@ + device.path@
            &&& lines[at] == "  protocol "@ + p.protocol.spec_text()
            &&& lines[at + 1] == step_words("open"@, p.open@)
            &&& lines[at + 2] == step_words("control"@, p.control_probe@)
            &&& lines[at + 3] == step_words("rate"@, p.rate_read@)
            &&& lines[at + 4] == step_words("battery"@, p.battery_read@)
        }),
{
    let ids = ids_text(device.vid, device.pid);
    assert(diagnosis(device)[0].subrange(0, ids.len() as int) =~= ids);
    lemma_printed_protocols(device.protocols@, device.protocols@.len(), n);
}

proof fn lemma_printed_protocols(protocols: Seq<ProtocolDiagnostic>, all: nat, n: nat)
    requires
        all <= protocols.len(),
    ensures
        protocol_lines(protocols, all).len() == 5 * all,
        0 < n <= all ==> ({
            let lines = protocol_lines(protocols, all);
            let p = protocols[n - 1];
            let at = 5 * (n - 1);
            &&& lines[at] == "  protocol "@ + p.protocol.spec_text()
            &&& lines[at + 1] == step_words("open"@, p.open@)
            &&& lines[at + 2] == step_words("control"@, p.control_probe@)
            &&& lines[at + 3] == step_words("rate"@, p.rate_read@)
            &&& lines[at + 4] == step_words("battery"@, p.battery_read@)
        }),
    decreases all,
{
    if all > 0 {
        lemma_printed_protocols(protocols, (all - 1) as nat, n);
    }
}

/// The bytes of a raw exchange are printed in hexadecimal, with blanks between
/// them, each answer on its line.
pub proof fn law_raw_bytes_in_words(
    model: Seq<char>,
    connection: ConnectionKind,
    payload: Seq<u8>,
    responses: Seq<Seq<u8>>,
    i: int,
)
    requires
        0 <= i < responses.len(),
    ensures
        exchange_words(model, connection, payload, responses)[0] == model + " "@
            + connection.spec_text() + " report8 tx: "@ + joined(
            payload.map_values(|b: u8| hex2(b)),
            " "@,
        ),
        exchange_words(model, connection, payload, responses)[i + 1] == "report8 rx: "@ + joined(
            responses[i].map_values(|b: u8| hex2(b)),
            " "@,
        ),
{
    assert(crate::cli::hex_bytes(payload) =~= payload.map_values(|b: u8| hex2(b)));
    assert(crate::cli::hex_bytes(responses[i]) =~= responses[i].map_values(|b: u8| hex2(b)));
}

/// A question that was refused shows why, and the next digit starts it anew.
pub proof fn law_refused_resolutions(prompt: DpiData, error: Seq<char>, digit: char)
    ensures
        prompt.refused(error).error == Some(error),
        prompt.refused(error).replace_on_input,
        prompt.refused(error).input == prompt.input && prompt.refused(error).current
            == prompt.current,
        prompt.refused(error).typed(digit).input == seq![digit],
        prompt.typed(digit).error is None && !prompt.typed(digit).replace_on_input
            && prompt.typed(digit).current == prompt.current,
{
    assert(Seq::<char>::empty().push(digit) =~= seq![digit]);
    is_ascii_chars_encode_utf8(Seq::<char>::empty());
}

/// The target of a device in the window is the one that is kept for it.
pub proof fn law_window_target_of(state: GuiData, device: SnapshotData)
    ensures
        state.target_of(device) is Some <==> state.targets.contains_key(device.key()),
        state.target_of(device) matches Some(rate) ==> rate == state.targets[device.key()],
        title_words(device) == device.vendor_name + " "@ + device.model_name,
{
}

/// A window takes its share of the width, and no more than the largest number
/// allows for.
pub proof fn law_shares_of_widths(width: u16, percent: u16)
    ensures
        width * percent <= 65535 ==> capped_product(width, percent) == width * percent,
        width * percent > 65535 ==> capped_product(width, percent) == 65535,
        less(width as int, percent as int) == if width >= percent {
            width - percent
        } else {
            0
        },
{
}

} // verus!
