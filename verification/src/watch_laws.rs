//! What holds of the watcher, the memory of snapshots and the interfaces as a
//! whole.
use crate::config::{PollMonitorConfig, PowerPolicy};
use crate::devices::PollingRate;
use crate::error::ErrorText;
use crate::gui::{with_targets, worker_result, GuiData, PendingWorkerRate};
use crate::process_rules::RuleData;
use crate::snapshots::{
    cache_steps, filled_in, merged, refreshed, visible_keys, CachedDeviceReport, SnapshotData,
    SnapshotKeyData,
};
use crate::tui::{is_unavailable, DpiData, PendingTuiRateChange, RateOrder, TuiData};
use crate::watch::{
    device_targets, idle_rate, rate_decision, round_start, round_wish, write_result, WatchData,
};
use crate::watcher::{
    assumed_power, at_least, one_more, power_class, power_target, queued, recent, sampled, since,
    trend, watch_key, BatterySample, KeyData, PendingData, PowerClass,
};
use vstd::prelude::*;
use vstd::utf8::{is_ascii_chars, is_ascii_chars_encode_utf8};

verus! {

/// A device that charges is never boosted, and without a rule in force none is.
pub proof fn law_charging_devices_idle(
    active: bool,
    active_rate: PollingRate,
    idle: PollingRate,
    class: PowerClass,
    has_known_discharging: bool,
    allow_unknown_active: bool,
)
    requires
        class == PowerClass::Charging || !active,
    ensures
        power_target(
            active,
            active_rate,
            idle,
            class,
            has_known_discharging,
            allow_unknown_active,
        ).0 == idle,
{
}

/// While a rule is in force, every device that is known to discharge gets the
/// rate of the rule.
pub proof fn law_discharging_devices_are_boosted(
    classes: Seq<PowerClass>,
    config: PollMonitorConfig,
    rule: RuleData,
    desired: PollingRate,
    i: int,
)
    requires
        0 <= i < classes.len(),
        classes[i] == PowerClass::Discharging,
    ensures
        device_targets(classes, config, Some(rule), desired)[i].0 == desired,
{
}

/// Where one device is known to discharge, no device of which that is not
/// known is boosted.
pub proof fn law_unknown_devices_yield(
    classes: Seq<PowerClass>,
    config: PollMonitorConfig,
    active: Option<RuleData>,
    desired: PollingRate,
    i: int,
    j: int,
)
    requires
        0 <= i < classes.len(),
        0 <= j < classes.len(),
        classes[i] == PowerClass::Discharging,
        classes[j] == PowerClass::Unknown,
    ensures
        device_targets(classes, config, active, desired)[j].0 == idle_rate(config, active),
{
    assert(classes.contains(PowerClass::Discharging));
}

/// What a battery says of itself counts, whatever its level, its trend and the
/// way the device is attached.
pub proof fn law_explicit_state_wins(
    device: SnapshotData,
    config: PollMonitorConfig,
    trend: Option<PowerClass>,
)
    requires
        device.battery matches Some(battery) && battery.is_charging_like() is Some,
    ensures
        power_class(device, config, trend) == if device.battery->Some_0.is_charging_like() == Some(
            true,
        ) {
            PowerClass::Charging
        } else {
            PowerClass::Discharging
        },
{
}

/// A full battery that does not say what it does counts as plugged in.
pub proof fn law_full_battery_is_plugged_in(
    device: SnapshotData,
    config: PollMonitorConfig,
    trend: Option<PowerClass>,
)
    requires
        device.battery matches Some(battery) && battery.is_charging_like() is None
            && battery.level_percent == Some(100u8),
    ensures
        power_class(device, config, trend) == PowerClass::Charging,
{
}

/// A battery that does not say what it does, is not full and has risen by the
/// least step since the first sample, charges.
pub proof fn law_rising_level_is_charging(
    device: SnapshotData,
    config: PollMonitorConfig,
    samples: Seq<BatterySample>,
    min_delta: u8,
)
    requires
        device.battery matches Some(battery) && battery.is_charging_like() is None
            && battery.level_percent != Some(100u8),
        samples.len() >= 2,
        samples.last().level >= samples[0].level + min_delta,
    ensures
        power_class(device, config, trend(samples, min_delta)) == PowerClass::Charging,
{
}

/// Where neither the battery nor its levels tell anything, the way the device
/// is attached decides.
pub proof fn law_connection_is_the_last_resort(
    device: SnapshotData,
    config: PollMonitorConfig,
)
    requires
        device.battery matches Some(battery) ==> battery.is_charging_like() is None
            && battery.level_percent != Some(100u8),
    ensures
        power_class(device, config, None) == assumed_power(device.connection, config),
{
}

/// Whether the samples are in the order of time, none after `now`.
pub open spec fn in_order(samples: Seq<BatterySample>, now: u128) -> bool {
    &&& forall|i: int| 0 <= i < samples.len() ==> (#[trigger] samples[i]).at <= now
    &&& forall|i: int, j: int|
        0 <= i < j < samples.len() ==> (#[trigger] samples[i]).at <= (#[trigger] samples[j]).at
}

/// With a new sample, a history in the order of time stays so, ends with the
/// sample, and reaches back no further than the window.
pub proof fn law_history_is_of_the_window(
    samples: Seq<BatterySample>,
    now: u128,
    level: u8,
    window: u128,
)
    requires
        in_order(samples, now),
    ensures
        ({
            let history = sampled(samples, now, level, window);
            &&& in_order(history, now)
            &&& history.len() > 0
            &&& history.last() == (BatterySample { at: now, level })
            &&& forall|i: int|
                0 <= i < history.len() ==> since(now, (#[trigger] history[i]).at) <= window
        }),
{
    let newest = BatterySample { at: now, level };
    lemma_recent_is_of_the_window(samples.push(newest), now, window);
}

proof fn lemma_recent_is_of_the_window(samples: Seq<BatterySample>, now: u128, window: u128)
    requires
        in_order(samples, now),
        samples.len() > 0,
        samples.last().at == now,
    ensures
        ({
            let history = recent(samples, now, window);
            &&& in_order(history, now)
            &&& history.len() > 0
            &&& history.last() == samples.last()
            &&& forall|i: int|
                0 <= i < history.len() ==> since(now, (#[trigger] history[i]).at) <= window
        }),
    decreases samples.len(),
{
    if since(now, samples[0].at) > window {
        assert(samples.skip(1).last() == samples.last());
        lemma_recent_is_of_the_window(samples.skip(1), now, window);
    }
}

/// The rate of the rule in force is wanted; after it, the rate that the rule
/// wanted restored, where it named one.
pub proof fn law_rule_then_restore(config: PollMonitorConfig, rule: RuleData, watch: WatchData)
    ensures
        round_wish(watch, config, Some(rule)).1.rate == rule.rate,
        ({
            let after = WatchData {
                pending_restore: round_wish(watch, config, Some(rule)).0,
                ..watch
            };
            rule.restore matches Some(rate) ==> round_wish(after, config, None).1.rate == rate
        }),
{
}

/// In first-device mode nothing is written while the wish stays the same and
/// none waits.
pub proof fn law_first_device_rests(
    watch: WatchData,
    config: PollMonitorConfig,
    dry_run: bool,
    once: bool,
    now: u128,
    active: Option<RuleData>,
)
    requires
        config.power_policy == PowerPolicy::FirstDevice,
        watch.pending_first_device is None,
        watch.last_desired == Some(round_wish(watch, config, active).1),
    ensures
        round_start(watch, config, dry_run, once, now, active).1 is Rest,
{
}

/// A changed wish is acted upon at once, in either mode.
pub proof fn law_changed_wish_acts_at_once(
    watch: WatchData,
    config: PollMonitorConfig,
    dry_run: bool,
    once: bool,
    now: u128,
    active: Option<RuleData>,
)
    requires
        watch.last_desired != Some(round_wish(watch, config, active).1),
    ensures
        !(round_start(watch, config, dry_run, once, now, active).1 is Rest),
{
}

/// In the other mode the devices are looked at again as soon as the interval
/// is over, and no sooner, while the wish stays the same.
pub proof fn law_devices_are_paced(
    watch: WatchData,
    config: PollMonitorConfig,
    dry_run: bool,
    now: u128,
    active: Option<RuleData>,
    last_poll: u128,
)
    requires
        config.power_policy == PowerPolicy::ActiveNonCharging,
        watch.last_desired == Some(round_wish(watch, config, active).1),
        watch.device_scheduler.last_poll == Some(last_poll),
    ensures
        (round_start(watch, config, dry_run, false, now, active).1 is AllDevices) == (since(
            now,
            last_poll,
        ) >= watch.device_scheduler.interval(
            active is Some,
            watch.pending_rate_changes != Map::<KeyData, PendingData>::empty(),
        )),
{
}

/// No interval is shorter than its least value, however it is configured.
pub proof fn law_intervals_have_a_least(milliseconds: u64, least: u64)
    ensures
        at_least(milliseconds, least) >= least * 1_000_000,
        milliseconds >= least ==> at_least(milliseconds, least) == milliseconds * 1_000_000,
{
}

/// A dry run writes nothing and queues nothing.
pub proof fn law_dry_run_changes_nothing(
    changes: Map<KeyData, PendingData>,
    device: SnapshotData,
    target: PollingRate,
    reason: Seq<char>,
)
    ensures
        !rate_decision(changes, true, device, target, reason).write,
        forall|key: KeyData| #[trigger]
            rate_decision(changes, true, device, target, reason).changes.contains_key(key)
                ==> changes.contains_key(key) && rate_decision(
                changes,
                true,
                device,
                target,
                reason,
            ).changes[key] == changes[key],
{
}

/// A rate is written only to a device that offers it, whose rate is live and is
/// another one.
pub proof fn law_writes_are_needed(
    changes: Map<KeyData, PendingData>,
    dry_run: bool,
    device: SnapshotData,
    target: PollingRate,
    reason: Seq<char>,
)
    requires
        rate_decision(changes, dry_run, device, target, reason).write,
    ensures
        !dry_run,
        device.supported_rates.contains(target),
        device.current_rate is Some,
        device.current_rate != Some(target),
        !device.cached_rate,
{
}

/// A change for a device whose rate is from memory or not known waits for it,
/// and is not written.
pub proof fn law_sleeping_devices_are_queued(
    changes: Map<KeyData, PendingData>,
    device: SnapshotData,
    target: PollingRate,
    reason: Seq<char>,
)
    requires
        device.supported_rates.contains(target),
        device.current_rate != Some(target),
        device.cached_rate || device.current_rate is None,
    ensures
        ({
            let decision = rate_decision(changes, false, device, target, reason);
            &&& !decision.write
            &&& decision.changes.contains_key(watch_key(device))
            &&& decision.changes[watch_key(device)].target == target
        }),
{
}

/// After a write the change of the device waits exactly where it did not read
/// back as the target; the changes of other devices stay as they are.
pub proof fn law_unconfirmed_writes_wait(
    changes: Map<KeyData, PendingData>,
    device: SnapshotData,
    target: PollingRate,
    reason: Seq<char>,
    result: Result<(Option<PollingRate>, Option<PollingRate>), ErrorText>,
    elapsed_ms: u128,
    other: KeyData,
)
    requires
        other != watch_key(device),
    ensures
        ({
            let left = write_result(changes, device, target, reason, result, elapsed_ms).0;
            let confirmed = result matches Ok((_, after)) && after == Some(target);
            &&& left.contains_key(watch_key(device)) == !confirmed
            &&& !confirmed ==> left[watch_key(device)].target == target
            &&& left.contains_key(other) == changes.contains_key(other)
            &&& changes.contains_key(other) ==> left[other] == changes[other]
        }),
{
}

/// A change that is asked for again, unchanged, is counted and not announced a
/// second time.
pub proof fn law_repeated_change_is_counted(
    changes: Map<KeyData, PendingData>,
    key: KeyData,
    target: PollingRate,
    reason: Seq<char>,
    error: Option<Seq<char>>,
)
    ensures
        ({
            let (once, _) = queued(changes, key, target, reason, error);
            let (twice, news) = queued(once, key, target, reason, error);
            &&& !news
            &&& twice[key] == (PendingData {
                attempts: one_more(once[key].attempts),
                ..once[key]
            })
        }),
{
}

/// Live values are shown as they are.
pub proof fn law_live_values_stay(device: SnapshotData, memory: CachedDeviceReport)
    ensures
        device.current_rate is Some ==> filled_in(device, memory).current_rate
            == device.current_rate && filled_in(device, memory).cached_rate == device.cached_rate,
        device.battery is Some ==> filled_in(device, memory).battery == device.battery
            && filled_in(device, memory).cached_battery == device.cached_battery,
{
}

/// A live report is what is shown, marked as from memory, when the device does
/// not answer in the next scan.
pub proof fn law_last_report_is_kept(
    memory: CachedDeviceReport,
    live: SnapshotData,
    silent: SnapshotData,
)
    requires
        live.current_rate is Some && !live.cached_rate,
        live.battery is Some && !live.cached_battery,
        silent.current_rate is None,
        silent.battery is None,
    ensures
        ({
            let shown = filled_in(silent, refreshed(memory, filled_in(live, memory)));
            &&& shown.current_rate == live.current_rate
            &&& shown.battery == live.battery
            &&& shown.cached_rate && shown.cached_battery
        }),
{
}

/// A snapshot that was filled in from memory leaves the memory as it is.
pub proof fn law_memory_is_not_refreshed_from_itself(
    memory: CachedDeviceReport,
    silent: SnapshotData,
)
    requires
        silent.current_rate is None && !silent.cached_rate,
        silent.battery is None && !silent.cached_battery,
    ensures
        refreshed(memory, filled_in(silent, memory)) == memory,
{
}

/// The memory holds the visible devices, and no others.
pub proof fn law_memory_is_of_visible_devices(
    entries: Map<SnapshotKeyData, CachedDeviceReport>,
    devices: Seq<SnapshotData>,
)
    ensures
        cache_steps(entries, devices, devices.len()).0.restrict(visible_keys(devices)).dom()
            =~= visible_keys(devices),
{
    let memory = cache_steps(entries, devices, devices.len()).0;
    assert forall|key: SnapshotKeyData| visible_keys(devices).contains(key) implies #[trigger]
        memory.contains_key(key) by {
        let i = choose|i: int| 0 <= i < devices.len() && #[trigger] devices[i].key() == key;
        lemma_seen_is_remembered(entries, devices, devices.len(), i);
    }
}

proof fn lemma_seen_is_remembered(
    entries: Map<SnapshotKeyData, CachedDeviceReport>,
    devices: Seq<SnapshotData>,
    n: nat,
    i: int,
)
    requires
        0 <= i < n <= devices.len(),
    ensures
        cache_steps(entries, devices, n).0.contains_key(devices[i].key()),
    decreases n,
{
    if i < n - 1 {
        lemma_seen_is_remembered(entries, devices, (n - 1) as nat, i);
    }
}

/// Every scanned device is shown, in the same place and under the same name.
pub proof fn law_cache_keeps_the_list(
    entries: Map<SnapshotKeyData, CachedDeviceReport>,
    devices: Seq<SnapshotData>,
    n: nat,
)
    requires
        n <= devices.len(),
    ensures
        cache_steps(entries, devices, n).1.len() == n,
        forall|i: int|
            0 <= i < n ==> (#[trigger] cache_steps(entries, devices, n).1[i]).key()
                == devices[i].key() && cache_steps(entries, devices, n).1[i].path
                == devices[i].path,
    decreases n,
{
    if n > 0 {
        law_cache_keeps_the_list(entries, devices, (n - 1) as nat);
    }
}

/// Whether no device occurs twice.
pub open spec fn one_each(devices: Seq<SnapshotData>) -> bool {
    forall|i: int, j: int|
        0 <= i < j < devices.len() ==> !(#[trigger] devices[i]).same_device(#[trigger] devices[j])
}

/// Merging snapshots keeps one for each device.
pub proof fn law_merging_keeps_one_each(devices: Seq<SnapshotData>, new: SnapshotData)
    requires
        one_each(devices),
    ensures
        one_each(merged(devices, new)),
        forall|i: int|
            0 <= i < merged(devices, new).len() ==> (#[trigger] merged(devices, new)[i]).same_device(
                new,
            ) || (i < devices.len() && merged(devices, new)[i] == devices[i]),
    decreases devices.len(),
{
    let result = merged(devices, new);
    if devices.len() > 0 {
        if devices[0].same_device(new) {
            assert forall|i: int, j: int| 0 <= i < j < result.len() implies !(
            #[trigger] result[i]).same_device(#[trigger] result[j]) by {
                assert(!devices[i].same_device(devices[j]));
            }
        } else {
            let rest = devices.skip(1);
            assert forall|i: int, j: int| 0 <= i < j < rest.len() implies !(
            #[trigger] rest[i]).same_device(#[trigger] rest[j]) by {
                assert(!devices[i + 1].same_device(devices[j + 1]));
            }
            law_merging_keeps_one_each(rest, new);
            let tail = merged(rest, new);
            assert forall|i: int| 0 <= i < result.len() implies (#[trigger] result[i]).same_device(
                new,
            ) || (i < devices.len() && result[i] == devices[i]) by {
                if i > 0 {
                    assert(result[i] == tail[i - 1]);
                }
            }
            assert forall|i: int, j: int| 0 <= i < j < result.len() implies !(
            #[trigger] result[i]).same_device(#[trigger] result[j]) by {
                assert(result[j] == tail[j - 1]);
                if i > 0 {
                    assert(result[i] == tail[i - 1]);
                } else if !tail[j - 1].same_device(new) {
                    assert(tail[j - 1] == rest[j - 1]);
                    assert(!devices[0].same_device(devices[j]));
                }
            }
        }
    }
}

/// The target in the terminal is always one that the selected device offers.
pub proof fn law_target_is_on_offer(app: TuiData)
    ensures
        app.with_target().target_rate matches Some(rate) ==> (app.selected() matches Some(device)
            && (device.supported_rates.contains(rate))),
{
    if let Some(device) = app.selected() {
        if device.supported_rates.len() > 0 {
            assert(device.supported_rates.contains(device.supported_rates[0]));
        }
    }
}

/// Moving the selection on and back selects the same device again.
pub proof fn law_selection_goes_round(app: TuiData)
    requires
        0 <= app.selected_device < app.devices.len(),
    ensures
        app.device_moved(1).device_moved(-1).selected_device == app.selected_device,
        app.device_moved(-1).device_moved(1).selected_device == app.selected_device,
        0 <= app.device_moved(1).selected_device < app.devices.len(),
        0 <= app.device_moved(-1).selected_device < app.devices.len(),
{
    let n = app.devices.len() as int;
    let i = app.selected_device;
    if i == n - 1 {
        vstd::arithmetic::div_mod::lemma_mod_self_0(n);
        vstd::arithmetic::div_mod::lemma_fundamental_div_mod_converse(-1, n, -1, n - 1);
    } else {
        vstd::arithmetic::div_mod::lemma_small_mod((i + 1) as nat, n as nat);
    }
    vstd::arithmetic::div_mod::lemma_small_mod(i as nat, n as nat);
    if i == 0 {
        vstd::arithmetic::div_mod::lemma_fundamental_div_mod_converse(-1, n, -1, n - 1);
        vstd::arithmetic::div_mod::lemma_mod_self_0(n);
    } else {
        vstd::arithmetic::div_mod::lemma_small_mod((i - 1) as nat, n as nat);
    }
    if n == 1 {
        vstd::arithmetic::div_mod::lemma_fundamental_div_mod_converse(1, 1, 1, 0);
    }
}

/// The display is fresh within a second while a change waits or the window has
/// the focus, and within five otherwise.
pub proof fn law_display_is_fresh(app: TuiData)
    ensures
        app.interval_ms() <= 5_000,
        app.pending_rate is Some ==> app.interval_ms() == 1_000,
        app.focused && (forall|i: int|
            0 <= i < app.devices.len() ==> !is_unavailable(#[trigger] app.devices[i]))
            ==> app.interval_ms() == 1_000,
{
}

/// In a question that holds digits, a digit is taken while there are fewer than
/// five, so there are never more.
pub proof fn law_digits_are_at_most_five(prompt: DpiData, digit: char)
    requires
        is_ascii_chars(prompt.input),
        '0' <= digit <= '9',
    ensures
        is_ascii_chars(prompt.typed(digit).input),
        prompt.replace_on_input ==> prompt.typed(digit).input == seq![digit],
        !prompt.replace_on_input ==> prompt.typed(digit).input == if prompt.input.len() < 5 {
            prompt.input.push(digit)
        } else {
            prompt.input
        },
{
    is_ascii_chars_encode_utf8(prompt.input);
    is_ascii_chars_encode_utf8(Seq::<char>::empty());
    assert(Seq::<char>::empty().push(digit) =~= seq![digit]);
}

/// A rate is written from the terminal only to a device whose rate is live and
/// is another one; in all other cases no order is given.
pub proof fn law_orders_are_needed(app: TuiData)
    requires
        app.rate_asked().1 is Some,
    ensures
        app.rate_asked().0 == app,
        app.selected() matches Some(device) && device.current_rate is Some && !device.cached_rate
            && device.current_rate != app.target_rate,
{
}

/// A rate that does not read back waits for its device, and waits on until it
/// does.
pub proof fn law_unconfirmed_rates_wait(
    app: TuiData,
    order: RateOrder,
    result: Result<PollingRate, ErrorText>,
)
    ensures
        result != Ok::<PollingRate, ErrorText>(order.rate) ==> app.rate_written(
            order,
            result,
        ).0.pending_rate == Some(
            PendingTuiRateChange {
                vid: order.vid,
                pid: order.pid,
                connection: order.connection,
                target: order.rate,
            },
        ),
        app.pending_written(order, result).pending_rate is None <==> app.pending_rate is None
            || result == Ok::<PollingRate, ErrorText>(order.rate),
{
}

/// The worker of the window keeps a rate until it reads back.
pub proof fn law_worker_keeps_rates(
    waiting: Option<PendingWorkerRate>,
    pending: PendingWorkerRate,
    result: Result<PollingRate, ErrorText>,
)
    ensures
        worker_result(waiting, pending, result).0 == if result == Ok::<PollingRate, ErrorText>(
            pending.rate,
        ) {
            None
        } else {
            waiting
        },
{
}

/// After a scan each visible device has a target in the window, and no other
/// has; a device is selected where any is visible.
pub proof fn law_visible_devices_have_targets(
    state: GuiData,
    devices: Seq<SnapshotData>,
    at: u128,
)
    ensures
        state.scanned(devices, at).targets.dom() =~= visible_keys(devices),
        devices.len() > 0 ==> state.scanned(devices, at).selected_device() is Some,
{
    let kept = state.targets.restrict(visible_keys(devices));
    lemma_targets_of_visible(kept, devices, devices.len());
    let first = GuiData { devices, last_refresh: Some(at), last_error: None, ..state };
    let chosen = first.with_selection();
    let done = state.scanned(devices, at);
    if devices.len() > 0 {
        lemma_place_is_the_same(chosen, done, done.selected->Some_0, 0);
        lemma_place_is_the_same(chosen, first, chosen.selected->Some_0, 0);
    }
}

proof fn lemma_place_is_the_same(a: GuiData, b: GuiData, key: SnapshotKeyData, from: int)
    requires
        a.devices == b.devices,
        0 <= from,
    ensures
        a.place_of(key, from) == b.place_of(key, from),
    decreases a.devices.len() - from,
{
    if from < a.devices.len() {
        lemma_place_is_the_same(a, b, key, from + 1);
    }
}

proof fn lemma_targets_of_visible(
    kept: Map<SnapshotKeyData, PollingRate>,
    devices: Seq<SnapshotData>,
    n: nat,
)
    requires
        n <= devices.len(),
        kept.dom().subset_of(visible_keys(devices)),
    ensures
        with_targets(kept, devices, n).dom().subset_of(visible_keys(devices)),
        forall|i: int|
            0 <= i < n ==> with_targets(kept, devices, n).contains_key(
                (#[trigger] devices[i]).key(),
            ),
    decreases n,
{
    if n > 0 {
        lemma_targets_of_visible(kept, devices, (n - 1) as nat);
        assert(visible_keys(devices).contains(devices[n - 1].key()));
    }
}

} // verus!
