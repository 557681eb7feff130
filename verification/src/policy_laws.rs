//! What the watcher decides, in terms of what the devices report and what the
//! configuration says.
use crate::config::{PollMonitorConfig, PowerPolicy};
use crate::courses::{rate_run, set_rate_run};
use crate::device_laws::{law_set_rates_were_ordered, rate_ordered};
use crate::devices::{ConnectionKind, PollingRate, ProtocolKind};
use crate::error::ErrorText;
use crate::interfaces::ids_text;
use crate::models::ModelData;
use crate::process_rules::RuleData;
use crate::reading_laws::{law_reading_rate_orders_nothing, only_read};
use crate::snapshots::SnapshotData;
use crate::text::decimal;
use crate::transport::{Request, Wire};
use crate::watch::{
    change_words, device_targets, device_words, power_classes, rate_decision, rate_words,
    round_pause, round_start, round_wish, switch_run, unsupported_words, write_result, ActionData,
    WatchData,
};
use crate::watch_laws::in_order;
use crate::watcher::{
    at_least, power_class, queued, recent, recorded, sampled, trend, visible, wanted, watch_key,
    BatterySample, DevicePollScheduler, KeyData, PendingData, PowerClass,
};
use vstd::prelude::*;

verus! {

/// Whether a device says that it charges or is full.
pub open spec fn says_plugged_in(device: SnapshotData) -> bool {
    device.battery matches Some(battery) && (battery.charge_state is Charging
        || battery.charge_state is Full)
}

/// Whether a device says that it discharges.
pub open spec fn says_discharging(device: SnapshotData) -> bool {
    device.battery matches Some(battery) && battery.charge_state is Discharging
}

/// While a rule is in force, a device that charges gets the rate that the rule
/// wants restored, whatever the configuration holds; only where the rule names
/// none it gets the configured rate to restore, and only where that is missing
/// too the default.
pub proof fn law_charging_devices_get_the_restore_rate(
    classes: Seq<PowerClass>,
    config: PollMonitorConfig,
    rule: RuleData,
    desired: PollingRate,
    i: int,
)
    requires
        0 <= i < classes.len(),
        classes[i] == PowerClass::Charging,
    ensures
        ({
            let target = device_targets(classes, config, Some(rule), desired)[i];
            &&& rule.restore matches Some(rate) ==> target.0 == rate
            &&& rule.restore is None ==> (config.restore_rate matches Some(rate) ==> target.0
                == rate)
            &&& rule.restore is None && config.restore_rate is None ==> target.0
                == config.default_rate
            &&& target.1 == "charging idle"@
        }),
{
}

/// While a rule is in force, a device that discharges gets the wanted rate. One
/// of which that is not known gets it where no device is known to discharge and
/// the configuration allows it, and the rate of a charging device otherwise.
pub proof fn law_other_devices_under_a_rule(
    classes: Seq<PowerClass>,
    config: PollMonitorConfig,
    rule: RuleData,
    desired: PollingRate,
    i: int,
)
    requires
        0 <= i < classes.len(),
    ensures
        ({
            let target = device_targets(classes, config, Some(rule), desired)[i];
            let alone = forall|j: int|
                0 <= j < classes.len() ==> #[trigger] classes[j] != PowerClass::Discharging;
            let boosted = alone && config.allow_unknown_power_active;
            &&& classes[i] == PowerClass::Discharging ==> target.0 == desired && target.1
                == "active non-charging"@
            &&& classes[i] == PowerClass::Unknown && boosted ==> target.0 == desired && target.1
                == "active unknown-power fallback"@
            &&& classes[i] == PowerClass::Unknown && !boosted ==> {
                &&& target.1 == "unknown-power idle"@
                &&& rule.restore matches Some(rate) ==> target.0 == rate
                &&& rule.restore is None ==> (config.restore_rate matches Some(rate) ==> target.0
                    == rate)
                &&& rule.restore is None && config.restore_rate is None ==> target.0
                    == config.default_rate
            }
        }),
{
    if classes.contains(PowerClass::Discharging) {
        let j = choose|j: int| 0 <= j < classes.len() && classes[j] == PowerClass::Discharging;
        assert(classes[j] == PowerClass::Discharging);
    }
}

/// Without a rule every device gets the configured rate to restore, or the
/// default where there is none, whatever is wanted otherwise and however it is
/// powered.
pub proof fn law_devices_without_a_rule(
    classes: Seq<PowerClass>,
    config: PollMonitorConfig,
    desired: PollingRate,
    i: int,
)
    requires
        0 <= i < classes.len(),
    ensures
        device_targets(classes, config, None, desired).len() == classes.len(),
        ({
            let target = device_targets(classes, config, None, desired)[i];
            &&& target.1 == "idle"@
            &&& config.restore_rate matches Some(rate) ==> target.0 == rate
            &&& config.restore_rate is None ==> target.0 == config.default_rate
        }),
{
}

/// From what a mouse reports to its rate: under a rule a mouse that reports to
/// charge or to be full gets the rate that the rule restores, and one that
/// reports to discharge gets the wanted rate, wherever they stand in the list
/// and whatever else is known of them.
pub proof fn law_reported_states_decide(
    devices: Seq<SnapshotData>,
    config: PollMonitorConfig,
    samples: Map<KeyData, Seq<BatterySample>>,
    min_delta: u8,
    rule: RuleData,
    desired: PollingRate,
    i: int,
)
    requires
        0 <= i < devices.len(),
    ensures
        ({
            let classes = power_classes(devices, config, samples, min_delta);
            let targets = device_targets(classes, config, Some(rule), desired);
            &&& targets.len() == devices.len()
            &&& says_plugged_in(devices[i]) ==> {
                &&& rule.restore matches Some(rate) ==> targets[i].0 == rate
                &&& rule.restore is None ==> (config.restore_rate matches Some(rate)
                    ==> targets[i].0 == rate)
                &&& rule.restore is None && config.restore_rate is None ==> targets[i].0
                    == config.default_rate
            }
            &&& says_discharging(devices[i]) ==> targets[i].0 == desired
        }),
{
}

/// What a device is taken to do follows from its own report. A state that it
/// reports counts. Where it reports a level alone, a full battery counts as
/// plugged in, then a rise or a fall of its levels by the least step. Else the
/// cable counts, as far as the configuration lets it.
pub proof fn law_power_follows_the_report(
    device: SnapshotData,
    config: PollMonitorConfig,
    samples: Seq<BatterySample>,
    min_delta: u8,
)
    ensures
        ({
            let class = power_class(device, config, trend(samples, min_delta));
            let silent = device.battery is None || device.battery->Some_0.charge_state is Unknown
                || device.battery->Some_0.charge_state is Raw;
            let levels = device.battery is Some;
            let full = device.battery matches Some(battery) && battery.level_percent == Some(100u8);
            let first = samples[0].level;
            let last = samples.last().level;
            let rose = samples.len() >= 2 && last >= first + min_delta;
            let fell = samples.len() >= 2 && first >= last + min_delta;
            let bounded = first + min_delta <= 255 && last + min_delta <= 255;
            &&& says_plugged_in(device) ==> class == PowerClass::Charging
            &&& says_discharging(device) ==> class == PowerClass::Discharging
            &&& silent && levels && full ==> class == PowerClass::Charging
            &&& silent && levels && !full && rose ==> class == PowerClass::Charging
            &&& silent && levels && !full && fell && !rose && bounded ==> class
                == PowerClass::Discharging
            &&& silent && !full && (!levels || samples.len() < 2 || !rose && !fell && bounded) ==> {
                &&& device.connection == ConnectionKind::Wired ==> class
                    == if config.assume_wired_is_charging {
                    PowerClass::Charging
                } else {
                    PowerClass::Unknown
                }
                &&& device.connection != ConnectionKind::Wired ==> class
                    == if config.assume_wireless_is_discharging {
                    PowerClass::Discharging
                } else {
                    PowerClass::Unknown
                }
            }
        }),
{
}

/// A device is judged by its own levels, and by none where there are none.
pub proof fn law_devices_are_judged_by_their_own_levels(
    devices: Seq<SnapshotData>,
    config: PollMonitorConfig,
    samples: Map<KeyData, Seq<BatterySample>>,
    min_delta: u8,
    i: int,
)
    requires
        0 <= i < devices.len(),
    ensures
        ({
            let key = KeyData {
                path: devices[i].path,
                vid: devices[i].vid,
                pid: devices[i].pid,
            };
            let class = power_classes(devices, config, samples, min_delta)[i];
            &&& samples.contains_key(key) ==> class == power_class(
                devices[i],
                config,
                trend(samples[key], min_delta),
            )
            &&& !samples.contains_key(key) ==> class == power_class(devices[i], config, None)
        }),
{
}

/// With a new level a history loses its oldest levels alone, and of those only
/// the ones that are older than the window.
pub proof fn law_history_keeps_the_window(
    samples: Seq<BatterySample>,
    now: u128,
    level: u8,
    window: u128,
)
    requires
        in_order(samples, now),
    ensures
        exists|lost: int|
            0 <= lost <= samples.len() && sampled(samples, now, level, window)
                == #[trigger] samples.push(BatterySample { at: now, level }).skip(lost) && (forall|
                i: int,
            |
                0 <= i < lost ==> now - (#[trigger] samples[i]).at > window) && (lost
                < samples.len() ==> now - samples[lost].at <= window),
{
    let whole = samples.push(BatterySample { at: now, level });
    let lost = lemma_recent_is_the_rest(whole, now, window, 0);
    assert(whole.skip(0) =~= whole);
    assert forall|i: int| 0 <= i < lost implies now - (#[trigger] samples[i]).at > window by {
        assert(whole[i] == samples[i]);
    }
    if lost < samples.len() {
        assert(whole[lost] == samples[lost]);
    }
    assert(sampled(samples, now, level, window) == whole.skip(lost));
}

proof fn lemma_recent_is_the_rest(
    whole: Seq<BatterySample>,
    now: u128,
    window: u128,
    from: int,
) -> (lost: int)
    requires
        0 <= from < whole.len(),
        whole.last().at == now,
        forall|i: int| 0 <= i < whole.len() ==> (#[trigger] whole[i]).at <= now,
    ensures
        from <= lost < whole.len(),
        recent(whole.skip(from), now, window) == whole.skip(lost),
        forall|i: int| from <= i < lost ==> now - (#[trigger] whole[i]).at > window,
        now - whole[lost].at <= window,
    decreases whole.len() - from,
{
    let rest = whole.skip(from);
    assert(rest[0] == whole[from]);
    if now - whole[from].at > window {
        assert(rest.skip(1) =~= whole.skip(from + 1));
        lemma_recent_is_the_rest(whole, now, window, from + 1)
    } else {
        from
    }
}

/// A scan adds to the history of each device that tells a level, and to no
/// other; a device that tells none keeps its history.
pub proof fn law_levels_go_to_their_device(
    histories: Map<KeyData, Seq<BatterySample>>,
    devices: Seq<SnapshotData>,
    now: u128,
    window: u128,
    n: nat,
    key: KeyData,
)
    requires
        n <= devices.len(),
        forall|k: KeyData| #[trigger] histories.contains_key(k) ==> in_order(histories[k], now),
    ensures
        ({
            let after = recorded(histories, devices, now, window, n);
            let told = exists|i: int|
                0 <= i < n && (#[trigger] devices[i]).path == key.path && devices[i].vid == key.vid
                    && devices[i].pid == key.pid && (devices[i].battery matches Some(battery)
                    && battery.level_percent is Some);
            &&& after.contains_key(key) <==> histories.contains_key(key) || told
            &&& !told && histories.contains_key(key) ==> after[key] == histories[key]
            &&& after.contains_key(key) ==> in_order(after[key], now)
            &&& told ==> after[key].len() > 0 && after[key].last().at == now && exists|i: int|
                0 <= i < n && watch_key(#[trigger] devices[i]) == key && (devices[i].battery matches Some(
                    battery,
                ) && battery.level_percent == Some(after[key].last().level))
        }),
    decreases n,
{
    if n > 0 {
        let m = (n - 1) as nat;
        law_levels_go_to_their_device(histories, devices, now, window, m, key);
        let device = devices[m as int];
        if watch_key(device) == key {
            if let Some(battery) = device.battery {
                if let Some(level) = battery.level_percent {
                    let before = recorded(histories, devices, now, window, m);
                    let samples = if before.contains_key(key) {
                        before[key]
                    } else {
                        seq![]
                    };
                    crate::watch_laws::law_history_is_of_the_window(samples, now, level, window);
                    let after = recorded(histories, devices, now, window, n);
                    assert(after[key] == sampled(samples, now, level, window));
                    assert(devices[m as int].path == key.path);
                }
            }
        }
    }
}

/// The rate of the rule in force is wanted, in its name. Without one it is the
/// rate that the last rule wanted restored, else the configured one to restore,
/// else the default. What is to be restored is what the last rule said.
pub proof fn law_wishes(watch: WatchData, config: PollMonitorConfig, active: Option<RuleData>)
    ensures
        ({
            let (restore, wish) = round_wish(watch, config, active);
            &&& active matches Some(rule) ==> wish.rate == rule.rate && wish.exe == Some(rule.exe)
                && restore == rule.restore
            &&& active is None ==> wish.exe is None && restore == watch.pending_restore
            &&& active is None ==> (watch.pending_restore matches Some(rate) ==> wish.rate == rate)
            &&& active is None && watch.pending_restore is None ==> (
            config.restore_rate matches Some(rate) ==> wish.rate == rate)
            &&& active is None && watch.pending_restore is None && config.restore_rate is None
                ==> wish.rate == config.default_rate
            &&& wish == wanted(config, active, restore)
        }),
{
}

/// A look at the devices is due where there was none yet or the wish changed;
/// else as soon as an interval is over since the last one: that for retries
/// while a change waits, that for rules while one is in force, and that for the
/// background otherwise.
pub proof fn law_looks_are_due(
    scheduler: DevicePollScheduler,
    now: u128,
    active: bool,
    waits: bool,
)
    ensures
        scheduler.is_due(now, active, waits, true),
        scheduler.last_poll is None ==> scheduler.is_due(now, active, waits, false),
        scheduler.last_poll matches Some(last) ==> {
            let gone = if now > last {
                now - last
            } else {
                0
            };
            scheduler.is_due(now, active, waits, false) <==> gone >= if waits {
                scheduler.pending_retry_interval
            } else if active {
                scheduler.active_poll_interval
            } else {
                scheduler.background_poll_interval
            }
        },
{
}

/// An interval is what is configured, in nanoseconds, or the least one where
/// that is longer.
pub proof fn law_intervals_are_as_configured(milliseconds: u64, least: u64)
    ensures
        milliseconds >= least ==> at_least(milliseconds, least) == milliseconds * 1_000_000,
        milliseconds < least ==> at_least(milliseconds, least) == least * 1_000_000,
{
}

/// The pause after a round is the configured one, but no shorter than 250
/// milliseconds; while something waits it is no longer than the time to the
/// next retry.
pub proof fn law_pauses(watch: WatchData, config: PollMonitorConfig)
    ensures
        ({
            let asked = if config.scan_interval_ms < 250 {
                250_000_000
            } else {
                config.scan_interval_ms * 1_000_000
            };
            let retry = watch.device_scheduler.pending_retry_interval;
            let waits = watch.pending_first_device is Some || watch.pending_rate_changes
                != Map::<KeyData, PendingData>::empty();
            &&& round_pause(watch, config, true) is None
            &&& round_pause(watch, config, false) == Some(
                (if waits && retry < asked {
                    retry as int
                } else {
                    asked
                }) as u128,
            )
        }),
{
}

/// A round notes what is wanted and what is to be restored. In first-device
/// mode a new wish waits from then on, and what waits is acted upon at once
/// where it is new or a single round was asked for, else as soon as a retry is
/// due. In the other mode the queue decides how soon the devices are looked at.
pub proof fn law_rounds_start(
    watch: WatchData,
    config: PollMonitorConfig,
    dry_run: bool,
    once: bool,
    now: u128,
    active: Option<RuleData>,
)
    ensures
        ({
            let (restore, wish) = round_wish(watch, config, active);
            let (next, action) = round_start(watch, config, dry_run, once, now, active);
            let new = watch.last_desired != Some(wish);
            &&& next.last_desired == Some(wish)
            &&& next.pending_restore == restore
            &&& next.device_scheduler == watch.device_scheduler
            &&& next.pending_rate_changes == watch.pending_rate_changes
            &&& config.power_policy == PowerPolicy::FirstDevice && new
                ==> next.pending_first_device == Some(wish)
            &&& config.power_policy == PowerPolicy::ActiveNonCharging || !new
                ==> next.pending_first_device == watch.pending_first_device
            &&& config.power_policy == PowerPolicy::FirstDevice ==> {
                let acts = next.pending_first_device is Some && (once || new
                    || watch.device_scheduler.is_due(now, active is Some, true, false));
                &&& acts ==> action == (ActionData::FirstDevice {
                    desired: next.pending_first_device->Some_0,
                    write: !dry_run,
                })
                &&& !acts ==> action is Rest
            }
            &&& config.power_policy == PowerPolicy::ActiveNonCharging ==> {
                let waits = watch.pending_rate_changes != Map::<KeyData, PendingData>::empty();
                let acts = once || watch.device_scheduler.is_due(now, active is Some, waits, new);
                &&& acts ==> action is AllDevices
                &&& !acts ==> action is Rest
            }
        }),
{
}

/// A rate is written just where the run is no dry one, the device offers the
/// rate, and tells live that it runs at another one.
pub proof fn law_rates_are_written_where_they_differ(
    changes: Map<KeyData, PendingData>,
    dry_run: bool,
    device: SnapshotData,
    target: PollingRate,
    reason: Seq<char>,
)
    ensures
        rate_decision(changes, dry_run, device, target, reason).write <==> {
            &&& !dry_run
            &&& exists|i: int|
                0 <= i < device.supported_rates.len() && #[trigger] device.supported_rates[i]
                    == target
            &&& !device.cached_rate
            &&& device.current_rate matches Some(rate) && rate != target
        },
        rate_decision(changes, dry_run, device, target, reason).write ==> rate_decision(
            changes,
            dry_run,
            device,
            target,
            reason,
        ).line is None,
{
    if device.supported_rates.contains(target) {
        let i = choose|i: int|
            0 <= i < device.supported_rates.len() && device.supported_rates[i] == target;
        assert(device.supported_rates[i] == target);
    }
}

/// A decision touches the change of its own device alone. It is gone where the
/// rate is there or not offered, and said so where one waited or none is
/// offered. It waits where the rate is not live: with the target, the reason
/// and what was amiss, and is announced when that is new.
pub proof fn law_decisions_touch_their_device(
    changes: Map<KeyData, PendingData>,
    dry_run: bool,
    device: SnapshotData,
    target: PollingRate,
    reason: Seq<char>,
    other: KeyData,
)
    ensures
        ({
            let key = KeyData { path: device.path, vid: device.vid, pid: device.pid };
            let decision = rate_decision(changes, dry_run, device, target, reason);
            let offered = device.supported_rates.contains(target);
            let met = device.current_rate == Some(target);
            let stale = device.cached_rate || device.current_rate is None;
            &&& other != key ==> decision.changes.contains_key(other) == changes.contains_key(
                other,
            ) && (changes.contains_key(other) ==> decision.changes[other] == changes[other])
            &&& !offered ==> !decision.changes.contains_key(key) && decision.line is Some
            &&& offered && met ==> !decision.changes.contains_key(key) && (decision.line is Some
                <==> changes.contains_key(key))
            &&& offered && !met && dry_run ==> decision.changes == changes && decision.line is Some
            &&& offered && !met && !dry_run && !stale ==> decision.changes == changes
            &&& offered && !met && !dry_run && stale ==> {
                let amiss = if device.cached_rate {
                    "latest rate read is cached"@
                } else {
                    "current rate is unknown"@
                };
                let known = changes.contains_key(key) && changes[key].target == target
                    && changes[key].reason == reason && changes[key].last_error == Some(amiss);
                &&& decision.changes.contains_key(key)
                &&& decision.changes[key].target == target
                &&& decision.changes[key].reason == reason
                &&& decision.changes[key].last_error == Some(amiss)
                &&& !known ==> decision.changes[key].attempts == 1
                &&& known && changes[key].attempts < u32::MAX ==> decision.changes[key].attempts
                    == changes[key].attempts + 1
                &&& decision.line is Some <==> !known
            }
        }),
{
}

/// A change that waits holds what was asked for last, and how often the same
/// was asked for in a row. It is news where anything of it is new.
pub proof fn law_waiting_changes_hold_the_last_wish(
    changes: Map<KeyData, PendingData>,
    key: KeyData,
    target: PollingRate,
    reason: Seq<char>,
    error: Option<Seq<char>>,
    other: KeyData,
)
    ensures
        ({
            let (after, news) = queued(changes, key, target, reason, error);
            let same = changes.contains_key(key) && changes[key].target == target
                && changes[key].reason == reason && changes[key].last_error == error;
            &&& after.contains_key(key)
            &&& after[key].target == target
            &&& after[key].reason == reason
            &&& after[key].last_error == error
            &&& news <==> !same
            &&& !same ==> after[key].attempts == 1
            &&& same && changes[key].attempts < u32::MAX ==> after[key].attempts
                == changes[key].attempts + 1
            &&& other != key ==> after.contains_key(other) == changes.contains_key(other)
            &&& other != key && changes.contains_key(other) ==> after[other] == changes[other]
        }),
{
}

/// What is said of a write: always what it did where it was made, and where it
/// failed just when the change was not announced so before. The reason and the
/// error stay with the change.
pub proof fn law_writes_are_reported(
    changes: Map<KeyData, PendingData>,
    device: SnapshotData,
    target: PollingRate,
    reason: Seq<char>,
    result: Result<(Option<PollingRate>, Option<PollingRate>), ErrorText>,
    elapsed_ms: u128,
)
    ensures
        ({
            let key = KeyData { path: device.path, vid: device.vid, pid: device.pid };
            let (left, words) = write_result(changes, device, target, reason, result, elapsed_ms);
            &&& result is Ok ==> words is Some
            &&& result matches Err(e) ==> {
                &&& left[key].last_error == Some(e.message)
                &&& left[key].reason == reason
                &&& words is Some <==> !(changes.contains_key(key) && changes[key].target == target
                    && changes[key].reason == reason && changes[key].last_error == Some(e.message))
            }
            &&& result matches Ok((_, after)) ==> (after != Some(target) ==> left[key].reason
                == reason && left[key].last_error is Some)
        }),
{
}

/// Switching a rate reads it first. Where it is the target already and the
/// write is not forced, nothing is ordered. Else the target is ordered, and the
/// outcome tells the rate before, as read or as known, and the one read
/// afterwards.
pub proof fn law_switches(
    wire: Wire,
    model: ModelData,
    protocol: ProtocolKind,
    connection: ConnectionKind,
    target: PollingRate,
    known: Option<PollingRate>,
    always: bool,
)
    ensures
        ({
            let first = rate_run(wire, protocol, connection);
            let before = match first.outcome {
                Ok(rate) => Some(rate),
                Err(_) => known,
            };
            let run = switch_run(wire, model, protocol, connection, target, known, always);
            &&& run.outcome matches Ok((told, _)) ==> told == before
            &&& !always && before == Some(target) ==> run.outcome is Ok && only_read(
                first.wire,
                run.wire,
            )
            &&& always || before != Some(target) ==> {
                let set = set_rate_run(first.wire, model, protocol, connection, target);
                let pause = Request::Sleep { milliseconds: 80 };
                let last = rate_run(set.wire.after(pause), protocol, connection);
                &&& run.outcome is Ok <==> set.outcome is Ok
                &&& set.outcome matches Err(e) ==> run.outcome == Err::<
                    (Option<PollingRate>, Option<PollingRate>),
                    ErrorText,
                >(e) && run.wire == set.wire
                &&& set.outcome is Ok ==> {
                    &&& rate_ordered(first.wire, set.wire, protocol, connection, target)
                    &&& run.wire == last.wire
                    &&& run.outcome matches Ok((_, after)) && (last.outcome matches Ok(rate)
                        ==> after == Some(rate)) && (last.outcome is Err ==> after is None)
                }
            }
        }),
{
    let first = rate_run(wire, protocol, connection);
    law_reading_rate_orders_nothing(first.wire, protocol, connection);
    let set = set_rate_run(first.wire, model, protocol, connection, target);
    if set.outcome is Ok {
        law_set_rates_were_ordered(first.wire, model, protocol, connection, target);
    }
}

/// The devices in sight are those of the list, by path and ids.
pub proof fn law_devices_in_sight(devices: Seq<SnapshotData>, key: KeyData)
    ensures
        visible(devices).contains(key) <==> exists|i: int|
            0 <= i < devices.len() && (#[trigger] devices[i]).path == key.path && devices[i].vid
                == key.vid && devices[i].pid == key.pid,
{
    if visible(devices).contains(key) {
        let i = choose|i: int| 0 <= i < devices.len() && watch_key(#[trigger] devices[i]) == key;
        assert(devices[i].path == key.path);
    }
    if exists|i: int|
        0 <= i < devices.len() && (#[trigger] devices[i]).path == key.path && devices[i].vid
            == key.vid && devices[i].pid == key.pid {
        let i = choose|i: int|
            0 <= i < devices.len() && (#[trigger] devices[i]).path == key.path && devices[i].vid
                == key.vid && devices[i].pid == key.pid;
        assert(watch_key(devices[i]) == key);
    }
}

/// What is said of a change names the device, the rates and the reason, what was
/// amiss and the battery.
pub proof fn law_changes_in_words(
    start: Seq<char>,
    device: SnapshotData,
    target: PollingRate,
    reason: Seq<char>,
    detail: Seq<char>,
)
    ensures
        ({
            let name = device.vendor_name + " "@ + device.model_name + " "@ + ids_text(
                device.vid,
                device.pid,
            );
            let rates = " "@ + rate_words(device.current_rate) + " -> "@ + target.spec_text();
            let end = ", battery "@ + device.battery_text() + ")"@;
            &&& device_words(device) == name
            &&& change_words(start, device, target, reason, None) == start + name + rates + " ("@
                + reason + end
            &&& change_words(start, device, target, reason, Some(detail)) == start + name + rates
                + " ("@ + reason + ", "@ + detail + end
            &&& unsupported_words(device, target, reason) == name
                + ": skipping unsupported target "@ + target.spec_text() + " ("@ + reason + ")"@
        }),
{
    let name = device_words(device);
    let rates = " "@ + rate_words(device.current_rate) + " -> "@ + target.spec_text();
    let end = ", battery "@ + device.battery_text() + ")"@;
    assert(change_words(start, device, target, reason, None) =~= start + name + rates + " ("@
        + reason + end);
    assert(change_words(start, device, target, reason, Some(detail)) =~= start + name + rates
        + " ("@ + reason + ", "@ + detail + end);
}

/// What a decision says: that the rate is not offered, that what waited is
/// there, or what is queued or would be done in a dry run.
pub proof fn law_decisions_in_words(
    changes: Map<KeyData, PendingData>,
    device: SnapshotData,
    target: PollingRate,
    reason: Seq<char>,
)
    ensures
        ({
            let key = KeyData { path: device.path, vid: device.vid, pid: device.pid };
            let offered = device.supported_rates.contains(target);
            let met = device.current_rate == Some(target);
            let stale = device.cached_rate || device.current_rate is None;
            let amiss = Some(
                if device.cached_rate {
                    "latest rate read is cached"@
                } else {
                    "current rate is unknown"@
                },
            );
            let wet = rate_decision(changes, false, device, target, reason).line;
            let dry = rate_decision(changes, true, device, target, reason).line;
            &&& !offered ==> wet == Some(unsupported_words(device, target, reason)) && dry == wet
            &&& offered && met && changes.contains_key(key) ==> dry == wet && wet == Some(
                device_words(device) + ": queued target "@ + changes[key].target.spec_text()
                    + " is now satisfied ("@ + changes[key].reason + ")"@,
            )
            &&& offered && !met && stale ==> dry == Some(
                change_words("dry run: would queue "@, device, target, reason, amiss),
            )
            &&& offered && !met && stale ==> (wet matches Some(line) ==> line == change_words(
                "queued "@,
                device,
                target,
                reason,
                amiss,
            ))
            &&& offered && !met && !stale ==> dry == Some(
                change_words("dry run: would set "@, device, target, reason, None),
            )
        }),
{
}

/// What is said of a write: the rates before and after, and that it waits where
/// it did not read back.
pub proof fn law_writes_in_words(
    changes: Map<KeyData, PendingData>,
    device: SnapshotData,
    target: PollingRate,
    reason: Seq<char>,
    before: Option<PollingRate>,
    after: Option<PollingRate>,
    ms: u128,
)
    ensures
        ({
            let (left, line) = write_result(changes, device, target, reason, Ok((before, after)), ms);
            let key = KeyData { path: device.path, vid: device.vid, pid: device.pid };
            let words = device_words(device) + ": "@ + rate_words(before) + " -> "@ + rate_words(
                after,
            ) + " ("@ + reason + ", battery "@ + device.battery_text() + ", "@ + decimal(ms as nat)
                + " ms"@;
            &&& after == Some(target) ==> line == Some(words + ")"@)
            &&& after != Some(target) ==> line == Some(words + ", queued"@ + ")"@)
            &&& after != Some(target) ==> left[key].last_error == Some(
                match after {
                    Some(rate) => "device confirmed "@ + rate.spec_text() + " after write"@,
                    None => "post-write read did not confirm target"@,
                },
            )
        }),
{
    let words = device_words(device) + ": "@ + rate_words(before) + " -> "@ + rate_words(after)
        + " ("@ + reason + ", battery "@ + device.battery_text() + ", "@ + decimal(ms as nat)
        + " ms"@;
    assert(words + Seq::<char>::empty() =~= words);
}

/// Where a rise or a fall by the least step cannot be told apart from the
/// largest level, only that level counts.
pub proof fn law_trends_at_the_top(samples: Seq<BatterySample>, min_delta: u8)
    requires
        samples.len() >= 2,
        samples[0].level + min_delta > 255,
    ensures
        trend(samples, min_delta) == Some(PowerClass::Charging) <==> samples.last().level == 255,
{
}

} // verus!
