//! One round of the watcher after the other: what to do, what to write to
//! which device, and what to say of it.
use crate::config::{PollMonitorConfig, PowerPolicy};
use crate::courses::{failed, gave, rate_run, set_rate_run, Run};
use crate::devices::{lists_rate, outcome, ConnectionKind, PollingRate, ProtocolKind};
use crate::error::{DeviceError, ErrorText};
use crate::interfaces::{append_ids, ids_text};
use crate::models::ModelData;
use crate::process_rules::{ActiveRule, RuleData};
use crate::protocols::ProtocolDevice;
use crate::snapshots::{
    cache_steps, snapshot_views, visible_keys, CachedDeviceReport, DeviceSnapshot,
    DeviceSnapshotCache, SnapshotData, SnapshotKeyData,
};
use crate::text::{append_decimal, decimal, maybe_text};
use crate::transport::{DeviceTransport, Request, Wire};
use crate::watcher::{
    at_least, classify_power, desired_rate, interval_at_least, or_else, or_value, power_class,
    power_target, power_target_rate, queued, recorded, rule_view, trend, visible, wanted, watch_key,
    BatterySample, BatteryTrendTracker, DesiredData, DesiredRate, DevicePollScheduler, KeyData,
    PendingData, PendingRateQueue, PowerClass, NANOS_PER_MILLI,
};
use vstd::prelude::*;

verus! {

/// A rate in words, where it is known.
pub open spec fn rate_words(rate: Option<PollingRate>) -> Seq<char> {
    match rate {
        Some(rate) => rate.spec_text(),
        None => "unknown"@,
    }
}

/// A rate in words, where it is known.
pub fn rate_text(rate: Option<PollingRate>) -> (s: String)
    ensures
        s@ == rate_words(rate),
{
    match rate {
        Some(rate) => rate.text(),
        None => "unknown".to_owned(),
    }
}

/// What came of a read, where it went well.
pub open spec fn value_of<V>(r: Result<V, ErrorText>) -> Option<V> {
    match r {
        Ok(value) => Some(value),
        Err(_) => None,
    }
}

/// The course of bringing a device to a rate: its rate is read, set where it
/// is not the target or where it is to be set in any case, and read again
/// after a while. Where the first read fails, `known` stands for it.
pub open spec fn switch_run(
    wire: Wire,
    model: ModelData,
    protocol: ProtocolKind,
    connection: ConnectionKind,
    target: PollingRate,
    known: Option<PollingRate>,
    always: bool,
) -> Run<(Option<PollingRate>, Option<PollingRate>)> {
    let first = rate_run(wire, protocol, connection);
    let before = or_else(value_of(first.outcome), known);
    if always || before != Some(target) {
        let set = set_rate_run(first.wire, model, protocol, connection, target);
        match set.outcome {
            Err(e) => failed(set.wire, e),
            Ok(_) => {
                let last = rate_run(
                    set.wire.after(Request::Sleep { milliseconds: 80 }),
                    protocol,
                    connection,
                );
                gave(last.wire, (before, value_of(last.outcome)))
            },
        }
    } else {
        let last = rate_run(first.wire, protocol, connection);
        gave(last.wire, (before, value_of(last.outcome)))
    }
}

/// Brings a device to a rate, and tells the rates before and after.
pub fn switch_rate<T: DeviceTransport>(
    device: &mut ProtocolDevice<T>,
    target: PollingRate,
    known: Option<PollingRate>,
    always: bool,
) -> (r: Result<(Option<PollingRate>, Option<PollingRate>), DeviceError>)
    ensures
        ProtocolDevice::ran(
            *old(device),
            *final(device),
            r,
            switch_run(
                old(device).transport.wire(),
                old(device).model@,
                old(device).protocol,
                old(device).connection,
                target,
                known,
                always,
            ),
        ),
{
    let before = match device.read_rate() {
        Ok(rate) => Some(rate),
        Err(_) => known,
    };
    if always || before != Some(target) {
        match device.set_rate(target) {
            Err(e) => return Err(e),
            Ok(_) => {},
        }
        device.transport.sleep(80);
    }
    let after = match device.read_rate() {
        Ok(rate) => Some(rate),
        Err(_) => None,
    };
    Ok((before, after))
}

/// What is said of a first device that was brought to a rate.
pub open spec fn first_device_words(
    model: Seq<char>,
    connection: ConnectionKind,
    before: Option<PollingRate>,
    after: Option<PollingRate>,
    desired: DesiredData,
    elapsed_ms: u128,
) -> Seq<char> {
    model + " "@ + connection.spec_text() + ": "@ + rate_words(before) + " -> "@ + or_value(
        after,
        desired.rate,
    ).spec_text() + " ("@ + desired.text() + ", "@ + decimal(elapsed_ms as nat) + " ms)"@
}

/// What is said of a first device that was brought to a rate.
pub fn first_device_line(
    model: &str,
    connection: ConnectionKind,
    before: Option<PollingRate>,
    after: Option<PollingRate>,
    desired: &DesiredRate,
    elapsed_ms: u128,
) -> (s: String)
    ensures
        s@ == first_device_words(model@, connection, before, after, desired@, elapsed_ms),
{
    let after = match after {
        Some(rate) => rate,
        None => desired.rate,
    };
    let mut s = model.to_owned();
    s.append(" ");
    s.append(connection.text());
    s.append(": ");
    s.append(rate_text(before).as_str());
    s.append(" -> ");
    s.append(after.text().as_str());
    s.append(" (");
    s.append(desired.text().as_str());
    s.append(", ");
    append_decimal(&mut s, elapsed_ms);
    s.append(" ms)");
    s
}

/// What is said of a wish that is only tried out.
pub fn dry_run_line(desired: &DesiredRate) -> (s: String)
    ensures
        s@ == "dry run: would set "@ + desired@.text(),
{
    let mut s = "dry run: would set ".to_owned();
    s.append(desired.text().as_str());
    s
}

/// What is said of a wish that could not be met.
pub open spec fn queued_wish_words(desired: DesiredData, error: Seq<char>) -> Seq<char> {
    "queued "@ + desired.text() + ": "@ + error
}

/// A device in words: vendor, model and ids.
pub open spec fn device_words(device: SnapshotData) -> Seq<char> {
    device.vendor_name + " "@ + device.model_name + " "@ + ids_text(device.vid, device.pid)
}

/// Puts a device in words at the end.
fn append_device(out: &mut String, device: &DeviceSnapshot)
    ensures
        final(out)@ == old(out)@ + device_words(device@),
{
    let ghost before = out@;
    out.append(device.vendor_name);
    out.append(" ");
    out.append(device.model_name);
    out.append(" ");
    append_ids(out, device.vid, device.pid);
    assert(out@ =~= before + device_words(device@));
}

/// A change of rate in words: `start`, the device, the two rates, the reason,
/// `detail` and the battery.
pub open spec fn change_words(
    start: Seq<char>,
    device: SnapshotData,
    target: PollingRate,
    reason: Seq<char>,
    detail: Option<Seq<char>>,
) -> Seq<char> {
    start + device_words(device) + " "@ + rate_words(device.current_rate) + " -> "@
        + target.spec_text() + " ("@ + reason + match detail {
        Some(detail) => ", "@ + detail,
        None => seq![],
    } + ", battery "@ + device.battery_text() + ")"@
}

/// A change of rate in words.
fn change_line(
    start: &str,
    device: &DeviceSnapshot,
    target: PollingRate,
    reason: &str,
    detail: Option<&str>,
) -> (s: String)
    ensures
        s@ == change_words(
            start@,
            device@,
            target,
            reason@,
            crate::probing::maybe_str(detail),
        ),
{
    let mut s = start.to_owned();
    append_device(&mut s, device);
    s.append(" ");
    s.append(rate_text(device.current_rate).as_str());
    s.append(" -> ");
    s.append(target.text().as_str());
    s.append(" (");
    s.append(reason);
    let ghost before = s@;
    if let Some(detail) = detail {
        s.append(", ");
        s.append(detail);
        assert(s@ =~= before + (", "@ + detail@));
    } else {
        assert(s@ =~= before + seq![]);
    }
    s.append(", battery ");
    s.append(device.battery_text().as_str());
    s.append(")");
    s
}

/// What is said of a target that the device does not offer.
pub open spec fn unsupported_words(
    device: SnapshotData,
    target: PollingRate,
    reason: Seq<char>,
) -> Seq<char> {
    device_words(device) + ": skipping unsupported target "@ + target.spec_text() + " ("@ + reason
        + ")"@
}

/// What is said of a change that waited and is there now.
pub open spec fn satisfied_words(device: SnapshotData, pending: PendingData) -> Seq<char> {
    device_words(device) + ": queued target "@ + pending.target.spec_text()
        + " is now satisfied ("@ + pending.reason + ")"@
}

/// Why a change has to wait though the device is visible.
pub open spec fn stale_words(device: SnapshotData) -> Seq<char> {
    if device.cached_rate {
        "latest rate read is cached"@
    } else {
        "current rate is unknown"@
    }
}

/// What is decided of one device before anything is written.
pub struct RateDecisionData {
    pub changes: Map<KeyData, PendingData>,
    pub line: Option<Seq<char>>,
    pub write: bool,
}

/// What to do with a device that should run at `target`: nothing where it does
/// not offer it or runs at it; let it wait where its rate is not live; write
/// otherwise. In a dry run nothing is queued or written.
pub open spec fn rate_decision(
    changes: Map<KeyData, PendingData>,
    dry_run: bool,
    device: SnapshotData,
    target: PollingRate,
    reason: Seq<char>,
) -> RateDecisionData {
    let key = watch_key(device);
    if !device.supported_rates.contains(target) {
        RateDecisionData {
            changes: changes.remove(key),
            line: Some(unsupported_words(device, target, reason)),
            write: false,
        }
    } else if device.current_rate == Some(target) {
        RateDecisionData {
            changes: changes.remove(key),
            line: if changes.contains_key(key) {
                Some(satisfied_words(device, changes[key]))
            } else {
                None
            },
            write: false,
        }
    } else if device.cached_rate || device.current_rate is None {
        let detail = Some(stale_words(device));
        if dry_run {
            RateDecisionData {
                changes,
                line: Some(
                    change_words("dry run: would queue "@, device, target, reason, detail),
                ),
                write: false,
            }
        } else {
            let (after, news) = queued(changes, key, target, reason, detail);
            RateDecisionData {
                changes: after,
                line: if news {
                    Some(change_words("queued "@, device, target, reason, detail))
                } else {
                    None
                },
                write: false,
            }
        }
    } else if dry_run {
        RateDecisionData {
            changes,
            line: Some(change_words("dry run: would set "@, device, target, reason, None)),
            write: false,
        }
    } else {
        RateDecisionData { changes, line: None, write: true }
    }
}

/// What is decided of one device before anything is written: what to say, and
/// whether to write.
pub struct RateDecision {
    pub line: Option<String>,
    pub write: bool,
}

/// Decides what to do with a device that should run at `target`.
pub fn decide_rate(
    changes: &mut PendingRateQueue,
    dry_run: bool,
    device: &DeviceSnapshot,
    target: PollingRate,
    reason: &str,
) -> (r: RateDecision)
    requires
        old(changes).well_formed(),
    ensures
        final(changes).well_formed(),
        ({
            let decision = rate_decision(old(changes)@, dry_run, device@, target, reason@);
            &&& final(changes)@ == decision.changes
            &&& maybe_text(r.line) == decision.line
            &&& r.write == decision.write
        }),
{
    if !lists_rate(&device.supported_rates, target) {
        let mut line = String::new();
        append_device(&mut line, device);
        assert(line@ =~= device_words(device@));
        line.append(": skipping unsupported target ");
        line.append(target.text().as_str());
        line.append(" (");
        line.append(reason);
        line.append(")");
        let _ = changes.clear(device);
        return RateDecision { line: Some(line), write: false };
    }
    if device.current_rate == Some(target) {
        return match changes.clear(device) {
            None => RateDecision { line: None, write: false },
            Some(pending) => {
                let mut line = String::new();
                append_device(&mut line, device);
                assert(line@ =~= device_words(device@));
                line.append(": queued target ");
                line.append(pending.target.text().as_str());
                line.append(" is now satisfied (");
                line.append(pending.reason.as_str());
                line.append(")");
                RateDecision { line: Some(line), write: false }
            },
        };
    }
    if device.cached_rate || device.current_rate.is_none() {
        let detail = if device.cached_rate {
            "latest rate read is cached"
        } else {
            "current rate is unknown"
        };
        if dry_run {
            let line = change_line("dry run: would queue ", device, target, reason, Some(detail));
            return RateDecision { line: Some(line), write: false };
        }
        if changes.queue(device, target, reason, Some(detail.to_owned())) {
            let line = change_line("queued ", device, target, reason, Some(detail));
            return RateDecision { line: Some(line), write: false };
        }
        return RateDecision { line: None, write: false };
    }
    if dry_run {
        let line = change_line("dry run: would set ", device, target, reason, None);
        return RateDecision { line: Some(line), write: false };
    }
    RateDecision { line: None, write: true }
}

/// Why a change waits that was written but is not there.
pub open spec fn unconfirmed_words(after: Option<PollingRate>) -> Seq<char> {
    match after {
        Some(rate) => "device confirmed "@ + rate.spec_text() + " after write"@,
        None => "post-write read did not confirm target"@,
    }
}

/// What is said of a write.
pub open spec fn written_words(
    device: SnapshotData,
    reason: Seq<char>,
    before: Option<PollingRate>,
    after: Option<PollingRate>,
    elapsed_ms: u128,
    confirmed: bool,
) -> Seq<char> {
    device_words(device) + ": "@ + rate_words(before) + " -> "@ + rate_words(after) + " ("@
        + reason + ", battery "@ + device.battery_text() + ", "@ + decimal(elapsed_ms as nat)
        + " ms"@ + if confirmed {
        seq![]
    } else {
        ", queued"@
    } + ")"@
}

/// What a write leaves in the queue, and what is said of it: a change that
/// reads back as the target is done, any other waits.
pub open spec fn write_result(
    changes: Map<KeyData, PendingData>,
    device: SnapshotData,
    target: PollingRate,
    reason: Seq<char>,
    result: Result<(Option<PollingRate>, Option<PollingRate>), ErrorText>,
    elapsed_ms: u128,
) -> (Map<KeyData, PendingData>, Option<Seq<char>>) {
    let key = watch_key(device);
    match result {
        Ok((before, after)) => {
            let confirmed = after == Some(target);
            (
                if confirmed {
                    changes.remove(key)
                } else {
                    queued(changes, key, target, reason, Some(unconfirmed_words(after))).0
                },
                Some(written_words(device, reason, before, after, elapsed_ms, confirmed)),
            )
        },
        Err(e) => {
            let (left, news) = queued(changes, key, target, reason, Some(e.message));
            (
                left,
                if news {
                    Some(change_words("queued "@, device, target, reason, Some(e.message)))
                } else {
                    None
                },
            )
        },
    }
}

/// Takes in how a write went, and gives what to say of it.
pub fn record_write(
    changes: &mut PendingRateQueue,
    device: &DeviceSnapshot,
    target: PollingRate,
    reason: &str,
    result: Result<(Option<PollingRate>, Option<PollingRate>), DeviceError>,
    elapsed_ms: u128,
) -> (line: Option<String>)
    requires
        old(changes).well_formed(),
    ensures
        final(changes).well_formed(),
        (final(changes)@, maybe_text(line)) == write_result(
            old(changes)@,
            device@,
            target,
            reason@,
            outcome(result),
            elapsed_ms,
        ),
{
    match result {
        Ok((before, after)) => {
            let confirmed = after == Some(target);
            if confirmed {
                let _ = changes.clear(device);
            } else {
                let detail = match after {
                    Some(rate) => {
                        let mut detail = "device confirmed ".to_owned();
                        detail.append(rate.text().as_str());
                        detail.append(" after write");
                        detail
                    },
                    None => "post-write read did not confirm target".to_owned(),
                };
                let _ = changes.queue(device, target, reason, Some(detail));
            }
            let mut line = String::new();
            append_device(&mut line, device);
            assert(line@ =~= device_words(device@));
            line.append(": ");
            line.append(rate_text(before).as_str());
            line.append(" -> ");
            line.append(rate_text(after).as_str());
            line.append(" (");
            line.append(reason);
            line.append(", battery ");
            line.append(device.battery_text().as_str());
            line.append(", ");
            append_decimal(&mut line, elapsed_ms);
            line.append(" ms");
            let ghost said = line@;
            if confirmed {
                assert(said =~= said + seq![]);
            } else {
                line.append(", queued");
            }
            line.append(")");
            Some(line)
        },
        Err(e) => {
            let detail = e.text();
            if changes.queue(device, target, reason, Some(e.message)) {
                Some(change_line("queued ", device, target, reason, Some(detail.as_str())))
            } else {
                None
            }
        },
    }
}

/// The rate for one device, and why.
#[derive(Clone, Copy, Debug, PartialEq, Eq)]
pub struct DeviceTarget {
    pub target: PollingRate,
    pub reason: &'static str,
}

/// The power classes of the devices.
pub open spec fn power_classes(
    devices: Seq<SnapshotData>,
    config: PollMonitorConfig,
    samples: Map<KeyData, Seq<BatterySample>>,
    min_delta: u8,
) -> Seq<PowerClass> {
    devices.map_values(
        |device: SnapshotData|
            power_class(
                device,
                config,
                if samples.contains_key(watch_key(device)) {
                    trend(samples[watch_key(device)], min_delta)
                } else {
                    None
                },
            ),
    )
}

/// The rate of devices that are not boosted: the one that the rule in force
/// wants restored, else the configured one to restore, else the default.
pub open spec fn idle_rate(config: PollMonitorConfig, active: Option<RuleData>) -> PollingRate {
    or_value(
        or_else(
            match active {
                Some(rule) => rule.restore,
                None => None,
            },
            config.restore_rate,
        ),
        config.default_rate,
    )
}

/// The rates for the devices, and why.
pub open spec fn device_targets(
    classes: Seq<PowerClass>,
    config: PollMonitorConfig,
    active: Option<RuleData>,
    desired: PollingRate,
) -> Seq<(PollingRate, Seq<char>)> {
    classes.map_values(
        |class: PowerClass|
            power_target(
                active is Some,
                desired,
                idle_rate(config, active),
                class,
                classes.contains(PowerClass::Discharging),
                config.allow_unknown_power_active,
            ),
    )
}

/// Targets in view.
pub open spec fn target_views(targets: Seq<DeviceTarget>) -> Seq<(PollingRate, Seq<char>)> {
    targets.map_values(|t: DeviceTarget| (t.target, t.reason@))
}

/// The power classes of the devices.
fn classify_devices(
    devices: &Vec<DeviceSnapshot>,
    config: &PollMonitorConfig,
    trends: &BatteryTrendTracker,
) -> (classes: Vec<PowerClass>)
    requires
        trends.well_formed(),
    ensures
        classes@ == power_classes(
            snapshot_views(devices@),
            *config,
            trends.samples(),
            trends.min_delta,
        ),
{
    let ghost views = snapshot_views(devices@);
    let mut classes: Vec<PowerClass> = Vec::new();
    for i in 0..devices.len()
        invariant
            trends.well_formed(),
            views == snapshot_views(devices@),
            classes@ == power_classes(views, *config, trends.samples(), trends.min_delta).take(
                i as int,
            ),
    {
        assert(views[i as int] == devices@[i as int]@);
        let ghost all = power_classes(views, *config, trends.samples(), trends.min_delta);
        classes.push(classify_power(&devices[i], config, trends));
        assert(classes@ =~= all.take(i + 1));
    }
    assert(classes@ =~= power_classes(views, *config, trends.samples(), trends.min_delta));
    classes
}

/// Whether a device is known to discharge.
fn any_discharging(classes: &Vec<PowerClass>) -> (yes: bool)
    ensures
        yes == classes@.contains(PowerClass::Discharging),
{
    for i in 0..classes.len()
        invariant
            forall|j: int| 0 <= j < i ==> classes@[j] != PowerClass::Discharging,
    {
        if classes[i] == PowerClass::Discharging {
            return true;
        }
    }
    false
}

/// The rates for the devices, and why.
fn choose_targets(
    classes: &Vec<PowerClass>,
    config: &PollMonitorConfig,
    active: Option<&ActiveRule>,
    desired: PollingRate,
) -> (targets: Vec<DeviceTarget>)
    ensures
        target_views(targets@) == device_targets(classes@, *config, rule_view(active), desired),
{
    let restore = match active {
        Some(rule) => rule.restore,
        None => None,
    };
    let idle = match restore {
        Some(rate) => rate,
        None => match config.restore_rate {
            Some(rate) => rate,
            None => config.default_rate,
        },
    };
    let discharging = any_discharging(classes);
    let ghost all = device_targets(classes@, *config, rule_view(active), desired);
    let mut targets: Vec<DeviceTarget> = Vec::new();
    assert(target_views(targets@) =~= all.take(0));
    for i in 0..classes.len()
        invariant
            idle == idle_rate(*config, rule_view(active)),
            discharging == classes@.contains(PowerClass::Discharging),
            all == device_targets(classes@, *config, rule_view(active), desired),
            target_views(targets@) == all.take(i as int),
    {
        let ghost before = targets@;
        let (target, reason) = power_target_rate(
            active,
            desired,
            idle,
            classes[i],
            discharging,
            config.allow_unknown_power_active,
        );
        targets.push(DeviceTarget { target, reason });
        assert(target_views(targets@) =~= target_views(before).push((target, reason@)));
        assert(all.take(i + 1) =~= all.take(i as int).push(all[i as int]));
    }
    assert(all.take(classes@.len() as int) =~= all);
    targets
}

/// What to do in a round.
pub enum WatchAction {
    /// Nothing.
    Rest,
    /// Bring the first supported device to a rate; in a dry run, say so only.
    FirstDevice { desired: DesiredRate, write: bool },
    /// Look at all devices.
    AllDevices,
}

/// What a [`WatchAction`] says.
pub enum ActionData {
    Rest,
    FirstDevice { desired: DesiredData, write: bool },
    AllDevices,
}

impl View for WatchAction {
    type V = ActionData;

    open spec fn view(&self) -> ActionData {
        match *self {
            WatchAction::Rest => ActionData::Rest,
            WatchAction::FirstDevice { desired, write } => ActionData::FirstDevice {
                desired: desired@,
                write,
            },
            WatchAction::AllDevices => ActionData::AllDevices,
        }
    }
}

/// A wish that may be missing, in view.
pub open spec fn wish_view(wish: Option<DesiredRate>) -> Option<DesiredData> {
    match wish {
        Some(wish) => Some(wish@),
        None => None,
    }
}

/// The watcher between two rounds.
pub struct Watch {
    pub config: PollMonitorConfig,
    pub dry_run: bool,
    pub once: bool,
    pub last_desired: Option<DesiredRate>,
    pub pending_restore: Option<PollingRate>,
    pub pending_first_device: Option<DesiredRate>,
    pub battery_trends: BatteryTrendTracker,
    pub snapshot_cache: DeviceSnapshotCache,
    pub device_scheduler: DevicePollScheduler,
    pub pending_rate_changes: PendingRateQueue,
}

/// The part of a [`Watch`] that the rules decide about.
pub struct WatchData {
    pub last_desired: Option<DesiredData>,
    pub pending_restore: Option<PollingRate>,
    pub pending_first_device: Option<DesiredData>,
    pub device_scheduler: DevicePollScheduler,
    pub pending_rate_changes: Map<KeyData, PendingData>,
}

impl View for Watch {
    type V = WatchData;

    open spec fn view(&self) -> WatchData {
        WatchData {
            last_desired: wish_view(self.last_desired),
            pending_restore: self.pending_restore,
            pending_first_device: wish_view(self.pending_first_device),
            device_scheduler: self.device_scheduler,
            pending_rate_changes: self.pending_rate_changes@,
        }
    }
}

/// The wish in a round: the restore rate of the rule in force is kept for the
/// time after it.
pub open spec fn round_wish(
    watch: WatchData,
    config: PollMonitorConfig,
    active: Option<RuleData>,
) -> (Option<PollingRate>, DesiredData) {
    let pending_restore = match active {
        Some(rule) => rule.restore,
        None => watch.pending_restore,
    };
    (pending_restore, wanted(config, active, pending_restore))
}

/// The watcher after the start of a round, and what it does then. In
/// first-device mode a changed wish waits until it is met; in the other mode
/// all devices are looked at when it is time.
pub open spec fn round_start(
    watch: WatchData,
    config: PollMonitorConfig,
    dry_run: bool,
    once: bool,
    now: u128,
    active: Option<RuleData>,
) -> (WatchData, ActionData) {
    let (pending_restore, desired) = round_wish(watch, config, active);
    let changed = watch.last_desired != Some(desired);
    let pending_first_device = if config.power_policy == PowerPolicy::FirstDevice && changed {
        Some(desired)
    } else {
        watch.pending_first_device
    };
    let next = WatchData {
        last_desired: Some(desired),
        pending_restore,
        pending_first_device,
        ..watch
    };
    let action = match config.power_policy {
        PowerPolicy::FirstDevice => match pending_first_device {
            Some(wish) => if once || changed || watch.device_scheduler.is_due(
                now,
                active is Some,
                true,
                false,
            ) {
                ActionData::FirstDevice { desired: wish, write: !dry_run }
            } else {
                ActionData::Rest
            },
            None => ActionData::Rest,
        },
        PowerPolicy::ActiveNonCharging => if once || watch.device_scheduler.is_due(
            now,
            active is Some,
            watch.pending_rate_changes != Map::<KeyData, PendingData>::empty(),
            changed,
        ) {
            ActionData::AllDevices
        } else {
            ActionData::Rest
        },
    };
    (next, action)
}

/// The least time between two rounds, in milliseconds.
pub const LEAST_PAUSE_MS: u64 = 250;

/// How long to sleep after a round; none follows where one was wanted only.
pub open spec fn round_pause(watch: WatchData, config: PollMonitorConfig, once: bool) -> Option<
    u128,
> {
    if once {
        None
    } else {
        let process_interval = at_least(config.scan_interval_ms, LEAST_PAUSE_MS);
        let waits = watch.pending_first_device is Some || watch.pending_rate_changes
            != Map::<KeyData, PendingData>::empty();
        if waits && watch.device_scheduler.pending_retry_interval < process_interval {
            Some(watch.device_scheduler.pending_retry_interval)
        } else {
            Some(process_interval)
        }
    }
}

/// What a look at all devices found and wants.
pub struct DevicePlan {
    pub line: Option<String>,
    pub targets: Vec<DeviceTarget>,
}

impl Watch {
    /// Whether the tables of the watcher are in order, and no retry comes
    /// sooner than it may.
    pub open spec fn well_formed(&self) -> bool {
        &&& self.device_scheduler.pending_retry_interval >= LEAST_PAUSE_MS * NANOS_PER_MILLI
        &&& self.battery_trends.well_formed()
        &&& self.snapshot_cache.well_formed()
        &&& self.pending_rate_changes.well_formed()
    }

    /// Whether the two have the same configuration and mode.
    pub open spec fn same_mode(self, other: Watch) -> bool {
        &&& self.config == other.config
        &&& self.dry_run == other.dry_run
        &&& self.once == other.once
    }

    /// A watcher that has seen nothing yet.
    pub fn new(config: PollMonitorConfig, dry_run: bool, once: bool) -> (watch: Watch)
        ensures
            watch.well_formed(),
            watch.config == config,
            watch.dry_run == dry_run,
            watch.once == once,
            watch@.last_desired is None,
            watch@.pending_restore is None,
            watch@.pending_first_device is None,
            watch@.pending_rate_changes == Map::<KeyData, PendingData>::empty(),
            watch.device_scheduler.last_poll is None,
            watch.device_scheduler.pending_retry_interval == at_least(
                config.pending_retry_interval_ms,
                250,
            ),
            watch.device_scheduler.active_poll_interval == at_least(
                config.active_device_poll_interval_ms,
                1_000,
            ),
            watch.device_scheduler.background_poll_interval == at_least(
                config.background_device_poll_interval_ms,
                60_000,
            ),
            watch.battery_trends.samples() == Map::<KeyData, Seq<BatterySample>>::empty(),
            watch.battery_trends.window == at_least(config.battery_trend_window_ms, 1_000),
            watch.battery_trends.min_delta == if config.battery_trend_min_delta < 1 {
                1
            } else {
                config.battery_trend_min_delta
            },
            watch.snapshot_cache.entries@ == Map::<SnapshotKeyData, CachedDeviceReport>::empty(),
    {
        let battery_trends = BatteryTrendTracker::from_config(&config);
        let device_scheduler = DevicePollScheduler::from_config(&config);
        Watch {
            config,
            dry_run,
            once,
            last_desired: None,
            pending_restore: None,
            pending_first_device: None,
            battery_trends,
            snapshot_cache: DeviceSnapshotCache::default(),
            device_scheduler,
            pending_rate_changes: PendingRateQueue::default(),
        }
    }

    /// Whether the watcher has to look at devices at all.
    pub fn needs_monitor(&self) -> (r: bool)
        ensures
            r == (!self.dry_run || self.config.power_policy == PowerPolicy::ActiveNonCharging),
    {
        !self.dry_run || self.config.power_policy == PowerPolicy::ActiveNonCharging
    }

    /// Starts a round with the rule in force, and gives what to do.
    pub fn begin(&mut self, now: u128, active: Option<&ActiveRule>) -> (action: WatchAction)
        requires
            old(self).well_formed(),
        ensures
            final(self).well_formed(),
            final(self).same_mode(*old(self)),
            final(self).battery_trends == old(self).battery_trends,
            final(self).snapshot_cache == old(self).snapshot_cache,
            action matches WatchAction::FirstDevice { write, .. } ==> write == !old(self).dry_run,
            (final(self)@, action@) == round_start(
                old(self)@,
                old(self).config,
                old(self).dry_run,
                old(self).once,
                now,
                rule_view(active),
            ),
    {
        if let Some(rule) = active {
            self.pending_restore = rule.restore;
        }
        let desired = desired_rate(&self.config, active, self.pending_restore);
        let changed = match &self.last_desired {
            Some(last) => !last.same(&desired),
            None => true,
        };
        let action = match self.config.power_policy {
            PowerPolicy::FirstDevice => {
                if changed {
                    self.pending_first_device = Some(desired.duplicate());
                }
                match &self.pending_first_device {
                    Some(wish) => if self.once || changed || self.device_scheduler.should_poll(
                        now,
                        active.is_some(),
                        true,
                        false,
                    ) {
                        WatchAction::FirstDevice {
                            desired: wish.duplicate(),
                            write: !self.dry_run,
                        }
                    } else {
                        WatchAction::Rest
                    },
                    None => WatchAction::Rest,
                }
            },
            PowerPolicy::ActiveNonCharging => if self.once || self.device_scheduler.should_poll(
                now,
                active.is_some(),
                self.pending_rate_changes.has_pending(),
                changed,
            ) {
                WatchAction::AllDevices
            } else {
                WatchAction::Rest
            },
        };
        self.last_desired = Some(desired);
        action
    }

    /// Takes in how bringing the first device to a rate went, and gives what
    /// to say of it: a wish that was met waits no longer.
    pub fn first_device_done(&mut self, now: u128, result: Result<(), DeviceError>) -> (line:
        Option<String>)
        requires
            old(self).well_formed(),
            old(self).pending_first_device is Some,
        ensures
            final(self).well_formed(),
            final(self).same_mode(*old(self)),
            final(self).battery_trends == old(self).battery_trends,
            final(self).snapshot_cache == old(self).snapshot_cache,
            final(self)@ == (WatchData {
                pending_first_device: match result {
                    Ok(_) => None,
                    Err(_) => old(self)@.pending_first_device,
                },
                device_scheduler: DevicePollScheduler {
                    last_poll: Some(now),
                    ..old(self).device_scheduler
                },
                ..old(self)@
            }),
            maybe_text(line) == match result {
                Ok(_) => None,
                Err(e) => Some(
                    queued_wish_words(old(self)@.pending_first_device->Some_0, e@.message),
                ),
            },
    {
        self.device_scheduler.record_poll(now);
        match result {
            Ok(_) => {
                self.pending_first_device = None;
                None
            },
            Err(e) => match &self.pending_first_device {
                Some(wish) => {
                    let mut line = "queued ".to_owned();
                    line.append(wish.text().as_str());
                    line.append(": ");
                    line.append(e.message.as_str());
                    Some(line)
                },
                None => None,
            },
        }
    }

    /// Takes a scan of all devices in: fills in what is missing, drops what is
    /// no longer visible, and gives the rate for each device.
    pub fn plan(
        &mut self,
        devices: &mut Vec<DeviceSnapshot>,
        now: u128,
        active: Option<&ActiveRule>,
        desired: &DesiredRate,
    ) -> (plan: DevicePlan)
        requires
            old(self).well_formed(),
        ensures
            final(self).well_formed(),
            final(self).same_mode(*old(self)),
            ({
                let scanned = snapshot_views(old(devices)@);
                let (memory, shown) = cache_steps(
                    old(self).snapshot_cache.entries@,
                    scanned,
                    scanned.len(),
                );
                let samples = recorded(
                    old(self).battery_trends.samples(),
                    shown,
                    now,
                    old(self).battery_trends.window,
                    shown.len(),
                ).restrict(visible(shown));
                &&& snapshot_views(final(devices)@) == shown
                &&& final(self).snapshot_cache.entries@ == memory.restrict(visible_keys(scanned))
                &&& final(self)@ == (WatchData {
                    pending_rate_changes: old(self)@.pending_rate_changes.restrict(visible(shown)),
                    ..old(self)@
                })
                &&& final(self).battery_trends.window == old(self).battery_trends.window
                &&& final(self).battery_trends.min_delta == old(self).battery_trends.min_delta
                &&& final(self).battery_trends.samples() == if shown.len() == 0 {
                    old(self).battery_trends.samples()
                } else {
                    samples
                }
                &&& target_views(plan.targets@) == if shown.len() == 0 {
                    seq![]
                } else {
                    device_targets(
                        power_classes(
                            shown,
                            old(self).config,
                            samples,
                            old(self).battery_trends.min_delta,
                        ),
                        old(self).config,
                        rule_view(active),
                        desired.rate,
                    )
                }
                &&& maybe_text(plan.line) == if shown.len() == 0 && old(self).dry_run {
                    Some("dry run: no supported device visible for "@ + desired@.text())
                } else {
                    None
                }
            }),
    {
        self.snapshot_cache.apply(devices.as_mut_slice());
        self.pending_rate_changes.retain_visible(devices);
        if devices.len() == 0 {
            let targets: Vec<DeviceTarget> = Vec::new();
            assert(target_views(targets@) =~= seq![]);
            let line = if self.dry_run {
                let mut line = "dry run: no supported device visible for ".to_owned();
                line.append(desired.text().as_str());
                Some(line)
            } else {
                None
            };
            return DevicePlan { line, targets };
        }
        self.battery_trends.record_at(devices, now);
        let classes = classify_devices(devices, &self.config, &self.battery_trends);
        let targets = choose_targets(&classes, &self.config, active, desired.rate);
        DevicePlan { line: None, targets }
    }

    /// Decides what to do about the rate of a device; nothing is written in a
    /// dry run.
    pub fn decide(&mut self, device: &DeviceSnapshot, wish: &DeviceTarget) -> (r: RateDecision)
        requires
            old(self).well_formed(),
        ensures
            final(self).well_formed(),
            final(self).same_mode(*old(self)),
            final(self).battery_trends == old(self).battery_trends,
            final(self).snapshot_cache == old(self).snapshot_cache,
            old(self).dry_run ==> !r.write,
            ({
                let decision = rate_decision(
                    old(self)@.pending_rate_changes,
                    old(self).dry_run,
                    device@,
                    wish.target,
                    wish.reason@,
                );
                &&& final(self)@ == (WatchData {
                    pending_rate_changes: decision.changes,
                    ..old(self)@
                })
                &&& maybe_text(r.line) == decision.line
                &&& r.write == decision.write
            }),
    {
        decide_rate(
            &mut self.pending_rate_changes,
            self.dry_run,
            device,
            wish.target,
            wish.reason,
        )
    }

    /// Takes in how a write that was decided upon went, and gives what to say
    /// of it.
    pub fn record(
        &mut self,
        device: &DeviceSnapshot,
        wish: &DeviceTarget,
        result: Result<(Option<PollingRate>, Option<PollingRate>), DeviceError>,
        elapsed_ms: u128,
    ) -> (line: Option<String>)
        requires
            old(self).well_formed(),
        ensures
            final(self).well_formed(),
            final(self).same_mode(*old(self)),
            final(self).battery_trends == old(self).battery_trends,
            final(self).snapshot_cache == old(self).snapshot_cache,
            ({
                let (changes, words) = write_result(
                    old(self)@.pending_rate_changes,
                    device@,
                    wish.target,
                    wish.reason@,
                    outcome(result),
                    elapsed_ms,
                );
                &&& final(self)@ == (WatchData { pending_rate_changes: changes, ..old(self)@ })
                &&& maybe_text(line) == words
            }),
    {
        record_write(
            &mut self.pending_rate_changes,
            device,
            wish.target,
            wish.reason,
            result,
            elapsed_ms,
        )
    }

    /// Notes that all devices were looked at.
    pub fn all_devices_done(&mut self, now: u128)
        requires
            old(self).well_formed(),
        ensures
            final(self).well_formed(),
            final(self).same_mode(*old(self)),
            final(self).battery_trends == old(self).battery_trends,
            final(self).snapshot_cache == old(self).snapshot_cache,
            final(self)@ == (WatchData {
                device_scheduler: DevicePollScheduler {
                    last_poll: Some(now),
                    ..old(self).device_scheduler
                },
                ..old(self)@
            }),
    {
        self.device_scheduler.record_poll(now);
    }

    /// How long to sleep until the next round; none follows where one was
    /// wanted only.
    pub fn pause(&self) -> (r: Option<u128>)
        requires
            self.well_formed(),
        ensures
            r == round_pause(self@, self.config, self.once),
            r matches Some(pause) ==> pause >= LEAST_PAUSE_MS * NANOS_PER_MILLI,
    {
        if self.once {
            return None;
        }
        let process_interval = interval_at_least(self.config.scan_interval_ms, LEAST_PAUSE_MS);
        let has_pending = self.pending_first_device.is_some()
            || self.pending_rate_changes.has_pending();
        Some(self.device_scheduler.sleep_interval(process_interval, has_pending))
    }
}

} // verus!
