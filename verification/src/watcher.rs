//! What rate each device should run at, and when to look at the devices.
use crate::config::PollMonitorConfig;
use crate::devices::{ConnectionKind, PollingRate};
use crate::process_rules::{ActiveRule, RuleData};
use crate::snapshots::{snapshot_views, DeviceSnapshot, SnapshotData};
use crate::table::{is_among, key_set, Table, TableKey};
use crate::text::{maybe_text, same_maybe, same_text};
use vstd::prelude::*;

verus! {

/// Why a rate is wanted.
#[derive(Clone, Debug, PartialEq, Eq)]
pub enum DesiredReason {
    /// A program runs that has a rule.
    Rule { exe: String },
    /// No such program runs.
    Restore,
}

/// A rate that is wanted.
#[derive(Clone, Debug, PartialEq, Eq)]
pub struct DesiredRate {
    pub rate: PollingRate,
    pub reason: DesiredReason,
}

/// What a [`DesiredRate`] says: the rate, and the program whose rule wants it.
pub struct DesiredData {
    pub rate: PollingRate,
    pub exe: Option<Seq<char>>,
}

impl View for DesiredRate {
    type V = DesiredData;

    open spec fn view(&self) -> DesiredData {
        DesiredData {
            rate: self.rate,
            exe: match self.reason {
                DesiredReason::Rule { exe } => Some(exe@),
                DesiredReason::Restore => None,
            },
        }
    }
}

impl DesiredData {
    /// The wish in words.
    pub open spec fn text(self) -> Seq<char> {
        match self.exe {
            Some(exe) => exe + " active -> "@ + self.rate.spec_text(),
            None => "restore -> "@ + self.rate.spec_text(),
        }
    }
}

impl DesiredRate {
    /// The wish in words.
    pub fn text(&self) -> (s: String)
        ensures
            s@ == self@.text(),
    {
        let mut s = match &self.reason {
            DesiredReason::Rule { exe } => {
                let mut s = exe.clone();
                s.append(" active -> ");
                s
            },
            DesiredReason::Restore => "restore -> ".to_owned(),
        };
        s.append(self.rate.text().as_str());
        s
    }

    /// Whether the two are the same wish.
    pub fn same(&self, other: &DesiredRate) -> (yes: bool)
        ensures
            yes == (self@ == other@),
    {
        self.rate == other.rate && match (&self.reason, &other.reason) {
            (DesiredReason::Rule { exe: a }, DesiredReason::Rule { exe: b }) => same_text(
                a.as_str(),
                b.as_str(),
            ),
            (DesiredReason::Restore, DesiredReason::Restore) => true,
            _ => false,
        }
    }

    /// The same wish once more.
    pub fn duplicate(&self) -> (r: DesiredRate)
        ensures
            r@ == self@,
    {
        DesiredRate {
            rate: self.rate,
            reason: match &self.reason {
                DesiredReason::Rule { exe } => DesiredReason::Rule { exe: exe.clone() },
                DesiredReason::Restore => DesiredReason::Restore,
            },
        }
    }
}

/// The first of two that is there.
pub open spec fn or_else<V>(a: Option<V>, b: Option<V>) -> Option<V> {
    match a {
        Some(_) => a,
        None => b,
    }
}

/// What is there, or another.
pub open spec fn or_value<V>(a: Option<V>, b: V) -> V {
    match a {
        Some(value) => value,
        None => b,
    }
}

/// A rule that may be missing, in view.
pub open spec fn rule_view(rule: Option<&ActiveRule>) -> Option<RuleData> {
    match rule {
        Some(rule) => Some(rule@),
        None => None,
    }
}

/// The rate that is wanted: that of the rule in force, else the one that the
/// last rule wants restored, else the configured one to restore, else the
/// default.
pub open spec fn wanted(
    config: PollMonitorConfig,
    active: Option<RuleData>,
    pending_restore: Option<PollingRate>,
) -> DesiredData {
    match active {
        Some(rule) => DesiredData { rate: rule.rate, exe: Some(rule.exe) },
        None => DesiredData {
            rate: or_value(or_else(pending_restore, config.restore_rate), config.default_rate),
            exe: None,
        },
    }
}

/// The rate that is wanted.
pub fn desired_rate(
    config: &PollMonitorConfig,
    active: Option<&ActiveRule>,
    pending_restore: Option<PollingRate>,
) -> (r: DesiredRate)
    ensures
        r@ == wanted(*config, rule_view(active), pending_restore),
{
    if let Some(rule) = active {
        return DesiredRate {
            rate: rule.rate,
            reason: DesiredReason::Rule { exe: rule.exe.clone() },
        };
    }
    let rate = match pending_restore {
        Some(rate) => rate,
        None => match config.restore_rate {
            Some(rate) => rate,
            None => config.default_rate,
        },
    };
    DesiredRate { rate, reason: DesiredReason::Restore }
}

/// Whether a battery charges, as far as can be told.
#[derive(Clone, Copy, Debug, PartialEq, Eq, Structural)]
pub enum PowerClass {
    Charging,
    Discharging,
    Unknown,
}

/// The nanoseconds of a millisecond.
pub const NANOS_PER_MILLI: u128 = 1_000_000;

/// A time in milliseconds that is at least `least`, in nanoseconds.
pub open spec fn at_least(milliseconds: u64, least: u64) -> u128 {
    (if milliseconds < least {
        least
    } else {
        milliseconds
    } * NANOS_PER_MILLI) as u128
}

/// A time in milliseconds that is at least `least`, in nanoseconds.
pub fn interval_at_least(milliseconds: u64, least: u64) -> (r: u128)
    ensures
        r == at_least(milliseconds, least),
{
    if milliseconds < least {
        least as u128 * NANOS_PER_MILLI
    } else {
        milliseconds as u128 * NANOS_PER_MILLI
    }
}

/// The time from `then` to `now`; none where `then` is later.
pub open spec fn since(now: u128, then: u128) -> u128 {
    if now > then {
        (now - then) as u128
    } else {
        0
    }
}

/// The time from `then` to `now`; none where `then` is later.
pub fn elapsed_since(now: u128, then: u128) -> (r: u128)
    ensures
        r == since(now, then),
{
    if now > then {
        now - then
    } else {
        0
    }
}

/// When to look at the devices. Times are in nanoseconds of a clock that the
/// caller reads.
#[derive(Clone, Copy, Debug)]
pub struct DevicePollScheduler {
    pub pending_retry_interval: u128,
    pub active_poll_interval: u128,
    pub background_poll_interval: u128,
    pub last_poll: Option<u128>,
}

impl DevicePollScheduler {
    /// The configured intervals, each with its least value.
    pub fn from_config(config: &PollMonitorConfig) -> (r: DevicePollScheduler)
        ensures
            r.pending_retry_interval == at_least(config.pending_retry_interval_ms, 250),
            r.active_poll_interval == at_least(config.active_device_poll_interval_ms, 1_000),
            r.background_poll_interval == at_least(
                config.background_device_poll_interval_ms,
                60_000,
            ),
            r.last_poll is None,
    {
        DevicePollScheduler {
            pending_retry_interval: interval_at_least(config.pending_retry_interval_ms, 250),
            active_poll_interval: interval_at_least(config.active_device_poll_interval_ms, 1_000),
            background_poll_interval: interval_at_least(
                config.background_device_poll_interval_ms,
                60_000,
            ),
            last_poll: None,
        }
    }

    /// The interval that counts: the retry interval while a change is queued,
    /// the active one while a rule is in force, else the one for the
    /// background.
    pub open spec fn interval(self, active: bool, has_pending: bool) -> u128 {
        if has_pending {
            self.pending_retry_interval
        } else if active {
            self.active_poll_interval
        } else {
            self.background_poll_interval
        }
    }

    /// The interval that counts.
    pub fn interval_for(&self, active: bool, has_pending: bool) -> (r: u128)
        ensures
            r == self.interval(active, has_pending),
    {
        if has_pending {
            self.pending_retry_interval
        } else if active {
            self.active_poll_interval
        } else {
            self.background_poll_interval
        }
    }

    /// Whether it is time: at once where the wish changed or nothing was
    /// looked at yet, else when the interval is over.
    pub open spec fn is_due(
        self,
        now: u128,
        active: bool,
        has_pending: bool,
        desired_changed: bool,
    ) -> bool {
        desired_changed || match self.last_poll {
            None => true,
            Some(last_poll) => since(now, last_poll) >= self.interval(active, has_pending),
        }
    }

    /// Whether it is time to look at the devices.
    pub fn should_poll(
        &self,
        now: u128,
        active: bool,
        has_pending: bool,
        desired_changed: bool,
    ) -> (r: bool)
        ensures
            r == self.is_due(now, active, has_pending, desired_changed),
    {
        if desired_changed {
            return true;
        }
        match self.last_poll {
            None => true,
            Some(last_poll) => elapsed_since(now, last_poll) >= self.interval_for(
                active,
                has_pending,
            ),
        }
    }

    /// Notes that the devices were looked at.
    pub fn record_poll(&mut self, now: u128)
        ensures
            *final(self) == (DevicePollScheduler { last_poll: Some(now), ..*old(self) }),
    {
        self.last_poll = Some(now);
    }

    /// How long to sleep: the process interval, but no longer than the retry
    /// interval while a change is queued.
    pub fn sleep_interval(&self, process_interval: u128, has_pending: bool) -> (r: u128)
        ensures
            r == if has_pending && self.pending_retry_interval < process_interval {
                self.pending_retry_interval
            } else {
                process_interval
            },
    {
        if has_pending && self.pending_retry_interval < process_interval {
            self.pending_retry_interval
        } else {
            process_interval
        }
    }
}

/// By what a device is known to the watcher.
#[derive(Clone, Debug, PartialEq, Eq, Hash)]
pub struct DeviceKey {
    pub path: String,
    pub vid: u16,
    pub pid: u16,
}

/// What a [`DeviceKey`] says.
pub struct KeyData {
    pub path: Seq<char>,
    pub vid: u16,
    pub pid: u16,
}

impl View for DeviceKey {
    type V = KeyData;

    open spec fn view(&self) -> KeyData {
        KeyData { path: self.path@, vid: self.vid, pid: self.pid }
    }
}

impl TableKey for DeviceKey {
    fn same_key(&self, other: &Self) -> (same: bool) {
        self.vid == other.vid && self.pid == other.pid && same_text(
            self.path.as_str(),
            other.path.as_str(),
        )
    }
}

/// The key of a snapshot.
pub open spec fn watch_key(device: SnapshotData) -> KeyData {
    KeyData { path: device.path, vid: device.vid, pid: device.pid }
}

impl DeviceKey {
    /// The key of a snapshot.
    pub fn from_snapshot(device: &DeviceSnapshot) -> (key: DeviceKey)
        ensures
            key@ == watch_key(device@),
    {
        DeviceKey { path: device.path.clone(), vid: device.vid, pid: device.pid }
    }
}

/// The keys of the devices that are visible.
pub open spec fn visible(devices: Seq<SnapshotData>) -> Set<KeyData> {
    Set::new(|key: KeyData| exists|i: int| 0 <= i < devices.len() && watch_key(#[trigger] devices[i]) == key)
}

/// The keys of all the devices.
fn device_keys(devices: &[DeviceSnapshot]) -> (keys: Vec<DeviceKey>)
    ensures
        key_set(keys@) == visible(snapshot_views(devices@)),
{
    let ghost views = snapshot_views(devices@);
    let mut keys: Vec<DeviceKey> = Vec::new();
    for i in 0..devices.len()
        invariant
            views == snapshot_views(devices@),
            keys@.len() == i,
            forall|j: int| 0 <= j < i ==> (#[trigger] keys@[j])@ == watch_key(views[j]),
    {
        keys.push(DeviceKey::from_snapshot(&devices[i]));
    }
    proof {
        assert forall|key: KeyData| #[trigger] key_set(keys@).contains(key) == visible(
            views,
        ).contains(key) by {
            if is_among(keys@, key) {
                let j = choose|j: int| 0 <= j < keys@.len() && #[trigger] keys@[j]@ == key;
                assert(watch_key(views[j]) == key);
            }
            if visible(views).contains(key) {
                let j = choose|j: int| 0 <= j < views.len() && watch_key(#[trigger] views[j]) == key;
                assert(keys@[j]@ == key);
            }
        }
        assert(key_set(keys@) =~= visible(views));
    }
    keys
}

/// A change of rate that waits for its device.
#[derive(Clone, Debug, PartialEq, Eq)]
pub struct PendingRateChange {
    pub target: PollingRate,
    pub reason: String,
    pub attempts: u32,
    pub last_error: Option<String>,
}

/// What a [`PendingRateChange`] says.
pub struct PendingData {
    pub target: PollingRate,
    pub reason: Seq<char>,
    pub attempts: u32,
    pub last_error: Option<Seq<char>>,
}

impl View for PendingRateChange {
    type V = PendingData;

    open spec fn view(&self) -> PendingData {
        PendingData {
            target: self.target,
            reason: self.reason@,
            attempts: self.attempts,
            last_error: maybe_text(self.last_error),
        }
    }
}

/// The changes of rate that wait for their devices, one for each at most.
pub struct PendingRateQueue {
    pub changes: Table<DeviceKey, PendingRateChange>,
}

impl View for PendingRateQueue {
    type V = Map<KeyData, PendingData>;

    open spec fn view(&self) -> Map<KeyData, PendingData> {
        self.changes@.map_values(|change: PendingRateChange| change@)
    }
}

/// One more than `n`, or `n` where there is no more.
pub open spec fn one_more(n: u32) -> u32 {
    if n < u32::MAX {
        (n + 1) as u32
    } else {
        n
    }
}

/// The queue after a change was asked for, and whether that is news: a change
/// that waits already, with the same reason and the same error, is counted.
pub open spec fn queued(
    changes: Map<KeyData, PendingData>,
    key: KeyData,
    target: PollingRate,
    reason: Seq<char>,
    error: Option<Seq<char>>,
) -> (Map<KeyData, PendingData>, bool) {
    if changes.contains_key(key) && changes[key].target == target && changes[key].reason == reason
        && changes[key].last_error == error {
        (
            changes.insert(
                key,
                PendingData { attempts: one_more(changes[key].attempts), ..changes[key] },
            ),
            false,
        )
    } else {
        (changes.insert(key, PendingData { target, reason, attempts: 1, last_error: error }), true)
    }
}

impl Default for PendingRateQueue {
    /// A queue where nothing waits.
    fn default() -> (queue: PendingRateQueue)
        ensures
            queue.well_formed(),
            queue@ == Map::<KeyData, PendingData>::empty(),
    {
        let queue = PendingRateQueue { changes: Table::new() };
        assert(queue@ =~= Map::<KeyData, PendingData>::empty());
        queue
    }
}

impl PendingRateQueue {
    /// Whether each device has one change at most.
    pub open spec fn well_formed(&self) -> bool {
        self.changes.well_formed()
    }

    /// Whether a change waits.
    pub fn has_pending(&self) -> (r: bool)
        requires
            self.well_formed(),
        ensures
            r == (self@ != Map::<KeyData, PendingData>::empty()),
    {
        proof {
            if self@ =~= Map::<KeyData, PendingData>::empty() {
                assert forall|key: KeyData| !self.changes@.contains_key(key) by {
                    assert(!self@.contains_key(key));
                }
                assert(self.changes@ =~= Map::<KeyData, PendingRateChange>::empty());
            }
            if self.changes@ =~= Map::<KeyData, PendingRateChange>::empty() {
                assert(self@ =~= Map::<KeyData, PendingData>::empty());
            }
        }
        !self.changes.is_empty()
    }

    /// Lets a change wait for its device, and tells whether that is news.
    pub fn queue(
        &mut self,
        device: &DeviceSnapshot,
        target: PollingRate,
        reason: &str,
        error: Option<String>,
    ) -> (news: bool)
        requires
            old(self).well_formed(),
        ensures
            final(self).well_formed(),
            (final(self)@, news) == queued(
                old(self)@,
                watch_key(device@),
                target,
                reason@,
                maybe_text(error),
            ),
    {
        let key = DeviceKey::from_snapshot(device);
        let ghost asked = watch_key(device@);
        let ghost wanted_error = maybe_text(error);
        if let Some(existing) = self.changes.get(&key) {
            if existing.target == target && same_text(existing.reason.as_str(), reason)
                && same_maybe(&existing.last_error, &error) {
                let attempts = if existing.attempts < u32::MAX {
                    existing.attempts + 1
                } else {
                    existing.attempts
                };
                let change = PendingRateChange {
                    target,
                    reason: reason.to_owned(),
                    attempts,
                    last_error: error,
                };
                self.changes.insert(key, change);
                assert(self@ =~= old(self)@.insert(asked, change@));
                return false;
            }
        }
        let change = PendingRateChange {
            target,
            reason: reason.to_owned(),
            attempts: 1,
            last_error: error,
        };
        self.changes.insert(key, change);
        assert(self@ =~= old(self)@.insert(asked, change@));
        true
    }

    /// Takes the change of a device out of the queue.
    pub fn clear(&mut self, device: &DeviceSnapshot) -> (r: Option<PendingRateChange>)
        requires
            old(self).well_formed(),
        ensures
            final(self).well_formed(),
            final(self)@ == old(self)@.remove(watch_key(device@)),
            match r {
                Some(change) => old(self)@.contains_key(watch_key(device@)) && change@
                    == old(self)@[watch_key(device@)],
                None => !old(self)@.contains_key(watch_key(device@)),
            },
    {
        let key = DeviceKey::from_snapshot(device);
        let r = self.changes.remove(&key);
        assert(self@ =~= old(self)@.remove(watch_key(device@)));
        r
    }

    /// Drops the changes of devices that are no longer visible.
    pub fn retain_visible(&mut self, devices: &[DeviceSnapshot])
        requires
            old(self).well_formed(),
        ensures
            final(self).well_formed(),
            final(self)@ == old(self)@.restrict(visible(snapshot_views(devices@))),
    {
        let keys = device_keys(devices);
        self.changes.retain_keys(&keys);
        assert(self@ =~= old(self)@.restrict(visible(snapshot_views(devices@))));
    }
}

/// A battery level at a time.
#[derive(Clone, Copy, Debug, PartialEq, Eq, Structural)]
pub struct BatterySample {
    pub at: u128,
    pub level: u8,
}

/// The samples from the first on that is not older than the window.
pub open spec fn recent(samples: Seq<BatterySample>, now: u128, window: u128) -> Seq<BatterySample>
    decreases samples.len(),
{
    if samples.len() > 0 && since(now, samples[0].at) > window {
        recent(samples.skip(1), now, window)
    } else {
        samples
    }
}

/// The samples with a new one.
pub open spec fn sampled(
    samples: Seq<BatterySample>,
    now: u128,
    level: u8,
    window: u128,
) -> Seq<BatterySample> {
    recent(samples.push(BatterySample { at: now, level }), now, window)
}

/// The battery level of a snapshot.
pub open spec fn level_of(device: SnapshotData) -> Option<u8> {
    match device.battery {
        Some(battery) => battery.level_percent,
        None => None,
    }
}

/// The histories after the first `n` devices were looked at.
pub open spec fn recorded(
    histories: Map<KeyData, Seq<BatterySample>>,
    devices: Seq<SnapshotData>,
    now: u128,
    window: u128,
    n: nat,
) -> Map<KeyData, Seq<BatterySample>>
    decreases n,
{
    if n == 0 {
        histories
    } else {
        let before = recorded(histories, devices, now, window, (n - 1) as nat);
        let key = watch_key(devices[n - 1]);
        match level_of(devices[n - 1]) {
            Some(level) => before.insert(
                key,
                sampled(
                    if before.contains_key(key) {
                        before[key]
                    } else {
                        seq![]
                    },
                    now,
                    level,
                    window,
                ),
            ),
            None => before,
        }
    }
}

/// One number plus another, but no more than 255.
pub open spec fn capped_sum(a: u8, b: u8) -> u8 {
    if a + b > 255 {
        255
    } else {
        (a + b) as u8
    }
}

/// What the levels tell: charging where the last is higher than the first by
/// `min_delta`, discharging where it is as much lower.
pub open spec fn trend(samples: Seq<BatterySample>, min_delta: u8) -> Option<PowerClass> {
    if samples.len() < 2 {
        None
    } else if samples.last().level >= capped_sum(samples[0].level, min_delta) {
        Some(PowerClass::Charging)
    } else if samples[0].level >= capped_sum(samples.last().level, min_delta) {
        Some(PowerClass::Discharging)
    } else {
        None
    }
}

/// The battery levels of the visible devices over a window of time.
pub struct BatteryTrendTracker {
    pub histories: Table<DeviceKey, Vec<BatterySample>>,
    pub window: u128,
    pub min_delta: u8,
}

impl BatteryTrendTracker {
    /// Whether each device has one history at most.
    pub open spec fn well_formed(&self) -> bool {
        self.histories.well_formed()
    }

    /// The histories.
    pub open spec fn samples(&self) -> Map<KeyData, Seq<BatterySample>> {
        self.histories@.map_values(|history: Vec<BatterySample>| history@)
    }

    /// The configured window and step, each with its least value.
    pub fn from_config(config: &PollMonitorConfig) -> (r: BatteryTrendTracker)
        ensures
            r.well_formed(),
            r.samples() == Map::<KeyData, Seq<BatterySample>>::empty(),
            r.window == at_least(config.battery_trend_window_ms, 1_000),
            r.min_delta == if config.battery_trend_min_delta < 1 {
                1
            } else {
                config.battery_trend_min_delta
            },
    {
        let r = BatteryTrendTracker {
            histories: Table::new(),
            window: interval_at_least(config.battery_trend_window_ms, 1_000),
            min_delta: if config.battery_trend_min_delta < 1 {
                1
            } else {
                config.battery_trend_min_delta
            },
        };
        assert(r.samples() =~= Map::<KeyData, Seq<BatterySample>>::empty());
        r
    }

    /// Takes the levels of the visible devices in, and forgets the others.
    pub fn record_at(&mut self, devices: &[DeviceSnapshot], now: u128)
        requires
            old(self).well_formed(),
        ensures
            final(self).well_formed(),
            final(self).window == old(self).window,
            final(self).min_delta == old(self).min_delta,
            final(self).samples() == recorded(
                old(self).samples(),
                snapshot_views(devices@),
                now,
                old(self).window,
                devices@.len(),
            ).restrict(visible(snapshot_views(devices@))),
    {
        let ghost views = snapshot_views(devices@);
        for i in 0..devices.len()
            invariant
                self.well_formed(),
                self.window == old(self).window,
                self.min_delta == old(self).min_delta,
                views == snapshot_views(devices@),
                self.samples() == recorded(
                    old(self).samples(),
                    views,
                    now,
                    old(self).window,
                    i as nat,
                ),
        {
            assert(views[i as int] == devices@[i as int]@);
            let level = match devices[i].battery {
                Some(battery) => battery.level_percent,
                None => None,
            };
            if let Some(level) = level {
                let ghost before = self.samples();
                let key = DeviceKey::from_snapshot(&devices[i]);
                let ghost asked = key@;
                let history = match self.histories.remove(&key) {
                    Some(history) => history,
                    None => Vec::new(),
                };
                assert(history@ =~= if before.contains_key(asked) {
                    before[asked]
                } else {
                    seq![]
                });
                let history = add_sample(history, now, level, self.window);
                self.histories.insert(key, history);
                assert(self.samples() =~= before.insert(asked, history@));
            }
        }
        let keys = device_keys(devices);
        let ghost before = self.samples();
        self.histories.retain_keys(&keys);
        assert(self.samples() =~= before.restrict(visible(views)));
    }

    /// What the levels of a device tell.
    pub fn classify(&self, device: &DeviceSnapshot) -> (r: Option<PowerClass>)
        requires
            self.well_formed(),
        ensures
            r == if self.samples().contains_key(watch_key(device@)) {
                trend(self.samples()[watch_key(device@)], self.min_delta)
            } else {
                None
            },
    {
        let key = DeviceKey::from_snapshot(device);
        let history = match self.histories.get(&key) {
            None => return None,
            Some(history) => history,
        };
        if history.len() < 2 {
            return None;
        }
        let first = history[0].level;
        let last = history[history.len() - 1].level;
        if last >= first.saturating_add(self.min_delta) {
            return Some(PowerClass::Charging);
        }
        if first >= last.saturating_add(self.min_delta) {
            return Some(PowerClass::Discharging);
        }
        None
    }
}

/// The samples with a new one.
fn add_sample(history: Vec<BatterySample>, now: u128, level: u8, window: u128) -> (r: Vec<
    BatterySample,
>)
    ensures
        r@ == sampled(history@, now, level, window),
{
    let mut history = history;
    history.push(BatterySample { at: now, level });
    let ghost whole = history@;
    let mut from: usize = 0;
    assert(whole.skip(0) =~= whole);
    while from < history.len() && elapsed_since(now, history[from].at) > window
        invariant
            from <= history@.len(),
            history@ == whole,
            recent(whole.skip(from as int), now, window) == recent(whole, now, window),
        decreases history@.len() - from,
    {
        assert(whole.skip(from as int).skip(1) =~= whole.skip(from + 1));
        from = from + 1;
    }
    let mut kept: Vec<BatterySample> = Vec::new();
    for i in from..history.len()
        invariant
            from <= history@.len(),
            history@ == whole,
            kept@ == whole.subrange(from as int, i as int),
    {
        kept.push(history[i]);
        assert(kept@ =~= whole.subrange(from as int, i + 1));
    }
    assert(kept@ =~= whole.skip(from as int));
    kept
}

/// What is assumed of a device by the way it is attached.
pub open spec fn assumed_power(connection: ConnectionKind, config: PollMonitorConfig) -> PowerClass {
    match connection {
        ConnectionKind::Wired => if config.assume_wired_is_charging {
            PowerClass::Charging
        } else {
            PowerClass::Unknown
        },
        _ => if config.assume_wireless_is_discharging {
            PowerClass::Discharging
        } else {
            PowerClass::Unknown
        },
    }
}

/// Whether a device charges: what it says itself counts first, then a full
/// battery, then the trend of its levels, then the way it is attached.
pub open spec fn power_class(
    device: SnapshotData,
    config: PollMonitorConfig,
    trend: Option<PowerClass>,
) -> PowerClass {
    match device.battery {
        None => assumed_power(device.connection, config),
        Some(battery) => match battery.is_charging_like() {
            Some(true) => PowerClass::Charging,
            Some(false) => PowerClass::Discharging,
            None => if battery.level_percent == Some(100u8) {
                PowerClass::Charging
            } else {
                or_value(trend, assumed_power(device.connection, config))
            },
        },
    }
}

/// The trend that a tracker knows of a device.
pub open spec fn known_trend(tracker: BatteryTrendTracker, device: SnapshotData) -> Option<
    PowerClass,
> {
    if tracker.samples().contains_key(watch_key(device)) {
        trend(tracker.samples()[watch_key(device)], tracker.min_delta)
    } else {
        None
    }
}

/// Whether a device charges.
pub fn classify_power(
    device: &DeviceSnapshot,
    config: &PollMonitorConfig,
    battery_trends: &BatteryTrendTracker,
) -> (r: PowerClass)
    requires
        battery_trends.well_formed(),
    ensures
        r == power_class(device@, *config, known_trend(*battery_trends, device@)),
{
    if let Some(battery) = device.battery {
        match battery.is_charging_like() {
            Some(true) => return PowerClass::Charging,
            Some(false) => return PowerClass::Discharging,
            None => {},
        }
        if battery.level_percent == Some(100) {
            return PowerClass::Charging;
        }
        if let Some(class) = battery_trends.classify(device) {
            return class;
        }
    }
    match device.connection {
        ConnectionKind::Wired => if config.assume_wired_is_charging {
            PowerClass::Charging
        } else {
            PowerClass::Unknown
        },
        _ => if config.assume_wireless_is_discharging {
            PowerClass::Discharging
        } else {
            PowerClass::Unknown
        },
    }
}

/// The rate for a device, and why: the idle rate where no rule is in force or
/// the device charges; where it cannot be told whether it charges, the active
/// rate only where that is allowed and no other device is known to discharge.
pub open spec fn power_target(
    active: bool,
    active_rate: PollingRate,
    idle_rate: PollingRate,
    class: PowerClass,
    has_known_discharging: bool,
    allow_unknown_active: bool,
) -> (PollingRate, Seq<char>) {
    if !active {
        (idle_rate, "idle"@)
    } else {
        match class {
            PowerClass::Discharging => (active_rate, "active non-charging"@),
            PowerClass::Charging => (idle_rate, "charging idle"@),
            PowerClass::Unknown => if !has_known_discharging && allow_unknown_active {
                (active_rate, "active unknown-power fallback"@)
            } else {
                (idle_rate, "unknown-power idle"@)
            },
        }
    }
}

/// The rate for a device, and why.
pub fn power_target_rate(
    active: Option<&ActiveRule>,
    active_rate: PollingRate,
    idle_rate: PollingRate,
    class: PowerClass,
    has_known_discharging: bool,
    allow_unknown_active: bool,
) -> (r: (PollingRate, &'static str))
    ensures
        (r.0, r.1@) == power_target(
            active is Some,
            active_rate,
            idle_rate,
            class,
            has_known_discharging,
            allow_unknown_active,
        ),
{
    if active.is_none() {
        return (idle_rate, "idle");
    }
    match class {
        PowerClass::Discharging => (active_rate, "active non-charging"),
        PowerClass::Charging => (idle_rate, "charging idle"),
        PowerClass::Unknown => if !has_known_discharging && allow_unknown_active {
            (active_rate, "active unknown-power fallback")
        } else {
            (idle_rate, "unknown-power idle")
        },
    }
}

} // verus!
