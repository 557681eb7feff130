//! What holds over many rounds of the watcher, and over many scans of the
//! devices.
use crate::config::{PollMonitorConfig, PowerPolicy};
use crate::devices::{BatteryStatus, ConnectionKind, PollingRate, ProtocolKind};
use crate::error::ErrorText;
use crate::probing::live_probe_run;
use crate::process_rules::RuleData;
use crate::reading_laws::{law_scanning_orders_nothing, only_read};
use crate::snapshots::{
    cache_steps, visible_keys, CachedDeviceReport, SnapshotData, SnapshotKeyData,
};
use crate::transport::Wire;
use crate::watch::{
    device_targets, power_classes, rate_decision, round_pause, round_start, round_wish,
    write_result, ActionData, WatchData, LEAST_PAUSE_MS,
};
use crate::watcher::{
    at_least, recorded, visible, watch_key, BatterySample, DesiredData, DevicePollScheduler,
    KeyData, PendingData, NANOS_PER_MILLI,
};
use vstd::prelude::*;

verus! {

/// What came of an attempt to write a rate: the rates before and after, or the
/// error.
pub type WriteOutcome = Result<(Option<PollingRate>, Option<PollingRate>), ErrorText>;

/// What a look at all devices meets: the time, the devices as they were
/// scanned, and for each what came of a write and how long it took, where one
/// was decided upon.
pub struct LookData {
    pub now: u128,
    pub scanned: Seq<SnapshotData>,
    pub written: Seq<WriteOutcome>,
    pub elapsed_ms: Seq<u128>,
}

/// What one round of the watcher meets: the time, the rule in force, whether
/// bringing the first device to its rate went well where that was tried, and
/// the look at all devices where one was taken.
pub struct RoundData {
    pub now: u128,
    pub active: Option<RuleData>,
    pub met: bool,
    pub look: LookData,
}

/// All that a watcher keeps from one round to the next.
pub struct StateData {
    pub watch: WatchData,
    pub memory: Map<SnapshotKeyData, CachedDeviceReport>,
    pub samples: Map<KeyData, Seq<BatterySample>>,
}

/// The queue after one device was decided about, and written to where that was
/// decided.
pub open spec fn changes_after_device(
    changes: Map<KeyData, PendingData>,
    dry_run: bool,
    device: SnapshotData,
    target: PollingRate,
    reason: Seq<char>,
    written: WriteOutcome,
    elapsed_ms: u128,
) -> Map<KeyData, PendingData> {
    let decision = rate_decision(changes, dry_run, device, target, reason);
    if decision.write {
        write_result(decision.changes, device, target, reason, written, elapsed_ms).0
    } else {
        decision.changes
    }
}

/// Whether there is nothing to wait for of a device that was decided about: the
/// rate is not offered, or it is there, or it was written and read back.
pub open spec fn device_settled(
    changes: Map<KeyData, PendingData>,
    dry_run: bool,
    device: SnapshotData,
    target: PollingRate,
    reason: Seq<char>,
    written: WriteOutcome,
) -> bool {
    ||| !device.supported_rates.contains(target)
    ||| device.current_rate == Some(target)
    ||| rate_decision(changes, dry_run, device, target, reason).write && (written matches Ok(
        (_, after),
    ) && after == Some(target))
}

/// The queue after the first `m` devices of a look.
pub open spec fn changes_after_devices(
    changes: Map<KeyData, PendingData>,
    dry_run: bool,
    shown: Seq<SnapshotData>,
    targets: Seq<(PollingRate, Seq<char>)>,
    look: LookData,
    m: nat,
) -> Map<KeyData, PendingData>
    decreases m,
{
    if m == 0 {
        changes
    } else {
        let i = m - 1;
        changes_after_device(
            changes_after_devices(changes, dry_run, shown, targets, look, i as nat),
            dry_run,
            shown[i],
            targets[i].0,
            targets[i].1,
            look.written[i],
            look.elapsed_ms[i],
        )
    }
}

/// The least change of a battery that counts as a trend.
pub open spec fn least_delta(config: PollMonitorConfig) -> u8 {
    if config.battery_trend_min_delta < 1 {
        1
    } else {
        config.battery_trend_min_delta
    }
}

impl StateData {
    /// The devices of a look, with what is missing filled in from memory.
    pub open spec fn shown(self, look: LookData) -> Seq<SnapshotData> {
        cache_steps(self.memory, look.scanned, look.scanned.len()).1
    }

    /// The battery levels that are kept after a look.
    pub open spec fn sampled(self, config: PollMonitorConfig, look: LookData) -> Map<
        KeyData,
        Seq<BatterySample>,
    > {
        let shown = self.shown(look);
        recorded(
            self.samples,
            shown,
            look.now,
            at_least(config.battery_trend_window_ms, 1_000),
            shown.len(),
        ).restrict(visible(shown))
    }

    /// The rate for each device of a look, with the reason.
    pub open spec fn targets(
        self,
        config: PollMonitorConfig,
        look: LookData,
        active: Option<RuleData>,
        desired: PollingRate,
    ) -> Seq<(PollingRate, Seq<char>)> {
        device_targets(
            power_classes(
                self.shown(look),
                config,
                self.sampled(config, look),
                least_delta(config),
            ),
            config,
            active,
            desired,
        )
    }

    /// The queue in the middle of a look: what is out of sight was dropped, and
    /// the first `m` devices were decided about.
    pub open spec fn changes_in_look(
        self,
        config: PollMonitorConfig,
        dry_run: bool,
        look: LookData,
        active: Option<RuleData>,
        desired: PollingRate,
        m: nat,
    ) -> Map<KeyData, PendingData> {
        let shown = self.shown(look);
        changes_after_devices(
            self.watch.pending_rate_changes.restrict(visible(shown)),
            dry_run,
            shown,
            self.targets(config, look, active, desired),
            look,
            m,
        )
    }
}

/// A run of the watcher: how it starts, and what its rounds meet.
pub struct RunData {
    pub first: StateData,
    pub config: PollMonitorConfig,
    pub dry_run: bool,
    pub once: bool,
    pub rounds: Seq<RoundData>,
}

impl RunData {
    /// Whether the run starts as a new watcher does.
    pub open spec fn starts_fresh(self) -> bool {
        &&& self.first.watch.last_desired is None
        &&& self.first.watch.pending_restore is None
        &&& self.first.watch.pending_first_device is None
        &&& self.first.watch.pending_rate_changes == Map::<KeyData, PendingData>::empty()
        &&& self.first.watch.device_scheduler.pending_retry_interval == at_least(
            self.config.pending_retry_interval_ms,
            LEAST_PAUSE_MS,
        )
        &&& self.first.memory == Map::<SnapshotKeyData, CachedDeviceReport>::empty()
        &&& self.first.samples == Map::<KeyData, Seq<BatterySample>>::empty()
    }

    /// The watcher before a round, and after the last one.
    pub open spec fn before(self, n: nat) -> StateData
        decreases n,
    {
        if n == 0 {
            self.first
        } else {
            let round = self.rounds[n - 1];
            let state = self.before((n - 1) as nat);
            let (begun, action) = round_start(
                state.watch,
                self.config,
                self.dry_run,
                self.once,
                round.now,
                round.active,
            );
            let polled = DevicePollScheduler {
                last_poll: Some(round.now),
                ..begun.device_scheduler
            };
            match action {
                ActionData::Rest => StateData { watch: begun, ..state },
                ActionData::FirstDevice { .. } => StateData {
                    watch: WatchData {
                        pending_first_device: if round.met {
                            None
                        } else {
                            begun.pending_first_device
                        },
                        device_scheduler: polled,
                        ..begun
                    },
                    ..state
                },
                ActionData::AllDevices => {
                    let shown = state.shown(round.look);
                    StateData {
                        watch: WatchData {
                            pending_rate_changes: state.changes_in_look(
                                self.config,
                                self.dry_run,
                                round.look,
                                round.active,
                                round_wish(state.watch, self.config, round.active).1.rate,
                                shown.len(),
                            ),
                            device_scheduler: polled,
                            ..begun
                        },
                        memory: cache_steps(
                            state.memory,
                            round.look.scanned,
                            round.look.scanned.len(),
                        ).0.restrict(visible_keys(round.look.scanned)),
                        samples: if shown.len() == 0 {
                            state.samples
                        } else {
                            state.sampled(self.config, round.look)
                        },
                    }
                },
            }
        }
    }

    /// The devices that the look of a round shows.
    pub open spec fn shown(self, n: nat) -> Seq<SnapshotData> {
        self.before(n).shown(self.rounds[n as int].look)
    }

    /// The rate for each of them, with the reason.
    pub open spec fn targets(self, n: nat) -> Seq<(PollingRate, Seq<char>)> {
        let round = self.rounds[n as int];
        self.before(n).targets(self.config, round.look, round.active, self.wish(n).rate)
    }

    /// The queue in the middle of the look of a round.
    pub open spec fn changes_in_look(self, n: nat, m: nat) -> Map<KeyData, PendingData> {
        let round = self.rounds[n as int];
        self.before(n).changes_in_look(
            self.config,
            self.dry_run,
            round.look,
            round.active,
            self.wish(n).rate,
            m,
        )
    }

    /// Whether a device of the look of a round is written to.
    pub open spec fn writes(self, n: nat, i: int) -> bool {
        rate_decision(
            self.changes_in_look(n, i as nat),
            self.dry_run,
            self.shown(n)[i],
            self.targets(n)[i].0,
            self.targets(n)[i].1,
        ).write
    }

    /// Whether a look leaves nothing to wait for of one of its devices.
    pub open spec fn settles(self, n: nat, i: int) -> bool {
        device_settled(
            self.changes_in_look(n, i as nat),
            self.dry_run,
            self.shown(n)[i],
            self.targets(n)[i].0,
            self.targets(n)[i].1,
            self.rounds[n as int].look.written[i],
        )
    }

    /// What is done in a round.
    pub open spec fn action(self, n: nat) -> ActionData {
        let round = self.rounds[n as int];
        round_start(
            self.before(n).watch,
            self.config,
            self.dry_run,
            self.once,
            round.now,
            round.active,
        ).1
    }

    /// What is wanted in a round.
    pub open spec fn wish(self, n: nat) -> DesiredData {
        round_wish(self.before(n).watch, self.config, self.rounds[n as int].active).1
    }

    /// Whether something else is wanted than in the round before.
    pub open spec fn changes_at(self, n: nat) -> bool {
        n == 0 || self.wish(n) != self.wish((n - 1) as nat)
    }

    /// Whether the wish of round `k` is still unmet before round `n`: it was
    /// new then, it was wanted in each round since, and no try went well.
    pub open spec fn unmet_since(self, k: nat, n: nat) -> bool {
        &&& k < n
        &&& self.changes_at(k)
        &&& forall|j: nat| k < j < n ==> !#[trigger] self.changes_at(j)
        &&& forall|j: nat|
            k <= j < n && #[trigger] self.action(j) is FirstDevice ==> !self.rounds[j as int].met
    }
}

proof fn lemma_last_wish(run: RunData, n: nat)
    ensures
        n > 0 ==> run.before(n).watch.last_desired == Some(run.wish((n - 1) as nat)),
{
}

/// What waits after a round in first-device mode.
proof fn lemma_wish_after_round(run: RunData, n: nat)
    requires
        run.config.power_policy == PowerPolicy::FirstDevice,
    ensures
        run.before(n + 1).watch.pending_first_device == if run.action(n) is FirstDevice
            && run.rounds[n as int].met {
            None
        } else if run.before(n).watch.last_desired != Some(run.wish(n)) {
            Some(run.wish(n))
        } else {
            run.before(n).watch.pending_first_device
        },
{
}

proof fn lemma_still_unmet(run: RunData, k: nat, n: nat)
    requires
        run.unmet_since(k, n),
        !run.changes_at(n),
        run.action(n) is FirstDevice ==> !run.rounds[n as int].met,
    ensures
        run.unmet_since(k, n + 1),
{
}

/// A wish that waits in first-device mode has been unmet since it was new.
proof fn lemma_waiting_wish(run: RunData, n: nat)
    requires
        run.starts_fresh(),
        run.config.power_policy == PowerPolicy::FirstDevice,
    ensures
        run.before(n).watch.pending_first_device matches Some(wish) ==> exists|k: nat| #[trigger]
            run.unmet_since(k, n) && run.wish(k) == wish,
    decreases n,
{
    if n > 0 {
        let m = (n - 1) as nat;
        lemma_waiting_wish(run, m);
        lemma_last_wish(run, m);
        lemma_wish_after_round(run, m);
        if let Some(wish) = run.before(n).watch.pending_first_device {
            if run.changes_at(m) {
                assert(run.unmet_since(m, n));
            } else {
                let k = choose|k: nat| #[trigger] run.unmet_since(k, m) && run.wish(k) == wish;
                lemma_still_unmet(run, k, m);
            }
        }
    }
}

/// In first-device mode no other device is ever looked at. A rate is ordered as
/// soon as it is wanted, and again only while it is still wanted and no try has
/// gone well; it is never written in a dry run.
pub proof fn law_run_of_first_device(run: RunData, n: nat)
    requires
        run.starts_fresh(),
        run.config.power_policy == PowerPolicy::FirstDevice,
        n < run.rounds.len(),
    ensures
        match run.action(n) {
            ActionData::Rest => !run.changes_at(n),
            ActionData::FirstDevice { desired, write } => {
                &&& write == !run.dry_run
                &&& desired == run.wish(n)
                &&& run.changes_at(n) || exists|k: nat| #[trigger]
                    run.unmet_since(k, n) && run.wish(k) == desired
            },
            ActionData::AllDevices => false,
        },
{
    lemma_waiting_wish(run, n);
    lemma_last_wish(run, n);
    if let ActionData::FirstDevice { desired, write } = run.action(n) {
        if !run.changes_at(n) {
            let k = choose|k: nat| #[trigger] run.unmet_since(k, n) && run.wish(k) == desired;
            lemma_same_wish(run, k, n);
        }
    }
}

/// Rounds without a change want the same.
proof fn lemma_same_wish(run: RunData, k: nat, n: nat)
    requires
        k <= n,
        forall|j: nat| k < j <= n ==> !#[trigger] run.changes_at(j),
    ensures
        run.wish(k) == run.wish(n),
    decreases n - k,
{
    if k < n {
        lemma_same_wish(run, k, (n - 1) as nat);
        assert(!run.changes_at(n));
    }
}

/// In the other mode the first device is never singled out, and a changed wish
/// is followed by a look at all devices at once.
pub proof fn law_run_of_all_devices(run: RunData, n: nat)
    requires
        run.config.power_policy == PowerPolicy::ActiveNonCharging,
        n < run.rounds.len(),
    ensures
        !(run.action(n) is FirstDevice),
        run.changes_at(n) && run.starts_fresh() ==> run.action(n) is AllDevices,
{
    lemma_last_wish(run, n);
}

/// A dry run orders nothing from any device: neither the first device nor any
/// device of a look is written to, whatever waits, and all that a scan sends to
/// a device are questions. Nothing ever waits in it.
pub proof fn law_dry_run_orders_nothing(
    run: RunData,
    n: nat,
    i: int,
    wire: Wire,
    protocol: ProtocolKind,
    connection: ConnectionKind,
)
    requires
        run.dry_run,
        n < run.rounds.len(),
    ensures
        run.action(n) matches ActionData::FirstDevice { write, .. } ==> !write,
        !run.writes(n, i),
        only_read(wire, live_probe_run(wire, protocol, connection).wire),
        run.starts_fresh() ==> run.before(n).watch.pending_rate_changes == Map::<
            KeyData,
            PendingData,
        >::empty(),
{
    law_scanning_orders_nothing(wire, protocol, connection);
    if run.starts_fresh() {
        lemma_dry_run_queues_nothing(run, n);
    }
}

proof fn lemma_dry_run_queues_nothing(run: RunData, n: nat)
    requires
        run.dry_run,
        run.starts_fresh(),
    ensures
        run.before(n).watch.pending_rate_changes == Map::<KeyData, PendingData>::empty(),
    decreases n,
{
    if n > 0 {
        let m = (n - 1) as nat;
        lemma_dry_run_queues_nothing(run, m);
        if run.action(m) is AllDevices {
            assert(run.changes_in_look(m, 0) =~= Map::<KeyData, PendingData>::empty());
            lemma_dry_look_queues_nothing(
                run.shown(m),
                run.targets(m),
                run.rounds[m as int].look,
                run.shown(m).len(),
            );
        }
    }
}

proof fn lemma_dry_look_queues_nothing(
    shown: Seq<SnapshotData>,
    targets: Seq<(PollingRate, Seq<char>)>,
    look: LookData,
    m: nat,
)
    ensures
        changes_after_devices(Map::empty(), true, shown, targets, look, m) == Map::<
            KeyData,
            PendingData,
        >::empty(),
    decreases m,
{
    if m > 0 {
        lemma_dry_look_queues_nothing(shown, targets, look, (m - 1) as nat);
        assert(changes_after_devices(Map::empty(), true, shown, targets, look, m) =~= Map::<
            KeyData,
            PendingData,
        >::empty());
    }
}

/// Whether a device of a look is settled when its turn comes.
spec fn settled_at(
    changes: Map<KeyData, PendingData>,
    dry_run: bool,
    shown: Seq<SnapshotData>,
    targets: Seq<(PollingRate, Seq<char>)>,
    look: LookData,
    i: int,
) -> bool {
    device_settled(
        changes_after_devices(changes, dry_run, shown, targets, look, i as nat),
        dry_run,
        shown[i],
        targets[i].0,
        targets[i].1,
        look.written[i],
    )
}

/// What one device does to the queue: its own change alone is touched, and it
/// is gone just where the device is settled.
proof fn lemma_changes_after_device(
    changes: Map<KeyData, PendingData>,
    dry_run: bool,
    device: SnapshotData,
    target: PollingRate,
    reason: Seq<char>,
    written: WriteOutcome,
    elapsed_ms: u128,
    key: KeyData,
)
    ensures
        ({
            let after = changes_after_device(
                changes,
                dry_run,
                device,
                target,
                reason,
                written,
                elapsed_ms,
            );
            let settled = device_settled(changes, dry_run, device, target, reason, written);
            if watch_key(device) != key {
                &&& after.contains_key(key) == changes.contains_key(key)
                &&& changes.contains_key(key) ==> after[key] == changes[key]
            } else if settled {
                !after.contains_key(key)
            } else if dry_run {
                after == changes
            } else {
                &&& after.contains_key(key)
                &&& after[key].target == target
                &&& after[key].reason == reason
            }
        }),
{
}

/// A change that waits goes on waiting until its device is out of sight or has
/// nothing more to wait for. It is lost in no other way.
pub proof fn law_waiting_changes_stay(run: RunData, n: nat, key: KeyData)
    requires
        n < run.rounds.len(),
        run.before(n).watch.pending_rate_changes.contains_key(key),
    ensures
        ({
            ||| run.before(n + 1).watch.pending_rate_changes.contains_key(key)
            ||| {
                &&& run.action(n) is AllDevices
                &&& visible(run.shown(n)).contains(key) ==> exists|i: int|
                    0 <= i < run.shown(n).len() && watch_key(#[trigger] run.shown(n)[i]) == key
                        && run.settles(n, i)
            }
        }),
        !(run.action(n) is AllDevices) ==> run.before(n + 1).watch.pending_rate_changes
            == run.before(n).watch.pending_rate_changes,
{
    if run.action(n) is AllDevices && visible(run.shown(n)).contains(key) {
        let look = run.rounds[n as int].look;
        let kept = run.before(n).watch.pending_rate_changes.restrict(visible(run.shown(n)));
        lemma_waits_in_look(
            kept,
            run.dry_run,
            run.shown(n),
            run.targets(n),
            look,
            run.shown(n).len(),
            key,
        );
        if !run.before(n + 1).watch.pending_rate_changes.contains_key(key) {
            let i = choose|i: int|
                0 <= i < run.shown(n).len() && watch_key(#[trigger] run.shown(n)[i]) == key
                    && settled_at(kept, run.dry_run, run.shown(n), run.targets(n), look, i);
            assert(run.settles(n, i));
        }
    }
}

proof fn lemma_waits_in_look(
    changes: Map<KeyData, PendingData>,
    dry_run: bool,
    shown: Seq<SnapshotData>,
    targets: Seq<(PollingRate, Seq<char>)>,
    look: LookData,
    m: nat,
    key: KeyData,
)
    requires
        changes.contains_key(key),
        m <= shown.len(),
    ensures
        changes_after_devices(changes, dry_run, shown, targets, look, m).contains_key(key)
            || exists|i: int|
            0 <= i < m && watch_key(#[trigger] shown[i]) == key && settled_at(
                changes,
                dry_run,
                shown,
                targets,
                look,
                i,
            ),
    decreases m,
{
    if m > 0 {
        let i = m - 1;
        lemma_waits_in_look(changes, dry_run, shown, targets, look, i as nat, key);
        lemma_changes_after_device(
            changes_after_devices(changes, dry_run, shown, targets, look, i as nat),
            dry_run,
            shown[i],
            targets[i].0,
            targets[i].1,
            look.written[i],
            look.elapsed_ms[i],
            key,
        );
    }
}

/// After a look, what waits is what its devices should have now and do not
/// have yet: each change that waits is that of a device in sight, with the rate
/// and the reason that the look gave it.
pub proof fn law_waiting_changes_are_wanted(run: RunData, n: nat, key: KeyData)
    requires
        !run.dry_run,
        n < run.rounds.len(),
        run.action(n) is AllDevices,
        run.before(n + 1).watch.pending_rate_changes.contains_key(key),
    ensures
        exists|i: int|
            0 <= i < run.shown(n).len() && watch_key(#[trigger] run.shown(n)[i]) == key
                && !run.settles(n, i)
                && run.before(n + 1).watch.pending_rate_changes[key].target == run.targets(n)[i].0
                && run.before(n + 1).watch.pending_rate_changes[key].reason == run.targets(n)[i].1,
{
    let look = run.rounds[n as int].look;
    let shown = run.shown(n);
    let kept = run.before(n).watch.pending_rate_changes.restrict(visible(shown));
    lemma_wanted_in_look(kept, shown, run.targets(n), look, shown.len(), key);
    assert(visible(shown).contains(key));
    let seen = choose|i: int| 0 <= i < shown.len() && watch_key(#[trigger] shown[i]) == key;
    let targets = run.targets(n);
    let after = run.before(n + 1).watch.pending_rate_changes;
    let i = choose|i: int| #[trigger]
        wanted_at(kept, shown, targets, look, after, key, shown.len(), i);
    assert(watch_key(shown[seen]) == key);
    assert(watch_key(run.shown(n)[i]) == key && !run.settles(n, i));
}

/// Whether a device before place `m` of a look left the change that waits.
spec fn wanted_at(
    changes: Map<KeyData, PendingData>,
    shown: Seq<SnapshotData>,
    targets: Seq<(PollingRate, Seq<char>)>,
    look: LookData,
    after: Map<KeyData, PendingData>,
    key: KeyData,
    m: nat,
    i: int,
) -> bool {
    &&& 0 <= i < m
    &&& watch_key(shown[i]) == key
    &&& !settled_at(changes, false, shown, targets, look, i)
    &&& after[key].target == targets[i].0
    &&& after[key].reason == targets[i].1
}

proof fn lemma_wanted_in_look(
    changes: Map<KeyData, PendingData>,
    shown: Seq<SnapshotData>,
    targets: Seq<(PollingRate, Seq<char>)>,
    look: LookData,
    m: nat,
    key: KeyData,
)
    requires
        m <= shown.len(),
        forall|k: KeyData| #[trigger] changes.contains_key(k) ==> visible(shown).contains(k),
        changes_after_devices(changes, false, shown, targets, look, m).contains_key(key),
    ensures
        visible(shown).contains(key),
        (forall|i: int| 0 <= i < m ==> watch_key(#[trigger] shown[i]) != key) || exists|i: int|
            #[trigger] wanted_at(
                changes,
                shown,
                targets,
                look,
                changes_after_devices(changes, false, shown, targets, look, m),
                key,
                m,
                i,
            ),
    decreases m,
{
    if m > 0 {
        let i = m - 1;
        let before = changes_after_devices(changes, false, shown, targets, look, i as nat);
        let after = changes_after_devices(changes, false, shown, targets, look, m);
        lemma_changes_after_device(
            before,
            false,
            shown[i],
            targets[i].0,
            targets[i].1,
            look.written[i],
            look.elapsed_ms[i],
            key,
        );
        if watch_key(shown[i]) == key {
            assert(wanted_at(changes, shown, targets, look, after, key, m, i));
        } else {
            lemma_wanted_in_look(changes, shown, targets, look, i as nat, key);
            if exists|j: int| #[trigger]
                wanted_at(changes, shown, targets, look, before, key, i as nat, j) {
                let j = choose|j: int| #[trigger]
                    wanted_at(changes, shown, targets, look, before, key, i as nat, j);
                assert(wanted_at(changes, shown, targets, look, after, key, m, j));
            }
        }
    }
}

/// A run that wants one round ends after it; in any other, each round is at
/// least 250 milliseconds after the one before.
pub proof fn law_rounds_are_apart(run: RunData, n: nat)
    requires
        run.starts_fresh(),
    ensures
        match round_pause(run.before(n).watch, run.config, run.once) {
            None => run.once,
            Some(pause) => !run.once && pause >= 250 * NANOS_PER_MILLI,
        },
{
    lemma_retry_interval_stays(run, n);
}

proof fn lemma_retry_interval_stays(run: RunData, n: nat)
    ensures
        run.before(n).watch.device_scheduler.pending_retry_interval
            == run.first.watch.device_scheduler.pending_retry_interval,
    decreases n,
{
    if n > 0 {
        lemma_retry_interval_stays(run, (n - 1) as nat);
    }
}

/// The memory of snapshots after the first `n` scans, where it was empty
/// before them.
pub open spec fn memory_after(scans: Seq<Seq<SnapshotData>>, n: nat) -> Map<
    SnapshotKeyData,
    CachedDeviceReport,
>
    decreases n,
{
    if n == 0 {
        Map::empty()
    } else {
        let scan = scans[n - 1];
        cache_steps(memory_after(scans, (n - 1) as nat), scan, scan.len()).0.restrict(
            visible_keys(scan),
        )
    }
}

/// The last live rate of a device before place `i` of scan `n`; none where
/// there was none since the device was last out of sight for a scan.
pub open spec fn last_live_rate(
    scans: Seq<Seq<SnapshotData>>,
    n: nat,
    i: nat,
    key: SnapshotKeyData,
) -> Option<PollingRate>
    decreases n, i,
{
    if i > 0 {
        let device = scans[n as int][i - 1];
        if device.key() == key && device.current_rate is Some && !device.cached_rate {
            device.current_rate
        } else {
            last_live_rate(scans, n, (i - 1) as nat, key)
        }
    } else if n > 0 && visible_keys(scans[n - 1]).contains(key) {
        last_live_rate(scans, (n - 1) as nat, scans[n - 1].len(), key)
    } else {
        None
    }
}

/// The last live battery of a device before place `i` of scan `n`; none where
/// there was none since the device was last out of sight for a scan.
pub open spec fn last_live_battery(
    scans: Seq<Seq<SnapshotData>>,
    n: nat,
    i: nat,
    key: SnapshotKeyData,
) -> Option<BatteryStatus>
    decreases n, i,
{
    if i > 0 {
        let device = scans[n as int][i - 1];
        if device.key() == key && device.battery is Some && !device.cached_battery {
            device.battery
        } else {
            last_live_battery(scans, n, (i - 1) as nat, key)
        }
    } else if n > 0 && visible_keys(scans[n - 1]).contains(key) {
        last_live_battery(scans, (n - 1) as nat, scans[n - 1].len(), key)
    } else {
        None
    }
}

/// A snapshot with a missing rate and battery filled in and marked, where there
/// is something to fill in.
pub open spec fn completed(
    device: SnapshotData,
    rate: Option<PollingRate>,
    battery: Option<BatteryStatus>,
) -> SnapshotData {
    SnapshotData {
        current_rate: if device.current_rate is None {
            rate
        } else {
            device.current_rate
        },
        cached_rate: if device.current_rate is None && rate is Some {
            true
        } else {
            device.cached_rate
        },
        battery: if device.battery is None {
            battery
        } else {
            device.battery
        },
        cached_battery: if device.battery is None && battery is Some {
            true
        } else {
            device.cached_battery
        },
        ..device
    }
}

/// What the memory holds of each device in the middle of a scan.
proof fn lemma_memory_is_of_last_live(
    scans: Seq<Seq<SnapshotData>>,
    n: nat,
    i: nat,
    key: SnapshotKeyData,
)
    ensures
        ({
            let memory = cache_steps(memory_after(scans, n), scans[n as int], i).0;
            if memory.contains_key(key) {
                memory[key] == (CachedDeviceReport {
                    current_rate: last_live_rate(scans, n, i, key),
                    battery: last_live_battery(scans, n, i, key),
                })
            } else {
                last_live_rate(scans, n, i, key) is None && last_live_battery(scans, n, i, key)
                    is None
            }
        }),
    decreases n, i,
{
    if i > 0 {
        lemma_memory_is_of_last_live(scans, n, (i - 1) as nat, key);
    } else if n > 0 {
        lemma_memory_is_of_last_live(scans, (n - 1) as nat, scans[n - 1].len(), key);
    }
}

/// Over any scans in a row, a device is shown with its own rate and battery
/// where it tells them. Where it does not, it is shown with the last live ones
/// that were seen of it, marked as from memory, or with none where there were
/// none. A device that one scan does not show is forgotten. All else of the
/// list is left as it is.
pub proof fn law_scans_are_completed_from_memory(scans: Seq<Seq<SnapshotData>>, n: nat)
    requires
        n < scans.len(),
    ensures
        ({
            let scan = scans[n as int];
            let shown = cache_steps(memory_after(scans, n), scan, scan.len()).1;
            &&& shown.len() == scan.len()
            &&& forall|i: int|
                0 <= i < scan.len() ==> #[trigger] shown[i] == completed(
                    scan[i],
                    last_live_rate(scans, n, i as nat, scan[i].key()),
                    last_live_battery(scans, n, i as nat, scan[i].key()),
                )
        }),
{
    lemma_scan_is_completed(scans, n, scans[n as int].len());
}

proof fn lemma_scan_is_completed(scans: Seq<Seq<SnapshotData>>, n: nat, m: nat)
    requires
        n < scans.len(),
        m <= scans[n as int].len(),
    ensures
        ({
            let scan = scans[n as int];
            let shown = cache_steps(memory_after(scans, n), scan, m).1;
            &&& shown.len() == m
            &&& forall|i: int|
                0 <= i < m ==> #[trigger] shown[i] == completed(
                    scan[i],
                    last_live_rate(scans, n, i as nat, scan[i].key()),
                    last_live_battery(scans, n, i as nat, scan[i].key()),
                )
        }),
    decreases m,
{
    if m > 0 {
        let l = (m - 1) as nat;
        lemma_scan_is_completed(scans, n, l);
        lemma_memory_is_of_last_live(scans, n, l, scans[n as int][l as int].key());
    }
}

/// A device that a scan does not show has no last live values after it.
pub proof fn law_absent_devices_are_forgotten(
    scans: Seq<Seq<SnapshotData>>,
    n: nat,
    key: SnapshotKeyData,
)
    requires
        0 < n <= scans.len(),
        !visible_keys(scans[n - 1]).contains(key),
    ensures
        !memory_after(scans, n).contains_key(key),
        last_live_rate(scans, n, 0, key) is None,
        last_live_battery(scans, n, 0, key) is None,
{
}

} // verus!
