//! What a scan saw of each device, and what is remembered from scan to scan.
use crate::devices::{
    format_supported_rates, rate_numbers, BatteryStatus, ConnectionKind, PollingRate, ProtocolKind,
};
use crate::table::{is_among, key_set, Table, TableKey};
use crate::text::{copy_maybe, joined, maybe_text};
use vstd::prelude::*;

verus! {

/// What a scan saw of one device.
#[derive(Clone, Debug)]
pub struct DeviceSnapshot {
    pub path: String,
    pub vid: u16,
    pub pid: u16,
    pub product_name: Option<String>,
    pub vendor_name: &'static str,
    pub model_name: &'static str,
    pub connection: ConnectionKind,
    pub protocol: ProtocolKind,
    pub supported_rates: Vec<PollingRate>,
    pub current_rate: Option<PollingRate>,
    pub battery: Option<BatteryStatus>,
    pub cached_rate: bool,
    pub cached_battery: bool,
    pub battery_error: Option<String>,
    pub read_error: Option<String>,
}

/// What a [`DeviceSnapshot`] says.
#[verifier::ext_equal]
pub struct SnapshotData {
    pub path: Seq<char>,
    pub vid: u16,
    pub pid: u16,
    pub product_name: Option<Seq<char>>,
    pub vendor_name: Seq<char>,
    pub model_name: Seq<char>,
    pub connection: ConnectionKind,
    pub protocol: ProtocolKind,
    pub supported_rates: Seq<PollingRate>,
    pub current_rate: Option<PollingRate>,
    pub battery: Option<BatteryStatus>,
    pub cached_rate: bool,
    pub cached_battery: bool,
    pub battery_error: Option<Seq<char>>,
    pub read_error: Option<Seq<char>>,
}

impl View for DeviceSnapshot {
    type V = SnapshotData;

    open spec fn view(&self) -> SnapshotData {
        SnapshotData {
            path: self.path@,
            vid: self.vid,
            pid: self.pid,
            product_name: maybe_text(self.product_name),
            vendor_name: self.vendor_name@,
            model_name: self.model_name@,
            connection: self.connection,
            protocol: self.protocol,
            supported_rates: self.supported_rates@,
            current_rate: self.current_rate,
            battery: self.battery,
            cached_rate: self.cached_rate,
            cached_battery: self.cached_battery,
            battery_error: maybe_text(self.battery_error),
            read_error: maybe_text(self.read_error),
        }
    }
}

/// What each of `snapshots` says.
pub open spec fn snapshot_views(snapshots: Seq<DeviceSnapshot>) -> Seq<SnapshotData> {
    snapshots.map_values(|s: DeviceSnapshot| s@)
}

impl SnapshotData {
    /// Whether the two are snapshots of the same device.
    pub open spec fn same_device(self, other: SnapshotData) -> bool {
        self.key() == other.key()
    }

    /// By what a device is found again in the next scan.
    pub open spec fn key(self) -> SnapshotKeyData {
        SnapshotKeyData { vid: self.vid, pid: self.pid, connection: self.connection }
    }

    /// The rates on offer, in words.
    pub open spec fn rates_text(self) -> Seq<char> {
        joined(rate_numbers(self.supported_rates), ", "@)
    }

    /// The battery in words.
    pub open spec fn battery_text(self) -> Seq<char> {
        match (self.battery, self.battery_error) {
            (Some(battery), _) => if self.cached_battery {
                battery.spec_text() + " (cached)"@
            } else {
                battery.spec_text()
            },
            (None, Some(_)) => "battery read error"@,
            (None, None) => "unknown"@,
        }
    }
}

impl DeviceSnapshot {
    /// The rates on offer, in words.
    pub fn supported_rates_text(&self) -> (s: String)
        ensures
            s@ == self@.rates_text(),
    {
        format_supported_rates(&self.supported_rates)
    }

    /// The battery in words.
    pub fn battery_text(&self) -> (s: String)
        ensures
            s@ == self@.battery_text(),
    {
        match self.battery {
            Some(battery) => {
                let mut text = battery.text();
                if self.cached_battery {
                    text.append(" (cached)");
                }
                text
            },
            None => if self.battery_error.is_some() {
                "battery read error".to_owned()
            } else {
                "unknown".to_owned()
            },
        }
    }

    /// The same snapshot once more.
    pub fn duplicate(&self) -> (r: DeviceSnapshot)
        ensures
            r@ == self@,
    {
        DeviceSnapshot {
            path: self.path.clone(),
            vid: self.vid,
            pid: self.pid,
            product_name: copy_maybe(&self.product_name),
            vendor_name: self.vendor_name,
            model_name: self.model_name,
            connection: self.connection,
            protocol: self.protocol,
            supported_rates: copy_rates(&self.supported_rates),
            current_rate: self.current_rate,
            battery: self.battery,
            cached_rate: self.cached_rate,
            cached_battery: self.cached_battery,
            battery_error: copy_maybe(&self.battery_error),
            read_error: copy_maybe(&self.read_error),
        }
    }
}

/// The same rates once more.
pub fn copy_rates(rates: &[PollingRate]) -> (r: Vec<PollingRate>)
    ensures
        r@ == rates@,
{
    let mut r: Vec<PollingRate> = Vec::new();
    for i in 0..rates.len()
        invariant
            r@ == rates@.take(i as int),
    {
        r.push(rates[i]);
        assert(rates@.take(i + 1) =~= rates@.take(i as int).push(rates[i as int]));
    }
    assert(rates@.take(rates@.len() as int) =~= rates@);
    r
}

/// A second snapshot of one device taken into the first.
pub open spec fn merged_one(existing: SnapshotData, new: SnapshotData) -> SnapshotData {
    if existing.current_rate is None && new.current_rate is Some {
        new
    } else if existing.current_rate is None && existing.read_error is None {
        SnapshotData {
            read_error: new.read_error,
            battery_error: new.battery_error,
            ..existing
        }
    } else if existing.battery is None && new.battery is Some {
        SnapshotData {
            battery: new.battery,
            battery_error: None,
            read_error: new.read_error,
            ..existing
        }
    } else if existing.battery is None && existing.battery_error is None {
        SnapshotData { battery_error: new.battery_error, ..existing }
    } else {
        existing
    }
}

/// The list with one more snapshot: taken into the first of the same device,
/// or put at the end where there is none.
pub open spec fn merged(devices: Seq<SnapshotData>, new: SnapshotData) -> Seq<SnapshotData>
    decreases devices.len(),
{
    if devices.len() == 0 {
        seq![new]
    } else if devices[0].same_device(new) {
        devices.update(0, merged_one(devices[0], new))
    } else {
        seq![devices[0]] + merged(devices.skip(1), new)
    }
}

/// Where the first snapshot of the same device stands, `merged` changes that
/// one alone.
proof fn lemma_merged(devices: Seq<SnapshotData>, new: SnapshotData, i: int)
    requires
        0 <= i <= devices.len(),
        forall|j: int| 0 <= j < i ==> !(#[trigger] devices[j]).same_device(new),
        i < devices.len() ==> devices[i].same_device(new),
    ensures
        merged(devices, new) == if i < devices.len() {
            devices.update(i, merged_one(devices[i], new))
        } else {
            devices.push(new)
        },
    decreases devices.len(),
{
    if devices.len() > 0 && i > 0 {
        let rest = devices.skip(1);
        assert forall|j: int| 0 <= j < i - 1 implies !(#[trigger] rest[j]).same_device(new) by {
            assert(rest[j] == devices[j + 1]);
        }
        lemma_merged(rest, new, i - 1);
        assert(!devices[0].same_device(new));
        if i < devices.len() {
            assert(seq![devices[0]] + rest.update(i - 1, merged_one(devices[i], new))
                =~= devices.update(i, merged_one(devices[i], new)));
        } else {
            assert(seq![devices[0]] + rest.push(new) =~= devices.push(new));
        }
    } else if devices.len() == 0 {
        assert(devices.push(new) =~= seq![new]);
    }
}

/// Takes one more snapshot into the list.
pub fn merge_snapshot(devices: &mut Vec<DeviceSnapshot>, snapshot: DeviceSnapshot)
    ensures
        snapshot_views(final(devices)@) == merged(snapshot_views(old(devices)@), snapshot@),
{
    let ghost before = snapshot_views(devices@);
    let mut i: usize = 0;
    while i < devices.len() && !(devices[i].vid == snapshot.vid && devices[i].pid == snapshot.pid
        && devices[i].connection == snapshot.connection)
        invariant
            i <= devices@.len(),
            *devices == *old(devices),
            before == snapshot_views(devices@),
            forall|j: int| 0 <= j < i ==> !(#[trigger] before[j]).same_device(snapshot@),
        decreases devices@.len() - i,
    {
        assert(!before[i as int].same_device(snapshot@));
        i = i + 1;
    }
    proof {
        if i < devices@.len() {
            assert(before[i as int] == devices@[i as int]@);
        }
        lemma_merged(before, snapshot@, i as int);
    }
    let ghost new = snapshot@;
    if i == devices.len() {
        devices.push(snapshot);
        assert(snapshot_views(devices@) =~= before.push(new));
        return;
    }
    if devices[i].current_rate.is_none() && snapshot.current_rate.is_some() {
        devices[i] = snapshot;
    } else if devices[i].current_rate.is_none() && devices[i].read_error.is_none() {
        devices[i].read_error = snapshot.read_error;
        devices[i].battery_error = snapshot.battery_error;
    } else if devices[i].battery.is_none() && snapshot.battery.is_some() {
        devices[i].battery = snapshot.battery;
        devices[i].battery_error = None;
        devices[i].read_error = snapshot.read_error;
    } else if devices[i].battery.is_none() && devices[i].battery_error.is_none() {
        devices[i].battery_error = snapshot.battery_error;
    }
    assert(devices@[i as int]@ == merged_one(before[i as int], new));
    assert(snapshot_views(devices@) =~= before.update(i as int, merged_one(before[i as int], new)));
}

/// By what a device is found again in the next scan.
#[derive(Clone, Copy, Debug, PartialEq, Eq)]
pub struct DeviceSnapshotKey {
    pub vid: u16,
    pub pid: u16,
    pub connection: ConnectionKind,
}

/// What a [`DeviceSnapshotKey`] says.
pub struct SnapshotKeyData {
    pub vid: u16,
    pub pid: u16,
    pub connection: ConnectionKind,
}

impl View for DeviceSnapshotKey {
    type V = SnapshotKeyData;

    open spec fn view(&self) -> SnapshotKeyData {
        SnapshotKeyData { vid: self.vid, pid: self.pid, connection: self.connection }
    }
}

impl TableKey for DeviceSnapshotKey {
    fn same_key(&self, other: &Self) -> (same: bool) {
        self.vid == other.vid && self.pid == other.pid && self.connection == other.connection
    }
}

impl DeviceSnapshotKey {
    /// The key of a snapshot.
    pub fn from_snapshot(device: &DeviceSnapshot) -> (key: DeviceSnapshotKey)
        ensures
            key@ == device@.key(),
    {
        DeviceSnapshotKey { vid: device.vid, pid: device.pid, connection: device.connection }
    }
}

/// The last live values of one device.
#[derive(Clone, Copy, Debug)]
pub struct CachedDeviceReport {
    pub current_rate: Option<PollingRate>,
    pub battery: Option<BatteryStatus>,
}

/// What is remembered of a device: nothing where it was not seen before.
pub open spec fn remembered(
    entries: Map<SnapshotKeyData, CachedDeviceReport>,
    key: SnapshotKeyData,
) -> CachedDeviceReport {
    if entries.contains_key(key) {
        entries[key]
    } else {
        CachedDeviceReport { current_rate: None, battery: None }
    }
}

/// A snapshot with what it lacks filled in from memory and marked as such.
pub open spec fn filled_in(device: SnapshotData, memory: CachedDeviceReport) -> SnapshotData {
    let use_rate = device.current_rate is None && memory.current_rate is Some;
    let use_battery = device.battery is None && memory.battery is Some;
    SnapshotData {
        current_rate: if use_rate {
            memory.current_rate
        } else {
            device.current_rate
        },
        cached_rate: device.cached_rate || use_rate,
        battery: if use_battery {
            memory.battery
        } else {
            device.battery
        },
        cached_battery: device.cached_battery || use_battery,
        ..device
    }
}

/// What is remembered after a snapshot: its live values, and the old ones
/// where it has none.
pub open spec fn refreshed(memory: CachedDeviceReport, device: SnapshotData) -> CachedDeviceReport {
    CachedDeviceReport {
        current_rate: if device.current_rate is Some && !device.cached_rate {
            device.current_rate
        } else {
            memory.current_rate
        },
        battery: if device.battery is Some && !device.cached_battery {
            device.battery
        } else {
            memory.battery
        },
    }
}

/// The memory and the filled-in snapshots after the first `n` snapshots.
pub open spec fn cache_steps(
    entries: Map<SnapshotKeyData, CachedDeviceReport>,
    devices: Seq<SnapshotData>,
    n: nat,
) -> (Map<SnapshotKeyData, CachedDeviceReport>, Seq<SnapshotData>)
    decreases n,
{
    if n == 0 {
        (entries, seq![])
    } else {
        let (memory, done) = cache_steps(entries, devices, (n - 1) as nat);
        let device = devices[n - 1];
        let known = remembered(memory, device.key());
        let shown = filled_in(device, known);
        (memory.insert(device.key(), refreshed(known, shown)), done.push(shown))
    }
}

/// The keys of the devices that are visible.
pub open spec fn visible_keys(devices: Seq<SnapshotData>) -> Set<SnapshotKeyData> {
    Set::new(|key: SnapshotKeyData| exists|i: int| 0 <= i < devices.len() && #[trigger] devices[i].key() == key)
}

/// A memory of the last live values of the devices that were visible last.
pub struct DeviceSnapshotCache {
    pub entries: Table<DeviceSnapshotKey, CachedDeviceReport>,
}

impl Default for DeviceSnapshotCache {
    /// A memory of nothing.
    fn default() -> (cache: DeviceSnapshotCache)
        ensures
            cache.well_formed(),
            cache.entries@ == Map::<SnapshotKeyData, CachedDeviceReport>::empty(),
    {
        DeviceSnapshotCache { entries: Table::new() }
    }
}

impl DeviceSnapshotCache {
    /// Whether each device has one entry at most.
    pub open spec fn well_formed(&self) -> bool {
        self.entries.well_formed()
    }

    /// Fills in what the snapshots lack, and remembers their live values.
    /// Devices that are no longer visible are forgotten.
    pub fn apply(&mut self, devices: &mut [DeviceSnapshot])
        requires
            old(self).well_formed(),
        ensures
            final(self).well_formed(),
            ({
                let before = snapshot_views(old(devices)@);
                let (memory, shown) = cache_steps(old(self).entries@, before, before.len());
                &&& snapshot_views(final(devices)@) == shown
                &&& final(self).entries@ == memory.restrict(visible_keys(before))
            }),
    {
        let ghost before = snapshot_views(devices@);
        let ghost start = self.entries@;
        let count: usize = devices.len();
        let mut visible: Vec<DeviceSnapshotKey> = Vec::new();
        for i in 0..count
            invariant
                self.entries.well_formed(),
                count == devices@.len(),
                before.len() == count,
                visible@.len() == i,
                forall|j: int| 0 <= j < i ==> (#[trigger] visible@[j])@ == before[j].key(),
                forall|j: int| i <= j < count ==> (#[trigger] devices@[j])@ == before[j],
                ({
                    let (memory, shown) = cache_steps(start, before, i as nat);
                    &&& self.entries@ == memory
                    &&& shown == snapshot_views(devices@).take(i as int)
                }),
        {
            let key = DeviceSnapshotKey::from_snapshot(&devices[i]);
            visible.push(key);
            let known = match self.entries.get(&key) {
                Some(report) => *report,
                None => CachedDeviceReport { current_rate: None, battery: None },
            };
            let ghost device = devices@[i as int]@;
            let ghost earlier = devices@;
            assert(device == before[i as int]);
            if devices[i].current_rate.is_none() && known.current_rate.is_some() {
                devices[i].current_rate = known.current_rate;
                devices[i].cached_rate = true;
            }
            if devices[i].battery.is_none() && known.battery.is_some() {
                devices[i].battery = known.battery;
                devices[i].cached_battery = true;
            }
            let ghost shown = devices@[i as int]@;
            assert(shown == filled_in(device, known));
            let mut report = known;
            if devices[i].current_rate.is_some() && !devices[i].cached_rate {
                report.current_rate = devices[i].current_rate;
            }
            if devices[i].battery.is_some() && !devices[i].cached_battery {
                report.battery = devices[i].battery;
            }
            assert(report == refreshed(known, shown));
            self.entries.insert(key, report);
            proof {
                let (memory, done) = cache_steps(start, before, i as nat);
                assert(done == snapshot_views(earlier).take(i as int));
                assert forall|j: int| 0 <= j < i implies snapshot_views(devices@)[j]
                    == snapshot_views(earlier)[j] by {}
                assert(snapshot_views(devices@).take(i + 1) =~= done.push(shown));
            }
        }
        self.entries.retain_keys(&visible);
        proof {
            assert(snapshot_views(devices@).take(count as int) =~= snapshot_views(devices@));
            assert forall|key: SnapshotKeyData| #[trigger] key_set(visible@).contains(key)
                == visible_keys(before).contains(key) by {
                if is_among(visible@, key) {
                    let j = choose|j: int| 0 <= j < visible@.len() && #[trigger] visible@[j]@ == key;
                    assert(before[j].key() == key);
                }
                if visible_keys(before).contains(key) {
                    let j = choose|j: int| 0 <= j < before.len() && #[trigger] before[j].key() == key;
                    assert(visible@[j]@ == key);
                }
            }
            assert(key_set(visible@) =~= visible_keys(before));
        }
    }
}

} // verus!
