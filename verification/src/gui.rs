//! The window: its state, what is shown of it, and what its worker does.
use crate::devices::{outcome, ChargeState, PollingRate};
use crate::error::{DeviceError, ErrorText};
use crate::interfaces::{append_ids, ids_text};
use crate::snapshots::{
    snapshot_views, visible_keys, DeviceSnapshot, DeviceSnapshotKey, SnapshotData, SnapshotKeyData,
};
use crate::table::{is_among, key_set, Table, TableKey};
use crate::text::{append_decimal, decimal, decimal_text, maybe_text};
use crate::tui::{offered_rate, preferred_rate};
use crate::tui_text::{battery_level_text, ids_line, level_words};
use crate::watcher::{elapsed_since, or_value, since};
use vstd::prelude::*;

verus! {

/// How often the worker looks at the devices, in milliseconds.
pub const REFRESH_INTERVAL_MS: u64 = 1_000;

/// The nanoseconds of a second.
pub const NANOS_PER_SECOND: u128 = 1_000_000_000;

/// The state of the window. Times are in nanoseconds of a clock that the caller
/// reads.
pub struct GuiState {
    pub devices: Vec<DeviceSnapshot>,
    pub selected_device: Option<DeviceSnapshotKey>,
    pub targets: Table<DeviceSnapshotKey, PollingRate>,
    pub status: String,
    pub last_error: Option<String>,
    pub last_refresh: Option<u128>,
}

/// What a [`GuiState`] says.
#[verifier::ext_equal]
pub struct GuiData {
    pub devices: Seq<SnapshotData>,
    pub selected: Option<SnapshotKeyData>,
    pub targets: Map<SnapshotKeyData, PollingRate>,
    pub status: Seq<char>,
    pub last_error: Option<Seq<char>>,
    pub last_refresh: Option<u128>,
}

/// A key that may be missing, in view.
pub open spec fn maybe_key(key: Option<DeviceSnapshotKey>) -> Option<SnapshotKeyData> {
    match key {
        Some(key) => Some(key@),
        None => None,
    }
}

impl View for GuiState {
    type V = GuiData;

    open spec fn view(&self) -> GuiData {
        GuiData {
            devices: snapshot_views(self.devices@),
            selected: maybe_key(self.selected_device),
            targets: self.targets@,
            status: self.status@,
            last_error: maybe_text(self.last_error),
            last_refresh: self.last_refresh,
        }
    }
}

/// The target of a device that has none yet.
pub open spec fn first_target(device: SnapshotData) -> PollingRate {
    or_value(preferred_rate(device), PollingRate::Hz1000)
}

/// The targets after the first `n` devices got one: a target stays.
pub open spec fn with_targets(
    targets: Map<SnapshotKeyData, PollingRate>,
    devices: Seq<SnapshotData>,
    n: nat,
) -> Map<SnapshotKeyData, PollingRate>
    decreases n,
{
    if n == 0 {
        targets
    } else {
        let before = with_targets(targets, devices, (n - 1) as nat);
        let device = devices[n - 1];
        if before.contains_key(device.key()) {
            before
        } else {
            before.insert(device.key(), first_target(device))
        }
    }
}

impl GuiData {
    /// Where the device with a key stands first.
    pub open spec fn place_of(self, key: SnapshotKeyData, from: int) -> Option<int>
        decreases self.devices.len() - from,
    {
        if from < 0 || from >= self.devices.len() {
            None
        } else if self.devices[from].key() == key {
            Some(from)
        } else {
            self.place_of(key, from + 1)
        }
    }

    /// The device that is selected.
    pub open spec fn selected_device(self) -> Option<SnapshotData> {
        match self.selected {
            None => None,
            Some(key) => match self.place_of(key, 0) {
                Some(i) => Some(self.devices[i]),
                None => None,
            },
        }
    }

    /// The state with a selection that is visible, if any device is.
    pub open spec fn with_selection(self) -> GuiData {
        if self.selected_device() is Some {
            self
        } else {
            GuiData {
                selected: if self.devices.len() > 0 {
                    Some(self.devices[0].key())
                } else {
                    None
                },
                ..self
            }
        }
    }

    /// The state with a target for each visible device, and for no other.
    pub open spec fn with_fresh_targets(self) -> GuiData {
        GuiData {
            targets: with_targets(
                self.targets.restrict(visible_keys(self.devices)),
                self.devices,
                self.devices.len(),
            ),
            ..self
        }
    }

    /// The state after a scan.
    pub open spec fn scanned(self, devices: Seq<SnapshotData>, at: u128) -> GuiData {
        GuiData {
            status: if devices.len() == 0 {
                "No supported device visible"@
            } else {
                decimal(devices.len()) + " supported device(s)"@
            },
            ..(GuiData { devices, last_refresh: Some(at), last_error: None, ..self }).with_selection().with_fresh_targets()
        }
    }

    /// The target of a device.
    pub open spec fn target_of(self, device: SnapshotData) -> Option<PollingRate> {
        if self.targets.contains_key(device.key()) {
            Some(self.targets[device.key()])
        } else {
            None
        }
    }
}

impl GuiState {
    /// Whether each device has one target at most.
    pub open spec fn well_formed(&self) -> bool {
        self.targets.well_formed()
    }

    /// The state before the first scan.
    pub fn new() -> (state: GuiState)
        ensures
            state.well_formed(),
            state@ == (GuiData {
                devices: seq![],
                selected: None,
                targets: Map::empty(),
                status: "Scanning for supported devices"@,
                last_error: None,
                last_refresh: None,
            }),
    {
        let state = GuiState {
            devices: Vec::new(),
            selected_device: None,
            targets: Table::new(),
            status: "Scanning for supported devices".to_owned(),
            last_error: None,
            last_refresh: None,
        };
        assert(snapshot_views(state.devices@) =~= seq![]);
        state
    }

    /// Takes a scan in.
    pub fn on_snapshot(&mut self, devices: Vec<DeviceSnapshot>, at: u128)
        requires
            old(self).well_formed(),
        ensures
            final(self).well_formed(),
            final(self)@ == old(self)@.scanned(snapshot_views(devices@), at),
    {
        self.last_refresh = Some(at);
        self.last_error = None;
        self.devices = devices;
        self.reconcile_selection();
        self.reconcile_targets();
        if self.devices.len() == 0 {
            self.status = "No supported device visible".to_owned();
        } else {
            let mut status = decimal_text(self.devices.len() as u128);
            status.append(" supported device(s)");
            self.status = status;
        }
    }

    /// Takes a message in.
    pub fn on_status(&mut self, message: String)
        ensures
            final(self).targets == old(self).targets,
            final(self)@ == (GuiData { status: message@, ..old(self)@ }),
    {
        self.status = message;
    }

    /// Takes an error in.
    pub fn on_error(&mut self, message: String)
        ensures
            final(self).targets == old(self).targets,
            final(self)@ == (GuiData {
                status: message@,
                last_error: Some(message@),
                ..old(self)@
            }),
    {
        self.last_error = Some(message.clone());
        self.status = message;
    }

    /// Where the device with a key stands first.
    fn find(&self, key: &DeviceSnapshotKey) -> (r: Option<usize>)
        ensures
            match r {
                Some(i) => i < self.devices@.len() && self@.place_of(key@, 0) == Some(i as int),
                None => self@.place_of(key@, 0) is None,
            },
    {
        let mut i: usize = 0;
        while i < self.devices.len()
            invariant
                i <= self.devices@.len(),
                self@.place_of(key@, i as int) == self@.place_of(key@, 0),
            decreases self.devices@.len() - i,
        {
            assert(self@.devices[i as int] == self.devices@[i as int]@);
            if DeviceSnapshotKey::from_snapshot(&self.devices[i]).same_key(key) {
                return Some(i);
            }
            i = i + 1;
        }
        None
    }

    /// Sees to it that a visible device is selected.
    pub fn reconcile_selection(&mut self)
        ensures
            final(self).targets == old(self).targets,
            final(self)@ == old(self)@.with_selection(),
    {
        if let Some(key) = self.selected_device {
            if self.find(&key).is_some() {
                return;
            }
        }
        self.selected_device = if self.devices.len() > 0 {
            assert(self@.devices[0] == self.devices@[0]@);
            Some(DeviceSnapshotKey::from_snapshot(&self.devices[0]))
        } else {
            None
        };
    }

    /// Sees to it that each visible device has a target, and no other.
    pub fn reconcile_targets(&mut self)
        requires
            old(self).well_formed(),
        ensures
            final(self).well_formed(),
            final(self)@ == old(self)@.with_fresh_targets(),
    {
        let ghost views = snapshot_views(self.devices@);
        let mut visible: Vec<DeviceSnapshotKey> = Vec::new();
        for i in 0..self.devices.len()
            invariant
                views == snapshot_views(self.devices@),
                visible@.len() == i,
                forall|j: int| 0 <= j < i ==> (#[trigger] visible@[j])@ == views[j].key(),
        {
            assert(views[i as int] == self.devices@[i as int]@);
            visible.push(DeviceSnapshotKey::from_snapshot(&self.devices[i]));
        }
        proof {
            assert forall|key: SnapshotKeyData| #[trigger] key_set(visible@).contains(key)
                == visible_keys(views).contains(key) by {
                if is_among(visible@, key) {
                    let j = choose|j: int| 0 <= j < visible@.len() && #[trigger] visible@[j]@ == key;
                    assert(views[j].key() == key);
                }
                if visible_keys(views).contains(key) {
                    let j = choose|j: int| 0 <= j < views.len() && #[trigger] views[j].key() == key;
                    assert(visible@[j]@ == key);
                }
            }
            assert(key_set(visible@) =~= visible_keys(views));
        }
        self.targets.retain_keys(&visible);
        let ghost kept = self.targets@;
        let count: usize = self.devices.len();
        for i in 0..count
            invariant
                count == self.devices@.len(),
                self.targets.well_formed(),
                views == snapshot_views(self.devices@),
                kept == old(self).targets@.restrict(visible_keys(views)),
                self.devices == old(self).devices,
                self.selected_device == old(self).selected_device,
                self.status == old(self).status,
                self.last_error == old(self).last_error,
                self.last_refresh == old(self).last_refresh,
                self.targets@ == with_targets(kept, views, i as nat),
        {
            assert(views[i as int] == self.devices@[i as int]@);
            let key = DeviceSnapshotKey::from_snapshot(&self.devices[i]);
            if self.targets.get(&key).is_none() {
                let target = match offered_rate(&self.devices[i]) {
                    Some(rate) => rate,
                    None => PollingRate::Hz1000,
                };
                self.targets.insert(key, target);
            }
        }
    }

    /// The device that is selected.
    pub fn selected_device(&self) -> (r: Option<&DeviceSnapshot>)
        ensures
            match r {
                Some(device) => self@.selected_device() == Some(device@),
                None => self@.selected_device() is None,
            },
    {
        match &self.selected_device {
            None => None,
            Some(key) => match self.find(key) {
                None => None,
                Some(i) => Some(&self.devices[i]),
            },
        }
    }

    /// Selects a device.
    pub fn select(&mut self, key: DeviceSnapshotKey)
        ensures
            final(self).targets == old(self).targets,
            final(self)@ == (GuiData { selected: Some(key@), ..old(self)@ }),
    {
        self.selected_device = Some(key);
    }

    /// The target of a device.
    pub fn target_for(&self, device: &DeviceSnapshot) -> (r: Option<PollingRate>)
        requires
            self.well_formed(),
        ensures
            r == self@.target_of(device@),
    {
        match self.targets.get(&DeviceSnapshotKey::from_snapshot(device)) {
            Some(rate) => Some(*rate),
            None => None,
        }
    }

    /// Chooses the target of a device.
    pub fn choose_target(&mut self, key: DeviceSnapshotKey, rate: PollingRate)
        requires
            old(self).well_formed(),
        ensures
            final(self).well_formed(),
            final(self)@ == (GuiData {
                targets: old(self)@.targets.insert(key@, rate),
                ..old(self)@
            }),
    {
        self.targets.insert(key, rate);
    }

    /// Asks for the target of the selected device, and gives the order to
    /// write it.
    pub fn ask_target(&mut self) -> (order: Option<PendingWorkerRate>)
        requires
            old(self).well_formed(),
        ensures
            final(self).targets == old(self).targets,
            match old(self)@.selected_device() {
                None => order is None && final(self)@ == old(self)@,
                Some(device) => match old(self)@.target_of(device) {
                    None => order is None && final(self)@ == old(self)@,
                    Some(rate) => {
                        &&& order == Some(
                            PendingWorkerRate { vid: device.vid, pid: device.pid, rate },
                        )
                        &&& final(self)@ == (GuiData {
                            status: queued_words(
                                PendingWorkerRate { vid: device.vid, pid: device.pid, rate },
                            ),
                            ..old(self)@
                        })
                    },
                },
            },
    {
        let order = match self.selected_device() {
            None => return None,
            Some(device) => match self.target_for(device) {
                None => return None,
                Some(rate) => PendingWorkerRate { vid: device.vid, pid: device.pid, rate },
            },
        };
        self.status = queued_text(order);
        Some(order)
    }
}

/// A rate in words, and whether it is from memory.
pub open spec fn shown_rate(rate: Option<PollingRate>, cached: bool) -> Seq<char> {
    match rate {
        Some(rate) => if cached {
            decimal(rate.hz() as nat) + " Hz cached"@
        } else {
            decimal(rate.hz() as nat) + " Hz"@
        },
        None => "unknown"@,
    }
}

/// A rate in words, and whether it is from memory.
pub fn rate_text(rate: Option<PollingRate>, cached: bool) -> (s: String)
    ensures
        s@ == shown_rate(rate, cached),
{
    match rate {
        Some(rate) => {
            let mut s = decimal_text(rate.hz() as u128);
            if cached {
                s.append(" Hz cached");
            } else {
                s.append(" Hz");
            }
            s
        },
        None => "unknown".to_owned(),
    }
}

/// What a battery does, in words behind its level.
pub open spec fn charge_words(state: ChargeState) -> Seq<char> {
    match state {
        ChargeState::Charging => " charging"@,
        ChargeState::Full => " full"@,
        ChargeState::Discharging => " discharging"@,
        ChargeState::Unknown => seq![],
        ChargeState::Raw(raw) => " raw "@ + decimal(raw as nat),
    }
}

/// The battery of a device in words.
pub open spec fn battery_words(device: SnapshotData) -> Seq<char> {
    match device.battery {
        None => if device.battery_error is Some {
            "read error"@
        } else {
            "unknown"@
        },
        Some(battery) => {
            let words = level_words(battery) + charge_words(battery.charge_state);
            if device.cached_battery {
                words + " cached"@
            } else {
                words
            }
        },
    }
}

/// The battery of a device in words.
pub fn battery_summary(device: &DeviceSnapshot) -> (s: String)
    ensures
        s@ == battery_words(device@),
{
    let battery = match device.battery {
        None => return if device.battery_error.is_some() {
            "read error".to_owned()
        } else {
            "unknown".to_owned()
        },
        Some(battery) => battery,
    };
    let mut text = battery_level_text(battery);
    let ghost level = text@;
    match battery.charge_state {
        ChargeState::Charging => {
            text.append(" charging");
        },
        ChargeState::Full => {
            text.append(" full");
        },
        ChargeState::Discharging => {
            text.append(" discharging");
        },
        ChargeState::Unknown => {},
        ChargeState::Raw(raw) => {
            text.append(" raw ");
            append_decimal(&mut text, raw as u128);
        },
    }
    assert(text@ =~= level + charge_words(battery.charge_state));
    if device.cached_battery {
        text.append(" cached");
    }
    text
}

/// How long ago the last scan was, in words.
pub open spec fn age_words(last_refresh: Option<u128>, now: u128) -> Seq<char> {
    match last_refresh {
        None => "waiting for first scan"@,
        Some(at) => {
            let seconds = since(now, at) / NANOS_PER_SECOND;
            if seconds == 0 {
                "refreshed just now"@
            } else {
                "refreshed "@ + decimal(seconds as nat) + "s ago"@
            }
        },
    }
}

/// How long ago the last scan was, in words.
pub fn refresh_text(last_refresh: Option<u128>, now: u128) -> (s: String)
    ensures
        s@ == age_words(last_refresh, now),
{
    match last_refresh {
        None => "waiting for first scan".to_owned(),
        Some(at) => {
            let seconds = elapsed_since(now, at) / NANOS_PER_SECOND;
            if seconds == 0 {
                "refreshed just now".to_owned()
            } else {
                let mut s = "refreshed ".to_owned();
                append_decimal(&mut s, seconds);
                s.append("s ago");
                s
            }
        },
    }
}

/// How a badge is coloured.
#[derive(Clone, Copy, Debug, PartialEq, Eq, Structural)]
pub enum Tone {
    Error,
    Muted,
    Live,
}

/// How a device fares: a word, and its colour.
pub open spec fn badge(device: SnapshotData) -> (Seq<char>, Tone) {
    if device.read_error is Some {
        ("error"@, Tone::Error)
    } else if device.cached_rate || device.cached_battery {
        ("cached"@, Tone::Muted)
    } else if device.battery_error is Some {
        ("battery"@, Tone::Muted)
    } else {
        ("live"@, Tone::Live)
    }
}

/// How a device fares: a word, and its colour.
pub fn status_badge(device: &DeviceSnapshot) -> (r: (&'static str, Tone))
    ensures
        (r.0@, r.1) == badge(device@),
{
    if device.read_error.is_some() {
        ("error", Tone::Error)
    } else if device.cached_rate || device.cached_battery {
        ("cached", Tone::Muted)
    } else if device.battery_error.is_some() {
        ("battery", Tone::Muted)
    } else {
        ("live", Tone::Live)
    }
}

/// Vendor and model of a device.
pub open spec fn title_words(device: SnapshotData) -> Seq<char> {
    device.vendor_name + " "@ + device.model_name
}

/// Vendor and model of a device.
pub fn device_title(device: &DeviceSnapshot) -> (s: String)
    ensures
        s@ == title_words(device@),
{
    let mut s = device.vendor_name.to_owned();
    s.append(" ");
    s.append(device.model_name);
    s
}

/// An entry in the list of devices.
pub struct SidebarEntry {
    pub key: DeviceSnapshotKey,
    pub title: String,
    pub subtitle: String,
    pub selected: bool,
    pub badge: &'static str,
    pub tone: Tone,
}

/// The entry of a device in the list of devices.
pub fn sidebar_entry(state: &GuiState, device: &DeviceSnapshot) -> (entry: SidebarEntry)
    ensures
        entry.key@ == device@.key(),
        entry.title@ == title_words(device@),
        entry.subtitle@ == ids_text(device.vid, device.pid) + " · "@
            + device.connection.spec_text(),
        entry.selected == (state@.selected == Some(device@.key())),
        (entry.badge@, entry.tone) == badge(device@),
{
    let key = DeviceSnapshotKey::from_snapshot(device);
    let mut subtitle = ids_line(device.vid, device.pid);
    subtitle.append(" · ");
    subtitle.append(device.connection.text());
    let selected = match &state.selected_device {
        Some(selected) => selected.same_key(&key),
        None => false,
    };
    let (badge, tone) = status_badge(device);
    SidebarEntry { key, title: device_title(device), subtitle, selected, badge, tone }
}

/// What is shown of the selected device.
pub struct DetailView {
    pub key: DeviceSnapshotKey,
    pub title: String,
    pub protocol: &'static str,
    pub badge: &'static str,
    pub tone: Tone,
    pub current: String,
    pub battery: String,
    pub mode: String,
    pub target: Option<PollingRate>,
    pub can_set: bool,
    pub set_label: String,
    pub hint: Option<&'static str>,
}

/// What the button says.
pub open spec fn set_words(target: Option<PollingRate>) -> Seq<char> {
    match target {
        Some(rate) => "Set "@ + decimal(rate.hz() as nat) + " Hz"@,
        None => "Set rate"@,
    }
}

/// What is said beside the button.
pub open spec fn hint_words(device: SnapshotData, target: Option<PollingRate>) -> Option<
    Seq<char>,
> {
    if device.current_rate == target {
        Some("Already at target"@)
    } else if device.cached_rate || device.current_rate is None {
        Some("Will retry when the device answers"@)
    } else {
        None
    }
}

/// What is shown of the selected device; nothing where none is.
pub fn detail_view(state: &GuiState) -> (view: Option<DetailView>)
    requires
        state.well_formed(),
    ensures
        match (state@.selected_device(), view) {
            (None, view) => view is None,
            (Some(_), None) => false,
            (Some(device), Some(view)) => {
                let target = state@.target_of(device);
                &&& view.key@ == device.key()
                &&& view.title@ == title_words(device)
                &&& view.protocol@ == device.protocol.spec_text()
                &&& (view.badge@, view.tone) == badge(device)
                &&& view.current@ == shown_rate(device.current_rate, device.cached_rate)
                &&& view.battery@ == battery_words(device)
                &&& view.mode@ == ids_text(device.vid, device.pid) + " "@
                    + device.connection.spec_text()
                &&& view.target == target
                &&& view.can_set == (target is Some && device.current_rate != target)
                &&& view.set_label@ == set_words(target)
                &&& crate::probing::maybe_str(view.hint) == hint_words(device, target)
            },
        },
{
    let device = match state.selected_device() {
        None => return None,
        Some(device) => device,
    };
    let target = state.target_for(device);
    let (badge, tone) = status_badge(device);
    let mut mode = ids_line(device.vid, device.pid);
    mode.append(" ");
    mode.append(device.connection.text());
    let set_label = match target {
        Some(rate) => {
            let mut s = "Set ".to_owned();
            append_decimal(&mut s, rate.hz() as u128);
            s.append(" Hz");
            s
        },
        None => "Set rate".to_owned(),
    };
    let hint = if device.current_rate == target {
        Some("Already at target")
    } else if device.cached_rate || device.current_rate.is_none() {
        Some("Will retry when the device answers")
    } else {
        None
    };
    Some(
        DetailView {
            key: DeviceSnapshotKey::from_snapshot(device),
            title: device_title(device),
            protocol: device.protocol.text(),
            badge,
            tone,
            current: rate_text(device.current_rate, device.cached_rate),
            battery: battery_summary(device),
            mode,
            target,
            can_set: target.is_some() && device.current_rate != target,
            set_label,
            hint,
        },
    )
}

/// A change of rate that the worker has to write.
#[derive(Clone, Copy, Debug, PartialEq, Eq, Structural)]
pub struct PendingWorkerRate {
    pub vid: u16,
    pub pid: u16,
    pub rate: PollingRate,
}

/// What is said of a change that waits.
pub open spec fn queued_words(pending: PendingWorkerRate) -> Seq<char> {
    "Queued "@ + pending.rate.spec_text() + " for "@ + ids_text(pending.vid, pending.pid)
}

/// What is said of a change that waits.
pub fn queued_text(pending: PendingWorkerRate) -> (s: String)
    ensures
        s@ == queued_words(pending),
{
    let mut s = "Queued ".to_owned();
    s.append(pending.rate.text().as_str());
    s.append(" for ");
    append_ids(&mut s, pending.vid, pending.pid);
    s
}

/// What the worker is told.
#[derive(Clone, Copy, Debug, PartialEq, Eq, Structural)]
pub enum WorkerCommand {
    /// Look at the devices.
    Refresh,
    /// Write a rate.
    SetRate { order: PendingWorkerRate },
    /// Stop.
    Shutdown,
    /// No command came for a while.
    Timeout,
}

/// What the worker does next.
#[derive(Clone, Copy, Debug, PartialEq, Eq, Structural)]
pub struct WorkerStep {
    pub try_pending: bool,
    pub scan: bool,
    pub stop: bool,
}

/// The worker: the change of rate that waits.
#[derive(Clone, Copy, Debug, PartialEq, Eq, Structural)]
pub struct WorkerState {
    pub pending_rate: Option<PendingWorkerRate>,
}

impl WorkerState {
    /// Takes a command in, and gives what to do next: a new order takes the
    /// place of one that waits, and is tried at once; one that waits is tried
    /// each time that nothing else is to be done.
    pub fn on_command(&mut self, command: WorkerCommand) -> (step: WorkerStep)
        ensures
            final(self).pending_rate == match command {
                WorkerCommand::SetRate { order } => Some(order),
                _ => old(self).pending_rate,
            },
            step.stop == (command is Shutdown),
            step.scan == !(command is Shutdown),
            step.try_pending == (command is SetRate || command is Timeout),
    {
        match command {
            WorkerCommand::Refresh => WorkerStep { try_pending: false, scan: true, stop: false },
            WorkerCommand::SetRate { order } => {
                self.pending_rate = Some(order);
                WorkerStep { try_pending: true, scan: true, stop: false }
            },
            WorkerCommand::Shutdown => WorkerStep { try_pending: false, scan: false, stop: true },
            WorkerCommand::Timeout => WorkerStep { try_pending: true, scan: true, stop: false },
        }
    }

    /// Takes in how writing the waiting change went, with the rate that was
    /// read back, and gives what to say: a change that reads back waits no
    /// longer.
    pub fn on_written(&mut self, pending: PendingWorkerRate, result: Result<
        PollingRate,
        DeviceError,
    >) -> (status: String)
        ensures
            (final(self).pending_rate, status@) == worker_result(
                old(self).pending_rate,
                pending,
                outcome(result),
            ),
    {
        match result {
            Ok(after) => {
                if after == pending.rate {
                    self.pending_rate = None;
                    let mut s = "Set ".to_owned();
                    append_ids(&mut s, pending.vid, pending.pid);
                    s.append(" to ");
                    s.append(after.text().as_str());
                    s
                } else {
                    let mut s = queued_text(pending);
                    s.append("; device is still ");
                    s.append(after.text().as_str());
                    s
                }
            },
            Err(e) => {
                let mut s = queued_text(pending);
                s.append(": ");
                s.append(e.message.as_str());
                s
            },
        }
    }
}

/// What is left waiting after a write, and what is said of it.
pub open spec fn worker_result(
    waiting: Option<PendingWorkerRate>,
    pending: PendingWorkerRate,
    result: Result<PollingRate, ErrorText>,
) -> (Option<PendingWorkerRate>, Seq<char>) {
    match result {
        Ok(after) => if after == pending.rate {
            (
                None,
                "Set "@ + ids_text(pending.vid, pending.pid) + " to "@ + after.spec_text(),
            )
        } else {
            (waiting, queued_words(pending) + "; device is still "@ + after.spec_text())
        },
        Err(e) => (waiting, queued_words(pending) + ": "@ + e.message),
    }
}

} // verus!
