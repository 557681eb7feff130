//! The terminal interface: its state, what keys do to it, and its texts.
use crate::courses::{dpi_run, failed, rate_run, set_dpi_run, set_rate_run, Run};
use crate::devices::{lists_rate, ConnectionKind, PollingRate, ProtocolKind};
use crate::error::DeviceError;
use crate::interfaces::{access_views, AccessData, HidAccessCandidate};
use crate::models::ModelData;
use crate::protocols::ProtocolDevice;
use crate::snapshots::{
    cache_steps, snapshot_views, visible_keys, CachedDeviceReport, DeviceSnapshot,
    DeviceSnapshotCache, SnapshotData, SnapshotKeyData,
};
use crate::text::{
    append_decimal, contains, decimal, decimal_text, has_part, maybe_text, number, parse_number,
};
use crate::transport::{DeviceTransport, Request, Wire};
use crate::watch::{rate_text, rate_words};
use crate::watcher::{elapsed_since, since, NANOS_PER_MILLI};
use vstd::prelude::*;
use vstd::utf8::encode_utf8;

pub use crate::tui_text::{
    centered_rect, device_row, device_status, linux_hidraw_udev_rules, power_detail, power_summary,
    rate_panel, refresh_line,
};

verus! {

pub const FOCUSED_REFRESH_INTERVAL_MS: u64 = 1_000;

pub const UNFOCUSED_REFRESH_INTERVAL_MS: u64 = 5_000;

pub const UNAVAILABLE_REFRESH_INTERVAL_MS: u64 = 5_000;

pub const PENDING_RETRY_INTERVAL_MS: u64 = 1_000;

pub const CHARGING_ICON: &'static str = "⚡";

/// A change of rate that waits for its device.
#[derive(Clone, Copy, Debug, PartialEq, Eq, Structural)]
pub struct PendingTuiRateChange {
    pub vid: u16,
    pub pid: u16,
    pub connection: ConnectionKind,
    pub target: PollingRate,
}

impl PendingTuiRateChange {
    /// Whether the change is for the device.
    pub open spec fn fits(self, device: SnapshotData) -> bool {
        self.vid == device.vid && self.pid == device.pid && self.connection == device.connection
    }

    /// Whether the change is for the device.
    pub fn matches(&self, device: &DeviceSnapshot) -> (yes: bool)
        ensures
            yes == self.fits(device@),
    {
        self.vid == device.vid && self.pid == device.pid && self.connection == device.connection
    }
}

/// The question whether to set up access to devices.
#[derive(Clone, Debug, PartialEq, Eq)]
pub struct AccessPrompt {
    pub candidates: Vec<HidAccessCandidate>,
}

/// The question for a new resolution.
#[derive(Clone, Debug, PartialEq, Eq)]
pub struct DpiPrompt {
    pub current: u16,
    pub input: String,
    pub error: Option<String>,
    pub replace_on_input: bool,
}

/// What a [`DpiPrompt`] says.
pub struct DpiData {
    pub current: u16,
    pub input: Seq<char>,
    pub error: Option<Seq<char>>,
    pub replace_on_input: bool,
}

impl View for DpiPrompt {
    type V = DpiData;

    open spec fn view(&self) -> DpiData {
        DpiData {
            current: self.current,
            input: self.input@,
            error: maybe_text(self.error),
            replace_on_input: self.replace_on_input,
        }
    }
}

/// The state of the terminal interface. Times are in nanoseconds of a clock
/// that the caller reads.
pub struct TuiApp {
    pub devices: Vec<DeviceSnapshot>,
    pub snapshot_cache: DeviceSnapshotCache,
    pub pending_rate: Option<PendingTuiRateChange>,
    pub selected_device: usize,
    pub target_rate: Option<PollingRate>,
    pub target_dirty: bool,
    pub focused: bool,
    pub status: String,
    pub last_refresh: u128,
    pub access_prompt: Option<AccessPrompt>,
    pub access_prompt_dismissed: bool,
    pub dpi_prompt: Option<DpiPrompt>,
}

/// What a [`TuiApp`] says.
#[verifier::ext_equal]
pub struct TuiData {
    pub devices: Seq<SnapshotData>,
    pub memory: Map<SnapshotKeyData, CachedDeviceReport>,
    pub pending_rate: Option<PendingTuiRateChange>,
    pub selected_device: int,
    pub target_rate: Option<PollingRate>,
    pub target_dirty: bool,
    pub focused: bool,
    pub status: Seq<char>,
    pub last_refresh: u128,
    pub access_prompt: Option<Seq<AccessData>>,
    pub access_prompt_dismissed: bool,
    pub dpi_prompt: Option<DpiData>,
}

impl View for TuiApp {
    type V = TuiData;

    open spec fn view(&self) -> TuiData {
        TuiData {
            devices: snapshot_views(self.devices@),
            memory: self.snapshot_cache.entries@,
            pending_rate: self.pending_rate,
            selected_device: self.selected_device as int,
            target_rate: self.target_rate,
            target_dirty: self.target_dirty,
            focused: self.focused,
            status: self.status@,
            last_refresh: self.last_refresh,
            access_prompt: match self.access_prompt {
                Some(prompt) => Some(access_views(prompt.candidates@)),
                None => None,
            },
            access_prompt_dismissed: self.access_prompt_dismissed,
            dpi_prompt: match self.dpi_prompt {
                Some(prompt) => Some(prompt@),
                None => None,
            },
        }
    }
}

/// Whether a device sleeps: it hangs on no cable, and did not answer in time.
pub open spec fn is_unavailable(device: SnapshotData) -> bool {
    !device.connection.is_wired() && (device.read_error matches Some(error) && has_part(
        error,
        "timed out waiting for"@,
    ))
}

/// Whether a device sleeps: it hangs on no cable, and did not answer in time.
pub fn device_is_unavailable(device: &DeviceSnapshot) -> (yes: bool)
    ensures
        yes == is_unavailable(device@),
{
    !device.connection.is_wired() && match &device.read_error {
        Some(error) => contains(error.as_str(), "timed out waiting for"),
        None => false,
    }
}

/// The rate to offer for a device: its own where it is on offer, else 1000 Hz
/// where that is, else the first on offer.
pub open spec fn preferred_rate(device: SnapshotData) -> Option<PollingRate> {
    let offered = device.supported_rates;
    match device.current_rate {
        Some(rate) => if offered.contains(rate) {
            Some(rate)
        } else {
            usual_rate(offered)
        },
        None => usual_rate(offered),
    }
}

/// 1000 Hz where that is on offer, else the first on offer.
pub open spec fn usual_rate(offered: Seq<PollingRate>) -> Option<PollingRate> {
    if offered.contains(PollingRate::Hz1000) {
        Some(PollingRate::Hz1000)
    } else if offered.len() > 0 {
        Some(offered[0])
    } else {
        None
    }
}

/// The rate to offer for a device.
pub fn offered_rate(device: &DeviceSnapshot) -> (r: Option<PollingRate>)
    ensures
        r == preferred_rate(device@),
{
    if let Some(rate) = device.current_rate {
        if lists_rate(&device.supported_rates, rate) {
            return Some(rate);
        }
    }
    if lists_rate(&device.supported_rates, PollingRate::Hz1000) {
        Some(PollingRate::Hz1000)
    } else if device.supported_rates.len() > 0 {
        Some(device.supported_rates[0])
    } else {
        None
    }
}

/// The place `delta` steps on in a ring of `len` places.
pub fn wrap_index(current: usize, len: usize, delta: isize) -> (r: usize)
    requires
        len > 0,
    ensures
        r == (current + delta) % (len as int),
{
    let sum: i128 = current as i128 + delta as i128;
    let size: i128 = len as i128;
    if sum >= 0 {
        (sum % size) as usize
    } else {
        let back: i128 = (-sum) % size;
        proof {
            let whole = (-sum) as int;
            let n = size as int;
            let times = whole / n;
            vstd::arithmetic::div_mod::lemma_fundamental_div_mod(whole, n);
            assert(n * times == times * n && (-times) * n == -(times * n) && (-times - 1) * n == -(
            times * n) - n) by (nonlinear_arith);
            if back == 0 {
                vstd::arithmetic::div_mod::lemma_fundamental_div_mod_converse(
                    sum as int,
                    n,
                    -times,
                    0,
                );
            } else {
                vstd::arithmetic::div_mod::lemma_fundamental_div_mod_converse(
                    sum as int,
                    n,
                    -times - 1,
                    n - back,
                );
            }
        }
        if back == 0 {
            0
        } else {
            (size - back) as usize
        }
    }
}

/// Where a rate stands among those on offer, or first where it does not.
pub open spec fn rate_place(offered: Seq<PollingRate>, rate: Option<PollingRate>) -> int {
    match rate {
        Some(rate) => if offered.contains(rate) {
            offered.index_of_first(rate)->Some_0
        } else {
            0
        },
        None => 0,
    }
}

/// Where a rate stands among those on offer, or first where it does not.
fn find_rate(offered: &Vec<PollingRate>, rate: Option<PollingRate>) -> (r: usize)
    requires
        offered@.len() > 0,
    ensures
        r == rate_place(offered@, rate),
        r < offered@.len(),
{
    if let Some(wanted) = rate {
        for i in 0..offered.len()
            invariant
                rate == Some(wanted),
                forall|j: int| 0 <= j < i ==> offered@[j] != wanted,
        {
            if offered[i] == wanted {
                proof {
                    offered@.index_of_first_ensures(wanted);
                    let first = offered@.index_of_first(wanted)->Some_0;
                    assert(offered@.contains(wanted)) by {
                        assert(offered@[i as int] == wanted);
                    }
                    assert(first == i) by {
                        if first < i {
                            assert(offered@[first] != wanted);
                        }
                        if first > i {
                            assert(offered@[i as int] != wanted);
                        }
                    }
                }
                return i;
            }
        }
        assert(!offered@.contains(wanted));
    }
    0
}

impl TuiData {
    /// The device that is selected.
    pub open spec fn selected(self) -> Option<SnapshotData> {
        if 0 <= self.selected_device < self.devices.len() {
            Some(self.devices[self.selected_device])
        } else {
            None
        }
    }

    /// The state with other words in the status line.
    pub open spec fn saying(self, status: Seq<char>) -> TuiData {
        TuiData { status, ..self }
    }

    /// How long the display stays as it is, in milliseconds.
    pub open spec fn interval_ms(self) -> u64 {
        if self.pending_rate is Some {
            PENDING_RETRY_INTERVAL_MS
        } else if exists|i: int|
            0 <= i < self.devices.len() && is_unavailable(#[trigger] self.devices[i]) {
            UNAVAILABLE_REFRESH_INTERVAL_MS
        } else if self.focused {
            FOCUSED_REFRESH_INTERVAL_MS
        } else {
            UNFOCUSED_REFRESH_INTERVAL_MS
        }
    }

    /// The state with a target that the selected device offers: one that the
    /// user chose stays.
    pub open spec fn with_target(self) -> TuiData {
        match self.selected() {
            None => TuiData { target_rate: None, target_dirty: false, ..self },
            Some(device) => if device.supported_rates.len() == 0 {
                TuiData { target_rate: None, target_dirty: false, ..self }
            } else if self.target_dirty && (self.target_rate matches Some(rate)
                && device.supported_rates.contains(rate)) {
                self
            } else {
                TuiData { target_rate: preferred_rate(device), target_dirty: false, ..self }
            },
        }
    }

    /// The state after the selection moved.
    pub open spec fn device_moved(self, delta: int) -> TuiData {
        if self.devices.len() == 0 {
            self
        } else {
            (TuiData {
                selected_device: (self.selected_device + delta) % (self.devices.len() as int),
                target_dirty: false,
                ..self
            }).with_target()
        }
    }

    /// The state after the target moved.
    pub open spec fn rate_moved(self, delta: int) -> TuiData {
        match self.selected() {
            None => self,
            Some(device) => if device.supported_rates.len() == 0 {
                self
            } else {
                TuiData {
                    target_rate: Some(
                        device.supported_rates[(rate_place(
                            device.supported_rates,
                            self.target_rate,
                        ) + delta) % (device.supported_rates.len() as int)],
                    ),
                    target_dirty: true,
                    ..self
                }
            },
        }
    }

    /// The state with the current rate as target.
    pub open spec fn synced(self) -> TuiData {
        match self.selected() {
            Some(device) => match device.current_rate {
                Some(rate) => TuiData { target_rate: Some(rate), target_dirty: false, ..self },
                None => self,
            },
            None => self,
        }
    }

    /// The state after a scan went well.
    pub open spec fn scanned(self, devices: Seq<SnapshotData>) -> TuiData {
        let (memory, shown) = cache_steps(self.memory, devices, devices.len());
        let lost = self.selected_device >= shown.len();
        (TuiData {
            devices: shown,
            memory: memory.restrict(visible_keys(devices)),
            selected_device: if lost {
                0
            } else {
                self.selected_device
            },
            target_dirty: if lost {
                false
            } else {
                self.target_dirty
            },
            ..self
        }).with_target().saying(
            if shown.len() == 0 {
                "no supported device found"@
            } else {
                decimal(shown.len()) + " device(s), refreshed now"@
            },
        )
    }

    /// The state after it was looked for devices that may not be opened.
    pub open spec fn access_checked(self, candidates: Seq<AccessData>) -> TuiData {
        if self.access_prompt is Some || self.access_prompt_dismissed || candidates.len() == 0 {
            self
        } else {
            TuiData { access_prompt: Some(candidates), ..self }.saying(
                decimal(candidates.len()) + " supported hidraw path(s) need access"@,
            )
        }
    }

    /// The state without a waiting change for the device.
    pub open spec fn without_pending(self, device: SnapshotData) -> TuiData {
        match self.pending_rate {
            Some(pending) => if pending.fits(device) {
                TuiData { pending_rate: None, ..self }
            } else {
                self
            },
            None => self,
        }
    }

    /// The state with a change that waits.
    pub open spec fn with_pending(self, order: RateOrder) -> TuiData {
        TuiData {
            pending_rate: Some(
                PendingTuiRateChange {
                    vid: order.vid,
                    pid: order.pid,
                    connection: order.connection,
                    target: order.rate,
                },
            ),
            ..self
        }
    }

    /// The state and the order after the target was asked for: nothing is
    /// written where the device runs at it, and the change waits where its
    /// rate is not live.
    pub open spec fn rate_asked(self) -> (TuiData, Option<RateOrder>) {
        match (self.selected(), self.target_rate) {
            (None, _) => (self.saying("no device selected"@), None),
            (Some(_), None) => (self.saying("no target rate selected"@), None),
            (Some(device), Some(rate)) => {
                let order = order_for(device, rate);
                if device.current_rate == Some(rate) {
                    (
                        TuiData { target_dirty: false, ..self }.saying(
                            if device.cached_rate {
                                "current rate cached as "@ + rate.spec_text()
                                    + "; no write needed"@
                            } else {
                                "already at "@ + rate.spec_text()
                            },
                        ).without_pending(device),
                        None,
                    )
                } else if device.cached_rate || device.current_rate is None {
                    (
                        self.with_pending(order).saying(
                            "set queued: latest rate read is "@ + rate_words(device.current_rate),
                        ),
                        None,
                    )
                } else {
                    (self, Some(order))
                }
            },
        }
    }

    /// The first device that the waiting change is for.
    pub open spec fn pending_place(self, pending: PendingTuiRateChange, from: int) -> Option<int>
        decreases self.devices.len() - from,
    {
        if from < 0 || from >= self.devices.len() {
            None
        } else if pending.fits(self.devices[from]) {
            Some(from)
        } else {
            self.pending_place(pending, from + 1)
        }
    }

    /// The state and the order after it was looked whether the waiting change
    /// can be written now.
    pub open spec fn pending_tried(self) -> (TuiData, Option<RateOrder>) {
        match self.pending_rate {
            None => (self, None),
            Some(pending) => match self.pending_place(pending, 0) {
                None => (
                    self.saying(
                        "queued "@ + pending.target.spec_text() + ": device not visible"@,
                    ),
                    None,
                ),
                Some(i) => {
                    let device = self.devices[i];
                    if device.current_rate == Some(pending.target) {
                        (
                            TuiData { pending_rate: None, ..self }.saying(
                                "queued target "@ + pending.target.spec_text()
                                    + " is now satisfied"@,
                            ),
                            None,
                        )
                    } else if device.cached_rate || device.current_rate is None {
                        (
                            self.saying(
                                "queued "@ + pending.target.spec_text()
                                    + ": latest rate read is "@ + rate_words(device.current_rate),
                            ),
                            None,
                        )
                    } else {
                        (self, Some(order_for(device, pending.target)))
                    }
                },
            },
        }
    }
}

/// A rate to be written to a device.
#[derive(Clone, Copy, Debug, PartialEq, Eq, Structural)]
pub struct RateOrder {
    pub vid: u16,
    pub pid: u16,
    pub connection: ConnectionKind,
    pub rate: PollingRate,
}

/// The order to bring a device to a rate.
pub open spec fn order_for(device: SnapshotData, rate: PollingRate) -> RateOrder {
    RateOrder { vid: device.vid, pid: device.pid, connection: device.connection, rate }
}

/// The course of setting a rate and reading it back after a while.
pub open spec fn set_and_read_run(
    wire: Wire,
    model: ModelData,
    protocol: ProtocolKind,
    connection: ConnectionKind,
    rate: PollingRate,
) -> Run<PollingRate> {
    let set = set_rate_run(wire, model, protocol, connection, rate);
    match set.outcome {
        Err(e) => failed(set.wire, e),
        Ok(_) => rate_run(
            set.wire.after(Request::Sleep { milliseconds: 80 }),
            protocol,
            connection,
        ),
    }
}

/// Sets a rate and reads it back after a while.
pub fn set_and_read<T: DeviceTransport>(device: &mut ProtocolDevice<T>, rate: PollingRate) -> (r:
    Result<PollingRate, DeviceError>)
    ensures
        ProtocolDevice::ran(
            *old(device),
            *final(device),
            r,
            set_and_read_run(
                old(device).transport.wire(),
                old(device).model@,
                old(device).protocol,
                old(device).connection,
                rate,
            ),
        ),
{
    match device.set_rate(rate) {
        Err(e) => return Err(e),
        Ok(_) => {},
    }
    device.transport.sleep(80);
    device.read_rate()
}

/// The course of setting a resolution and reading it back after a while.
pub open spec fn set_and_read_dpi_run(wire: Wire, protocol: ProtocolKind, dpi: u16, delay: nat) -> Run<
    u16,
> {
    let set = set_dpi_run(wire, protocol, dpi);
    match set.outcome {
        Err(e) => failed(set.wire, e),
        Ok(_) => dpi_run(set.wire.after(Request::Sleep { milliseconds: delay }), protocol),
    }
}

/// Sets a resolution and reads it back after a while.
pub fn set_and_read_dpi<T: DeviceTransport>(
    device: &mut ProtocolDevice<T>,
    dpi: u16,
    delay: u64,
) -> (r: Result<u16, DeviceError>)
    ensures
        ProtocolDevice::ran(
            *old(device),
            *final(device),
            r,
            set_and_read_dpi_run(
                old(device).transport.wire(),
                old(device).protocol,
                dpi,
                delay as nat,
            ),
        ),
{
    match device.set_dpi(dpi) {
        Err(e) => return Err(e),
        Ok(_) => {},
    }
    device.transport.sleep(delay);
    device.read_dpi()
}

/// A resolution to be written to the device at a path.
pub struct DpiOrder {
    pub path: String,
    pub model_name: &'static str,
    pub dpi: u16,
}

/// A key that was pressed.
#[derive(Clone, Copy, Debug, PartialEq, Eq, Structural)]
pub enum Key {
    Char(char),
    Enter,
    Esc,
    Backspace,
    Delete,
    Up,
    Down,
    Left,
    Right,
    Other,
}

/// What a key means where no question is open.
#[derive(Clone, Copy, Debug, PartialEq, Eq, Structural)]
pub enum Command {
    Nothing,
    Quit,
    Refresh,
    EnableAccess,
    DismissAccess,
    ApplyDpi,
    DismissDpi,
    RemoveDpiDigit,
    ClearDpiInput,
    PushDpiDigit(char),
    MoveDevice(isize),
    MoveRate(isize),
    ApplyRate,
    SyncTarget,
    OpenDpi,
}

/// What a key means: the question about access comes first, then the one for a
/// resolution.
pub open spec fn command_for(key: Key, asks_access: bool, asks_dpi: bool) -> Command {
    if asks_access {
        match key {
            Key::Char('y') | Key::Enter => Command::EnableAccess,
            Key::Char('n') | Key::Esc => Command::DismissAccess,
            Key::Char('q') => Command::Quit,
            _ => Command::Nothing,
        }
    } else if asks_dpi {
        match key {
            Key::Enter => Command::ApplyDpi,
            Key::Esc => Command::DismissDpi,
            Key::Backspace => Command::RemoveDpiDigit,
            Key::Delete => Command::ClearDpiInput,
            Key::Char(c) => if '0' <= c <= '9' {
                Command::PushDpiDigit(c)
            } else {
                Command::Nothing
            },
            _ => Command::Nothing,
        }
    } else {
        match key {
            Key::Char('q') | Key::Esc => Command::Quit,
            Key::Char('r') => Command::Refresh,
            Key::Up | Key::Char('k') => Command::MoveDevice((-1) as isize),
            Key::Down | Key::Char('j') => Command::MoveDevice(1),
            Key::Left | Key::Char('h') => Command::MoveRate((-1) as isize),
            Key::Right | Key::Char('l') => Command::MoveRate(1),
            Key::Enter => Command::ApplyRate,
            Key::Char(' ') => Command::SyncTarget,
            Key::Char('d') => Command::OpenDpi,
            _ => Command::Nothing,
        }
    }
}

impl TuiApp {
    /// Whether the memory of the last live values is in order.
    pub open spec fn well_formed(&self) -> bool {
        self.snapshot_cache.well_formed()
    }

    /// The state before the first scan.
    pub fn new(now: u128) -> (app: TuiApp)
        ensures
            app.well_formed(),
            app@ == (TuiData {
                devices: seq![],
                memory: Map::empty(),
                pending_rate: None,
                selected_device: 0,
                target_rate: None,
                target_dirty: false,
                focused: true,
                status: "scanning"@,
                last_refresh: since(
                    now,
                    (FOCUSED_REFRESH_INTERVAL_MS * NANOS_PER_MILLI) as u128,
                ),
                access_prompt: None,
                access_prompt_dismissed: false,
                dpi_prompt: None,
            }),
    {
        let app = TuiApp {
            devices: Vec::new(),
            snapshot_cache: DeviceSnapshotCache::default(),
            pending_rate: None,
            selected_device: 0,
            target_rate: None,
            target_dirty: false,
            focused: true,
            status: "scanning".to_owned(),
            last_refresh: elapsed_since(
                now,
                FOCUSED_REFRESH_INTERVAL_MS as u128 * NANOS_PER_MILLI,
            ),
            access_prompt: None,
            access_prompt_dismissed: false,
            dpi_prompt: None,
        };
        assert(snapshot_views(app.devices@) =~= seq![]);
        app
    }

    /// What a key means now.
    pub fn command(&self, key: Key) -> (r: Command)
        ensures
            r == command_for(key, self@.access_prompt is Some, self@.dpi_prompt is Some),
    {
        if self.access_prompt.is_some() {
            return match key {
                Key::Char('y') | Key::Enter => Command::EnableAccess,
                Key::Char('n') | Key::Esc => Command::DismissAccess,
                Key::Char('q') => Command::Quit,
                _ => Command::Nothing,
            };
        }
        if self.dpi_prompt.is_some() {
            return match key {
                Key::Enter => Command::ApplyDpi,
                Key::Esc => Command::DismissDpi,
                Key::Backspace => Command::RemoveDpiDigit,
                Key::Delete => Command::ClearDpiInput,
                Key::Char(c) => if '0' <= c && c <= '9' {
                    Command::PushDpiDigit(c)
                } else {
                    Command::Nothing
                },
                _ => Command::Nothing,
            };
        }
        match key {
            Key::Char('q') | Key::Esc => Command::Quit,
            Key::Char('r') => Command::Refresh,
            Key::Up | Key::Char('k') => Command::MoveDevice(-1),
            Key::Down | Key::Char('j') => Command::MoveDevice(1),
            Key::Left | Key::Char('h') => Command::MoveRate(-1),
            Key::Right | Key::Char('l') => Command::MoveRate(1),
            Key::Enter => Command::ApplyRate,
            Key::Char(' ') => Command::SyncTarget,
            Key::Char('d') => Command::OpenDpi,
            _ => Command::Nothing,
        }
    }

    /// How long the display stays as it is, in milliseconds: shortest while a
    /// change waits, longer while a device sleeps or another window has the
    /// focus.
    pub fn refresh_interval(&self) -> (r: u64)
        ensures
            r == self@.interval_ms(),
    {
        if self.pending_rate.is_some() {
            return PENDING_RETRY_INTERVAL_MS;
        }
        for i in 0..self.devices.len()
            invariant
                self.pending_rate is None,
                forall|j: int| 0 <= j < i ==> !is_unavailable(#[trigger] self@.devices[j]),
        {
            assert(self@.devices[i as int] == self.devices@[i as int]@);
            if device_is_unavailable(&self.devices[i]) {
                return UNAVAILABLE_REFRESH_INTERVAL_MS;
            }
        }
        if self.focused {
            FOCUSED_REFRESH_INTERVAL_MS
        } else {
            UNFOCUSED_REFRESH_INTERVAL_MS
        }
    }

    /// Whether it is time to scan again.
    pub fn should_refresh(&self, now: u128) -> (r: bool)
        ensures
            r == (since(now, self.last_refresh) >= self@.interval_ms() * NANOS_PER_MILLI),
    {
        elapsed_since(now, self.last_refresh) >= self.refresh_interval() as u128 * NANOS_PER_MILLI
    }

    /// Notes whether the window has the focus.
    pub fn set_focused(&mut self, focused: bool)
        ensures
            final(self).snapshot_cache == old(self).snapshot_cache,
            final(self)@ == (TuiData { focused, ..old(self)@ }),
    {
        self.focused = focused;
    }

    /// Puts words in the status line.
    pub fn say(&mut self, status: String)
        ensures
            final(self).snapshot_cache == old(self).snapshot_cache,
            final(self)@ == old(self)@.saying(status@),
    {
        self.status = status;
    }

    /// Takes in how a scan went.
    pub fn on_scan(&mut self, result: Result<Vec<DeviceSnapshot>, DeviceError>)
        requires
            old(self).well_formed(),
        ensures
            final(self).well_formed(),
            final(self)@ == match result {
                Ok(devices) => old(self)@.scanned(snapshot_views(devices@)),
                Err(e) => (TuiData { devices: seq![], ..old(self)@ }).saying(
                    "scan failed: "@ + e@.message,
                ),
            },
    {
        match result {
            Ok(devices) => {
                let mut devices = devices;
                self.snapshot_cache.apply(devices.as_mut_slice());
                self.devices = devices;
                if self.selected_device >= self.devices.len() {
                    self.selected_device = 0;
                    self.target_dirty = false;
                }
                self.normalize_target();
                if self.devices.len() == 0 {
                    self.status = "no supported device found".to_owned();
                } else {
                    let mut status = decimal_text(self.devices.len() as u128);
                    status.append(" device(s), refreshed now");
                    self.status = status;
                }
            },
            Err(e) => {
                self.devices = Vec::new();
                let mut status = "scan failed: ".to_owned();
                status.append(e.message.as_str());
                self.status = status;
                assert(snapshot_views(self.devices@) =~= seq![]);
            },
        }
    }

    /// Whether to look for devices that may not be opened.
    pub fn wants_access_check(&self) -> (r: bool)
        ensures
            r == (self@.access_prompt is None && !self.access_prompt_dismissed),
    {
        self.access_prompt.is_none() && !self.access_prompt_dismissed
    }

    /// Takes in the devices that may not be opened.
    pub fn refresh_access_prompt(&mut self, candidates: Vec<HidAccessCandidate>)
        ensures
            final(self).snapshot_cache == old(self).snapshot_cache,
            final(self)@ == old(self)@.access_checked(access_views(candidates@)),
    {
        if self.access_prompt.is_some() || self.access_prompt_dismissed || candidates.len() == 0 {
            return;
        }
        let mut status = decimal_text(candidates.len() as u128);
        status.append(" supported hidraw path(s) need access");
        self.status = status;
        self.access_prompt = Some(AccessPrompt { candidates });
    }

    /// Closes the question about access for good.
    pub fn dismiss_access_prompt(&mut self)
        ensures
            final(self).snapshot_cache == old(self).snapshot_cache,
            final(self)@ == (TuiData {
                access_prompt: None,
                access_prompt_dismissed: true,
                ..old(self)@
            }).saying("hidraw access setup skipped"@),
    {
        self.access_prompt = None;
        self.access_prompt_dismissed = true;
        self.status = "hidraw access setup skipped".to_owned();
    }

    /// Takes in how setting up access went: where it went well the question is
    /// closed, and may come again.
    pub fn on_access_setup(&mut self, failure: Option<DeviceError>)
        ensures
            final(self).snapshot_cache == old(self).snapshot_cache,
            final(self)@ == match failure {
                None => (TuiData {
                    access_prompt: None,
                    access_prompt_dismissed: false,
                    ..old(self)@
                }),
                Some(e) => old(self)@.saying("hidraw access setup failed: "@ + e@.full()),
            },
    {
        match failure {
            None => {
                self.access_prompt = None;
                self.access_prompt_dismissed = false;
            },
            Some(e) => {
                let mut status = "hidraw access setup failed: ".to_owned();
                status.append(e.full_text().as_str());
                self.status = status;
            },
        }
    }

    /// Notes that the display is fresh.
    pub fn refreshed(&mut self, now: u128)
        ensures
            final(self).snapshot_cache == old(self).snapshot_cache,
            final(self)@ == (TuiData { last_refresh: now, ..old(self)@ }),
    {
        self.last_refresh = now;
    }

    /// The device that is selected.
    pub fn selected_device(&self) -> (r: Option<&DeviceSnapshot>)
        ensures
            match r {
                Some(device) => self@.selected() == Some(device@),
                None => self@.selected() is None,
            },
    {
        if self.selected_device < self.devices.len() {
            Some(&self.devices[self.selected_device])
        } else {
            None
        }
    }

    /// Moves the selection.
    pub fn move_device(&mut self, delta: isize)
        ensures
            final(self).snapshot_cache == old(self).snapshot_cache,
            final(self)@ == old(self)@.device_moved(delta as int),
    {
        if self.devices.len() == 0 {
            return;
        }
        self.selected_device = wrap_index(self.selected_device, self.devices.len(), delta);
        self.target_dirty = false;
        self.normalize_target();
    }

    /// Moves the target.
    pub fn move_rate(&mut self, delta: isize)
        ensures
            final(self).snapshot_cache == old(self).snapshot_cache,
            final(self)@ == old(self)@.rate_moved(delta as int),
    {
        if self.selected_device >= self.devices.len() {
            return;
        }
        let device = &self.devices[self.selected_device];
        if device.supported_rates.len() == 0 {
            return;
        }
        let current = find_rate(&device.supported_rates, self.target_rate);
        let next = wrap_index(current, device.supported_rates.len(), delta);
        self.target_rate = Some(device.supported_rates[next]);
        self.target_dirty = true;
    }

    /// Takes the current rate as target.
    pub fn sync_target_to_current(&mut self)
        ensures
            final(self).snapshot_cache == old(self).snapshot_cache,
            final(self)@ == old(self)@.synced(),
    {
        if self.selected_device < self.devices.len() {
            if let Some(rate) = self.devices[self.selected_device].current_rate {
                self.target_rate = Some(rate);
                self.target_dirty = false;
            }
        }
    }

    /// Sees to it that the target is one that the selected device offers.
    pub fn normalize_target(&mut self)
        ensures
            final(self).snapshot_cache == old(self).snapshot_cache,
            final(self)@ == old(self)@.with_target(),
    {
        if self.selected_device >= self.devices.len() {
            self.target_rate = None;
            self.target_dirty = false;
            return;
        }
        let device = &self.devices[self.selected_device];
        if device.supported_rates.len() == 0 {
            self.target_rate = None;
            self.target_dirty = false;
            return;
        }
        if self.target_dirty {
            if let Some(rate) = self.target_rate {
                if lists_rate(&device.supported_rates, rate) {
                    return;
                }
            }
        }
        self.target_rate = offered_rate(device);
        self.target_dirty = false;
    }

    /// Asks for the resolution of the selected device: the path of the device
    /// to read it from, where it has one.
    pub fn open_dpi_prompt(&mut self) -> (path: Option<String>)
        ensures
            final(self).snapshot_cache == old(self).snapshot_cache,
            match old(self)@.selected() {
                None => path is None && final(self)@ == old(self)@.saying("no device selected"@),
                Some(device) => if device.protocol.supports_dpi() {
                    maybe_text(path) == Some(device.path) && final(self)@ == old(self)@
                } else {
                    path is None && final(self)@ == old(self)@.saying(
                        "DPI is not supported for "@ + device.protocol.spec_text(),
                    )
                },
            },
    {
        if self.selected_device >= self.devices.len() {
            self.status = "no device selected".to_owned();
            return None;
        }
        let device = &self.devices[self.selected_device];
        if device.protocol.supports_dpi() {
            return Some(device.path.clone());
        }
        let mut status = "DPI is not supported for ".to_owned();
        status.append(device.protocol.text());
        self.status = status;
        None
    }

    /// Takes in the resolution that was read, and asks for a new one.
    pub fn on_dpi_read(&mut self, result: Result<u16, DeviceError>, now: u128)
        ensures
            final(self).snapshot_cache == old(self).snapshot_cache,
            final(self)@ == match result {
                Ok(current) => (TuiData {
                    dpi_prompt: Some(
                        DpiData {
                            current,
                            input: decimal(current as nat),
                            error: None,
                            replace_on_input: true,
                        },
                    ),
                    last_refresh: now,
                    ..old(self)@
                }).saying(decimal(current as nat) + " DPI"@),
                Err(e) => old(self)@.saying("DPI read failed: "@ + e@.message),
            },
    {
        match result {
            Ok(current) => {
                self.dpi_prompt = Some(
                    DpiPrompt {
                        current,
                        input: decimal_text(current as u128),
                        error: None,
                        replace_on_input: true,
                    },
                );
                let mut status = decimal_text(current as u128);
                status.append(" DPI");
                self.status = status;
                self.last_refresh = now;
            },
            Err(e) => {
                let mut status = "DPI read failed: ".to_owned();
                status.append(e.message.as_str());
                self.status = status;
            },
        }
    }

    /// Closes the question for a resolution.
    pub fn dismiss_dpi_prompt(&mut self)
        ensures
            final(self).snapshot_cache == old(self).snapshot_cache,
            final(self)@ == (TuiData { dpi_prompt: None, ..old(self)@ }).saying(
                "DPI change cancelled"@,
            ),
    {
        self.dpi_prompt = None;
        self.status = "DPI change cancelled".to_owned();
    }

    /// Types a digit: the first replaces what stood there, and none is taken
    /// once there are five bytes.
    pub fn push_dpi_digit(&mut self, digit: char)
        ensures
            final(self).snapshot_cache == old(self).snapshot_cache,
            final(self)@ == (TuiData {
                dpi_prompt: match old(self)@.dpi_prompt {
                    None => None,
                    Some(prompt) => Some(prompt.typed(digit)),
                },
                ..old(self)@
            }),
    {
        if let Some(prompt) = self.dpi_prompt.take() {
            let mut prompt = prompt;
            if prompt.replace_on_input {
                prompt.input = String::new();
                prompt.replace_on_input = false;
            }
            if prompt.input.as_str().as_bytes().len() < 5 {
                prompt.input.push(digit);
            }
            prompt.error = None;
            self.dpi_prompt = Some(prompt);
        }
    }

    /// Takes the last digit back, or all where the next would replace them.
    pub fn remove_dpi_digit(&mut self)
        ensures
            final(self).snapshot_cache == old(self).snapshot_cache,
            final(self)@ == (TuiData {
                dpi_prompt: match old(self)@.dpi_prompt {
                    None => None,
                    Some(prompt) => Some(prompt.rubbed()),
                },
                ..old(self)@
            }),
    {
        if let Some(prompt) = self.dpi_prompt.take() {
            let mut prompt = prompt;
            if prompt.replace_on_input {
                prompt.input = String::new();
                prompt.replace_on_input = false;
                assert(prompt.input@ =~= seq![]);
            } else {
                let len = prompt.input.as_str().unicode_len();
                if len > 0 {
                    let ghost before = prompt.input@;
                    let shorter = prompt.input.as_str().substring_char(0, len - 1).to_owned();
                    prompt.input = shorter;
                    assert(prompt.input@ =~= before.drop_last());
                }
            }
            prompt.error = None;
            self.dpi_prompt = Some(prompt);
        }
    }

    /// Takes all digits back.
    pub fn clear_dpi_input(&mut self)
        ensures
            final(self).snapshot_cache == old(self).snapshot_cache,
            final(self)@ == (TuiData {
                dpi_prompt: match old(self)@.dpi_prompt {
                    None => None,
                    Some(prompt) => Some(
                        DpiData {
                            current: prompt.current,
                            input: seq![],
                            error: None,
                            replace_on_input: false,
                        },
                    ),
                },
                ..old(self)@
            }),
    {
        if let Some(prompt) = self.dpi_prompt.take() {
            let mut prompt = prompt;
            prompt.input = String::new();
            prompt.replace_on_input = false;
            prompt.error = None;
            assert(prompt.input@ =~= seq![]);
            self.dpi_prompt = Some(prompt);
        }
    }
}

impl DpiData {
    /// The question after a digit was typed.
    pub open spec fn typed(self, digit: char) -> DpiData {
        let input = if self.replace_on_input {
            seq![]
        } else {
            self.input
        };
        DpiData {
            current: self.current,
            input: if encode_utf8(input).len() < 5 {
                input.push(digit)
            } else {
                input
            },
            error: None,
            replace_on_input: false,
        }
    }

    /// The question after the last digit was taken back.
    pub open spec fn rubbed(self) -> DpiData {
        DpiData {
            current: self.current,
            input: if self.replace_on_input {
                seq![]
            } else if self.input.len() > 0 {
                self.input.drop_last()
            } else {
                self.input
            },
            error: None,
            replace_on_input: false,
        }
    }

    /// The resolution that was typed: a positive whole number.
    pub open spec fn asked(self) -> Option<u16> {
        match number(self.input, 10, 65535) {
            Ok(n) => if n > 0 {
                Some(n as u16)
            } else {
                None
            },
            Err(_) => None,
        }
    }

    /// The question with an error; the next digit replaces what stands there.
    pub open spec fn refused(self, error: Seq<char>) -> DpiData {
        DpiData { error: Some(error), replace_on_input: true, ..self }
    }
}

/// What comes of asking for the typed resolution.
pub struct DpiAskedData {
    pub next: TuiData,
    pub order: Option<(Seq<char>, Seq<char>, u16)>,
}

impl TuiData {
    /// The state with another question for a resolution.
    pub open spec fn with_dpi(self, prompt: Option<DpiData>) -> TuiData {
        TuiData { dpi_prompt: prompt, ..self }
    }

    /// The state and the order after the typed resolution was asked for: the
    /// path and the model of the device, and the resolution.
    pub open spec fn dpi_asked(self) -> DpiAskedData {
        match self.dpi_prompt {
            None => DpiAskedData { next: self, order: None },
            Some(prompt) => match (prompt.asked(), self.selected()) {
                (None, _) => DpiAskedData {
                    next: self.with_dpi(
                        Some(prompt.refused("enter a positive whole-number DPI"@)),
                    ),
                    order: None,
                },
                (Some(_), None) => DpiAskedData {
                    next: self.with_dpi(None).saying("selected device disappeared"@),
                    order: None,
                },
                (Some(dpi), Some(device)) => DpiAskedData {
                    next: self,
                    order: Some((device.path, device.model_name, dpi)),
                },
            },
        }
    }

    /// The state after a resolution was written: the question is closed where
    /// it reads back.
    pub open spec fn dpi_written(
        self,
        model_name: Seq<char>,
        requested: u16,
        result: Result<u16, crate::error::ErrorText>,
        now: u128,
    ) -> TuiData {
        match result {
            Ok(after) => if after == requested {
                (TuiData { last_refresh: now, ..self }).with_dpi(None).saying(
                    "set "@ + model_name + " to "@ + decimal(after as nat) + " DPI (verified)"@,
                )
            } else {
                match self.dpi_prompt {
                    None => self,
                    Some(prompt) => self.with_dpi(
                        Some(
                            (DpiData { current: after, ..prompt }).refused(
                                "verification failed: requested "@ + decimal(requested as nat)
                                    + ", device reports "@ + decimal(after as nat),
                            ),
                        ),
                    ),
                }
            },
            Err(e) => match self.dpi_prompt {
                None => self,
                Some(prompt) => self.with_dpi(Some(prompt.refused(e.message))),
            },
        }
    }

    /// The state after the asked rate was written, and what to say once the
    /// display is fresh.
    pub open spec fn rate_written(
        self,
        order: RateOrder,
        result: Result<PollingRate, crate::error::ErrorText>,
    ) -> (TuiData, Option<Seq<char>>) {
        match result {
            Ok(after) => if after == order.rate {
                (
                    TuiData {
                        pending_rate: match self.pending_rate {
                            Some(pending) => if pending.is_for(order) {
                                None
                            } else {
                                Some(pending)
                            },
                            None => None,
                        },
                        target_dirty: false,
                        ..self
                    },
                    Some(
                        "set "@ + order.connection.spec_text() + " to "@ + after.spec_text(),
                    ),
                )
            } else {
                (
                    self.with_pending(order),
                    Some(
                        "set queued: "@ + order.connection.spec_text() + " is still "@
                            + after.spec_text(),
                    ),
                )
            },
            Err(e) => (self.with_pending(order).saying("set queued: "@ + e.message), None),
        }
    }

    /// The state after the waiting change was written.
    pub open spec fn pending_written(
        self,
        order: RateOrder,
        result: Result<PollingRate, crate::error::ErrorText>,
    ) -> TuiData {
        match result {
            Ok(after) => if after == order.rate {
                TuiData { pending_rate: None, target_dirty: false, ..self }.saying(
                    "set queued "@ + order.connection.spec_text() + " target to "@
                        + after.spec_text(),
                )
            } else {
                self.saying(
                    "queued "@ + order.rate.spec_text() + ": "@ + order.connection.spec_text()
                        + " is still "@ + after.spec_text(),
                )
            },
            Err(e) => self.saying("queued "@ + order.rate.spec_text() + ": "@ + e.message),
        }
    }
}

impl PendingTuiRateChange {
    /// Whether the change is for the device of an order.
    pub open spec fn is_for(self, order: RateOrder) -> bool {
        self.vid == order.vid && self.pid == order.pid && self.connection == order.connection
    }
}

impl TuiApp {
    /// Asks for the typed resolution, and gives the order to write it.
    pub fn apply_dpi(&mut self) -> (order: Option<DpiOrder>)
        ensures
            final(self).snapshot_cache == old(self).snapshot_cache,
            final(self)@ == old(self)@.dpi_asked().next,
            match order {
                Some(order) => old(self)@.dpi_asked().order == Some(
                    (order.path@, order.model_name@, order.dpi),
                ),
                None => old(self)@.dpi_asked().order is None,
            },
    {
        let prompt = match self.dpi_prompt.take() {
            None => return None,
            Some(prompt) => prompt,
        };
        let requested: u16 = match parse_number(prompt.input.as_str(), 10, 65535) {
            Ok(n) => n as u16,
            Err(_) => 0,
        };
        if requested == 0 {
            let mut prompt = prompt;
            prompt.error = Some("enter a positive whole-number DPI".to_owned());
            prompt.replace_on_input = true;
            self.dpi_prompt = Some(prompt);
            return None;
        }
        if self.selected_device >= self.devices.len() {
            self.dpi_prompt = None;
            self.status = "selected device disappeared".to_owned();
            return None;
        }
        self.dpi_prompt = Some(prompt);
        let device = &self.devices[self.selected_device];
        Some(
            DpiOrder {
                path: device.path.clone(),
                model_name: device.model_name,
                dpi: requested,
            },
        )
    }

    /// Takes in how writing a resolution went.
    pub fn on_dpi_written(
        &mut self,
        model_name: &str,
        requested: u16,
        result: Result<u16, DeviceError>,
        now: u128,
    )
        ensures
            final(self).snapshot_cache == old(self).snapshot_cache,
            final(self)@ == old(self)@.dpi_written(
                model_name@,
                requested,
                crate::devices::outcome(result),
                now,
            ),
    {
        match result {
            Ok(after) => {
                if after == requested {
                    self.dpi_prompt = None;
                    let mut status = "set ".to_owned();
                    status.append(model_name);
                    status.append(" to ");
                    append_decimal(&mut status, after as u128);
                    status.append(" DPI (verified)");
                    self.status = status;
                    self.last_refresh = now;
                } else if let Some(prompt) = self.dpi_prompt.take() {
                    let mut prompt = prompt;
                    let mut error = "verification failed: requested ".to_owned();
                    append_decimal(&mut error, requested as u128);
                    error.append(", device reports ");
                    append_decimal(&mut error, after as u128);
                    prompt.error = Some(error);
                    prompt.current = after;
                    prompt.replace_on_input = true;
                    self.dpi_prompt = Some(prompt);
                }
            },
            Err(e) => {
                if let Some(prompt) = self.dpi_prompt.take() {
                    let mut prompt = prompt;
                    prompt.error = Some(e.message);
                    prompt.replace_on_input = true;
                    self.dpi_prompt = Some(prompt);
                }
            },
        }
    }

    /// Asks for the target, and gives the order to write it.
    pub fn apply_rate(&mut self) -> (order: Option<RateOrder>)
        ensures
            final(self).snapshot_cache == old(self).snapshot_cache,
            (final(self)@, order) == old(self)@.rate_asked(),
    {
        if self.selected_device >= self.devices.len() {
            self.status = "no device selected".to_owned();
            return None;
        }
        let rate = match self.target_rate {
            None => {
                self.status = "no target rate selected".to_owned();
                return None;
            },
            Some(rate) => rate,
        };
        let device = &self.devices[self.selected_device];
        let order = RateOrder {
            vid: device.vid,
            pid: device.pid,
            connection: device.connection,
            rate,
        };
        let current = device.current_rate;
        let cached = device.cached_rate;
        if current == Some(rate) {
            self.target_dirty = false;
            let status = if cached {
                let mut status = "current rate cached as ".to_owned();
                status.append(rate.text().as_str());
                status.append("; no write needed");
                status
            } else {
                let mut status = "already at ".to_owned();
                status.append(rate.text().as_str());
                status
            };
            self.status = status;
            self.clear_pending(order);
            return None;
        }
        if cached || current.is_none() {
            self.queue_pending_rate(order);
            let mut status = "set queued: latest rate read is ".to_owned();
            status.append(rate_text(current).as_str());
            self.status = status;
            return None;
        }
        Some(order)
    }

    /// Takes in how writing the target went, and gives what to say once the
    /// display is fresh.
    pub fn on_rate_written(&mut self, order: RateOrder, result: Result<PollingRate, DeviceError>) -> (status:
        Option<String>)
        ensures
            final(self).snapshot_cache == old(self).snapshot_cache,
            (final(self)@, maybe_text(status)) == old(self)@.rate_written(
                order,
                crate::devices::outcome(result),
            ),
    {
        match result {
            Ok(after) => {
                if after == order.rate {
                    self.clear_pending(order);
                    self.target_dirty = false;
                    let mut status = "set ".to_owned();
                    status.append(order.connection.text());
                    status.append(" to ");
                    status.append(after.text().as_str());
                    Some(status)
                } else {
                    self.queue_pending_rate(order);
                    let mut status = "set queued: ".to_owned();
                    status.append(order.connection.text());
                    status.append(" is still ");
                    status.append(after.text().as_str());
                    Some(status)
                }
            },
            Err(e) => {
                self.queue_pending_rate(order);
                let mut status = "set queued: ".to_owned();
                status.append(e.message.as_str());
                self.status = status;
                None
            },
        }
    }

    /// Looks whether the waiting change can be written now, and gives the order
    /// to write it.
    pub fn try_pending_rate(&mut self) -> (order: Option<RateOrder>)
        ensures
            final(self).snapshot_cache == old(self).snapshot_cache,
            (final(self)@, order) == old(self)@.pending_tried(),
    {
        let pending = match self.pending_rate {
            None => return None,
            Some(pending) => pending,
        };
        let mut i: usize = 0;
        while i < self.devices.len() && !pending.matches(&self.devices[i])
            invariant
                i <= self.devices@.len(),
                *self == *old(self),
                self@.pending_place(pending, i as int) == self@.pending_place(pending, 0),
            decreases self.devices@.len() - i,
        {
            assert(self@.devices[i as int] == self.devices@[i as int]@);
            i = i + 1;
        }
        let mut status = "queued ".to_owned();
        if i == self.devices.len() {
            status.append(pending.target.text().as_str());
            status.append(": device not visible");
            self.status = status;
            return None;
        }
        assert(self@.devices[i as int] == self.devices@[i as int]@);
        let device = &self.devices[i];
        let order = RateOrder {
            vid: device.vid,
            pid: device.pid,
            connection: device.connection,
            rate: pending.target,
        };
        let current = device.current_rate;
        let cached = device.cached_rate;
        if current == Some(pending.target) {
            self.pending_rate = None;
            let mut status = "queued target ".to_owned();
            status.append(pending.target.text().as_str());
            status.append(" is now satisfied");
            self.status = status;
            return None;
        }
        if cached || current.is_none() {
            status.append(pending.target.text().as_str());
            status.append(": latest rate read is ");
            status.append(rate_text(current).as_str());
            self.status = status;
            return None;
        }
        Some(order)
    }

    /// Takes in how writing the waiting change went.
    pub fn on_pending_written(&mut self, order: RateOrder, result: Result<PollingRate, DeviceError>)
        ensures
            final(self).snapshot_cache == old(self).snapshot_cache,
            final(self)@ == old(self)@.pending_written(order, crate::devices::outcome(result)),
    {
        match result {
            Ok(after) => {
                if after == order.rate {
                    self.pending_rate = None;
                    self.target_dirty = false;
                    let mut status = "set queued ".to_owned();
                    status.append(order.connection.text());
                    status.append(" target to ");
                    status.append(after.text().as_str());
                    self.status = status;
                } else {
                    let mut status = "queued ".to_owned();
                    status.append(order.rate.text().as_str());
                    status.append(": ");
                    status.append(order.connection.text());
                    status.append(" is still ");
                    status.append(after.text().as_str());
                    self.status = status;
                }
            },
            Err(e) => {
                let mut status = "queued ".to_owned();
                status.append(order.rate.text().as_str());
                status.append(": ");
                status.append(e.message.as_str());
                self.status = status;
            },
        }
    }

    /// Lets a change wait for its device.
    fn queue_pending_rate(&mut self, order: RateOrder)
        ensures
            final(self).snapshot_cache == old(self).snapshot_cache,
            final(self)@ == old(self)@.with_pending(order),
    {
        self.pending_rate = Some(
            PendingTuiRateChange {
                vid: order.vid,
                pid: order.pid,
                connection: order.connection,
                target: order.rate,
            },
        );
    }

    /// Drops the change that waits for the device of an order.
    fn clear_pending(&mut self, order: RateOrder)
        ensures
            final(self).snapshot_cache == old(self).snapshot_cache,
            final(self)@ == (TuiData {
                pending_rate: match old(self)@.pending_rate {
                    Some(pending) => if pending.is_for(order) {
                        None
                    } else {
                        Some(pending)
                    },
                    None => None,
                },
                ..old(self)@
            }),
    {
        if let Some(pending) = self.pending_rate {
            if pending.vid == order.vid && pending.pid == order.pid && pending.connection
                == order.connection {
                self.pending_rate = None;
            }
        }
    }
}

} // verus!
