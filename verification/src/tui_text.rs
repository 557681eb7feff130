//! The texts of the terminal interface, and where its questions stand.
use crate::devices::{BatteryStatus, ChargeState, PollingRate};
use crate::interfaces::{access_views, append_ids, ids_text, AccessData, HidAccessCandidate};
use crate::snapshots::{DeviceSnapshot, SnapshotData};
use crate::text::{append_decimal, append_hex4, decimal, decimal_text, hex4, texts};
use crate::tui::{device_is_unavailable, is_unavailable, TuiApp, TuiData, CHARGING_ICON};
use crate::watch::{rate_text, rate_words};
use crate::watcher::{elapsed_since, since, NANOS_PER_MILLI};
use vstd::prelude::*;

verus! {

/// The level of a battery in words.
pub open spec fn level_words(battery: BatteryStatus) -> Seq<char> {
    match battery.level_percent {
        Some(level) => decimal(level as nat) + "%"@,
        None => "level unknown"@,
    }
}

/// The level of a battery in words.
pub fn battery_level_text(battery: BatteryStatus) -> (s: String)
    ensures
        s@ == level_words(battery),
{
    match battery.level_percent {
        Some(level) => {
            let mut s = decimal_text(level as u128);
            s.append("%");
            s
        },
        None => "level unknown".to_owned(),
    }
}

/// The battery of a device in few words.
pub open spec fn power_words(device: SnapshotData) -> Seq<char> {
    match device.battery {
        None => if device.battery_error is Some {
            "error"@
        } else {
            "-"@
        },
        Some(battery) => match battery.charge_state {
            ChargeState::Charging => level_words(battery) + " "@ + CHARGING_ICON@,
            ChargeState::Full => level_words(battery) + " full"@,
            ChargeState::Discharging | ChargeState::Unknown => level_words(battery),
            ChargeState::Raw(raw) => if battery.level_percent is None {
                "raw "@ + decimal(raw as nat)
            } else {
                level_words(battery)
            },
        },
    }
}

/// The battery of a device in few words.
pub fn power_summary(device: &DeviceSnapshot) -> (s: String)
    ensures
        s@ == power_words(device@),
{
    let battery = match device.battery {
        None => return if device.battery_error.is_some() {
            "error".to_owned()
        } else {
            "-".to_owned()
        },
        Some(battery) => battery,
    };
    let mut text = battery_level_text(battery);
    match battery.charge_state {
        ChargeState::Charging => {
            text.append(" ");
            text.append(CHARGING_ICON);
        },
        ChargeState::Full => {
            text.append(" full");
        },
        ChargeState::Discharging | ChargeState::Unknown => {},
        ChargeState::Raw(raw) => {
            if battery.level_percent.is_none() {
                text = "raw ".to_owned();
                append_decimal(&mut text, raw as u128);
            }
        },
    }
    text
}

/// The battery of a device, and what it does.
pub open spec fn power_detail_words(device: SnapshotData) -> Seq<char> {
    match device.battery {
        None => device.battery_text(),
        Some(battery) => {
            let words = match battery.charge_state {
                ChargeState::Charging => level_words(battery) + " "@ + CHARGING_ICON@
                    + " charging"@,
                ChargeState::Full => level_words(battery) + " full"@,
                ChargeState::Discharging => level_words(battery) + " discharging"@,
                ChargeState::Unknown => if battery.level_percent is Some {
                    level_words(battery) + " (state unknown)"@
                } else {
                    "state unknown"@
                },
                ChargeState::Raw(raw) => level_words(battery) + " raw state "@ + decimal(
                    raw as nat,
                ),
            };
            if device.cached_battery {
                words + " (cached)"@
            } else {
                words
            }
        },
    }
}

/// The battery of a device, and what it does.
pub fn power_detail(device: &DeviceSnapshot) -> (s: String)
    ensures
        s@ == power_detail_words(device@),
{
    let battery = match device.battery {
        None => return device.battery_text(),
        Some(battery) => battery,
    };
    let mut text = battery_level_text(battery);
    match battery.charge_state {
        ChargeState::Charging => {
            text.append(" ");
            text.append(CHARGING_ICON);
            text.append(" charging");
        },
        ChargeState::Full => {
            text.append(" full");
        },
        ChargeState::Discharging => {
            text.append(" discharging");
        },
        ChargeState::Unknown => {
            if battery.level_percent.is_some() {
                text.append(" (state unknown)");
            } else {
                text = "state unknown".to_owned();
            }
        },
        ChargeState::Raw(raw) => {
            text.append(" raw state ");
            append_decimal(&mut text, raw as u128);
        },
    }
    if device.cached_battery {
        text.append(" (cached)");
    }
    text
}

/// The rate of a device in few words; a star marks one from memory.
pub open spec fn current_words(device: SnapshotData) -> Seq<char> {
    match device.current_rate {
        None => "-"@,
        Some(rate) => if device.cached_rate {
            decimal(rate.hz() as nat) + "*"@
        } else {
            decimal(rate.hz() as nat)
        },
    }
}

/// The rate of a device in few words; a star marks one from memory.
pub fn current_rate_summary(device: &DeviceSnapshot) -> (s: String)
    ensures
        s@ == current_words(device@),
{
    match device.current_rate {
        None => "-".to_owned(),
        Some(rate) => {
            let mut s = decimal_text(rate.hz() as u128);
            if device.cached_rate {
                s.append("*");
            }
            s
        },
    }
}

/// The rate of a device in words.
pub open spec fn current_detail_words(device: SnapshotData) -> Seq<char> {
    if device.current_rate is Some && device.cached_rate {
        rate_words(device.current_rate) + " (cached)"@
    } else {
        rate_words(device.current_rate)
    }
}

/// The rate of a device in words.
pub fn current_rate_detail(device: &DeviceSnapshot) -> (s: String)
    ensures
        s@ == current_detail_words(device@),
{
    let mut s = rate_text(device.current_rate);
    if device.current_rate.is_some() && device.cached_rate {
        s.append(" (cached)");
    }
    s
}

/// How a device fares, in a word.
pub open spec fn status_words(device: SnapshotData) -> Seq<char> {
    if device.cached_rate || device.cached_battery {
        "cached"@
    } else if is_unavailable(device) {
        "asleep"@
    } else if device.read_error is Some {
        "read error"@
    } else if device.battery_error is Some {
        "battery"@
    } else {
        "ok"@
    }
}

/// How a device fares, in a word.
pub fn device_status(device: &DeviceSnapshot) -> (s: &'static str)
    ensures
        s@ == status_words(device@),
{
    if device.cached_rate || device.cached_battery {
        "cached"
    } else if device_is_unavailable(device) {
        "asleep"
    } else if device.read_error.is_some() {
        "read error"
    } else if device.battery_error.is_some() {
        "battery"
    } else {
        "ok"
    }
}

/// How a row of the table is marked.
#[derive(Clone, Copy, Debug, PartialEq, Eq, Structural)]
pub enum RowTone {
    /// The row is selected.
    Selected,
    /// Something is missing or from memory.
    Warning,
    /// All is well.
    Plain,
}

/// How the row of a device is marked.
pub fn row_tone(device: &DeviceSnapshot, selected: bool) -> (r: RowTone)
    ensures
        r == if selected {
            RowTone::Selected
        } else if device@.read_error is Some || device@.battery_error is Some || device.cached_rate
            || device.cached_battery {
            RowTone::Warning
        } else {
            RowTone::Plain
        },
{
    if selected {
        RowTone::Selected
    } else if device.read_error.is_some() || device.battery_error.is_some() || device.cached_rate
        || device.cached_battery {
        RowTone::Warning
    } else {
        RowTone::Plain
    }
}

/// The cells of the row of a device, which stands at `index`.
pub open spec fn row_words(device: SnapshotData, index: nat) -> Seq<Seq<char>> {
    seq![
        decimal(index + 1) + " "@ + device.vendor_name,
        device.model_name,
        ids_text(device.vid, device.pid),
        device.connection.spec_text(),
        device.protocol.spec_text(),
        current_words(device),
        power_words(device),
        device.rates_text(),
        status_words(device),
    ]
}

/// Two ids in words.
pub fn ids_line(vid: u16, pid: u16) -> (s: String)
    ensures
        s@ == ids_text(vid, pid),
{
    let mut s = String::new();
    append_ids(&mut s, vid, pid);
    assert(s@ =~= ids_text(vid, pid));
    s
}

/// The cells of the row of a device, which stands at `index`.
pub fn device_row(device: &DeviceSnapshot, index: usize) -> (cells: Vec<String>)
    ensures
        texts(cells@) == row_words(device@, index as nat),
{
    let mut first = decimal_text(index as u128 + 1);
    first.append(" ");
    first.append(device.vendor_name);
    let mut cells: Vec<String> = Vec::new();
    cells.push(first);
    cells.push(device.model_name.to_owned());
    cells.push(ids_line(device.vid, device.pid));
    cells.push(device.connection.text().to_owned());
    cells.push(device.protocol.text().to_owned());
    cells.push(current_rate_summary(device));
    cells.push(power_summary(device));
    cells.push(device.supported_rates_text());
    cells.push(device_status(device).to_owned());
    assert(texts(cells@) =~= row_words(device@, index as nat));
    cells
}

/// One rate on offer, and whether it is the target.
pub struct RateCell {
    pub text: String,
    pub selected: bool,
}

/// The cells of the rates on offer.
pub open spec fn rate_cell_words(offered: Seq<PollingRate>, target: Option<PollingRate>) -> Seq<
    (Seq<char>, bool),
> {
    offered.map_values(
        |rate: PollingRate| (" "@ + decimal(rate.hz() as nat) + " "@, target == Some(rate)),
    )
}

/// Cells in view.
pub open spec fn cell_views(cells: Seq<RateCell>) -> Seq<(Seq<char>, bool)> {
    cells.map_values(|c: RateCell| (c.text@, c.selected))
}

/// The cells of the rates on offer.
pub fn rate_line(offered: &[PollingRate], target: Option<PollingRate>) -> (cells: Vec<RateCell>)
    ensures
        cell_views(cells@) == rate_cell_words(offered@, target),
{
    let ghost all = rate_cell_words(offered@, target);
    let mut cells: Vec<RateCell> = Vec::new();
    assert(cell_views(cells@) =~= all.take(0));
    for i in 0..offered.len()
        invariant
            all == rate_cell_words(offered@, target),
            cell_views(cells@) == all.take(i as int),
    {
        let ghost before = cells@;
        let mut text = " ".to_owned();
        append_decimal(&mut text, offered[i].hz() as u128);
        text.append(" ");
        let cell = RateCell { text, selected: target == Some(offered[i]) };
        cells.push(cell);
        assert(cell_views(cells@) =~= cell_views(before).push((cell.text@, cell.selected)));
        assert(all.take(i + 1) =~= all.take(i as int).push(all[i as int]));
    }
    assert(all.take(offered@.len() as int) =~= all);
    cells
}

/// A note under the rates: what it is about, and what it says.
pub struct Note {
    pub label: &'static str,
    pub text: String,
}

/// Notes in view.
pub open spec fn note_views(notes: Seq<Note>) -> Seq<(Seq<char>, Seq<char>)> {
    notes.map_values(|n: Note| (n.label@, n.text@))
}

/// The notes on a device: a sleeping mouse is not called an error.
pub open spec fn note_words(device: SnapshotData) -> Seq<(Seq<char>, Seq<char>)> {
    let first = if is_unavailable(device) {
        seq![("unavailable "@, "mouse may be asleep; move it or press r to retry"@)]
    } else {
        match device.read_error {
            Some(error) => seq![("read error "@, error)],
            None => seq![],
        }
    };
    match device.battery_error {
        Some(error) => first.push(("battery error "@, error)),
        None => first,
    }
}

/// What the panel for the selected device shows.
pub struct RatePanel {
    pub current: String,
    pub target: String,
    pub target_dirty: bool,
    pub power: String,
    pub rates: Vec<RateCell>,
    pub notes: Vec<Note>,
}

/// The notes on a device.
pub fn device_notes(device: &DeviceSnapshot) -> (notes: Vec<Note>)
    ensures
        note_views(notes@) == note_words(device@),
{
    let mut notes: Vec<Note> = Vec::new();
    if device_is_unavailable(device) {
        notes.push(
            Note {
                label: "unavailable ",
                text: "mouse may be asleep; move it or press r to retry".to_owned(),
            },
        );
    } else if let Some(error) = &device.read_error {
        notes.push(Note { label: "read error ", text: error.clone() });
    }
    if let Some(error) = &device.battery_error {
        notes.push(Note { label: "battery error ", text: error.clone() });
    }
    assert(note_views(notes@) =~= note_words(device@));
    notes
}

/// What the panel for the selected device shows; nothing where none is.
pub fn rate_panel(app: &TuiApp) -> (panel: Option<RatePanel>)
    ensures
        match (app@.selected(), panel) {
            (None, panel) => panel is None,
            (Some(device), Some(panel)) => {
                &&& panel.current@ == current_detail_words(device)
                &&& panel.target@ == match app.target_rate {
                    Some(rate) => rate.spec_text(),
                    None => "none"@,
                }
                &&& panel.target_dirty == app.target_dirty
                &&& panel.power@ == power_detail_words(device)
                &&& cell_views(panel.rates@) == rate_cell_words(
                    device.supported_rates,
                    app.target_rate,
                )
                &&& note_views(panel.notes@) == note_words(device)
            },
            (Some(_), None) => false,
        },
{
    match app.selected_device() {
        None => None,
        Some(device) => Some(
            RatePanel {
                current: current_rate_detail(device),
                target: match app.target_rate {
                    Some(rate) => rate.text(),
                    None => "none".to_owned(),
                },
                target_dirty: app.target_dirty,
                power: power_detail(device),
                rates: rate_line(&device.supported_rates, app.target_rate),
                notes: device_notes(device),
            },
        ),
    }
}

/// How long the display stays as it is from now on, in words.
pub open spec fn refresh_words(app: TuiData, now: u128) -> Seq<char> {
    let interval = app.interval_ms() as int;
    let gone = (since(now, app.last_refresh) / NANOS_PER_MILLI) as int;
    "auto-refresh "@ + decimal(
        (if gone < interval {
            interval - gone
        } else {
            0
        }) as nat,
    ) + " ms ("@ + if app.focused {
        "focused"@
    } else {
        "unfocused"@
    } + ")"@
}

/// How long the display stays as it is from now on, in words.
pub fn refresh_line(app: &TuiApp, now: u128) -> (s: String)
    ensures
        s@ == refresh_words(app@, now),
{
    let interval = app.refresh_interval() as u128;
    let gone = elapsed_since(now, app.last_refresh) / NANOS_PER_MILLI;
    let left: u128 = if gone < interval {
        interval - gone
    } else {
        0
    };
    let mut s = "auto-refresh ".to_owned();
    append_decimal(&mut s, left);
    s.append(" ms (");
    s.append(
        if app.focused {
            "focused"
        } else {
            "unfocused"
        },
    );
    s.append(")");
    s
}

/// A device that may not be opened, in words.
pub open spec fn candidate_words(candidate: AccessData) -> Seq<char> {
    "- "@ + candidate.vendor_name + " "@ + candidate.model_name + " "@ + ids_text(
        candidate.vid,
        candidate.pid,
    ) + " "@ + candidate.path
}

/// The devices that may not be opened, in words: four, and how many more.
pub open spec fn candidate_lines(candidates: Seq<AccessData>) -> Seq<Seq<char>> {
    let shown = (if candidates.len() > 4 {
        candidates.take(4)
    } else {
        candidates
    }).map_values(|c: AccessData| candidate_words(c));
    if candidates.len() > 4 {
        shown.push("- ...and "@ + decimal((candidates.len() - 4) as nat) + " more"@)
    } else {
        shown
    }
}

/// The devices that may not be opened, in words: four, and how many more.
pub fn access_lines(candidates: &Vec<HidAccessCandidate>) -> (lines: Vec<String>)
    ensures
        texts(lines@) == candidate_lines(access_views(candidates@)),
{
    let ghost views = access_views(candidates@);
    let ghost all = views.map_values(|c: AccessData| candidate_words(c));
    let count: usize = if candidates.len() > 4 {
        4
    } else {
        candidates.len()
    };
    let mut lines: Vec<String> = Vec::new();
    assert(texts(lines@) =~= all.take(0));
    for i in 0..count
        invariant
            count <= candidates@.len(),
            views == access_views(candidates@),
            all == views.map_values(|c: AccessData| candidate_words(c)),
            texts(lines@) == all.take(i as int),
    {
        let ghost before = lines@;
        let candidate = &candidates[i];
        assert(views[i as int] == candidate@);
        let mut line = "- ".to_owned();
        line.append(candidate.vendor_name);
        line.append(" ");
        line.append(candidate.model_name);
        line.append(" ");
        append_ids(&mut line, candidate.vid, candidate.pid);
        line.append(" ");
        line.append(candidate.path.as_str());
        lines.push(line);
        assert(texts(lines@) =~= texts(before).push(line@));
        assert(all.take(i + 1) =~= all.take(i as int).push(all[i as int]));
    }
    if candidates.len() > 4 {
        let ghost before = lines@;
        let mut line = "- ...and ".to_owned();
        append_decimal(&mut line, (candidates.len() - 4) as u128);
        line.append(" more");
        lines.push(line);
        assert(texts(lines@) =~= texts(before).push(line@));
        assert(views.take(4).map_values(|c: AccessData| candidate_words(c)) =~= all.take(4));
    } else {
        assert(all.take(count as int) =~= all);
    }
    lines
}

/// Whether one pair of ids comes before another.
pub open spec fn ids_before(a: (u16, u16), b: (u16, u16)) -> bool {
    a.0 < b.0 || (a.0 == b.0 && a.1 < b.1)
}

/// Whether one of the candidates has the ids.
pub open spec fn has_ids(candidates: Seq<AccessData>, ids: (u16, u16)) -> bool {
    exists|i: int|
        0 <= i < candidates.len() && (#[trigger] candidates[i]).vid == ids.0 && candidates[i].pid
            == ids.1
}

/// Whether `pairs` holds the ids of the candidates, each once and in order.
pub open spec fn is_id_list(pairs: Seq<(u16, u16)>, candidates: Seq<AccessData>) -> bool {
    &&& forall|i: int, j: int|
        0 <= i < j < pairs.len() ==> ids_before(#[trigger] pairs[i], #[trigger] pairs[j])
    &&& forall|ids: (u16, u16)| #[trigger] pairs.contains(ids) == has_ids(candidates, ids)
}

/// The ids of the candidates, each once and in order.
fn id_list(candidates: &[HidAccessCandidate]) -> (pairs: Vec<(u16, u16)>)
    ensures
        is_id_list(pairs@, access_views(candidates@)),
{
    let ghost views = access_views(candidates@);
    let mut pairs: Vec<(u16, u16)> = Vec::new();
    for n in 0..candidates.len()
        invariant
            views == access_views(candidates@),
            is_id_list(pairs@, views.take(n as int)),
    {
        assert(views[n as int] == candidates@[n as int]@);
        let ids = (candidates[n].vid, candidates[n].pid);
        let ghost before = pairs@;
        let mut place: usize = 0;
        while place < pairs.len() && (pairs[place].0 < ids.0 || (pairs[place].0 == ids.0
            && pairs[place].1 < ids.1))
            invariant
                place <= pairs@.len(),
                pairs@ == before,
                forall|i: int| 0 <= i < place ==> ids_before(#[trigger] pairs@[i], ids),
            decreases pairs@.len() - place,
        {
            place = place + 1;
        }
        if place == pairs.len() || pairs[place].0 != ids.0 || pairs[place].1 != ids.1 {
            pairs.insert(place, ids);
        }
        proof {
            lemma_id_added(before, pairs@, place as int, ids, views, n as int);
        }
    }
    assert(views.take(views.len() as int) =~= views);
    pairs
}

/// Putting one pair of ids in its place keeps the list in order.
proof fn lemma_id_added(
    before: Seq<(u16, u16)>,
    after: Seq<(u16, u16)>,
    place: int,
    ids: (u16, u16),
    candidates: Seq<AccessData>,
    n: int,
)
    requires
        0 <= n < candidates.len(),
        ids == (candidates[n].vid, candidates[n].pid),
        is_id_list(before, candidates.take(n)),
        0 <= place <= before.len(),
        forall|i: int| 0 <= i < place ==> ids_before(#[trigger] before[i], ids),
        place < before.len() ==> !ids_before(before[place], ids),
        after == if place == before.len() || before[place] != ids {
            before.insert(place, ids)
        } else {
            before
        },
    ensures
        is_id_list(after, candidates.take(n + 1)),
{
    let old_part = candidates.take(n);
    let part = candidates.take(n + 1);
    assert forall|i: int, j: int| 0 <= i < j < after.len() implies ids_before(
        #[trigger] after[i],
        #[trigger] after[j],
    ) by {
        if after.len() != before.len() {
            if j < place {
                assert(ids_before(before[i], before[j]));
            } else if j == place {
                assert(ids_before(before[i], ids));
            } else {
                let later = before[j - 1];
                if place < j - 1 {
                    assert(ids_before(before[place], before[j - 1]));
                }
                if i < place {
                    assert(ids_before(before[i], before[j - 1]));
                } else if i > place {
                    assert(ids_before(before[i - 1], before[j - 1]));
                }
            }
        }
    }
    assert forall|x: (u16, u16)| #[trigger] after.contains(x) == has_ids(part, x) by {
        assert(before.contains(x) == has_ids(old_part, x));
        if has_ids(old_part, x) {
            let i = choose|i: int|
                0 <= i < old_part.len() && (#[trigger] old_part[i]).vid == x.0 && old_part[i].pid
                    == x.1;
            assert(part[i] == old_part[i]);
            let k = choose|k: int| 0 <= k < before.len() && before[k] == x;
            if after.len() != before.len() {
                if k < place {
                    assert(after[k] == x);
                } else {
                    assert(after[k + 1] == x);
                }
            }
        }
        if x == ids {
            assert(part[n] == candidates[n]);
            assert(has_ids(part, x));
            assert(after[place] == ids);
        }
        if after.contains(x) && x != ids {
            let k = choose|k: int| 0 <= k < after.len() && after[k] == x;
            if after.len() != before.len() {
                if k < place {
                    assert(before[k] == x);
                } else {
                    assert(before[k - 1] == x);
                }
            }
            assert(before.contains(x));
        }
        if has_ids(part, x) && x != ids {
            let i = choose|i: int|
                0 <= i < part.len() && (#[trigger] part[i]).vid == x.0 && part[i].pid == x.1;
            assert(i < n);
            assert(old_part[i] == part[i]);
        }
    }
}

/// Two ordered lists of the ids of the same candidates are the same list.
pub proof fn law_id_list_is_unique(
    a: Seq<(u16, u16)>,
    b: Seq<(u16, u16)>,
    candidates: Seq<AccessData>,
)
    requires
        is_id_list(a, candidates),
        is_id_list(b, candidates),
    ensures
        a == b,
{
    assert forall|x: (u16, u16)| #[trigger] a.contains(x) == b.contains(x) by {
        assert(a.contains(x) == has_ids(candidates, x));
        assert(b.contains(x) == has_ids(candidates, x));
    }
    lemma_ordered_lists_agree(a, b);
}

proof fn lemma_ordered_lists_agree(a: Seq<(u16, u16)>, b: Seq<(u16, u16)>)
    requires
        forall|i: int, j: int|
            0 <= i < j < a.len() ==> ids_before(#[trigger] a[i], #[trigger] a[j]),
        forall|i: int, j: int|
            0 <= i < j < b.len() ==> ids_before(#[trigger] b[i], #[trigger] b[j]),
        forall|x: (u16, u16)| #[trigger] a.contains(x) == b.contains(x),
    ensures
        a == b,
    decreases a.len(),
{
    if a.len() == 0 {
        if b.len() > 0 {
            assert(b.contains(b[0]));
            assert(a.contains(b[0]));
        }
        assert(a =~= b);
    } else {
        let x = a.last();
        assert(a.contains(x));
        assert(b.contains(x));
        assert(b.len() > 0);
        let y = b.last();
        assert(b.contains(y));
        assert(a.contains(y));
        let i = choose|i: int| 0 <= i < a.len() && a[i] == y;
        let j = choose|j: int| 0 <= j < b.len() && b[j] == x;
        if i < a.len() - 1 {
            assert(ids_before(y, x));
        }
        if j < b.len() - 1 {
            assert(ids_before(x, y));
        }
        assert(x == y);
        let p = a.drop_last();
        let q = b.drop_last();
        assert forall|z: (u16, u16)| #[trigger] p.contains(z) == q.contains(z) by {
            if p.contains(z) {
                let k = choose|k: int| 0 <= k < p.len() && p[k] == z;
                assert(a[k] == z);
                assert(ids_before(a[k], a[a.len() - 1]));
                assert(a.contains(z));
                assert(b.contains(z));
                let m = choose|m: int| 0 <= m < b.len() && b[m] == z;
                assert(m < b.len() - 1);
                assert(q[m] == z);
            }
            if q.contains(z) {
                let k = choose|k: int| 0 <= k < q.len() && q[k] == z;
                assert(b[k] == z);
                assert(ids_before(b[k], b[b.len() - 1]));
                assert(b.contains(z));
                assert(a.contains(z));
                let m = choose|m: int| 0 <= m < a.len() && a[m] == z;
                assert(m < a.len() - 1);
                assert(p[m] == z);
            }
        }
        lemma_ordered_lists_agree(p, q);
        assert(a =~= p.push(x));
        assert(b =~= q.push(y));
    }
}

/// The rule that lets users open the devices with the ids.
pub open spec fn udev_rule(ids: (u16, u16)) -> Seq<char> {
    "SUBSYSTEM==\"hidraw\", ATTRS{idVendor}==\""@ + hex4(ids.0) + "\", ATTRS{idProduct}==\""@ + hex4(
        ids.1,
    ) + "\", TAG+=\"uaccess\"\n"@
}

/// The head of the rules, and the rules for the first `n` pairs of ids.
pub open spec fn udev_rules(pairs: Seq<(u16, u16)>, n: nat) -> Seq<char>
    decreases n,
{
    if n == 0 {
        "# Generated by Orpheus.\n# Grants logged-in users access to supported mouse HID control interfaces.\n"@
    } else {
        udev_rules(pairs, (n - 1) as nat) + udev_rule(pairs[n - 1])
    }
}

/// The rules that let users open the candidates: one for each pair of ids, in
/// order.
pub fn linux_hidraw_udev_rules(candidates: &[HidAccessCandidate]) -> (rules: String)
    ensures
        exists|pairs: Seq<(u16, u16)>| #[trigger]
            is_id_list(pairs, access_views(candidates@)) && rules@ == udev_rules(
                pairs,
                pairs.len(),
            ),
{
    let pairs = id_list(candidates);
    let mut rules = "# Generated by Orpheus.\n# Grants logged-in users access to supported mouse HID control interfaces.\n".to_owned();
    for i in 0..pairs.len()
        invariant
            rules@ == udev_rules(pairs@, i as nat),
    {
        let ghost before = rules@;
        rules.append("SUBSYSTEM==\"hidraw\", ATTRS{idVendor}==\"");
        append_hex4(&mut rules, pairs[i].0);
        rules.append("\", ATTRS{idProduct}==\"");
        append_hex4(&mut rules, pairs[i].1);
        rules.append("\", TAG+=\"uaccess\"\n");
        assert(rules@ =~= before + udev_rule(pairs@[i as int]));
    }
    rules
}

/// A rectangle on the screen, in cells.
#[derive(Clone, Copy, Debug, PartialEq, Eq, Structural)]
pub struct Area {
    pub x: u16,
    pub y: u16,
    pub width: u16,
    pub height: u16,
}

/// A product of cells, but no more than there can be.
pub open spec fn capped_product(a: u16, b: u16) -> int {
    if a * b > u16::MAX {
        u16::MAX as int
    } else {
        a * b
    }
}

/// `a` less `b`, but not less than nothing.
pub open spec fn less(a: int, b: int) -> int {
    if a > b {
        a - b
    } else {
        0
    }
}

/// The rectangle in the middle of another, so many percent wide and so many
/// cells high.
pub fn centered_rect(percent_x: u16, height: u16, area: Area) -> (r: Area)
    requires
        area.x + less(area.width as int, capped_product(area.width, percent_x) / 100) / 2
            <= u16::MAX,
        area.y + less(area.height as int, height as int) / 2 <= u16::MAX,
    ensures
        r.width == capped_product(area.width, percent_x) / 100,
        r.x == area.x + less(area.width as int, r.width as int) / 2,
        r.y == area.y + less(area.height as int, height as int) / 2,
        r.height == if height < area.height {
            height
        } else {
            area.height
        },
{
    assert(0 <= area.width * percent_x <= 65535 * 65535) by (nonlinear_arith)
        requires
            area.width <= 65535,
            percent_x <= 65535,
    ;
    let product: u32 = area.width as u32 * percent_x as u32;
    let width: u16 = if product > u16::MAX as u32 {
        u16::MAX / 100
    } else {
        product as u16 / 100
    };
    let margin_x: u16 = if area.width > width {
        (area.width - width) / 2
    } else {
        0
    };
    let margin_y: u16 = if area.height > height {
        (area.height - height) / 2
    } else {
        0
    };
    Area {
        x: area.x + margin_x,
        y: area.y + margin_y,
        width,
        height: if height < area.height {
            height
        } else {
            area.height
        },
    }
}

} // verus!
