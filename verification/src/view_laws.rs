//! The contracts speak of values in view. A view tells all that its value
//! holds: nothing that the library keeps of a device, a rule or a screen is left
//! out of what is stated of it.
use crate::config::AppRule;
use crate::courses::Run;
use crate::devices::{outcome, ConnectionKind, ModelInfo};
use crate::error::{DeviceError, ErrorText};
use crate::gui::{maybe_key, queued_words, GuiState, PendingWorkerRate};
use crate::gwolves::{gwolves_data, ModelInfo as GwolvesModel};
use crate::hid_device::byte_lists;
use crate::interfaces::{
    access_views, ids_text, interface_views, AttemptFailure, FailureData, HidAccessCandidate,
    HidInterface, SearchTarget, TargetData,
};
use crate::models::{found_data, models_data};
use crate::probing::{
    maybe_outcome, maybe_str, DeviceProbe, Diagnosis, InterfaceProbe, OutcomeData, ProbeOutcome,
};
use crate::process_rules::ActiveRule;
use crate::protocols::{IpiDpiConfig, ProtocolDevice};
use crate::reports::report_outcome;
use crate::snapshots::{snapshot_views, DeviceSnapshot, DeviceSnapshotKey, SnapshotData};
use crate::table::{entry_map, is_among, key_set, Table};
use crate::text::{maybe_text, texts};
use crate::transport::{
    read_outcome, requests, status_outcome, DeviceTransport, Request, SentRequest,
};
use crate::tui::{DpiPrompt, TuiApp};
use crate::tui_text::{cell_views, note_views, Note, RateCell};
use crate::watch::{
    queued_wish_words, target_views, wish_view, ActionData, DeviceTarget, Watch, WatchAction,
};
use crate::watcher::{
    known_trend, rule_view, trend, BatteryTrendTracker, DesiredData, DesiredRate, DesiredReason,
    DeviceKey, KeyData, PendingRateChange, PendingRateQueue,
};
use vstd::prelude::*;

verus! {

/// A rule, configured or in force, in view.
pub proof fn law_rules_in_view(rule: ActiveRule, configured: AppRule)
    ensures
        rule@.exe == rule.exe@ && rule@.rate == rule.rate && rule@.restore == rule.restore,
        configured@.exe == configured.exe@ && configured@.rate == configured.rate
            && configured@.restore == configured.restore,
        rule_view(Some(&rule)) == Some(rule@),
        rule_view(None) is None,
{
}

/// A wish in view.
pub proof fn law_wishes_in_view(wish: DesiredRate)
    ensures
        wish@.rate == wish.rate,
        wish.reason matches DesiredReason::Rule { exe } ==> wish@.exe == Some(exe@),
        wish.reason is Restore ==> wish@.exe is None,
{
}

/// A snapshot in view.
pub proof fn law_snapshots_in_view(s: DeviceSnapshot)
    ensures
        s@.path == s.path@ && s@.vid == s.vid && s@.pid == s.pid,
        s@.product_name == maybe_text(s.product_name),
        s@.vendor_name == s.vendor_name@ && s@.model_name == s.model_name@,
        s@.connection == s.connection && s@.protocol == s.protocol,
        s@.supported_rates == s.supported_rates@,
        s@.current_rate == s.current_rate && s@.cached_rate == s.cached_rate,
        s@.battery == s.battery && s@.cached_battery == s.cached_battery,
        s@.battery_error == maybe_text(s.battery_error),
        s@.read_error == maybe_text(s.read_error),
{
}

/// An answer of a device in view.
pub proof fn law_probes_in_view(probe: DeviceProbe)
    ensures
        probe@.protocol == probe.protocol,
        probe@.current_rate == probe.current_rate,
        probe@.battery == probe.battery,
        probe@.battery_error == maybe_text(probe.battery_error),
        probe@.read_error == maybe_text(probe.read_error),
{
}

/// A text that may be missing, and texts in a list, in view.
pub proof fn law_texts_in_view(text: String, list: Seq<String>, i: int)
    requires
        0 <= i < list.len(),
    ensures
        maybe_text(Some(text)) == Some(text@),
        maybe_text(None) is None,
        texts(list).len() == list.len(),
        texts(list)[i] == list[i]@,
{
}

/// An error in view.
pub proof fn law_errors_in_view(error: DeviceError)
    ensures
        error@.message == error.message@,
        error@.cause == maybe_text(error.cause),
{
}

/// A step of a diagnosis in view.
pub proof fn law_steps_in_view(outcome: ProbeOutcome)
    ensures
        outcome matches ProbeOutcome::Passed { detail, elapsed_ms } ==> outcome@ == (
        OutcomeData::Passed { detail: detail@, elapsed_ms }),
        outcome matches ProbeOutcome::Skipped { reason } ==> outcome@ == (OutcomeData::Skipped {
            reason: reason@,
        }),
        outcome matches ProbeOutcome::Error { error, elapsed_ms } ==> outcome@ == (
        OutcomeData::Error { error: error@, elapsed_ms }),
{
}

/// A model in view.
pub proof fn law_models_in_view(model: ModelInfo, models: Seq<ModelInfo>, i: int)
    requires
        0 <= i < models.len(),
    ensures
        model@.vendor_name == model.vendor_name@ && model@.name == model.name@,
        model@.vid == model.vid && model@.wired_pid == model.wired_pid,
        model@.wireless_pid == model.wireless_pid && model@.receiver_pid == model.receiver_pid,
        model@.receiver_idvd_pid == model.receiver_idvd_pid,
        model@.protocol == model.protocol,
        model@.wired_rates == model.wired_rates@,
        model@.wireless_rates == model.wireless_rates@,
        model@.receiver_rates == model.receiver_rates@,
        models_data(models).len() == models.len(),
        models_data(models)[i] == models[i]@,
{
}

/// An interface, what is searched for, and how a try failed, in view.
pub proof fn law_interfaces_in_view(
    interface: HidInterface,
    target: SearchTarget,
    failure: AttemptFailure,
    candidate: HidAccessCandidate,
)
    ensures
        interface@.path == interface.path@,
        interface@.vid == interface.vid && interface@.pid == interface.pid,
        interface@.usage_page == interface.usage_page && interface@.usage == interface.usage,
        interface@.interface_number == interface.interface_number,
        target is Any <==> target@ is Any,
        target matches SearchTarget::Ids { vid, pid } ==> target@ == (TargetData::Ids { vid, pid }),
        target matches SearchTarget::Path { path } ==> target@ == (TargetData::Path {
            path: path@,
        }),
        failure matches AttemptFailure::NotOpened { error } ==> failure@ == (
        FailureData::NotOpened { error: error@ }),
        failure matches AttemptFailure::NoAnswer { error } ==> failure@ == (
        FailureData::NoAnswer { error: error@ }),
        candidate@.path == candidate.path@,
        candidate@.vid == candidate.vid && candidate@.pid == candidate.pid,
        candidate@.vendor_name == candidate.vendor_name@,
        candidate@.model_name == candidate.model_name@,
{
}

/// Lists are seen one for one and in order.
pub proof fn law_lists_in_view(
    snapshots: Seq<DeviceSnapshot>,
    interfaces: Seq<HidInterface>,
    candidates: Seq<HidAccessCandidate>,
    targets: Seq<DeviceTarget>,
    log: Seq<SentRequest>,
    i: int,
)
    ensures
        snapshot_views(snapshots).len() == snapshots.len(),
        0 <= i < snapshots.len() ==> snapshot_views(snapshots)[i] == snapshots[i]@,
        interface_views(interfaces).len() == interfaces.len(),
        0 <= i < interfaces.len() ==> interface_views(interfaces)[i] == interfaces[i]@,
        access_views(candidates).len() == candidates.len(),
        0 <= i < candidates.len() ==> access_views(candidates)[i] == candidates[i]@,
        target_views(targets).len() == targets.len(),
        0 <= i < targets.len() ==> target_views(targets)[i] == (
            targets[i].target,
            targets[i].reason@,
        ),
        requests(log).len() == log.len(),
        0 <= i < log.len() ==> requests(log)[i] == log[i]@,
{
}

/// The cells and notes of the terminal are seen one for one and in order.
pub proof fn law_cells_in_view(cells: Seq<RateCell>, notes: Seq<Note>, i: int)
    ensures
        cell_views(cells).len() == cells.len(),
        0 <= i < cells.len() ==> cell_views(cells)[i] == (cells[i].text@, cells[i].selected),
        note_views(notes).len() == notes.len(),
        0 <= i < notes.len() ==> note_views(notes)[i] == (notes[i].label@, notes[i].text@),
{
}

/// A request that was noted in view.
pub proof fn law_requests_in_view(request: SentRequest)
    ensures
        request matches SentRequest::SendFeature { report_id, payload } ==> request@ == (
        Request::SendFeature { report_id, payload: payload@ }),
        request matches SentRequest::GetFeature { report_id, payload_len } ==> request@ == (
        Request::GetFeature { report_id, payload_len: payload_len as nat }),
        request matches SentRequest::WriteOutput { report_id, payload } ==> request@ == (
        Request::WriteOutput { report_id, payload: payload@ }),
        request matches SentRequest::ReadInput { report_id, payload_len, timeout_ms } ==> request@
            == (Request::ReadInput {
            report_id,
            payload_len: payload_len as nat,
            timeout_ms: timeout_ms as int,
        }),
        request matches SentRequest::Sleep { milliseconds } ==> request@ == (Request::Sleep {
            milliseconds: milliseconds as nat,
        }),
{
}

/// Keys and changes that wait, in view.
pub proof fn law_changes_in_view(
    key: DeviceKey,
    shown: DeviceSnapshotKey,
    change: PendingRateChange,
    queue: PendingRateQueue,
    at: KeyData,
)
    ensures
        key@.path == key.path@ && key@.vid == key.vid && key@.pid == key.pid,
        shown@.vid == shown.vid && shown@.pid == shown.pid && shown@.connection == shown.connection,
        change@.target == change.target && change@.reason == change.reason@,
        change@.attempts == change.attempts,
        change@.last_error == maybe_text(change.last_error),
        queue@.contains_key(at) <==> queue.changes@.contains_key(at),
        queue@.contains_key(at) ==> queue@[at] == queue.changes@[at]@,
{
}

/// A table in view holds for each key what was put there last.
pub proof fn law_tables_in_view<K: View, V>(
    table: Table<K, V>,
    entries: Seq<(K, V)>,
    key: K,
    value: V,
    keys: Seq<K>,
    i: int,
)
    ensures
        table@ == entry_map(table.entries@),
        entry_map(Seq::<(K, V)>::empty()) == Map::<K::V, V>::empty(),
        entry_map(entries.push((key, value))) == entry_map(entries).insert(key@, value),
        0 <= i < keys.len() ==> key_set(keys).contains(keys[i]@),
        key_set(keys.push(key)) == key_set(keys).insert(key@),
        key_set(Seq::<K>::empty()) == Set::<K::V>::empty(),
        forall|at: K::V| is_among(keys, at) <==> #[trigger] key_set(keys).contains(at),
{
    let more = keys.push(key);
    assert forall|at: K::V| key_set(more).contains(at) <==> key_set(keys).insert(key@).contains(
        at,
    ) by {
        if is_among(keys, at) {
            let k = choose|k: int| 0 <= k < keys.len() && #[trigger] keys[k]@ == at;
            assert(more[k]@ == at);
        }
        if at == key@ {
            assert(more[keys.len() as int]@ == at);
        }
        if is_among(more, at) {
            let k = choose|k: int| 0 <= k < more.len() && #[trigger] more[k]@ == at;
            assert(k < keys.len() ==> keys[k]@ == at);
        }
    }
    assert(key_set(more) =~= key_set(keys).insert(key@));
    assert(key_set(Seq::<K>::empty()) =~= Set::<K::V>::empty());
    assert(entries.push((key, value)).drop_last() =~= entries);
}

/// The terminal in view.
pub proof fn law_terminal_in_view(app: TuiApp, prompt: DpiPrompt)
    ensures
        app@.devices == snapshot_views(app.devices@),
        app@.memory == app.snapshot_cache.entries@,
        app@.pending_rate == app.pending_rate,
        app@.selected_device == app.selected_device,
        app@.target_rate == app.target_rate && app@.target_dirty == app.target_dirty,
        app@.focused == app.focused,
        app@.status == app.status@,
        app@.last_refresh == app.last_refresh,
        app@.access_prompt_dismissed == app.access_prompt_dismissed,
        app.access_prompt matches Some(prompt) ==> app@.access_prompt == Some(
            access_views(prompt.candidates@),
        ),
        app.access_prompt is None ==> app@.access_prompt is None,
        app.dpi_prompt matches Some(prompt) ==> app@.dpi_prompt == Some(prompt@),
        app.dpi_prompt is None ==> app@.dpi_prompt is None,
        prompt@.current == prompt.current && prompt@.input == prompt.input@,
        prompt@.error == maybe_text(prompt.error),
        prompt@.replace_on_input == prompt.replace_on_input,
{
}

/// The window in view.
pub proof fn law_window_in_view(state: GuiState)
    ensures
        state@.devices == snapshot_views(state.devices@),
        state.selected_device matches Some(key) ==> state@.selected == Some(key@),
        state.selected_device is None ==> state@.selected is None,
        state@.targets == state.targets@,
        state@.status == state.status@,
        state@.last_error == maybe_text(state.last_error),
        state@.last_refresh == state.last_refresh,
{
}

/// The watcher and its actions in view.
pub proof fn law_watcher_in_view(watch: Watch, action: WatchAction)
    ensures
        watch.last_desired matches Some(wish) ==> watch@.last_desired == Some(wish@),
        watch.last_desired is None ==> watch@.last_desired is None,
        watch@.pending_restore == watch.pending_restore,
        watch.pending_first_device matches Some(wish) ==> watch@.pending_first_device == Some(
            wish@,
        ),
        watch.pending_first_device is None ==> watch@.pending_first_device is None,
        watch@.device_scheduler == watch.device_scheduler,
        watch@.pending_rate_changes == watch.pending_rate_changes@,
        action is Rest <==> action@ is Rest,
        action is AllDevices <==> action@ is AllDevices,
        action matches WatchAction::FirstDevice { desired, write } ==> action@ == (
        ActionData::FirstDevice { desired: desired@, write }),
{
}

/// The trend of a device is that of its own levels.
pub proof fn law_trends_in_view(tracker: BatteryTrendTracker, device: SnapshotData)
    ensures
        ({
            let key = KeyData { path: device.path, vid: device.vid, pid: device.pid };
            &&& tracker.samples().contains_key(key) <==> tracker.histories@.contains_key(key)
            &&& tracker.samples().contains_key(key) ==> tracker.samples()[key]
                == tracker.histories@[key]@
            &&& tracker.samples().contains_key(key) ==> known_trend(tracker, device) == trend(
                tracker.samples()[key],
                tracker.min_delta,
            )
            &&& !tracker.samples().contains_key(key) ==> known_trend(tracker, device) is None
        }),
{
}

/// The resolutions of an IPI mouse in view.
pub proof fn law_stored_resolutions_in_view(config: IpiDpiConfig, i: int)
    ensures
        config@.profile == config.profile,
        config@.raw_levels == config.raw_levels@,
        config@.colors.len() == config.colors@.len(),
        0 <= i < config.colors@.len() ==> config@.colors[i] == config.colors@[i]@,
{
}

/// What is said of a wish or an order that waits names it and what was amiss.
pub proof fn law_waiting_wishes_in_words(
    desired: DesiredData,
    error: Seq<char>,
    pending: PendingWorkerRate,
)
    ensures
        queued_wish_words(desired, error) == "queued "@ + desired.text() + ": "@ + error,
        queued_words(pending) == "Queued "@ + pending.rate.spec_text() + " for "@ + ids_text(
            pending.vid,
            pending.pid,
        ),
{
}

/// The outcome of an operation in view: a value stays what it is, an error keeps
/// its texts.
pub proof fn law_outcomes_in_view<V, const N: usize>(
    value: V,
    error: DeviceError,
    bytes: Vec<u8>,
    report: [u8; N],
)
    ensures
        outcome(Ok::<V, DeviceError>(value)) == Ok::<V, ErrorText>(value),
        outcome(Err::<V, DeviceError>(error)) == Err::<V, ErrorText>(error@),
        maybe_outcome(Some(Ok::<V, DeviceError>(value))) == Some(Ok::<V, ErrorText>(value)),
        maybe_outcome(Some(Err::<V, DeviceError>(error))) == Some(Err::<V, ErrorText>(error@)),
        maybe_outcome(None::<Result<V, DeviceError>>) is None,
        status_outcome(Ok::<V, DeviceError>(value)) is Ok,
        status_outcome(Err::<V, DeviceError>(error)) == Err::<(), ErrorText>(error@),
        read_outcome(Ok(bytes)) == Ok::<Seq<u8>, ErrorText>(bytes@),
        read_outcome(Err(error)) == Err::<Seq<u8>, ErrorText>(error@),
        report_outcome(Ok::<[u8; N], DeviceError>(report)) == Ok::<Seq<u8>, ErrorText>(report@),
        report_outcome(Err::<[u8; N], DeviceError>(error)) == Err::<Seq<u8>, ErrorText>(error@),
{
}

/// A model that was found, a key, a wish and a borrowed text that may be
/// missing, in view.
pub proof fn law_findings_in_view(
    model: &'static ModelInfo,
    connection: ConnectionKind,
    key: DeviceSnapshotKey,
    wish: DesiredRate,
    text: &str,
    reads: Seq<Vec<u8>>,
    i: int,
)
    ensures
        found_data(Some((model, connection))) == Some((model@, connection)),
        found_data(None) is None,
        maybe_key(Some(key)) == Some(key@),
        maybe_key(None) is None,
        wish_view(Some(wish)) == Some(wish@),
        wish_view(None) is None,
        maybe_str(Some(text)) == Some(text@),
        maybe_str(None) is None,
        byte_lists(reads).len() == reads.len(),
        0 <= i < reads.len() ==> byte_lists(reads)[i] == reads[i]@,
{
}

/// A G-Wolves model in view: it is of that vendor, and speaks the protocol that
/// it names.
pub proof fn law_gwolves_models_in_view(
    model: GwolvesModel,
    models: Seq<GwolvesModel>,
    i: int,
)
    requires
        0 <= i < models.len(),
    ensures
        model@.vendor_name == "G-Wolves"@ && model@.name == model.name@,
        model@.vid == model.vid && model@.wired_pid == model.wired_pid,
        model@.wireless_pid == model.wireless_pid && model@.receiver_pid == model.receiver_pid,
        model@.receiver_idvd_pid == model.receiver_idvd_pid,
        model@.protocol == model.protocol.general(),
        model@.wired_rates == model.wired_rates@,
        model@.wireless_rates == model.wireless_rates@,
        model@.receiver_rates == model.receiver_rates@,
        gwolves_data(models).len() == models.len(),
        gwolves_data(models)[i] == models[i]@,
{
}

/// The tables of the watcher, of the terminal and of the window hold each key
/// once: two entries never stand for one device.
pub proof fn law_keys_stand_once(watch: Watch, app: TuiApp, state: GuiState, i: int, j: int)
    requires
        i < j,
    ensures
        watch.well_formed() && 0 <= i && j < watch.battery_trends.histories.entries@.len()
            ==> watch.battery_trends.histories.entries@[i].0@
            != watch.battery_trends.histories.entries@[j].0@,
        watch.well_formed() && 0 <= i && j < watch.snapshot_cache.entries.entries@.len()
            ==> watch.snapshot_cache.entries.entries@[i].0@
            != watch.snapshot_cache.entries.entries@[j].0@,
        watch.well_formed() && 0 <= i && j < watch.pending_rate_changes.changes.entries@.len()
            ==> watch.pending_rate_changes.changes.entries@[i].0@
            != watch.pending_rate_changes.changes.entries@[j].0@,
        app.well_formed() && 0 <= i && j < app.snapshot_cache.entries.entries@.len()
            ==> app.snapshot_cache.entries.entries@[i].0@
            != app.snapshot_cache.entries.entries@[j].0@,
        state.well_formed() && 0 <= i && j < state.targets.entries@.len()
            ==> state.targets.entries@[i].0@ != state.targets.entries@[j].0@,
        watch.well_formed() ==> watch.device_scheduler.pending_retry_interval >= 250_000_000,
{
}

/// A questioning, a diagnosis and a watch go on about what they began with.
pub proof fn law_questions_stay(
    probe: InterfaceProbe,
    next_probe: InterfaceProbe,
    diagnosis: Diagnosis,
    next_diagnosis: Diagnosis,
    watch: Watch,
    next_watch: Watch,
)
    ensures
        next_probe.same_question(probe) ==> next_probe.model == probe.model && next_probe.connection
            == probe.connection && next_probe.candidates == probe.candidates,
        next_diagnosis.same_question(diagnosis) ==> next_diagnosis.model == diagnosis.model
            && next_diagnosis.connection == diagnosis.connection && next_diagnosis.candidates
            == diagnosis.candidates,
        next_watch.same_mode(watch) ==> next_watch.config == watch.config && next_watch.dry_run
            == watch.dry_run && next_watch.once == watch.once,
{
}

/// A diagnosis holds one record for each protocol that it tried, in the order in
/// which they are tried.
pub proof fn law_records_follow_protocols(diagnosis: Diagnosis, i: int)
    requires
        diagnosis.well_formed(),
        0 <= i < diagnosis.records@.len(),
    ensures
        diagnosis.records@.len() == diagnosis.next,
        diagnosis.next <= diagnosis.model@.candidates().len(),
        diagnosis.records@[i].protocol == diagnosis.model@.candidates()[i],
{
    assert(diagnosis.records@[i].fits(diagnosis.candidates@[i]));
}

/// An operation that read bytes left the wire as its course says, and gave what
/// it says; it is still the same device.
pub proof fn law_byte_courses_tell_all<T: DeviceTransport>(
    before: ProtocolDevice<T>,
    after: ProtocolDevice<T>,
    result: Result<Vec<u8>, DeviceError>,
    run: Run<Seq<u8>>,
)
    requires
        ProtocolDevice::ran_bytes(before, after, result, run),
    ensures
        after.transport.wire() == run.wire,
        after.model == before.model && after.connection == before.connection && after.protocol
            == before.protocol,
        result matches Ok(bytes) ==> run.outcome == Ok::<Seq<u8>, ErrorText>(bytes@),
        result matches Err(e) ==> run.outcome == Err::<Seq<u8>, ErrorText>(e@),
{
}

} // verus!
