//! Which of the interfaces that a system lists are worth opening, in which
//! order, and what a search over them ends in.
use crate::devices::{ConnectionKind, ModelInfo, ProtocolKind};
use crate::error::{plain_error, DeviceError, ErrorText};
use crate::models::{catalog, find_model, first_match, ModelData};
use crate::text::{
    append_hex4, contains, has_part, hex4, lower, lowered, maybe_text, same_text, signed_decimal,
    signed_decimal_text, stands_at, starts_with,
};
use vstd::prelude::*;

verus! {

pub const REPORT8_CONTROL_USAGE_PAGE: u16 = 0xFF02;

pub const REPORT8_CONTROL_USAGE: u16 = 0x0002;

/// One interface of one device, as the system lists it.
#[derive(Clone, Debug)]
pub struct HidInterface {
    pub path: String,
    pub vid: u16,
    pub pid: u16,
    pub manufacturer: Option<String>,
    pub product: Option<String>,
    pub serial: Option<String>,
    pub release_number: u16,
    pub usage_page: u16,
    pub usage: u16,
    pub interface_number: i32,
    pub bus_type: String,
}

/// What of a [`HidInterface`] decides about opening it.
pub struct InterfaceData {
    pub path: Seq<char>,
    pub vid: u16,
    pub pid: u16,
    pub usage_page: u16,
    pub usage: u16,
    pub interface_number: i32,
}

impl View for HidInterface {
    type V = InterfaceData;

    open spec fn view(&self) -> InterfaceData {
        InterfaceData {
            path: self.path@,
            vid: self.vid,
            pid: self.pid,
            usage_page: self.usage_page,
            usage: self.usage,
            interface_number: self.interface_number,
        }
    }
}

/// What each of `interfaces` says.
pub open spec fn interface_views(interfaces: Seq<HidInterface>) -> Seq<InterfaceData> {
    interfaces.map_values(|i: HidInterface| i@)
}

impl InterfaceData {
    /// The model behind the interface, and how it is attached.
    pub open spec fn model(self) -> Option<(ModelData, ConnectionKind)> {
        first_match(catalog(), self.vid, self.pid)
    }

    /// Whether the interface takes orders in a protocol: report8 mice have one
    /// for that, with the others any may.
    pub open spec fn controls(self, protocol: ProtocolKind) -> bool {
        protocol == ProtocolKind::Eeprom16 ==> self.usage_page == REPORT8_CONTROL_USAGE_PAGE
            && self.usage == REPORT8_CONTROL_USAGE
    }

    /// Whether the interface takes orders for a known model.
    pub open spec fn usable(self) -> bool {
        self.model() matches Some((model, _)) && self.controls(model.protocol)
    }
}

/// Whether the interface takes orders in a protocol.
pub fn is_control_interface(interface: &HidInterface, protocol: ProtocolKind) -> (yes: bool)
    ensures
        yes == interface@.controls(protocol),
{
    match protocol {
        ProtocolKind::Eeprom16 => interface.usage_page == REPORT8_CONTROL_USAGE_PAGE
            && interface.usage == REPORT8_CONTROL_USAGE,
        _ => true,
    }
}

/// The model behind an interface that takes orders, and how it is attached.
pub fn usable_model(interface: &HidInterface) -> (r: Option<(&'static ModelInfo, ConnectionKind)>)
    ensures
        match r {
            Some((model, connection)) => interface@.usable() && interface@.model() == Some(
                (model@, connection),
            ),
            None => !interface@.usable(),
        },
{
    match find_model(interface.vid, interface.pid) {
        None => None,
        Some((model, connection)) => if is_control_interface(interface, model.protocol) {
            Some((model, connection))
        } else {
            None
        },
    }
}

/// What is looked for among the interfaces.
#[derive(Clone, Debug)]
pub enum SearchTarget {
    /// Any device.
    Any,
    /// A device with these ids.
    Ids { vid: u16, pid: u16 },
    /// The device at this path.
    Path { path: String },
}

/// What a [`SearchTarget`] says.
pub enum TargetData {
    Any,
    Ids { vid: u16, pid: u16 },
    Path { path: Seq<char> },
}

impl View for SearchTarget {
    type V = TargetData;

    open spec fn view(&self) -> TargetData {
        match *self {
            SearchTarget::Any => TargetData::Any,
            SearchTarget::Ids { vid, pid } => TargetData::Ids { vid, pid },
            SearchTarget::Path { path } => TargetData::Path { path: path@ },
        }
    }
}

impl TargetData {
    /// Whether the interface is of what is looked for.
    pub open spec fn fits(self, interface: InterfaceData) -> bool {
        &&& interface.usable()
        &&& match self {
            TargetData::Any => true,
            TargetData::Ids { vid, pid } => interface.vid == vid && interface.pid == pid,
            TargetData::Path { path } => interface.path == path,
        }
    }
}

impl SearchTarget {
    /// The model behind an interface that is of what is looked for.
    fn fitting_model(&self, interface: &HidInterface) -> (r: Option<
        (&'static ModelInfo, ConnectionKind),
    >)
        ensures
            match r {
                Some((model, connection)) => self@.fits(interface@) && interface@.model() == Some(
                    (model@, connection),
                ),
                None => !self@.fits(interface@),
            },
    {
        let wanted = match self {
            SearchTarget::Any => true,
            SearchTarget::Ids { vid, pid } => interface.vid == *vid && interface.pid == *pid,
            SearchTarget::Path { path } => same_text(interface.path.as_str(), path.as_str()),
        };
        if wanted {
            usable_model(interface)
        } else {
            None
        }
    }
}

/// Whether one of the chosen interfaces stands at `path`.
pub open spec fn path_taken(
    interfaces: Seq<InterfaceData>,
    chosen: Seq<int>,
    path: Seq<char>,
) -> bool {
    exists|k: int| 0 <= k < chosen.len() && interfaces[#[trigger] chosen[k]].path == path
}

/// The places, among the first `n`, of the interfaces to look at: those that
/// fit, and of several at one path the first alone, unless a path is looked
/// for.
pub open spec fn chosen(
    target: TargetData,
    interfaces: Seq<InterfaceData>,
    n: nat,
) -> Seq<int>
    decreases n,
{
    if n == 0 {
        seq![]
    } else {
        let before = chosen(target, interfaces, (n - 1) as nat);
        let interface = interfaces[n - 1];
        if target.fits(interface) && (target is Path || !path_taken(
            interfaces,
            before,
            interface.path,
        )) {
            before.push(n - 1)
        } else {
            before
        }
    }
}

/// An interface to look at.
#[derive(Clone, Copy, Debug)]
pub struct SelectedInterface {
    pub index: usize,
    pub model: &'static ModelInfo,
    pub connection: ConnectionKind,
}

/// Whether the selection is that of the chosen places, with their models.
pub open spec fn selects(
    interfaces: Seq<InterfaceData>,
    selected: Seq<SelectedInterface>,
    places: Seq<int>,
) -> bool {
    &&& selected.len() == places.len()
    &&& forall|k: int|
        0 <= k < selected.len() ==> {
            let s = #[trigger] selected[k];
            &&& s.index == places[k]
            &&& 0 <= s.index < interfaces.len()
            &&& interfaces[places[k]].model() == Some((s.model@, s.connection))
        }
}

/// The interfaces to look at, in the order in which they are listed.
pub fn select_interfaces(interfaces: &Vec<HidInterface>, target: &SearchTarget) -> (selected: Vec<
    SelectedInterface,
>)
    ensures
        selects(
            interface_views(interfaces@),
            selected@,
            chosen(target@, interface_views(interfaces@), interfaces@.len()),
        ),
{
    let ghost views = interface_views(interfaces@);
    let mut selected: Vec<SelectedInterface> = Vec::new();
    let keeps_doubles = match target {
        SearchTarget::Path { .. } => true,
        _ => false,
    };
    for i in 0..interfaces.len()
        invariant
            views == interface_views(interfaces@),
            keeps_doubles == (target@ is Path),
            selects(views, selected@, chosen(target@, views, i as nat)),
    {
        let ghost before = chosen(target@, views, i as nat);
        assert(views[i as int] == interfaces@[i as int]@);
        if let Some((model, connection)) = target.fitting_model(&interfaces[i]) {
            let taken = path_selected(interfaces, &selected, &interfaces[i].path);
            proof {
                if taken {
                    let k = choose|k: int|
                        0 <= k < selected@.len() && interfaces@[(#[trigger] selected@[k]).index as int].path@
                            == interfaces@[i as int].path@;
                    assert(before[k] == selected@[k].index);
                    assert(path_taken(views, before, views[i as int].path));
                } else if path_taken(views, before, views[i as int].path) {
                    let k = choose|k: int|
                        0 <= k < before.len() && views[#[trigger] before[k]].path
                            == views[i as int].path;
                    assert(selected@[k].index == before[k]);
                }
            }
            if keeps_doubles || !taken {
                selected.push(SelectedInterface { index: i, model, connection });
            }
        }
    }
    selected
}

/// Whether one of the selected interfaces stands at `path`.
fn path_selected(
    interfaces: &Vec<HidInterface>,
    selected: &Vec<SelectedInterface>,
    path: &String,
) -> (yes: bool)
    requires
        forall|k: int|
            0 <= k < selected@.len() ==> (#[trigger] selected@[k]).index < interfaces@.len(),
    ensures
        yes == exists|k: int|
            0 <= k < selected@.len() && interfaces@[(#[trigger] selected@[k]).index as int].path@
                == path@,
{
    for k in 0..selected.len()
        invariant
            forall|k: int|
                0 <= k < selected@.len() ==> (#[trigger] selected@[k]).index < interfaces@.len(),
            forall|j: int|
                0 <= j < k ==> interfaces@[(#[trigger] selected@[j]).index as int].path@ != path@,
    {
        if same_text(interfaces[selected[k].index].path.as_str(), path.as_str()) {
            return true;
        }
    }
    false
}

/// Whether an interface is the first to be opened without a probe: the given
/// one, or where none is given the first that takes orders.
pub open spec fn fits_unprobed(interface: InterfaceData, interface_number: Option<i32>) -> bool {
    match interface_number {
        Some(wanted) => interface.interface_number == wanted && interface.model() is Some,
        None => interface.usable(),
    }
}

/// The error where no interface can be opened without a probe.
pub open spec fn no_unprobed_error(interface_number: Option<i32>) -> ErrorText {
    match interface_number {
        Some(wanted) => plain_error(
            "no supported HID interface "@ + signed_decimal(wanted as int) + " found"@,
        ),
        None => plain_error("no supported HID interface found"@),
    }
}

/// The first interface to open without a probe.
pub fn first_unprobed(interfaces: &Vec<HidInterface>, interface_number: Option<i32>) -> (r: Result<
    SelectedInterface,
    DeviceError,
>)
    ensures
        match r {
            Ok(selected) => {
                &&& selected.index < interfaces@.len()
                &&& fits_unprobed(interfaces@[selected.index as int]@, interface_number)
                &&& forall|j: int|
                    0 <= j < selected.index ==> !fits_unprobed(
                        (#[trigger] interfaces@[j])@,
                        interface_number,
                    )
                &&& interfaces@[selected.index as int]@.model() == Some(
                    (selected.model@, selected.connection),
                )
            },
            Err(e) => {
                &&& e@ == no_unprobed_error(interface_number)
                &&& forall|j: int|
                    0 <= j < interfaces@.len() ==> !fits_unprobed(
                        (#[trigger] interfaces@[j])@,
                        interface_number,
                    )
            },
        },
{
    for i in 0..interfaces.len()
        invariant
            forall|j: int|
                0 <= j < i ==> !fits_unprobed((#[trigger] interfaces@[j])@, interface_number),
    {
        let found = match interface_number {
            Some(wanted) => if interfaces[i].interface_number == wanted {
                find_model(interfaces[i].vid, interfaces[i].pid)
            } else {
                None
            },
            None => usable_model(&interfaces[i]),
        };
        if let Some((model, connection)) = found {
            return Ok(SelectedInterface { index: i, model, connection });
        }
    }
    match interface_number {
        Some(wanted) => {
            let mut message = "no supported HID interface ".to_owned();
            message.append(signed_decimal_text(wanted).as_str());
            message.append(" found");
            Err(DeviceError::new(message))
        },
        None => Err(DeviceError::from_words("no supported HID interface found")),
    }
}

/// Two ids in words.
pub open spec fn ids_text(vid: u16, pid: u16) -> Seq<char> {
    hex4(vid) + ":"@ + hex4(pid)
}

/// Puts two ids in words at the end.
pub fn append_ids(out: &mut String, vid: u16, pid: u16)
    ensures
        final(out)@ == old(out)@ + ids_text(vid, pid),
{
    let ghost before = out@;
    append_hex4(out, vid);
    out.append(":");
    append_hex4(out, pid);
    assert(out@ =~= before + ids_text(vid, pid));
}

/// The error for a device with these ids that did not open.
pub open spec fn open_ids_error(vid: u16, pid: u16, cause: Seq<char>) -> ErrorText {
    ErrorText { message: "failed to open "@ + ids_text(vid, pid), cause: Some(cause) }
}

/// The error for a device with these ids that did not open.
pub fn open_failure(vid: u16, pid: u16, cause: String) -> (e: DeviceError)
    ensures
        e@ == open_ids_error(vid, pid, cause@),
{
    let mut message = "failed to open ".to_owned();
    append_ids(&mut message, vid, pid);
    DeviceError::with_cause(message, cause)
}

/// One try: an interface, and the protocol to speak.
#[derive(Clone, Copy, Debug)]
pub struct OpenAttempt {
    pub selected: SelectedInterface,
    pub protocol: ProtocolKind,
}

/// The tries for one interface: each protocol of its model, in order.
pub open spec fn attempts_for(selected: SelectedInterface) -> Seq<OpenAttempt> {
    selected.model@.candidates().map_values(
        |protocol: ProtocolKind| OpenAttempt { selected, protocol },
    )
}

/// The tries for the first `n` interfaces.
pub open spec fn all_attempts(selected: Seq<SelectedInterface>, n: nat) -> Seq<OpenAttempt>
    decreases n,
{
    if n == 0 {
        seq![]
    } else {
        all_attempts(selected, (n - 1) as nat) + attempts_for(selected[n - 1])
    }
}

/// Why a try came to nothing.
#[derive(Clone, Debug)]
pub enum AttemptFailure {
    /// The interface did not open.
    NotOpened { error: String },
    /// The device did not answer in the protocol.
    NoAnswer { error: String },
}

/// What a [`AttemptFailure`] says.
pub enum FailureData {
    NotOpened { error: Seq<char> },
    NoAnswer { error: Seq<char> },
}

impl View for AttemptFailure {
    type V = FailureData;

    open spec fn view(&self) -> FailureData {
        match *self {
            AttemptFailure::NotOpened { error } => FailureData::NotOpened { error: error@ },
            AttemptFailure::NoAnswer { error } => FailureData::NoAnswer { error: error@ },
        }
    }
}

impl TargetData {
    /// The error that ends a search at once: a device that was asked for does
    /// not open. A search for any device goes on.
    pub open spec fn fatal(self, failure: FailureData) -> Option<ErrorText> {
        match (self, failure) {
            (TargetData::Ids { vid, pid }, FailureData::NotOpened { error }) => Some(
                open_ids_error(vid, pid, error),
            ),
            (TargetData::Path { path }, FailureData::NotOpened { error }) => Some(
                ErrorText { message: "failed to open "@ + path, cause: Some(error) },
            ),
            _ => None,
        }
    }

    /// The error of a search that tried everything.
    pub open spec fn exhausted(self, last_error: Option<Seq<char>>) -> ErrorText {
        match (self, last_error) {
            (TargetData::Any, _) => plain_error("no supported polling-rate device found"@),
            (TargetData::Ids { vid, pid }, Some(error)) => plain_error(
                "found "@ + ids_text(vid, pid) + ", but no interface answered: "@ + error,
            ),
            (TargetData::Ids { vid, pid }, None) => plain_error(
                "no supported device found for "@ + ids_text(vid, pid),
            ),
            (TargetData::Path { path }, Some(error)) => plain_error(
                "found "@ + path + ", but its control interface did not answer: "@ + error,
            ),
            (TargetData::Path { path }, None) => plain_error(
                "no supported control interface found at "@ + path,
            ),
        }
    }
}

/// A search for a device that opens and answers.
pub struct OpenSearch {
    pub target: SearchTarget,
    pub attempts: Vec<OpenAttempt>,
    pub next: usize,
    pub last_error: Option<String>,
}

impl OpenSearch {
    /// A search over the listed interfaces.
    pub fn new(target: SearchTarget, interfaces: &Vec<HidInterface>) -> (search: OpenSearch)
        ensures
            search.target@ == target@,
            search.next == 0,
            search.last_error is None,
            exists|selected: Seq<SelectedInterface>|
                selects(
                    interface_views(interfaces@),
                    selected,
                    chosen(target@, interface_views(interfaces@), interfaces@.len()),
                ) && search.attempts@ == #[trigger] all_attempts(selected, selected.len()),
    {
        let selected = select_interfaces(interfaces, &target);
        let mut attempts: Vec<OpenAttempt> = Vec::new();
        for i in 0..selected.len()
            invariant
                attempts@ == all_attempts(selected@, i as nat),
        {
            let ghost before = attempts@;
            let protocols = selected[i].model.protocol_candidates();
            for j in 0..protocols.len()
                invariant
                    i < selected@.len(),
                    protocols@ == selected@[i as int].model@.candidates(),
                    attempts@ == before + attempts_for(selected@[i as int]).take(j as int),
            {
                attempts.push(OpenAttempt { selected: selected[i], protocol: protocols[j] });
                assert(attempts@ =~= before + attempts_for(selected@[i as int]).take(j + 1));
            }
            assert(attempts_for(selected@[i as int]).take(protocols@.len() as int)
                =~= attempts_for(selected@[i as int]));
        }
        assert(attempts@ == all_attempts(selected@, selected@.len()));
        OpenSearch { target, attempts, next: 0, last_error: None }
    }

    /// What to try now; nothing where all was tried.
    pub fn current(&self) -> (r: Option<OpenAttempt>)
        ensures
            r == if self.next < self.attempts@.len() {
                Some(self.attempts@[self.next as int])
            } else {
                None
            },
    {
        if self.next < self.attempts.len() {
            Some(self.attempts[self.next])
        } else {
            None
        }
    }

    /// Takes in why the current try came to nothing, and gives the error where
    /// the search is to end at once.
    pub fn failed(&mut self, failure: AttemptFailure) -> (r: Option<DeviceError>)
        requires
            old(self).next < old(self).attempts@.len(),
        ensures
            final(self).target == old(self).target,
            final(self).attempts == old(self).attempts,
            final(self).next == old(self).next + 1,
            match r {
                Some(e) => old(self).target@.fatal(failure@) == Some(e@),
                None => old(self).target@.fatal(failure@) is None,
            },
            maybe_text(final(self).last_error) == match failure@ {
                FailureData::NoAnswer { error } => Some(
                    old(self).attempts@[old(self).next as int].protocol.spec_text() + ": "@ + error,
                ),
                FailureData::NotOpened { .. } => maybe_text(old(self).last_error),
            },
    {
        let attempt = self.attempts[self.next];
        assert(self.next < self.attempts.len());
        self.next = self.next + 1;
        match failure {
            AttemptFailure::NoAnswer { error } => {
                let mut text = attempt.protocol.text().to_owned();
                text.append(": ");
                text.append(error.as_str());
                self.last_error = Some(text);
                None
            },
            AttemptFailure::NotOpened { error } => match &self.target {
                SearchTarget::Any => None,
                SearchTarget::Ids { vid, pid } => Some(open_failure(*vid, *pid, error)),
                SearchTarget::Path { path } => {
                    let mut message = "failed to open ".to_owned();
                    message.append(path.as_str());
                    Some(DeviceError::with_cause(message, error))
                },
            },
        }
    }

    /// The error of a search that tried everything.
    pub fn exhausted(&self) -> (e: DeviceError)
        ensures
            e@ == self.target@.exhausted(maybe_text(self.last_error)),
    {
        match &self.target {
            SearchTarget::Any => DeviceError::from_words("no supported polling-rate device found"),
            SearchTarget::Ids { vid, pid } => match &self.last_error {
                Some(error) => {
                    let mut message = "found ".to_owned();
                    append_ids(&mut message, *vid, *pid);
                    message.append(", but no interface answered: ");
                    message.append(error.as_str());
                    DeviceError::new(message)
                },
                None => {
                    let mut message = "no supported device found for ".to_owned();
                    append_ids(&mut message, *vid, *pid);
                    DeviceError::new(message)
                },
            },
            SearchTarget::Path { path } => match &self.last_error {
                Some(error) => {
                    let mut message = "found ".to_owned();
                    message.append(path.as_str());
                    message.append(", but its control interface did not answer: ");
                    message.append(error.as_str());
                    DeviceError::new(message)
                },
                None => {
                    let mut message = "no supported control interface found at ".to_owned();
                    message.append(path.as_str());
                    DeviceError::new(message)
                },
            },
        }
    }
}

/// Whether an error in words says that access was denied.
pub open spec fn denies_access(error: Seq<char>) -> bool {
    let error = lowered(error);
    ||| has_part(error, "permission denied"@)
    ||| has_part(error, "access denied"@)
    ||| has_part(error, "operation not permitted"@)
    ||| has_part(error, "os error 13"@)
}

/// Whether an error in words says that access was denied.
pub fn is_hid_permission_error(error: &str) -> (yes: bool)
    ensures
        yes == denies_access(error@),
{
    let error = lower(error);
    let error = error.as_str();
    contains(error, "permission denied") || contains(error, "access denied") || contains(
        error,
        "operation not permitted",
    ) || contains(error, "os error 13")
}

/// A known device that the user may not open.
#[derive(Clone, Debug, PartialEq, Eq, Hash)]
pub struct HidAccessCandidate {
    pub path: String,
    pub vid: u16,
    pub pid: u16,
    pub vendor_name: &'static str,
    pub model_name: &'static str,
}

/// What a [`HidAccessCandidate`] says.
pub struct AccessData {
    pub path: Seq<char>,
    pub vid: u16,
    pub pid: u16,
    pub vendor_name: Seq<char>,
    pub model_name: Seq<char>,
}

impl View for HidAccessCandidate {
    type V = AccessData;

    open spec fn view(&self) -> AccessData {
        AccessData {
            path: self.path@,
            vid: self.vid,
            pid: self.pid,
            vendor_name: self.vendor_name@,
            model_name: self.model_name@,
        }
    }
}

/// What each of `candidates` says.
pub open spec fn access_views(candidates: Seq<HidAccessCandidate>) -> Seq<AccessData> {
    candidates.map_values(|c: HidAccessCandidate| c@)
}

/// The candidate that an interface is, with the error it opened with: one that
/// takes orders, at a raw HID path, and was denied.
pub open spec fn access_candidate(interface: InterfaceData, error: Option<Seq<char>>) -> Option<
    AccessData,
> {
    match (interface.model(), error) {
        (Some((model, _)), Some(error)) => if interface.usable() && denies_access(error)
            && stands_at(interface.path, "/dev/hidraw"@, 0) {
            Some(
                AccessData {
                    path: interface.path,
                    vid: interface.vid,
                    pid: interface.pid,
                    vendor_name: model.vendor_name,
                    model_name: model.name,
                },
            )
        } else {
            None
        },
        _ => None,
    }
}

/// Whether one of the candidates stands at `path`.
pub open spec fn candidate_at(candidates: Seq<AccessData>, path: Seq<char>) -> bool {
    exists|k: int| 0 <= k < candidates.len() && (#[trigger] candidates[k]).path == path
}

/// The candidates among the first `n` interfaces, each path once.
pub open spec fn access_list(
    interfaces: Seq<InterfaceData>,
    errors: Seq<Option<String>>,
    n: nat,
) -> Seq<AccessData>
    decreases n,
{
    if n == 0 {
        seq![]
    } else {
        let before = access_list(interfaces, errors, (n - 1) as nat);
        match access_candidate(interfaces[n - 1], maybe_text(errors[n - 1])) {
            Some(candidate) => if candidate_at(before, candidate.path) {
                before
            } else {
                before.push(candidate)
            },
            None => before,
        }
    }
}

/// The known devices that the user may not open, given the error with which
/// each interface opened, if any.
pub fn access_candidates(interfaces: &Vec<HidInterface>, errors: &Vec<Option<String>>) -> (r: Vec<
    HidAccessCandidate,
>)
    requires
        interfaces@.len() == errors@.len(),
    ensures
        access_views(r@) == access_list(
            interface_views(interfaces@),
            errors@,
            interfaces@.len(),
        ),
{
    let ghost views = interface_views(interfaces@);
    let mut r: Vec<HidAccessCandidate> = Vec::new();
    assert(access_views(r@) =~= seq![]);
    for i in 0..interfaces.len()
        invariant
            interfaces@.len() == errors@.len(),
            views == interface_views(interfaces@),
            access_views(r@) == access_list(views, errors@, i as nat),
    {
        assert(views[i as int] == interfaces@[i as int]@);
        let interface = &interfaces[i];
        if let Some((model, _)) = usable_model(interface) {
            if let Some(error) = &errors[i] {
                if is_hid_permission_error(error.as_str()) && starts_with(
                    interface.path.as_str(),
                    "/dev/hidraw",
                ) {
                    let ghost before = r@;
                    if !has_candidate_at(&r, &interface.path) {
                        let candidate = HidAccessCandidate {
                            path: interface.path.clone(),
                            vid: interface.vid,
                            pid: interface.pid,
                            vendor_name: model.vendor_name,
                            model_name: model.name,
                        };
                        r.push(candidate);
                        assert(access_views(r@) =~= access_views(before).push(candidate@));
                    }
                }
            }
        }
    }
    r
}

/// Whether one of the candidates stands at `path`.
fn has_candidate_at(candidates: &Vec<HidAccessCandidate>, path: &String) -> (yes: bool)
    ensures
        yes == candidate_at(access_views(candidates@), path@),
{
    for k in 0..candidates.len()
        invariant
            forall|j: int|
                0 <= j < k ==> (#[trigger] access_views(candidates@)[j]).path != path@,
    {
        assert(access_views(candidates@)[k as int] == candidates@[k as int]@);
        if same_text(candidates[k].path.as_str(), path.as_str()) {
            return true;
        }
    }
    false
}

} // verus!
