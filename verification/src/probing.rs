//! What opening and questioning an interface tells of its device.
use crate::courses::{battery_run, failed, gave, probe_run, rate_run, Run};
use crate::devices::{
    outcome, BatteryStatus, ConnectionKind, ModelInfo, PollingRate, ProtocolKind,
};
use crate::error::{plain_error, DeviceError, ErrorText};
use crate::interfaces::HidInterface;
use crate::models::ModelData;
use crate::protocols::ProtocolDevice;
use crate::snapshots::{copy_rates, DeviceSnapshot, SnapshotData};
use crate::text::{copy_maybe, join_texts, joined, maybe_text, texts};
use crate::transport::{DeviceTransport, Wire};
use crate::watcher::{elapsed_since, since, NANOS_PER_MILLI};
use vstd::prelude::*;

verus! {

/// What a device answered when it was questioned.
#[derive(Clone, Debug)]
pub struct DeviceProbe {
    pub protocol: ProtocolKind,
    pub current_rate: Option<PollingRate>,
    pub battery: Option<BatteryStatus>,
    pub battery_error: Option<String>,
    pub read_error: Option<String>,
}

/// What a [`DeviceProbe`] says.
pub struct ProbeData {
    pub protocol: ProtocolKind,
    pub current_rate: Option<PollingRate>,
    pub battery: Option<BatteryStatus>,
    pub battery_error: Option<Seq<char>>,
    pub read_error: Option<Seq<char>>,
}

impl View for DeviceProbe {
    type V = ProbeData;

    open spec fn view(&self) -> ProbeData {
        ProbeData {
            protocol: self.protocol,
            current_rate: self.current_rate,
            battery: self.battery,
            battery_error: maybe_text(self.battery_error),
            read_error: maybe_text(self.read_error),
        }
    }
}

/// A battery, or why it could not be read.
pub struct BatteryProbe {
    pub battery: Option<BatteryStatus>,
    pub error: Option<String>,
}

/// The course of reading the battery, with its error in words; nothing goes
/// out in a protocol that cannot tell the battery.
pub open spec fn battery_probe_run(
    wire: Wire,
    protocol: ProtocolKind,
    connection: ConnectionKind,
) -> (Wire, Option<BatteryStatus>, Option<Seq<char>>) {
    if protocol.supports_battery_read() {
        let read = battery_run(wire, protocol, connection);
        match read.outcome {
            Ok(battery) => (read.wire, Some(battery), None),
            Err(e) => (read.wire, None, Some(e.message)),
        }
    } else {
        (wire, None, None)
    }
}

/// A text, or other words where it is missing.
pub open spec fn text_or(text: Option<Seq<char>>, other: Seq<char>) -> Seq<char> {
    match text {
        Some(text) => text,
        None => other,
    }
}

/// The course of questioning an open device: its rate where the protocol can
/// tell it, and its battery. One answer of the two is enough.
pub open spec fn live_probe_run(
    wire: Wire,
    protocol: ProtocolKind,
    connection: ConnectionKind,
) -> Run<ProbeData> {
    if protocol.supports_rate_read() {
        let read = rate_run(wire, protocol, connection);
        let (wire, battery, error) = battery_probe_run(read.wire, protocol, connection);
        match read.outcome {
            Ok(rate) => gave(
                wire,
                ProbeData {
                    protocol,
                    current_rate: Some(rate),
                    battery,
                    battery_error: error,
                    read_error: None,
                },
            ),
            Err(e) => if battery is Some {
                gave(
                    wire,
                    ProbeData {
                        protocol,
                        current_rate: None,
                        battery,
                        battery_error: error,
                        read_error: Some(e.message),
                    },
                )
            } else {
                failed(
                    wire,
                    plain_error(
                        protocol.spec_text() + ": "@ + e.message + "; battery: "@ + text_or(
                            error,
                            "not available"@,
                        ),
                    ),
                )
            },
        }
    } else {
        let (wire, battery, error) = battery_probe_run(wire, protocol, connection);
        if battery is Some {
            gave(
                wire,
                ProbeData {
                    protocol,
                    current_rate: None,
                    battery,
                    battery_error: error,
                    read_error: None,
                },
            )
        } else {
            failed(
                wire,
                plain_error(
                    protocol.spec_text() + ": "@ + text_or(
                        error,
                        "device did not answer protocol probe"@,
                    ),
                ),
            )
        }
    }
}

/// Reads the battery, with its error in words.
pub fn probe_battery_if_supported<T: DeviceTransport>(device: &mut ProtocolDevice<T>) -> (r:
    BatteryProbe)
    ensures
        final(device).same_target(*old(device)),
        (final(device).transport.wire(), r.battery, maybe_text(r.error)) == battery_probe_run(
            old(device).transport.wire(),
            old(device).protocol,
            old(device).connection,
        ),
{
    if device.protocol.supports_battery_read() {
        match device.read_battery() {
            Ok(battery) => BatteryProbe { battery: Some(battery), error: None },
            Err(e) => BatteryProbe { battery: None, error: Some(e.message) },
        }
    } else {
        BatteryProbe { battery: None, error: None }
    }
}

/// Questions an open device.
pub fn probe_live<T: DeviceTransport>(device: &mut ProtocolDevice<T>) -> (r: Result<
    DeviceProbe,
    DeviceError,
>)
    ensures
        final(device).same_target(*old(device)),
        ({
            let run = live_probe_run(
                old(device).transport.wire(),
                old(device).protocol,
                old(device).connection,
            );
            &&& final(device).transport.wire() == run.wire
            &&& match r {
                Ok(probe) => run.outcome matches Ok(data) && probe@ == data,
                Err(e) => run.outcome matches Err(error) && e@ == error,
            }
        }),
{
    let protocol = device.protocol;
    if protocol.supports_rate_read() {
        let read = device.read_rate();
        let battery = probe_battery_if_supported(device);
        match read {
            Ok(rate) => Ok(
                DeviceProbe {
                    protocol,
                    current_rate: Some(rate),
                    battery: battery.battery,
                    battery_error: battery.error,
                    read_error: None,
                },
            ),
            Err(e) => {
                if battery.battery.is_some() {
                    return Ok(
                        DeviceProbe {
                            protocol,
                            current_rate: None,
                            battery: battery.battery,
                            battery_error: battery.error,
                            read_error: Some(e.message),
                        },
                    );
                }
                let mut message = protocol.text().to_owned();
                message.append(": ");
                message.append(e.message.as_str());
                message.append("; battery: ");
                match battery.error {
                    Some(error) => message.append(error.as_str()),
                    None => message.append("not available"),
                }
                Err(DeviceError::new(message))
            },
        }
    } else {
        let battery = probe_battery_if_supported(device);
        if battery.battery.is_some() {
            return Ok(
                DeviceProbe {
                    protocol,
                    current_rate: None,
                    battery: battery.battery,
                    battery_error: battery.error,
                    read_error: None,
                },
            );
        }
        let mut message = protocol.text().to_owned();
        message.append(": ");
        match battery.error {
            Some(error) => message.append(error.as_str()),
            None => message.append("device did not answer protocol probe"),
        }
        Err(DeviceError::new(message))
    }
}

/// What is known of a device that answered in no protocol.
pub open spec fn silent_probe(model: ModelData, errors: Seq<Seq<char>>) -> ProbeData {
    ProbeData {
        protocol: model.protocol,
        current_rate: None,
        battery: None,
        battery_error: None,
        read_error: Some(joined(errors, "; "@)),
    }
}

/// The questioning of one interface: the protocols of its model are tried one
/// after the other until the device answers in one.
pub struct InterfaceProbe {
    pub model: &'static ModelInfo,
    pub connection: ConnectionKind,
    pub candidates: Vec<ProtocolKind>,
    pub next: usize,
    pub errors: Vec<String>,
}

impl InterfaceProbe {
    /// A questioning that has not begun.
    pub fn new(model: &'static ModelInfo, connection: ConnectionKind) -> (probe: InterfaceProbe)
        ensures
            probe.model == model,
            probe.connection == connection,
            probe.candidates@ == model@.candidates(),
            probe.next == 0,
            texts(probe.errors@) == Seq::<Seq<char>>::empty(),
    {
        let probe = InterfaceProbe {
            model,
            connection,
            candidates: model.protocol_candidates(),
            next: 0,
            errors: Vec::new(),
        };
        assert(texts(probe.errors@) =~= Seq::<Seq<char>>::empty());
        probe
    }

    /// Whether the two differ in the place reached and the errors at most.
    pub open spec fn same_question(self, other: InterfaceProbe) -> bool {
        &&& self.model == other.model
        &&& self.connection == other.connection
        &&& self.candidates == other.candidates
    }

    /// The protocol to try now; none where all were tried.
    pub fn current(&self) -> (r: Option<ProtocolKind>)
        ensures
            r == if self.next < self.candidates@.len() {
                Some(self.candidates@[self.next as int])
            } else {
                None
            },
    {
        if self.next < self.candidates.len() {
            Some(self.candidates[self.next])
        } else {
            None
        }
    }

    /// Takes in that the interface did not open, and goes on.
    pub fn not_opened(&mut self, error: &str)
        requires
            old(self).next < old(self).candidates@.len(),
        ensures
            final(self).same_question(*old(self)),
            final(self).next == old(self).next + 1,
            texts(final(self).errors@) == texts(old(self).errors@).push(
                old(self).candidates@[old(self).next as int].spec_text() + ": "@ + error@,
            ),
    {
        let mut text = self.candidates[self.next].text().to_owned();
        text.append(": ");
        text.append(error);
        assert(self.next < self.candidates.len());
        self.next = self.next + 1;
        self.errors.push(text);
        assert(texts(self.errors@) =~= texts(old(self).errors@).push(text@));
    }

    /// Questions the open interface in the current protocol, and gives it back.
    /// Where it does not answer, the error is noted and the questioning goes on.
    pub fn opened<T: DeviceTransport>(&mut self, transport: T) -> (r: (Option<DeviceProbe>, T))
        requires
            old(self).next < old(self).candidates@.len(),
        ensures
            final(self).same_question(*old(self)),
            final(self).next == old(self).next + 1,
            r.1.wire() == live_probe_run(
                transport.wire(),
                old(self).candidates@[old(self).next as int],
                old(self).connection,
            ).wire,
            match live_probe_run(
                transport.wire(),
                old(self).candidates@[old(self).next as int],
                old(self).connection,
            ).outcome {
                Ok(data) => (r.0 matches Some(probe) && probe@ == data) && final(self).errors
                    == old(self).errors,
                Err(e) => r.0 is None && texts(final(self).errors@) == texts(
                    old(self).errors@,
                ).push(e.message),
            },
    {
        let protocol = self.candidates[self.next];
        let mut device = ProtocolDevice::new(transport, self.model, self.connection, protocol);
        let answer = probe_live(&mut device);
        assert(self.next < self.candidates.len());
        self.next = self.next + 1;
        match answer {
            Ok(probe) => (Some(probe), device.transport),
            Err(e) => {
                let ghost message = e.message@;
                self.errors.push(e.message);
                assert(texts(self.errors@) =~= texts(old(self).errors@).push(message));
                (None, device.transport)
            },
        }
    }

    /// What is known where no protocol was answered.
    pub fn exhausted(&self) -> (r: DeviceProbe)
        ensures
            r@ == silent_probe(self.model@, texts(self.errors@)),
    {
        DeviceProbe {
            protocol: self.model.protocol,
            current_rate: None,
            battery: None,
            battery_error: None,
            read_error: Some(join_texts(&self.errors, "; ")),
        }
    }
}

/// The snapshot of a device that was questioned.
pub open spec fn probed_snapshot(
    path: Seq<char>,
    vid: u16,
    pid: u16,
    product: Option<Seq<char>>,
    model: ModelData,
    connection: ConnectionKind,
    probe: ProbeData,
) -> SnapshotData {
    SnapshotData {
        path,
        vid,
        pid,
        product_name: product,
        vendor_name: model.vendor_name,
        model_name: model.name,
        connection,
        protocol: probe.protocol,
        supported_rates: model.rates_for(connection),
        current_rate: probe.current_rate,
        battery: probe.battery,
        cached_rate: false,
        cached_battery: false,
        battery_error: probe.battery_error,
        read_error: probe.read_error,
    }
}

/// The snapshot of a device that was questioned.
pub fn snapshot_of(
    interface: &HidInterface,
    model: &'static ModelInfo,
    connection: ConnectionKind,
    probe: DeviceProbe,
) -> (r: DeviceSnapshot)
    ensures
        r@ == probed_snapshot(
            interface.path@,
            interface.vid,
            interface.pid,
            maybe_text(interface.product),
            model@,
            connection,
            probe@,
        ),
{
    DeviceSnapshot {
        path: interface.path.clone(),
        vid: interface.vid,
        pid: interface.pid,
        product_name: copy_maybe(&interface.product),
        vendor_name: model.vendor_name,
        model_name: model.name,
        connection,
        protocol: probe.protocol,
        supported_rates: copy_rates(model.supported_rates(connection)),
        current_rate: probe.current_rate,
        battery: probe.battery,
        cached_rate: false,
        cached_battery: false,
        battery_error: probe.battery_error,
        read_error: probe.read_error,
    }
}

/// How one step of a diagnosis went.
#[derive(Clone, Debug, PartialEq, Eq)]
pub enum ProbeOutcome {
    Passed { detail: String, elapsed_ms: u128 },
    Skipped { reason: String },
    Error { error: String, elapsed_ms: u128 },
}

/// What a [`ProbeOutcome`] says.
pub enum OutcomeData {
    Passed { detail: Seq<char>, elapsed_ms: u128 },
    Skipped { reason: Seq<char> },
    Error { error: Seq<char>, elapsed_ms: u128 },
}

impl View for ProbeOutcome {
    type V = OutcomeData;

    open spec fn view(&self) -> OutcomeData {
        match *self {
            ProbeOutcome::Passed { detail, elapsed_ms } => OutcomeData::Passed {
                detail: detail@,
                elapsed_ms,
            },
            ProbeOutcome::Skipped { reason } => OutcomeData::Skipped { reason: reason@ },
            ProbeOutcome::Error { error, elapsed_ms } => OutcomeData::Error {
                error: error@,
                elapsed_ms,
            },
        }
    }
}

impl OutcomeData {
    /// The outcome in one word.
    pub open spec fn status(self) -> Seq<char> {
        match self {
            OutcomeData::Passed { .. } => "ok"@,
            OutcomeData::Skipped { .. } => "skipped"@,
            OutcomeData::Error { .. } => "error"@,
        }
    }

    /// How long the step took.
    pub open spec fn elapsed(self) -> Option<u128> {
        match self {
            OutcomeData::Passed { elapsed_ms, .. } => Some(elapsed_ms),
            OutcomeData::Error { elapsed_ms, .. } => Some(elapsed_ms),
            OutcomeData::Skipped { .. } => None,
        }
    }
}

/// A borrowed text that may be missing, in view.
pub open spec fn maybe_str(s: Option<&str>) -> Option<Seq<char>> {
    match s {
        Some(s) => Some(s@),
        None => None,
    }
}

impl ProbeOutcome {
    /// A step that went well.
    pub fn ok_timed(detail: String, elapsed_ms: u128) -> (r: ProbeOutcome)
        ensures
            r@ == (OutcomeData::Passed { detail: detail@, elapsed_ms }),
    {
        ProbeOutcome::Passed { detail, elapsed_ms }
    }

    /// A step that was left out.
    pub fn skipped(reason: &str) -> (r: ProbeOutcome)
        ensures
            r@ == (OutcomeData::Skipped { reason: reason@ }),
    {
        ProbeOutcome::Skipped { reason: reason.to_owned() }
    }

    /// A step that failed.
    pub fn error_timed(error: String, elapsed_ms: u128) -> (r: ProbeOutcome)
        ensures
            r@ == (OutcomeData::Error { error: error@, elapsed_ms }),
    {
        ProbeOutcome::Error { error, elapsed_ms }
    }

    /// The outcome in one word.
    pub fn status(&self) -> (s: &'static str)
        ensures
            s@ == self@.status(),
    {
        match self {
            ProbeOutcome::Passed { .. } => "ok",
            ProbeOutcome::Skipped { .. } => "skipped",
            ProbeOutcome::Error { .. } => "error",
        }
    }

    /// What a step that went well brought.
    pub fn detail(&self) -> (r: Option<&str>)
        ensures
            maybe_str(r) == match self@ {
                OutcomeData::Passed { detail, .. } => Some(detail),
                _ => None,
            },
    {
        match self {
            ProbeOutcome::Passed { detail, .. } => Some(detail.as_str()),
            _ => None,
        }
    }

    /// Why a step was left out.
    pub fn reason(&self) -> (r: Option<&str>)
        ensures
            maybe_str(r) == match self@ {
                OutcomeData::Skipped { reason } => Some(reason),
                _ => None,
            },
    {
        match self {
            ProbeOutcome::Skipped { reason } => Some(reason.as_str()),
            _ => None,
        }
    }

    /// Why a step failed.
    pub fn error_message(&self) -> (r: Option<&str>)
        ensures
            maybe_str(r) == match self@ {
                OutcomeData::Error { error, .. } => Some(error),
                _ => None,
            },
    {
        match self {
            ProbeOutcome::Error { error, .. } => Some(error.as_str()),
            _ => None,
        }
    }

    /// How long the step took.
    pub fn elapsed_ms(&self) -> (r: Option<u128>)
        ensures
            r == self@.elapsed(),
    {
        match self {
            ProbeOutcome::Passed { elapsed_ms, .. } => Some(*elapsed_ms),
            ProbeOutcome::Error { elapsed_ms, .. } => Some(*elapsed_ms),
            ProbeOutcome::Skipped { .. } => None,
        }
    }
}

/// The outcome of a step that took the given time: what it brought, or its
/// error with the cause.
pub fn timed_probe(result: Result<String, DeviceError>, elapsed_ms: u128) -> (r: ProbeOutcome)
    ensures
        r@ == match result {
            Ok(detail) => OutcomeData::Passed { detail: detail@, elapsed_ms },
            Err(e) => OutcomeData::Error { error: e@.full(), elapsed_ms },
        },
{
    match result {
        Ok(detail) => ProbeOutcome::ok_timed(detail, elapsed_ms),
        Err(e) => ProbeOutcome::error_timed(e.full_text(), elapsed_ms),
    }
}

/// The outcome of asking whether the device answers.
pub open spec fn control_data(result: Result<(), ErrorText>, elapsed_ms: u128) -> OutcomeData {
    match result {
        Ok(_) => OutcomeData::Passed { detail: "control interface answered"@, elapsed_ms },
        Err(e) => OutcomeData::Error { error: e.full(), elapsed_ms },
    }
}

/// The outcome of asking whether the device answers.
pub fn control_outcome(result: Result<(), DeviceError>, elapsed_ms: u128) -> (r: ProbeOutcome)
    ensures
        r@ == control_data(outcome(result), elapsed_ms),
{
    match result {
        Ok(_) => timed_probe(Ok("control interface answered".to_owned()), elapsed_ms),
        Err(e) => timed_probe(Err(e), elapsed_ms),
    }
}

/// A result that may not have been asked for, in view.
pub open spec fn maybe_outcome<V>(result: Option<Result<V, DeviceError>>) -> Option<
    Result<V, ErrorText>,
> {
    match result {
        Some(result) => Some(outcome(result)),
        None => None,
    }
}

/// The outcome of reading the rate; nothing was read where the protocol cannot
/// tell it.
pub open spec fn rate_data(
    result: Option<Result<PollingRate, ErrorText>>,
    elapsed_ms: u128,
) -> OutcomeData {
    match result {
        Some(Ok(rate)) => OutcomeData::Passed { detail: rate.spec_text(), elapsed_ms },
        Some(Err(e)) => OutcomeData::Error { error: e.full(), elapsed_ms },
        None => OutcomeData::Skipped { reason: "protocol does not support current-rate read"@ },
    }
}

/// The outcome of reading the rate; nothing was read where the protocol cannot
/// tell it.
pub fn rate_outcome(result: Option<Result<PollingRate, DeviceError>>, elapsed_ms: u128) -> (r:
    ProbeOutcome)
    ensures
        r@ == rate_data(maybe_outcome(result), elapsed_ms),
{
    match result {
        Some(Ok(rate)) => timed_probe(Ok(rate.text()), elapsed_ms),
        Some(Err(e)) => timed_probe(Err(e), elapsed_ms),
        None => ProbeOutcome::skipped("protocol does not support current-rate read"),
    }
}

/// The outcome of reading the battery; nothing was read where the protocol
/// cannot tell it.
pub open spec fn battery_data(
    result: Option<Result<BatteryStatus, ErrorText>>,
    elapsed_ms: u128,
) -> OutcomeData {
    match result {
        Some(Ok(battery)) => OutcomeData::Passed { detail: battery.spec_text(), elapsed_ms },
        Some(Err(e)) => OutcomeData::Error { error: e.full(), elapsed_ms },
        None => OutcomeData::Skipped { reason: "protocol does not support battery telemetry"@ },
    }
}

/// The outcome of reading the battery; nothing was read where the protocol
/// cannot tell it.
pub fn battery_outcome(result: Option<Result<BatteryStatus, DeviceError>>, elapsed_ms: u128) -> (r:
    ProbeOutcome)
    ensures
        r@ == battery_data(maybe_outcome(result), elapsed_ms),
{
    match result {
        Some(Ok(battery)) => timed_probe(Ok(battery.text()), elapsed_ms),
        Some(Err(e)) => timed_probe(Err(e), elapsed_ms),
        None => ProbeOutcome::skipped("protocol does not support battery telemetry"),
    }
}

/// How one protocol fared in a diagnosis.
#[derive(Clone, Debug)]
pub struct ProtocolDiagnostic {
    pub protocol: ProtocolKind,
    pub open: ProbeOutcome,
    pub control_probe: ProbeOutcome,
    pub rate_read: ProbeOutcome,
    pub battery_read: ProbeOutcome,
}

impl ProtocolDiagnostic {
    /// The diagnosis of an interface that did not open.
    pub fn not_opened(protocol: ProtocolKind, error: String, elapsed_ms: u128) -> (r:
        ProtocolDiagnostic)
        ensures
            r.protocol == protocol,
            r.open@ == (OutcomeData::Error { error: error@, elapsed_ms }),
            r.control_probe@ == (OutcomeData::Skipped { reason: "open failed"@ }),
            r.rate_read@ == (OutcomeData::Skipped { reason: "open failed"@ }),
            r.battery_read@ == (OutcomeData::Skipped { reason: "open failed"@ }),
    {
        ProtocolDiagnostic {
            protocol,
            open: ProbeOutcome::error_timed(error, elapsed_ms),
            control_probe: ProbeOutcome::skipped("open failed"),
            rate_read: ProbeOutcome::skipped("open failed"),
            battery_read: ProbeOutcome::skipped("open failed"),
        }
    }

    /// The diagnosis of an interface that opened.
    pub fn opened(
        protocol: ProtocolKind,
        elapsed_ms: u128,
        control_probe: ProbeOutcome,
        rate_read: ProbeOutcome,
        battery_read: ProbeOutcome,
    ) -> (r: ProtocolDiagnostic)
        ensures
            r.protocol == protocol,
            r.open@ == (OutcomeData::Passed { detail: "opened"@, elapsed_ms }),
            r.control_probe == control_probe,
            r.rate_read == rate_read,
            r.battery_read == battery_read,
    {
        ProtocolDiagnostic {
            protocol,
            open: ProbeOutcome::ok_timed("opened".to_owned(), elapsed_ms),
            control_probe,
            rate_read,
            battery_read,
        }
    }
}

/// The diagnosis of one interface.
#[derive(Clone, Debug)]
pub struct DeviceDiagnostic {
    pub path: String,
    pub vid: u16,
    pub pid: u16,
    pub manufacturer: Option<String>,
    pub product: Option<String>,
    pub serial: Option<String>,
    pub release_number: u16,
    pub usage_page: Option<u16>,
    pub usage: Option<u16>,
    pub interface_number: i32,
    pub bus_type: String,
    pub vendor_name: &'static str,
    pub model_name: &'static str,
    pub connection: ConnectionKind,
    pub supported_rates: Vec<PollingRate>,
    pub protocols: Vec<ProtocolDiagnostic>,
}

impl DeviceDiagnostic {
    /// Whether the diagnosis names the interface and what is known of its model.
    pub open spec fn is_of(
        self,
        interface: HidInterface,
        model: ModelData,
        connection: ConnectionKind,
    ) -> bool {
        &&& self.path@ == interface.path@
        &&& self.vid == interface.vid
        &&& self.pid == interface.pid
        &&& maybe_text(self.manufacturer) == maybe_text(interface.manufacturer)
        &&& maybe_text(self.product) == maybe_text(interface.product)
        &&& maybe_text(self.serial) == maybe_text(interface.serial)
        &&& self.release_number == interface.release_number
        &&& self.usage_page == Some(interface.usage_page)
        &&& self.usage == Some(interface.usage)
        &&& self.interface_number == interface.interface_number
        &&& self.bus_type@ == interface.bus_type@
        &&& self.vendor_name@ == model.vendor_name
        &&& self.model_name@ == model.name
        &&& self.connection == connection
        &&& self.supported_rates@ == model.rates_for(connection)
    }

    /// The diagnosis of an interface of a known model.
    pub fn new(
        interface: &HidInterface,
        model: &'static ModelInfo,
        connection: ConnectionKind,
        protocols: Vec<ProtocolDiagnostic>,
    ) -> (r: DeviceDiagnostic)
        ensures
            r.is_of(*interface, model@, connection),
            r.protocols == protocols,
    {
        DeviceDiagnostic {
            path: interface.path.clone(),
            vid: interface.vid,
            pid: interface.pid,
            manufacturer: copy_maybe(&interface.manufacturer),
            product: copy_maybe(&interface.product),
            serial: copy_maybe(&interface.serial),
            release_number: interface.release_number,
            usage_page: Some(interface.usage_page),
            usage: Some(interface.usage),
            interface_number: interface.interface_number,
            bus_type: interface.bus_type.clone(),
            vendor_name: model.vendor_name,
            model_name: model.name,
            connection,
            supported_rates: copy_rates(model.supported_rates(connection)),
            protocols,
        }
    }
}

/// What a device answered in the steps of a diagnosis. What the protocol cannot
/// tell was not asked.
pub struct AnswersData {
    pub control: Result<(), ErrorText>,
    pub rate: Option<Result<PollingRate, ErrorText>>,
    pub battery: Option<Result<BatteryStatus, ErrorText>>,
}

/// The course of diagnosing an open device: whether it answers at all, then its
/// rate and its battery, each where the protocol can tell it.
pub open spec fn diagnosis_run(
    wire: Wire,
    protocol: ProtocolKind,
    connection: ConnectionKind,
) -> (Wire, AnswersData) {
    let control = probe_run(wire, protocol, connection);
    let (asked, rate) = if protocol.supports_rate_read() {
        let read = rate_run(control.wire, protocol, connection);
        (read.wire, Some(read.outcome))
    } else {
        (control.wire, None)
    };
    let (done, battery) = if protocol.supports_battery_read() {
        let read = battery_run(asked, protocol, connection);
        (read.wire, Some(read.outcome))
    } else {
        (asked, None)
    };
    (done, AnswersData { control: control.outcome, rate, battery })
}

/// The milliseconds between two readings of a clock that counts nanoseconds.
pub open spec fn milliseconds(now: u128, then: u128) -> u128 {
    since(now, then) / NANOS_PER_MILLI
}

/// The milliseconds between two readings of a clock that counts nanoseconds.
fn milliseconds_since(now: u128, then: u128) -> (r: u128)
    ensures
        r == milliseconds(now, then),
{
    elapsed_since(now, then) / NANOS_PER_MILLI
}

impl ProtocolDiagnostic {
    /// Whether the record is that of an interface that did not open.
    pub open spec fn is_closed(self) -> bool {
        &&& self.open@ is Error
        &&& self.control_probe@ == (OutcomeData::Skipped { reason: "open failed"@ })
        &&& self.rate_read@ == (OutcomeData::Skipped { reason: "open failed"@ })
        &&& self.battery_read@ == (OutcomeData::Skipped { reason: "open failed"@ })
    }

    /// Whether the record is that of an interface that opened and answered so.
    /// How long the steps took is left open.
    pub open spec fn tells(self, answers: AnswersData) -> bool {
        &&& self.open@ matches OutcomeData::Passed { detail, .. } && detail == "opened"@
        &&& exists|ms: u128| self.control_probe@ == #[trigger] control_data(answers.control, ms)
        &&& exists|ms: u128| self.rate_read@ == #[trigger] rate_data(answers.rate, ms)
        &&& exists|ms: u128| self.battery_read@ == #[trigger] battery_data(answers.battery, ms)
    }

    /// Whether the record is one that a diagnosis in the protocol can make: one
    /// of an interface that did not open, or one in which just those questions
    /// were left out that the protocol does not answer.
    pub open spec fn fits(self, protocol: ProtocolKind) -> bool {
        &&& self.protocol == protocol
        &&& self.is_closed() || {
            &&& self.open@ matches OutcomeData::Passed { detail, .. } && detail == "opened"@
            &&& !(self.control_probe@ is Skipped)
            &&& if protocol.supports_rate_read() {
                !(self.rate_read@ is Skipped)
            } else {
                self.rate_read@ == rate_data(None, 0)
            }
            &&& if protocol.supports_battery_read() {
                !(self.battery_read@ is Skipped)
            } else {
                self.battery_read@ == battery_data(None, 0)
            }
        }
    }
}

/// The diagnosis of one interface: each protocol of its model is tried, in
/// order, and what came of it is noted.
pub struct Diagnosis {
    pub model: &'static ModelInfo,
    pub connection: ConnectionKind,
    pub candidates: Vec<ProtocolKind>,
    pub next: usize,
    pub records: Vec<ProtocolDiagnostic>,
}

impl Diagnosis {
    /// Whether there is one record for each protocol tried so far, in order.
    pub open spec fn well_formed(self) -> bool {
        &&& self.candidates@ == self.model@.candidates()
        &&& self.next <= self.candidates@.len()
        &&& self.records@.len() == self.next
        &&& forall|i: int|
            0 <= i < self.next ==> (#[trigger] self.records@[i]).fits(self.candidates@[i])
    }

    /// Whether the two differ in the place reached and the records at most.
    pub open spec fn same_question(self, other: Diagnosis) -> bool {
        &&& self.model == other.model
        &&& self.connection == other.connection
        &&& self.candidates == other.candidates
    }

    /// A diagnosis that has not begun.
    pub fn new(model: &'static ModelInfo, connection: ConnectionKind) -> (diagnosis: Diagnosis)
        ensures
            diagnosis.well_formed(),
            diagnosis.model == model,
            diagnosis.connection == connection,
            diagnosis.next == 0,
    {
        Diagnosis {
            model,
            connection,
            candidates: model.protocol_candidates(),
            next: 0,
            records: Vec::new(),
        }
    }

    /// The protocol to try now; none where all were tried.
    pub fn current(&self) -> (r: Option<ProtocolKind>)
        ensures
            r == if self.next < self.candidates@.len() {
                Some(self.candidates@[self.next as int])
            } else {
                None
            },
    {
        if self.next < self.candidates.len() {
            Some(self.candidates[self.next])
        } else {
            None
        }
    }

    /// Notes that the interface did not open, and goes on.
    pub fn not_opened(&mut self, error: String, elapsed_ms: u128)
        requires
            old(self).well_formed(),
            old(self).next < old(self).candidates@.len(),
        ensures
            final(self).well_formed(),
            final(self).same_question(*old(self)),
            final(self).next == old(self).next + 1,
            final(self).records@.drop_last() == old(self).records@,
            final(self).records@.last().is_closed(),
            final(self).records@.last().open@ == (OutcomeData::Error {
                error: error@,
                elapsed_ms,
            }),
    {
        let record = ProtocolDiagnostic::not_opened(self.candidates[self.next], error, elapsed_ms);
        assert(self.next < self.candidates.len());
        self.next = self.next + 1;
        self.records.push(record);
        assert(self.records@.drop_last() =~= old(self).records@);
    }

    /// Asks the open interface all that the current protocol can tell, notes
    /// what came of it, and gives the interface back. The clock counts
    /// nanoseconds; `started` is what it showed before the interface was opened.
    /// What it shows later, and with it how long the steps took, is not told.
    pub fn opened<T: DeviceTransport, C: Fn() -> u128>(
        &mut self,
        transport: T,
        started: u128,
        clock: C,
    ) -> (r: T)
        requires
            old(self).well_formed(),
            old(self).next < old(self).candidates@.len(),
            call_requires(clock, ()),
        ensures
            final(self).well_formed(),
            final(self).same_question(*old(self)),
            final(self).next == old(self).next + 1,
            final(self).records@.drop_last() == old(self).records@,
            ({
                let protocol = old(self).candidates@[old(self).next as int];
                let (wire, answers) = diagnosis_run(
                    transport.wire(),
                    protocol,
                    old(self).connection,
                );
                &&& r.wire() == wire
                &&& final(self).records@.last().protocol == protocol
                &&& final(self).records@.last().tells(answers)
            }),
            exists|now: u128| #[trigger]
                call_ensures(clock, (), now) && final(self).records@.last().open@.elapsed() == Some(
                    milliseconds(now, started),
                ),
    {
        let protocol = self.candidates[self.next];
        let mut device = ProtocolDevice::new(transport, self.model, self.connection, protocol);
        let begun = clock();
        let control = device.probe_control();
        let control = control_outcome(control, milliseconds_since(clock(), begun));
        let begun = clock();
        let rate = if protocol.supports_rate_read() {
            Some(device.read_rate())
        } else {
            None
        };
        let rate = rate_outcome(rate, milliseconds_since(clock(), begun));
        let begun = clock();
        let battery = if protocol.supports_battery_read() {
            Some(device.read_battery())
        } else {
            None
        };
        let battery = battery_outcome(battery, milliseconds_since(clock(), begun));
        let now = clock();
        let record = ProtocolDiagnostic::opened(
            protocol,
            milliseconds_since(now, started),
            control,
            rate,
            battery,
        );
        assert(self.next < self.candidates.len());
        self.next = self.next + 1;
        self.records.push(record);
        assert(self.records@.drop_last() =~= old(self).records@);
        device.transport
    }

    /// The diagnosis of the interface, once all protocols were tried: a record
    /// for each, in order.
    pub fn finish(self, interface: &HidInterface) -> (r: DeviceDiagnostic)
        requires
            self.well_formed(),
            self.next == self.candidates@.len(),
        ensures
            r.is_of(*interface, self.model@, self.connection),
            r.protocols == self.records,
            r.protocols@.len() == self.model@.candidates().len(),
            forall|i: int|
                0 <= i < r.protocols@.len() ==> (#[trigger] r.protocols@[i]).fits(
                    self.model@.candidates()[i],
                ),
    {
        DeviceDiagnostic::new(interface, self.model, self.connection, self.records)
    }
}

} // verus!
