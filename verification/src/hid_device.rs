//! An open device, and what is known of the devices that are attached.
use crate::courses::{
    battery_run, dpi_run, failed, flushed, gave, probe_run, rate_run, report8_read, set_dpi_run,
    set_rate_run, Run, FLUSH_LIMIT,
};
use crate::devices::{BatteryStatus, ConnectionKind, ModelInfo, PollingRate, ProtocolKind};
use crate::error::{DeviceError, ErrorText};
use crate::payloads::{with_report8_crc, write_report8_crc, REPORT8_ID, REPORT8_PAYLOAD_LEN};
use crate::protocols::ProtocolDevice;
use crate::transport::{DeviceTransport, Request, Wire};
use vstd::prelude::*;

pub use crate::interfaces::{
    access_candidates, first_unprobed, is_control_interface, is_hid_permission_error, open_failure,
    select_interfaces, AttemptFailure, HidAccessCandidate, HidInterface, OpenAttempt, OpenSearch,
    SearchTarget, SelectedInterface,
};
pub use crate::probing::{
    battery_outcome, control_outcome, probe_live, rate_outcome, snapshot_of, timed_probe,
    DeviceDiagnostic, DeviceProbe, Diagnosis, InterfaceProbe, ProbeOutcome, ProtocolDiagnostic,
};
pub use crate::snapshots::{merge_snapshot, DeviceSnapshot, DeviceSnapshotCache, DeviceSnapshotKey};

verus! {

/// A report with its id in front, as the system wants it.
pub fn frame_report(report_id: u8, payload: &[u8]) -> (r: Vec<u8>)
    ensures
        r@ == seq![report_id] + payload@,
{
    let mut r: Vec<u8> = Vec::new();
    r.push(report_id);
    let mut rest = crate::bytes::all_bytes(payload);
    r.append(&mut rest);
    assert(r@ =~= seq![report_id] + payload@);
    r
}

/// What each of `reads` holds.
pub open spec fn byte_lists(reads: Seq<Vec<u8>>) -> Seq<Seq<u8>> {
    reads.map_values(|r: Vec<u8>| r@)
}

/// The course of the `left` reads that are left, where the answers in `got`
/// came before: reads that bring nothing are passed over.
pub open spec fn report8_reads_run(
    wire: Wire,
    timeout_ms: int,
    left: nat,
    got: Seq<Seq<u8>>,
) -> Run<Seq<Seq<u8>>>
    decreases left,
{
    if left == 0 {
        gave(wire, got)
    } else {
        let read = report8_read(timeout_ms);
        match wire.reply(read) {
            Err(e) => failed(wire.after(read), e),
            Ok(response) => report8_reads_run(
                wire.after(read),
                timeout_ms,
                (left - 1) as nat,
                if response.len() > 0 {
                    got.push(response)
                } else {
                    got
                },
            ),
        }
    }
}

/// The course of one report8 payload, sent as it is or with its checksum, and
/// of the reads after it.
pub open spec fn report8_exchange_run(
    wire: Wire,
    payload: Seq<u8>,
    write_crc: bool,
    timeout_ms: int,
    reads: nat,
) -> Run<Seq<Seq<u8>>> {
    let start = flushed(wire, FLUSH_LIMIT as nat);
    let write = Request::WriteOutput {
        report_id: REPORT8_ID,
        payload: if write_crc {
            with_report8_crc(payload)
        } else {
            payload
        },
    };
    match start.reply(write) {
        Err(e) => failed(start.after(write), e),
        Ok(_) => report8_reads_run(start.after(write), timeout_ms, reads, seq![]),
    }
}

/// An open device.
pub struct PollingDevice<T: DeviceTransport> {
    pub device: ProtocolDevice<T>,
}

impl<T: DeviceTransport> PollingDevice<T> {
    /// The open device of the given model behind a transport.
    pub fn new(
        transport: T,
        model: &'static ModelInfo,
        connection: ConnectionKind,
        protocol: ProtocolKind,
    ) -> (r: Self)
        ensures
            r.device.transport == transport,
            r.device.model == model,
            r.device.connection == connection,
            r.device.protocol == protocol,
    {
        PollingDevice { device: ProtocolDevice::new(transport, model, connection, protocol) }
    }

    /// The model of the device.
    pub fn model(&self) -> (r: &'static ModelInfo)
        ensures
            r == self.device.model,
    {
        self.device.model
    }

    /// How the device is attached.
    pub fn connection(&self) -> (r: ConnectionKind)
        ensures
            r == self.device.connection,
    {
        self.device.connection
    }

    /// The protocol that the device is spoken to in.
    pub fn protocol(&self) -> (r: ProtocolKind)
        ensures
            r == self.device.protocol,
    {
        self.device.protocol
    }

    /// Whether the configured rate can be read back.
    pub fn supports_rate_read(&self) -> (r: bool)
        ensures
            r == self.device.protocol.supports_rate_read(),
    {
        self.device.protocol.supports_rate_read()
    }

    /// Whether the battery can be read.
    pub fn supports_battery_read(&self) -> (r: bool)
        ensures
            r == self.device.protocol.supports_battery_read(),
    {
        self.device.protocol.supports_battery_read()
    }

    /// Whether the sensor resolution can be read and set.
    pub fn supports_dpi(&self) -> (r: bool)
        ensures
            r == self.device.protocol.supports_dpi(),
    {
        self.device.protocol.supports_dpi()
    }

    /// Finds out whether the device answers.
    pub fn probe_control(&mut self) -> (r: Result<(), DeviceError>)
        ensures
            ProtocolDevice::ran(
                old(self).device,
                final(self).device,
                r,
                probe_run(
                    old(self).device.transport.wire(),
                    old(self).device.protocol,
                    old(self).device.connection,
                ),
            ),
    {
        self.device.probe_control()
    }

    /// Reads the configured rate.
    pub fn read_rate(&mut self) -> (r: Result<PollingRate, DeviceError>)
        ensures
            ProtocolDevice::ran(
                old(self).device,
                final(self).device,
                r,
                rate_run(
                    old(self).device.transport.wire(),
                    old(self).device.protocol,
                    old(self).device.connection,
                ),
            ),
    {
        self.device.read_rate()
    }

    /// Reads the battery.
    pub fn read_battery(&mut self) -> (r: Result<BatteryStatus, DeviceError>)
        ensures
            ProtocolDevice::ran(
                old(self).device,
                final(self).device,
                r,
                battery_run(
                    old(self).device.transport.wire(),
                    old(self).device.protocol,
                    old(self).device.connection,
                ),
            ),
    {
        self.device.read_battery()
    }

    /// Sets the rate, where the model offers it.
    pub fn set_rate(&mut self, rate: PollingRate) -> (r: Result<(), DeviceError>)
        ensures
            ProtocolDevice::ran(
                old(self).device,
                final(self).device,
                r,
                set_rate_run(
                    old(self).device.transport.wire(),
                    old(self).device.model@,
                    old(self).device.protocol,
                    old(self).device.connection,
                    rate,
                ),
            ),
    {
        self.device.set_rate(rate)
    }

    /// Reads the active resolution.
    pub fn read_dpi(&mut self) -> (r: Result<u16, DeviceError>)
        ensures
            ProtocolDevice::ran(
                old(self).device,
                final(self).device,
                r,
                dpi_run(old(self).device.transport.wire(), old(self).device.protocol),
            ),
    {
        self.device.read_dpi()
    }

    /// Sets the active resolution.
    pub fn set_dpi(&mut self, dpi: u16) -> (r: Result<(), DeviceError>)
        ensures
            ProtocolDevice::ran(
                old(self).device,
                final(self).device,
                r,
                set_dpi_run(old(self).device.transport.wire(), old(self).device.protocol, dpi),
            ),
    {
        self.device.set_dpi(dpi)
    }

    /// Sends one report8 payload, and gives what comes back in so many reads.
    #[verifier::loop_isolation(false)]
    pub fn report8_exchange(
        &mut self,
        payload: [u8; REPORT8_PAYLOAD_LEN],
        write_crc: bool,
        timeout_ms: i32,
        reads: usize,
    ) -> (r: Result<Vec<Vec<u8>>, DeviceError>)
        ensures
            final(self).device.same_target(old(self).device),
            ({
                let run = report8_exchange_run(
                    old(self).device.transport.wire(),
                    payload@,
                    write_crc,
                    timeout_ms as int,
                    reads as nat,
                );
                &&& final(self).device.transport.wire() == run.wire
                &&& match r {
                    Ok(responses) => run.outcome == Ok::<Seq<Seq<u8>>, ErrorText>(
                        byte_lists(responses@),
                    ),
                    Err(e) => run.outcome == Err::<Seq<Seq<u8>>, ErrorText>(e@),
                }
            }),
    {
        self.device.flush_report8();
        let mut payload = payload;
        if write_crc {
            write_report8_crc(&mut payload);
        }
        match self.device.transport.write_output_payload(REPORT8_ID, &payload) {
            Err(e) => return Err(e),
            Ok(_) => {},
        }
        let mut responses: Vec<Vec<u8>> = Vec::new();
        assert(byte_lists(responses@) =~= seq![]);
        let ghost whole = report8_reads_run(
            self.device.transport.wire(),
            timeout_ms as int,
            reads as nat,
            seq![],
        );
        for i in 0..reads
            invariant
                self.device.same_target(old(self).device),
                report8_reads_run(
                    self.device.transport.wire(),
                    timeout_ms as int,
                    (reads - i) as nat,
                    byte_lists(responses@),
                ) == whole,
        {
            let response = match self.device.transport.read_input_payload(
                REPORT8_ID,
                REPORT8_PAYLOAD_LEN,
                timeout_ms,
            ) {
                Err(e) => return Err(e),
                Ok(response) => response,
            };
            if response.len() > 0 {
                let ghost before = responses@;
                let ghost bytes = response@;
                responses.push(response);
                assert(byte_lists(responses@) =~= byte_lists(before).push(bytes));
            }
        }
        Ok(responses)
    }
}

} // verus!
