//! What a device is spoken to through, and a transport that plays a script.
use crate::bytes::all_bytes;
use crate::error::{plain_error, DeviceError, ErrorText};
use vstd::prelude::*;

verus! {

/// One thing asked of a transport.
pub enum Request {
    SendFeature { report_id: u8, payload: Seq<u8> },
    GetFeature { report_id: u8, payload_len: nat },
    WriteOutput { report_id: u8, payload: Seq<u8> },
    ReadInput { report_id: u8, payload_len: nat, timeout_ms: int },
    Sleep { milliseconds: nat },
}

/// What came back: the bytes that were read, none for a request that reads
/// nothing, or the error.
pub type Reply = Result<Seq<u8>, ErrorText>;

/// A transport as its user sees it: what was asked of it so far, and what it
/// answers to the last request of any course of requests.
pub struct Wire {
    pub sent: Seq<Request>,
    pub answers: spec_fn(Seq<Request>) -> Reply,
}

impl Wire {
    /// The wire after one more request.
    pub open spec fn after(self, request: Request) -> Wire {
        Wire { sent: self.sent.push(request), answers: self.answers }
    }

    /// The reply to a request made now.
    pub open spec fn reply(self, request: Request) -> Reply {
        (self.answers)(self.sent.push(request))
    }
}

/// Whether a reply is a success, and its error.
pub open spec fn status(reply: Reply) -> Result<(), ErrorText> {
    match reply {
        Ok(_) => Ok(()),
        Err(e) => Err(e),
    }
}

/// Bytes that may not have come, in view.
pub open spec fn read_outcome(r: Result<Vec<u8>, DeviceError>) -> Reply {
    match r {
        Ok(bytes) => Ok(bytes@),
        Err(e) => Err(e@),
    }
}

/// A result of which only success and error are looked at.
pub open spec fn status_outcome<V>(r: Result<V, DeviceError>) -> Result<(), ErrorText> {
    match r {
        Ok(_) => Ok(()),
        Err(e) => Err(e@),
    }
}

/// A way to exchange reports with one device.
pub trait DeviceTransport {
    /// What was asked so far, and what will be answered.
    spec fn wire(&self) -> Wire;

    /// Sends a feature report.
    fn send_feature_payload(&mut self, report_id: u8, payload: &[u8]) -> (r: Result<
        (),
        DeviceError,
    >)
        ensures
            final(self).wire() == old(self).wire().after(
                Request::SendFeature { report_id, payload: payload@ },
            ),
            status_outcome(r) == status(
                old(self).wire().reply(Request::SendFeature { report_id, payload: payload@ }),
            ),
    ;

    /// Reads a feature report.
    fn get_feature_payload(&mut self, report_id: u8, payload_len: usize) -> (r: Result<
        Vec<u8>,
        DeviceError,
    >)
        ensures
            final(self).wire() == old(self).wire().after(
                Request::GetFeature { report_id, payload_len: payload_len as nat },
            ),
            read_outcome(r) == old(self).wire().reply(
                Request::GetFeature { report_id, payload_len: payload_len as nat },
            ),
    ;

    /// Writes an output report and tells how many bytes went out.
    fn write_output_payload(&mut self, report_id: u8, payload: &[u8]) -> (r: Result<
        usize,
        DeviceError,
    >)
        ensures
            final(self).wire() == old(self).wire().after(
                Request::WriteOutput { report_id, payload: payload@ },
            ),
            status_outcome(r) == status(
                old(self).wire().reply(Request::WriteOutput { report_id, payload: payload@ }),
            ),
    ;

    /// Reads an input report; no bytes come where none arrived in time.
    fn read_input_payload(&mut self, report_id: u8, payload_len: usize, timeout_ms: i32) -> (r:
        Result<Vec<u8>, DeviceError>)
        ensures
            final(self).wire() == old(self).wire().after(
                Request::ReadInput {
                    report_id,
                    payload_len: payload_len as nat,
                    timeout_ms: timeout_ms as int,
                },
            ),
            read_outcome(r) == old(self).wire().reply(
                Request::ReadInput {
                    report_id,
                    payload_len: payload_len as nat,
                    timeout_ms: timeout_ms as int,
                },
            ),
    ;

    /// Waits.
    fn sleep(&mut self, milliseconds: u64)
        ensures
            final(self).wire() == old(self).wire().after(
                Request::Sleep { milliseconds: milliseconds as nat },
            ),
    ;
}

/// One thing that was asked of a scripted transport.
#[derive(Clone, Debug, PartialEq, Eq)]
pub enum SentRequest {
    SendFeature { report_id: u8, payload: Vec<u8> },
    GetFeature { report_id: u8, payload_len: usize },
    WriteOutput { report_id: u8, payload: Vec<u8> },
    ReadInput { report_id: u8, payload_len: usize, timeout_ms: i32 },
    Sleep { milliseconds: u64 },
}

impl View for SentRequest {
    type V = Request;

    open spec fn view(&self) -> Request {
        match *self {
            SentRequest::SendFeature { report_id, payload } => Request::SendFeature {
                report_id,
                payload: payload@,
            },
            SentRequest::GetFeature { report_id, payload_len } => Request::GetFeature {
                report_id,
                payload_len: payload_len as nat,
            },
            SentRequest::WriteOutput { report_id, payload } => Request::WriteOutput {
                report_id,
                payload: payload@,
            },
            SentRequest::ReadInput { report_id, payload_len, timeout_ms } => Request::ReadInput {
                report_id,
                payload_len: payload_len as nat,
                timeout_ms: timeout_ms as int,
            },
            SentRequest::Sleep { milliseconds } => Request::Sleep {
                milliseconds: milliseconds as nat,
            },
        }
    }
}

/// A transport that answers out of a script and keeps a log. Feature reads and
/// input reads are answered in the order of the script; past its end a feature
/// read fails, and an input read brings no bytes. All else succeeds.
pub struct ScriptedTransport {
    pub feature_reads: Vec<Vec<u8>>,
    pub input_reads: Vec<Vec<u8>>,
    pub log: Vec<SentRequest>,
}

/// How many feature reads stand in a course of requests.
pub open spec fn feature_reads_in(sent: Seq<Request>) -> nat
    decreases sent.len(),
{
    if sent.len() == 0 {
        0
    } else {
        feature_reads_in(sent.drop_last()) + if sent.last() is GetFeature {
            1nat
        } else {
            0nat
        }
    }
}

/// How many input reads stand in a course of requests.
pub open spec fn input_reads_in(sent: Seq<Request>) -> nat
    decreases sent.len(),
{
    if sent.len() == 0 {
        0
    } else {
        input_reads_in(sent.drop_last()) + if sent.last() is ReadInput {
            1nat
        } else {
            0nat
        }
    }
}

/// What the script answers to the last of a course of requests.
pub open spec fn scripted_reply(
    feature_reads: Seq<Vec<u8>>,
    input_reads: Seq<Vec<u8>>,
    sent: Seq<Request>,
) -> Reply {
    let before = sent.drop_last();
    match sent.last() {
        Request::GetFeature { .. } => if feature_reads_in(before) < feature_reads.len() {
            Ok(feature_reads[feature_reads_in(before) as int]@)
        } else {
            Err(plain_error("no scripted feature response"@))
        },
        Request::ReadInput { .. } => if input_reads_in(before) < input_reads.len() {
            Ok(input_reads[input_reads_in(before) as int]@)
        } else {
            Ok(seq![])
        },
        _ => Ok(seq![]),
    }
}

/// The log in view.
pub open spec fn requests(log: Seq<SentRequest>) -> Seq<Request> {
    log.map_values(|r: SentRequest| r@)
}

impl ScriptedTransport {
    /// A transport that answers with the given reports.
    pub fn new(feature_reads: Vec<Vec<u8>>, input_reads: Vec<Vec<u8>>) -> (t: ScriptedTransport)
        ensures
            t.feature_reads == feature_reads,
            t.input_reads == input_reads,
            t.log@ == Seq::<SentRequest>::empty(),
    {
        ScriptedTransport { feature_reads, input_reads, log: Vec::new() }
    }

    /// How many feature reads the log holds.
    fn logged_feature_reads(&self) -> (n: usize)
        ensures
            n == feature_reads_in(requests(self.log@)),
    {
        let mut n: usize = 0;
        for i in 0..self.log.len()
            invariant
                n <= i,
                n == feature_reads_in(requests(self.log@).take(i as int)),
        {
            assert(requests(self.log@).take(i + 1).drop_last() =~= requests(self.log@).take(
                i as int,
            ));
            if let SentRequest::GetFeature { .. } = &self.log[i] {
                n = n + 1;
            }
        }
        assert(requests(self.log@).take(self.log@.len() as int) =~= requests(self.log@));
        n
    }

    /// How many input reads the log holds.
    fn logged_input_reads(&self) -> (n: usize)
        ensures
            n == input_reads_in(requests(self.log@)),
    {
        let mut n: usize = 0;
        for i in 0..self.log.len()
            invariant
                n <= i,
                n == input_reads_in(requests(self.log@).take(i as int)),
        {
            assert(requests(self.log@).take(i + 1).drop_last() =~= requests(self.log@).take(
                i as int,
            ));
            if let SentRequest::ReadInput { .. } = &self.log[i] {
                n = n + 1;
            }
        }
        assert(requests(self.log@).take(self.log@.len() as int) =~= requests(self.log@));
        n
    }

    /// Puts a request at the end of the log.
    fn note(&mut self, request: SentRequest)
        ensures
            final(self).feature_reads == old(self).feature_reads,
            final(self).input_reads == old(self).input_reads,
            final(self).wire() == old(self).wire().after(request@),
    {
        self.log.push(request);
        assert(requests(self.log@) =~= requests(old(self).log@).push(request@));
    }
}

impl DeviceTransport for ScriptedTransport {
    open spec fn wire(&self) -> Wire {
        let feature_reads = self.feature_reads@;
        let input_reads = self.input_reads@;
        Wire {
            sent: requests(self.log@),
            answers: |sent: Seq<Request>| scripted_reply(feature_reads, input_reads, sent),
        }
    }

    fn send_feature_payload(&mut self, report_id: u8, payload: &[u8]) -> (r: Result<
        (),
        DeviceError,
    >) {
        let payload = all_bytes(payload);
        self.note(SentRequest::SendFeature { report_id, payload });
        Ok(())
    }

    fn get_feature_payload(&mut self, report_id: u8, payload_len: usize) -> (r: Result<
        Vec<u8>,
        DeviceError,
    >) {
        let next = self.logged_feature_reads();
        let ghost request = Request::GetFeature { report_id, payload_len: payload_len as nat };
        assert(requests(self.log@).push(request).drop_last() =~= requests(self.log@));
        self.note(SentRequest::GetFeature { report_id, payload_len });
        if next < self.feature_reads.len() {
            let read = &self.feature_reads[next];
            Ok(all_bytes(read))
        } else {
            Err(DeviceError::from_words("no scripted feature response"))
        }
    }

    fn write_output_payload(&mut self, report_id: u8, payload: &[u8]) -> (r: Result<
        usize,
        DeviceError,
    >) {
        let written = payload.len();
        let payload = all_bytes(payload);
        self.note(SentRequest::WriteOutput { report_id, payload });
        Ok(written.saturating_add(1))
    }

    fn read_input_payload(&mut self, report_id: u8, payload_len: usize, timeout_ms: i32) -> (r:
        Result<Vec<u8>, DeviceError>) {
        let next = self.logged_input_reads();
        let ghost request = Request::ReadInput {
            report_id,
            payload_len: payload_len as nat,
            timeout_ms: timeout_ms as int,
        };
        assert(requests(self.log@).push(request).drop_last() =~= requests(self.log@));
        self.note(SentRequest::ReadInput { report_id, payload_len, timeout_ms });
        if next < self.input_reads.len() {
            let read = &self.input_reads[next];
            Ok(all_bytes(read))
        } else {
            Ok(Vec::new())
        }
    }

    fn sleep(&mut self, milliseconds: u64) {
        self.note(SentRequest::Sleep { milliseconds });
    }
}

} // verus!
