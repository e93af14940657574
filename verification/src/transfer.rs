//! The decision half of the chunked transfer engines.
//!
//! A transfer alternates I/O the library cannot perform (reading a
//! chunk, writing to the sink, awaiting the network) with decisions it
//! can: how to start tracking, what each chunk means for progress, and
//! how the transfer terminates. The I/O loop calls down here with the
//! plain facts of each step and acts on what comes back; the tracker's
//! invariants guarantee the event discipline whatever order the I/O
//! takes.

use vstd::prelude::*;

use crate::error::TransferError;
use crate::json::failure_text;
use crate::json::spec_failure_text;
use crate::progress::Phase;
use crate::progress::ProgressEvent;
use crate::progress::ProgressTracker;
use crate::spec_reported_bytes;

verus! {

/// A mid-stream fault, with the underlying I/O error's description:
/// either the network read failed or the local sink write did.
#[derive(Debug, Clone, PartialEq, Eq)]
pub enum StreamFault {
    Transport(String),
    SinkWrite(String),
}

/// The error a mid-stream fault surfaces as.
pub open spec fn spec_fault_error(f: StreamFault) -> TransferError {
    match f {
        StreamFault::Transport(m) => TransferError::TransportError(m),
        StreamFault::SinkWrite(m) => TransferError::SinkWriteError(m),
    }
}

/// Start a download from the response's status and declared length:
/// on a success status, a fresh tracker whose total is the declared
/// content length (`None` when the response carries no length header);
/// on any other status, the failure envelope's decoded message.
pub fn begin_download(
    success: bool,
    status: u16,
    body: &[u8],
    content_length: Option<u64>,
) -> (r: Result<ProgressTracker, TransferError>)
    ensures
        r is Ok <==> success,
        r matches Ok(t) ==> {
            &&& t.wf()
            &&& !t.terminated
            &&& t.transferred == 0
            &&& t.total == content_length
            &&& t.events@ =~= Seq::<ProgressEvent>::empty()
        },
        r matches Err(e) ==> e matches TransferError::DownloadFailed(m) && m@ == spec_failure_text(
            status as int,
            body@,
        ),
{
    if success {
        Ok(ProgressTracker::new(content_length))
    } else {
        Err(TransferError::DownloadFailed(failure_text(status, body)))
    }
}

/// Start an upload of a source whose length is `source_len` when it
/// could be determined.
pub fn begin_upload(source_len: Option<u64>) -> (t: ProgressTracker)
    ensures
        t.wf(),
        !t.terminated,
        t.transferred == 0,
        t.total == source_len,
        t.events@ =~= Seq::<ProgressEvent>::empty(),
{
    ProgressTracker::new(source_len)
}

/// Terminate a transfer according to how its request settled: the one
/// `Completed` event on success, the one `Failed` event otherwise.
pub fn settle(t: &mut ProgressTracker, success: bool) -> (e: ProgressEvent)
    requires
        old(t).wf(),
        !old(t).terminated,
    ensures
        final(t).wf(),
        final(t).terminated,
        final(t).total == old(t).total,
        final(t).transferred == old(t).transferred,
        e.phase == (if success {
            Phase::Completed
        } else {
            Phase::Failed
        }),
        e.total_bytes == old(t).total,
        e.bytes_transferred == spec_reported_bytes(old(t).transferred, old(t).total),
        final(t).events@ =~= old(t).events@.push(e),
{
    if success {
        t.complete()
    } else {
        t.fail()
    }
}

/// Terminate a transfer on a mid-stream fault: the one `Failed` event,
/// paired with the error the fault surfaces as. Bytes already written
/// to the destination remain; cleanup is the caller's policy.
pub fn stream_fault(t: &mut ProgressTracker, fault: StreamFault) -> (r: (
    ProgressEvent,
    TransferError,
))
    requires
        old(t).wf(),
        !old(t).terminated,
    ensures
        final(t).wf(),
        final(t).terminated,
        final(t).total == old(t).total,
        final(t).transferred == old(t).transferred,
        r.0.phase == Phase::Failed,
        r.0.total_bytes == old(t).total,
        r.0.bytes_transferred == spec_reported_bytes(old(t).transferred, old(t).total),
        final(t).events@ =~= old(t).events@.push(r.0),
        r.1 == spec_fault_error(fault),
{
    let e = t.fail();
    let err = match fault {
        StreamFault::Transport(m) => TransferError::TransportError(m),
        StreamFault::SinkWrite(m) => TransferError::SinkWriteError(m),
    };
    (e, err)
}

} // verus!
