//! Progress observation for chunked transfers.
//!
//! A [`ProgressTracker`] is the bookkeeping half of a transfer engine:
//! the I/O loop feeds it the length of each chunk as it is moved and
//! tells it how the transfer ended, and the tracker hands back the
//! progress events to surface to a reporter. The tracker keeps a ghost
//! history of every event it has produced, so the ordering guarantees
//! (byte counts never decrease, exactly one terminal event, always
//! last) are stated and proved over that history.

use vstd::prelude::*;

use crate::spec_reported_bytes;
use crate::reported_bytes;

verus! {

/// The phase of a progress event: a transfer advances through any
/// number of `InProgress` events and ends with exactly one `Completed`
/// or `Failed` event.
#[derive(Clone, Copy, Debug, PartialEq, Eq, Structural)]
pub enum Phase {
    InProgress,
    Completed,
    Failed,
}

/// One progress notification. `total_bytes` is the declared size of
/// the transfer when one is known (`None` for responses without a
/// length header); `bytes_transferred` is the running count, capped at
/// the declared total.
#[derive(Clone, Copy, Debug)]
pub struct ProgressEvent {
    pub bytes_transferred: u64,
    pub total_bytes: Option<u64>,
    pub phase: Phase,
}

/// Per-transfer progress state. One tracker is created per transfer,
/// advanced once per chunk, and terminated exactly once.
pub struct ProgressTracker {
    /// Declared size of the transfer, when known ahead of time.
    pub total: Option<u64>,
    /// Bytes actually moved so far.
    pub transferred: u64,
    /// Whether a terminal event has been produced.
    pub terminated: bool,
    /// History of every event produced so far, oldest first.
    pub events: Ghost<Seq<ProgressEvent>>,
}

impl ProgressTracker {
    /// Well-formedness of the tracker and its event history: all
    /// events carry the declared total, byte counts never decrease,
    /// only the last event may be terminal, a terminal event exists
    /// exactly when the tracker is terminated, and the newest event
    /// reports the current (capped) byte count.
    pub open spec fn wf(&self) -> bool {
        &&& forall|i: int|
            0 <= i < self.events@.len() ==> (#[trigger] self.events@[i]).total_bytes
                == self.total
        &&& forall|i: int, j: int|
            0 <= i <= j < self.events@.len() ==> (#[trigger] self.events@[i]).bytes_transferred
                <= (#[trigger] self.events@[j]).bytes_transferred
        &&& forall|i: int|
            0 <= i < self.events@.len() - 1 ==> (#[trigger] self.events@[i]).phase
                == Phase::InProgress
        &&& self.terminated <==> (self.events@.len() > 0 && self.events@.last().phase
            != Phase::InProgress)
        &&& self.events@.len() > 0 ==> self.events@.last().bytes_transferred
            == spec_reported_bytes(self.transferred, self.total)
        &&& (self.terminated && self.events@.len() >= 2) ==> self.events@[self.events@.len()
            - 2].bytes_transferred == self.events@.last().bytes_transferred
    }

    /// Start tracking a transfer whose declared size is `total`
    /// (`None` when the size is unknown ahead of time).
    pub fn new(total: Option<u64>) -> (t: ProgressTracker)
        ensures
            t.wf(),
            t.total == total,
            t.transferred == 0,
            !t.terminated,
            t.events@ =~= Seq::<ProgressEvent>::empty(),
    {
        ProgressTracker { total, transferred: 0, terminated: false, events: Ghost(Seq::empty()) }
    }

    /// Record that one chunk of `len` bytes was moved, and produce the
    /// `InProgress` event to report: the running count, capped at the
    /// declared total so chunk-boundary rounding never overshoots.
    pub fn on_chunk(&mut self, len: u64) -> (e: ProgressEvent)
        requires
            old(self).wf(),
            !old(self).terminated,
            old(self).transferred + len <= u64::MAX,
        ensures
            final(self).wf(),
            !final(self).terminated,
            final(self).total == old(self).total,
            final(self).transferred == old(self).transferred + len,
            e.phase == Phase::InProgress,
            e.total_bytes == old(self).total,
            e.bytes_transferred == spec_reported_bytes(final(self).transferred, old(self).total),
            final(self).events@ =~= old(self).events@.push(e),
    {
        self.transferred = self.transferred + len;
        let reported = reported_bytes(self.transferred, self.total);
        let e = ProgressEvent {
            bytes_transferred: reported,
            total_bytes: self.total,
            phase: Phase::InProgress,
        };
        self.events = Ghost(self.events@.push(e));
        e
    }

    /// Terminate the transfer successfully and produce the single
    /// `Completed` event; no event may follow it.
    pub fn complete(&mut self) -> (e: ProgressEvent)
        requires
            old(self).wf(),
            !old(self).terminated,
        ensures
            final(self).wf(),
            final(self).terminated,
            final(self).total == old(self).total,
            final(self).transferred == old(self).transferred,
            e.phase == Phase::Completed,
            e.total_bytes == old(self).total,
            e.bytes_transferred == spec_reported_bytes(old(self).transferred, old(self).total),
            final(self).events@ =~= old(self).events@.push(e),
    {
        self.terminated = true;
        let reported = reported_bytes(self.transferred, self.total);
        let e = ProgressEvent {
            bytes_transferred: reported,
            total_bytes: self.total,
            phase: Phase::Completed,
        };
        self.events = Ghost(self.events@.push(e));
        e
    }

    /// Terminate the transfer as failed and produce the single
    /// `Failed` event; no event may follow it.
    pub fn fail(&mut self) -> (e: ProgressEvent)
        requires
            old(self).wf(),
            !old(self).terminated,
        ensures
            final(self).wf(),
            final(self).terminated,
            final(self).total == old(self).total,
            final(self).transferred == old(self).transferred,
            e.phase == Phase::Failed,
            e.total_bytes == old(self).total,
            e.bytes_transferred == spec_reported_bytes(old(self).transferred, old(self).total),
            final(self).events@ =~= old(self).events@.push(e),
    {
        self.terminated = true;
        let reported = reported_bytes(self.transferred, self.total);
        let e = ProgressEvent {
            bytes_transferred: reported,
            total_bytes: self.total,
            phase: Phase::Failed,
        };
        self.events = Ghost(self.events@.push(e));
        e
    }
}

/// Progress monotonicity: the byte counts carried by the events of one
/// transfer, in the order they were produced, never decrease, and none
/// exceeds the (capped) count of what the transfer has moved so far.
pub proof fn lemma_progress_monotone(t: ProgressTracker)
    requires
        t.wf(),
    ensures
        forall|i: int, j: int|
            0 <= i <= j < t.events@.len() ==> (#[trigger] t.events@[i]).bytes_transferred
                <= (#[trigger] t.events@[j]).bytes_transferred,
        forall|i: int|
            0 <= i < t.events@.len() ==> (#[trigger] t.events@[i]).bytes_transferred
                <= spec_reported_bytes(t.transferred, t.total),
{
    assert forall|i: int|
        0 <= i < t.events@.len() implies (#[trigger] t.events@[i]).bytes_transferred
        <= spec_reported_bytes(t.transferred, t.total) by {
        assert(t.events@[i].bytes_transferred <= t.events@[t.events@.len()
            - 1].bytes_transferred);
    }
}

/// Progress completeness: for a terminated transfer that moved no more
/// bytes than its declared total (or had no declared total), the final
/// `InProgress` event reports exactly the number of bytes actually
/// moved, and so does the terminal event.
pub proof fn lemma_final_progress_value(t: ProgressTracker)
    requires
        t.wf(),
        t.terminated,
        t.events@.len() >= 2,
        t.total matches Some(tot) ==> t.transferred <= tot,
    ensures
        t.events@[t.events@.len() - 2].phase == Phase::InProgress,
        t.events@[t.events@.len() - 2].bytes_transferred == t.transferred,
        t.events@.last().bytes_transferred == t.transferred,
{
}

/// Single terminal event: no event ever follows a `Completed` or
/// `Failed` event, a terminated transfer's history holds exactly one
/// terminal event (its last), and an unterminated transfer's history
/// holds none.
pub proof fn lemma_single_terminal_event(t: ProgressTracker)
    requires
        t.wf(),
    ensures
        forall|i: int|
            0 <= i < t.events@.len() - 1 ==> (#[trigger] t.events@[i]).phase == Phase::InProgress,
        t.terminated ==> t.events@.len() > 0 && t.events@.last().phase != Phase::InProgress,
        !t.terminated ==> forall|i: int|
            0 <= i < t.events@.len() ==> (#[trigger] t.events@[i]).phase == Phase::InProgress,
{
    assert forall|i: int|
        !t.terminated && 0 <= i < t.events@.len() implies (#[trigger] t.events@[i]).phase
        == Phase::InProgress by {
        if i == t.events@.len() - 1 {
            assert(t.events@.last().phase == Phase::InProgress);
        }
    }
}

} // verus!
