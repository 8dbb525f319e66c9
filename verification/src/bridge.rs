//! The asynchronous receive bridge.
//!
//! The provider's receive primitive blocks its thread, up to a timeout.
//! A cooperative scheduler cannot afford that, so the bridge adapts it
//! through non-blocking attempts — every attempt is issued with
//! `RECV_NONBLOCK_MSEC`, never a positive timeout — in one of two
//! strategies. The self-polling strategy issues one attempt per scheduler
//! poll and re-arms itself while the provider reports no data. The
//! readiness-driven strategy waits for the OS to report the session's
//! descriptor readable and then issues exactly one attempt, going back to
//! waiting on a spurious wakeup. Both deliver the attempt's byte counts
//! exactly as reported, and an operation abandoned before it is ready has
//! no effect on the session.

use vstd::prelude::*;

use crate::error::decoded_error;
use crate::error::to_io_error;
use crate::error::DlpiError;
use crate::sys;

verus! {

/// The timeout handed to every receive attempt the bridge issues: return
/// at once, answering the no-data code when nothing is pending, so the
/// scheduler is never blocked.
pub const RECV_NONBLOCK_MSEC: i32 = 0;

/// The reported outcome of one non-blocking receive attempt: the result
/// code, the OS error number current when the provider answered, and the
/// counts of address and message bytes written.
#[derive(Clone, Copy, Debug, PartialEq, Eq, Structural)]
pub struct Attempt {
    /// Result code of the attempt.
    pub ret: i32,
    /// OS error number current when the provider answered.
    pub os_errno: i32,
    /// Address bytes written.
    pub src_read: usize,
    /// Message bytes written.
    pub msg_read: usize,
}

/// State of the self-polling strategy: pending until one attempt ends it.
#[derive(Clone, Copy, Debug, PartialEq, Eq)]
pub enum RecvPoll {
    /// No data yet; the task re-arms itself for another scheduler poll.
    Pending,
    /// Terminal: the receive's outcome, success or error.
    Ready(Result<(usize, usize), DlpiError>),
}

/// What one attempt does to the self-polling strategy: data ends it with
/// the exact byte counts; the no-data code keeps it pending (not a real
/// deadline — the attempt was non-blocking); any other code ends it with
/// the decoded error.
pub open spec fn self_poll_outcome(a: Attempt) -> RecvPoll {
    if a.ret == sys::DLPI_SUCCESS {
        RecvPoll::Ready(Ok((a.src_read, a.msg_read)))
    } else if a.ret == sys::DLPI_ETIMEDOUT {
        RecvPoll::Pending
    } else {
        RecvPoll::Ready(Err(decoded_error(a.ret, a.os_errno)))
    }
}

/// One scheduler poll of the self-polling strategy: exactly one attempt
/// was issued, and its outcome alone decides.
pub fn poll_step(a: Attempt) -> (r: RecvPoll)
    ensures
        r == self_poll_outcome(a),
{
    if a.ret == sys::DLPI_SUCCESS {
        RecvPoll::Ready(Ok((a.src_read, a.msg_read)))
    } else if a.ret == sys::DLPI_ETIMEDOUT {
        RecvPoll::Pending
    } else {
        RecvPoll::Ready(Err(to_io_error(a.ret, a.os_errno)))
    }
}

/// Where the self-polling strategy stands after a sequence of scheduler
/// polls, one attempt per poll: the first terminal outcome, if any poll
/// reached one, and pending otherwise.
pub open spec fn self_poll_run(attempts: Seq<Attempt>) -> RecvPoll
    decreases attempts.len(),
{
    if attempts.len() == 0 {
        RecvPoll::Pending
    } else if self_poll_outcome(attempts[0]) is Ready {
        self_poll_outcome(attempts[0])
    } else {
        self_poll_run(attempts.skip(1))
    }
}

/// A receive on a session that never signals data stays pending: when
/// every attempt reports the no-data code, no number of polls resolves the
/// operation, with success or with error. It pends until the caller
/// abandons it, which has no effect on the session.
pub proof fn lemma_never_signaled_stays_pending(attempts: Seq<Attempt>)
    requires
        forall|i: int| 0 <= i < attempts.len() ==> (#[trigger] attempts[i]).ret
            == sys::DLPI_ETIMEDOUT,
    ensures
        self_poll_run(attempts) is Pending,
    decreases attempts.len(),
{
    if attempts.len() != 0 {
        assert(self_poll_outcome(attempts[0]) is Pending);
        assert(forall|i: int|
            0 <= i < attempts.skip(1).len() ==> (#[trigger] attempts.skip(1)[i]).ret
                == sys::DLPI_ETIMEDOUT);
        lemma_never_signaled_stays_pending(attempts.skip(1));
    }
}

/// State of the readiness-driven strategy.
#[derive(Clone, Copy, Debug, PartialEq, Eq)]
pub enum ReadinessRecv {
    /// Suspended until the OS reports the session's descriptor readable.
    WaitingForReadability,
    /// Woken: exactly one non-blocking attempt is owed.
    AttemptingReceive,
    /// Terminal: the receive's outcome, success or error.
    Ready(Result<(usize, usize), DlpiError>),
}

/// What the one attempt a wakeup licensed does to the readiness-driven
/// strategy: data ends it with the exact byte counts; the no-data code
/// means the wakeup was spurious (another consumer drained the frame
/// first) and the strategy goes back to waiting rather than spinning; any
/// other code ends it with the decoded error.
pub open spec fn readiness_outcome(a: Attempt) -> ReadinessRecv {
    if a.ret == sys::DLPI_SUCCESS {
        ReadinessRecv::Ready(Ok((a.src_read, a.msg_read)))
    } else if a.ret == sys::DLPI_ETIMEDOUT {
        ReadinessRecv::WaitingForReadability
    } else {
        ReadinessRecv::Ready(Err(decoded_error(a.ret, a.os_errno)))
    }
}

/// A readability wakeup: the only transition out of waiting, and the only
/// one that licenses an attempt, so at most one attempt is in flight per
/// wakeup.
pub fn on_readable(s: ReadinessRecv) -> (r: ReadinessRecv)
    requires
        s is WaitingForReadability,
    ensures
        r is AttemptingReceive,
{
    ReadinessRecv::AttemptingReceive
}

/// The single attempt owed after a wakeup: its outcome alone decides.
pub fn on_attempt(s: ReadinessRecv, a: Attempt) -> (r: ReadinessRecv)
    requires
        s is AttemptingReceive,
    ensures
        r == readiness_outcome(a),
{
    if a.ret == sys::DLPI_SUCCESS {
        ReadinessRecv::Ready(Ok((a.src_read, a.msg_read)))
    } else if a.ret == sys::DLPI_ETIMEDOUT {
        ReadinessRecv::WaitingForReadability
    } else {
        ReadinessRecv::Ready(Err(to_io_error(a.ret, a.os_errno)))
    }
}

/// Where the readiness-driven strategy stands after a sequence of wakeups,
/// each licensing one attempt: the first terminal outcome, if any wakeup
/// reached one, and waiting otherwise.
pub open spec fn readiness_run(attempts: Seq<Attempt>) -> ReadinessRecv
    decreases attempts.len(),
{
    if attempts.len() == 0 {
        ReadinessRecv::WaitingForReadability
    } else if readiness_outcome(attempts[0]) is Ready {
        readiness_outcome(attempts[0])
    } else {
        readiness_run(attempts.skip(1))
    }
}

/// Spurious wakeups never resolve the operation: when every attempt
/// reports the no-data code, the strategy is back to waiting — suspended,
/// not spinning — and no spurious success or error is delivered.
pub proof fn lemma_spurious_wakeups_keep_waiting(attempts: Seq<Attempt>)
    requires
        forall|i: int| 0 <= i < attempts.len() ==> (#[trigger] attempts[i]).ret
            == sys::DLPI_ETIMEDOUT,
    ensures
        readiness_run(attempts) is WaitingForReadability,
    decreases attempts.len(),
{
    if attempts.len() != 0 {
        assert(readiness_outcome(attempts[0]) is WaitingForReadability);
        assert(forall|i: int|
            0 <= i < attempts.skip(1).len() ==> (#[trigger] attempts.skip(1)[i]).ret
                == sys::DLPI_ETIMEDOUT);
        lemma_spurious_wakeups_keep_waiting(attempts.skip(1));
    }
}

} // verus!
