//! The session handle and its lifecycle.
//!
//! One open link is backed by exactly one native resource. Everybody may
//! hold shareable `DlpiHandle` references to it, but one distinguished
//! `DropHandle` owns it, and release goes through that owner alone, by
//! consuming it — so the resource is released at most once, on every exit
//! path. The lifecycle model at the bottom states that discipline as a
//! transition system and proves it.

use vstd::prelude::*;

use crate::error::check_return;
use crate::error::decoded_error;
use crate::error::DlpiError;
use crate::error::ResultCode;
use crate::sys;

verus! {

/// A non-owning, thread-shareable reference to one link instance. It
/// carries no mutable state of its own; concurrent use of the instance is
/// the provider's own documented contract.
#[derive(Clone, Copy, Debug, PartialEq, Eq, Structural)]
pub struct DlpiHandle(pub sys::dlpi_handle);

impl DlpiHandle {
    /// Whether this is the null reference, the placeholder before `open`
    /// fills it in.
    pub open spec fn is_null(self) -> bool {
        self.0.addr == 0
    }
}

/// The owning handle: the one holder responsible for releasing the native
/// instance. It is not copyable, and release consumes it, so no path —
/// early return, failure, or normal exit — can release the same instance
/// twice through it.
pub struct DropHandle(pub DlpiHandle);

impl DropHandle {
    /// The shareable reference this owner guards.
    pub fn handle(&self) -> (h: DlpiHandle)
        ensures
            h == self.0,
    {
        self.0
    }

    /// Give up the instance for release: consumes the owner and hands the
    /// reference out exactly once, to be passed to the provider's close
    /// primitive.
    pub fn close(self) -> (h: DlpiHandle)
        ensures
            h == self.0,
    {
        self.0
    }
}

/// Interpret the outcome of the provider's open primitive: the result code
/// it answered, the OS error number current at that time, and the instance
/// reference it filled in. The success code yields that reference as a
/// session handle; any other code yields the decoded error and the
/// reference is dropped unused.
pub fn open_result(ret: i32, os_errno: i32, h: sys::dlpi_handle) -> (r: Result<
    DlpiHandle,
    DlpiError,
>)
    ensures
        ret == sys::DLPI_SUCCESS ==> r == Ok::<DlpiHandle, DlpiError>(DlpiHandle(h)),
        ret != sys::DLPI_SUCCESS ==> r == Err::<DlpiHandle, DlpiError>(
            decoded_error(ret, os_errno),
        ),
{
    match check_return(ret, os_errno) {
        Ok(()) => Ok(DlpiHandle(h)),
        Err(e) => Err(e),
    }
}

/// Interpret the provider's descriptor answer: a readiness-pollable
/// descriptor, or the sentinel -1, which means the handle was invalid and
/// maps to the invalid-argument kind.
pub fn fd_result(ret: i32) -> (r: Result<i32, DlpiError>)
    ensures
        ret == -1 ==> r == Err::<i32, DlpiError>(DlpiError::Provider(ResultCode::EInval)),
        ret != -1 ==> r == Ok::<i32, DlpiError>(ret),
{
    if ret == -1 {
        Err(DlpiError::Provider(ResultCode::EInval))
    } else {
        Ok(ret)
    }
}

/// Lifecycle of one session's native resource.
#[derive(Clone, Copy, Debug, PartialEq, Eq, Structural)]
pub enum SessionState {
    /// The resource is held; operations and one release are possible.
    Open,
    /// The resource has been released.
    Closed,
}

/// What a holder does with an open session.
#[derive(Clone, Copy, Debug, PartialEq, Eq, Structural)]
pub enum SessionEvent {
    /// Any operation against the instance: bind, send, receive, a filter
    /// toggle, the descriptor accessor.
    Operate,
    /// Release of the native resource.
    Close,
}

/// The lifecycle's transition relation: an open session operates or closes;
/// a closed one accepts nothing.
pub open spec fn session_step(s: SessionState, e: SessionEvent) -> Option<SessionState> {
    match (s, e) {
        (SessionState::Open, SessionEvent::Operate) => Some(SessionState::Open),
        (SessionState::Open, SessionEvent::Close) => Some(SessionState::Closed),
        (SessionState::Closed, _) => None,
    }
}

/// Whether the lifecycle accepts a whole event sequence from a given state.
pub open spec fn trace_accepted(s: SessionState, events: Seq<SessionEvent>) -> bool
    decreases events.len(),
{
    events.len() == 0 || (match session_step(s, events[0]) {
        Some(s2) => trace_accepted(s2, events.skip(1)),
        None => false,
    })
}

/// How many release events a sequence holds.
pub open spec fn close_count(events: Seq<SessionEvent>) -> int
    decreases events.len(),
{
    if events.len() == 0 {
        0
    } else {
        (if events[0] is Close {
            1int
        } else {
            0int
        }) + close_count(events.skip(1))
    }
}

/// A released session is final: no event sequence but the empty one is
/// accepted once the resource is gone.
pub proof fn lemma_closed_accepts_nothing(events: Seq<SessionEvent>)
    requires
        trace_accepted(SessionState::Closed, events),
    ensures
        events.len() == 0,
{
    if events.len() != 0 {
        assert(session_step(SessionState::Closed, events[0]) is None);
    }
}

/// Along any event sequence the lifecycle accepts from an open session, the
/// native resource is released at most once — no accepted path, early
/// return or otherwise, closes the same session twice.
pub proof fn lemma_close_at_most_once(events: Seq<SessionEvent>)
    requires
        trace_accepted(SessionState::Open, events),
    ensures
        close_count(events) <= 1,
    decreases events.len(),
{
    if events.len() != 0 {
        match events[0] {
            SessionEvent::Operate => {
                lemma_close_at_most_once(events.skip(1));
            },
            SessionEvent::Close => {
                lemma_closed_accepts_nothing(events.skip(1));
                assert(close_count(events.skip(1)) == 0);
            },
        }
    }
}

} // verus!
