//! The asynchronous receive bridge: both strategies, one attempt at a time.

use dlpi::on_attempt;
use dlpi::on_readable;
use dlpi::poll_step;
use dlpi::sys;
use dlpi::Attempt;
use dlpi::DlpiError;
use dlpi::ReadinessRecv;
use dlpi::RecvPoll;
use dlpi::ResultCode;
use dlpi::RECV_NONBLOCK_MSEC;

fn no_data() -> Attempt {
    Attempt {
        ret: sys::DLPI_ETIMEDOUT,
        os_errno: 0,
        src_read: 0,
        msg_read: 0,
    }
}

#[test]
fn attempts_are_never_issued_with_a_positive_timeout() {
    assert_eq!(RECV_NONBLOCK_MSEC, 0);
}

#[test]
fn poll_success_is_ready_with_the_exact_counts() {
    let a = Attempt {
        ret: sys::DLPI_SUCCESS,
        os_errno: 0,
        src_read: 6,
        msg_read: 27,
    };
    assert_eq!(poll_step(a), RecvPoll::Ready(Ok((6, 27))));
}

#[test]
fn poll_on_a_never_signaled_session_stays_pending() {
    // One hundred scheduler polls, each attempt answering the no-data
    // code: the operation never resolves, with success or with error.
    for _ in 0..100 {
        assert_eq!(poll_step(no_data()), RecvPoll::Pending);
    }
}

#[test]
fn poll_provider_failure_is_ready_with_the_error() {
    let a = Attempt {
        ret: sys::DLPI_FAILURE,
        os_errno: 0,
        src_read: 0,
        msg_read: 0,
    };
    assert_eq!(
        poll_step(a),
        RecvPoll::Ready(Err(DlpiError::Provider(ResultCode::Failure)))
    );
}

#[test]
fn poll_syserr_is_ready_with_the_os_error() {
    let a = Attempt {
        ret: sys::DL_SYSERR,
        os_errno: 99,
        src_read: 0,
        msg_read: 0,
    };
    assert_eq!(poll_step(a), RecvPoll::Ready(Err(DlpiError::System(99))));
}

#[test]
fn readiness_wakeup_licenses_exactly_one_attempt() {
    let woken = on_readable(ReadinessRecv::WaitingForReadability);
    assert_eq!(woken, ReadinessRecv::AttemptingReceive);
}

#[test]
fn spurious_wakeup_goes_back_to_waiting() {
    let woken = on_readable(ReadinessRecv::WaitingForReadability);
    let after = on_attempt(woken, no_data());
    assert_eq!(after, ReadinessRecv::WaitingForReadability);
}

#[test]
fn readiness_delivers_data_on_the_wakeup_that_has_it() {
    let mut state = ReadinessRecv::WaitingForReadability;
    // Two spurious wakeups, then one with data.
    for _ in 0..2 {
        state = on_attempt(on_readable(state), no_data());
        assert_eq!(state, ReadinessRecv::WaitingForReadability);
    }
    let data = Attempt {
        ret: sys::DLPI_SUCCESS,
        os_errno: 0,
        src_read: 6,
        msg_read: 300,
    };
    state = on_attempt(on_readable(state), data);
    assert_eq!(state, ReadinessRecv::Ready(Ok((6, 300))));
}

#[test]
fn readiness_failure_is_terminal() {
    let woken = on_readable(ReadinessRecv::WaitingForReadability);
    let a = Attempt {
        ret: sys::DLPI_EBADMSG,
        os_errno: 0,
        src_read: 0,
        msg_read: 0,
    };
    assert_eq!(
        on_attempt(woken, a),
        ReadinessRecv::Ready(Err(DlpiError::Provider(ResultCode::EBadMsg)))
    );
}
