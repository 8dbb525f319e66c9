//! Outcome interpretation for the synchronous operation set.
//!
//! Each synchronous operation is one direct call into the provider plus
//! uniform translation of what came back; nothing here buffers, retries,
//! or reorders user data. The functions in this module are that
//! translation: they take the provider's reported outcome as plain values
//! and say exactly what the caller gets.

use vstd::prelude::*;

use crate::error::decoded_error;
use crate::error::DlpiError;
use crate::error::ResultCode;
use crate::sys;

verus! {

/// The link name as the provider's open primitive wants it: the caller's
/// bytes with a terminating 0 byte appended. The terminator is appended
/// here, never trusted to be there already.
pub fn terminated_link_name(name: &Vec<u8>) -> (r: Vec<u8>)
    ensures
        r@ == name@.push(0u8),
{
    let mut out: Vec<u8> = Vec::new();
    let mut i: usize = 0;
    while i < name.len()
        invariant
            i <= name.len(),
            out@ == name@.take(i as int),
        decreases name.len() - i,
    {
        out.push(name[i]);
        i = i + 1;
    }
    assert(out@ =~= name@);
    out.push(0u8);
    out
}

/// Interpret the outcome of the provider's bind primitive. The provider
/// may bind a different selector than the one requested (wildcard
/// negotiation), so success hands back the selector the provider reports,
/// and callers must filter by that value, never by the requested one.
pub fn bind_result(ret: i32, os_errno: i32, bound_sap: u32) -> (r: Result<u32, DlpiError>)
    ensures
        ret == sys::DLPI_SUCCESS ==> r == Ok::<u32, DlpiError>(bound_sap),
        ret != sys::DLPI_SUCCESS ==> r == Err::<u32, DlpiError>(decoded_error(ret, os_errno)),
{
    match crate::error::check_return(ret, os_errno) {
        Ok(()) => Ok(bound_sap),
        Err(e) => Err(e),
    }
}

/// Interpret the outcome of one receive: on the success code, exactly the
/// counts the provider reports — address bytes written, then message bytes
/// written — with no buffering or copying on top; on any other code, the
/// decoded error. A positive-timeout receive that saw no data surfaces
/// here as the timed-out kind.
pub fn recv_result(ret: i32, os_errno: i32, src_read: usize, msg_read: usize) -> (r: Result<
    (usize, usize),
    DlpiError,
>)
    ensures
        ret == sys::DLPI_SUCCESS ==> r == Ok::<(usize, usize), DlpiError>((src_read, msg_read)),
        ret != sys::DLPI_SUCCESS ==> r == Err::<(usize, usize), DlpiError>(
            decoded_error(ret, os_errno),
        ),
{
    match crate::error::check_return(ret, os_errno) {
        Ok(()) => Ok((src_read, msg_read)),
        Err(e) => Err(e),
    }
}

/// Interpret the outcome of the promiscuous toggles. The provider answers
/// these outside the shared result-code space: a bare -1 on failure, which
/// maps to the invalid-argument kind, and success otherwise.
pub fn promisc_result(ret: i32) -> (r: Result<(), DlpiError>)
    ensures
        ret == -1 ==> r == Err::<(), DlpiError>(DlpiError::Provider(ResultCode::EInval)),
        ret != -1 ==> r == Ok::<(), DlpiError>(()),
{
    if ret == -1 {
        Err(DlpiError::Provider(ResultCode::EInval))
    } else {
        Ok(())
    }
}

/// Whether a receive was truncated: the message as sent, reported by the
/// metadata's total-length field, was longer than what the provider wrote
/// into the caller's buffer. Truncation is signaled this way, never as an
/// error.
pub fn is_truncated(info: &sys::dlpi_recvinfo_t, msg_read: usize) -> (r: bool)
    ensures
        r == (info.dri_totmsglen > msg_read),
{
    info.dri_totmsglen > msg_read
}

} // verus!
