//! The error taxonomy: from raw result codes to structured errors.
//!
//! Every provider call reports an integer result code. Decoding follows a
//! fixed precedence: the success code first, then the system-error sentinel
//! (`sys::DL_SYSERR`, which says "read the last OS error instead"), then the
//! enumerated provider codes, and finally a raw fallback that carries an
//! unrecognized code verbatim. The order is part of the contract: a code
//! that were both the sentinel and a valid enumerated code must decode as a
//! system error.

use vstd::prelude::*;

use crate::sys;

verus! {

/// Provider-specific outcome kinds, one per code the provider defines,
/// `Success` first and the sentinel `ErrMax` ("one past the highest known
/// code") last.
#[derive(Clone, Copy, Debug, PartialEq, Eq, Structural)]
pub enum ResultCode {
    /// The operation succeeded.
    Success,
    /// Invalid argument.
    EInval,
    /// Invalid link name.
    ELinkNameInval,
    /// The link does not exist.
    ENoLink,
    /// Bad link.
    EBadLink,
    /// Invalid handle.
    EInHandle,
    /// The operation timed out.
    ETimedout,
    /// Unsupported provider version.
    EVerNotSup,
    /// Unsupported connection mode.
    EModeNotSup,
    /// Unavailable service access point.
    EUnavailSAP,
    /// The operation failed.
    Failure,
    /// A style-2 node reports style-1.
    ENotStyle2,
    /// Bad message.
    EBadMsg,
    /// Raw mode not supported.
    ERawNotSup,
    /// Invalid notification type.
    ENoteInval,
    /// Notification not supported by the link.
    ENoteNotSup,
    /// Invalid notification id.
    ENoteIdInval,
    /// ipnetinfo not supported.
    EIpNetInfoNotSup,
    /// One past the highest code the provider defines.
    ErrMax,
}

/// The numeric result code that stands for each kind.
pub open spec fn result_code_value(rc: ResultCode) -> i32 {
    match rc {
        ResultCode::Success => sys::DLPI_SUCCESS,
        ResultCode::EInval => sys::DLPI_EINVAL,
        ResultCode::ELinkNameInval => sys::DLPI_ELINKNAMEINVAL,
        ResultCode::ENoLink => sys::DLPI_ENOLINK,
        ResultCode::EBadLink => sys::DLPI_EBADLINK,
        ResultCode::EInHandle => sys::DLPI_EINHANDLE,
        ResultCode::ETimedout => sys::DLPI_ETIMEDOUT,
        ResultCode::EVerNotSup => sys::DLPI_EVERNOTSUP,
        ResultCode::EModeNotSup => sys::DLPI_EMODENOTSUP,
        ResultCode::EUnavailSAP => sys::DLPI_EUNAVAILSAP,
        ResultCode::Failure => sys::DLPI_FAILURE,
        ResultCode::ENotStyle2 => sys::DLPI_ENOTSTYLE2,
        ResultCode::EBadMsg => sys::DLPI_EBADMSG,
        ResultCode::ERawNotSup => sys::DLPI_ERAWNOTSUP,
        ResultCode::ENoteInval => sys::DLPI_ENOTEINVAL,
        ResultCode::ENoteNotSup => sys::DLPI_ENOTENOTSUP,
        ResultCode::ENoteIdInval => sys::DLPI_ENOTEIDINVAL,
        ResultCode::EIpNetInfoNotSup => sys::DLPI_EIPNETINFONOTSUP,
        ResultCode::ErrMax => sys::DLPI_ERRMAX,
    }
}

/// The kind a numeric code enumerates, if any: codes from `DLPI_SUCCESS`
/// through one past `DLPI_EIPNETINFONOTSUP` are known, everything else is
/// not.
pub open spec fn result_code_of(code: i32) -> Option<ResultCode> {
    if code == sys::DLPI_SUCCESS {
        Some(ResultCode::Success)
    } else if code == sys::DLPI_EINVAL {
        Some(ResultCode::EInval)
    } else if code == sys::DLPI_ELINKNAMEINVAL {
        Some(ResultCode::ELinkNameInval)
    } else if code == sys::DLPI_ENOLINK {
        Some(ResultCode::ENoLink)
    } else if code == sys::DLPI_EBADLINK {
        Some(ResultCode::EBadLink)
    } else if code == sys::DLPI_EINHANDLE {
        Some(ResultCode::EInHandle)
    } else if code == sys::DLPI_ETIMEDOUT {
        Some(ResultCode::ETimedout)
    } else if code == sys::DLPI_EVERNOTSUP {
        Some(ResultCode::EVerNotSup)
    } else if code == sys::DLPI_EMODENOTSUP {
        Some(ResultCode::EModeNotSup)
    } else if code == sys::DLPI_EUNAVAILSAP {
        Some(ResultCode::EUnavailSAP)
    } else if code == sys::DLPI_FAILURE {
        Some(ResultCode::Failure)
    } else if code == sys::DLPI_ENOTSTYLE2 {
        Some(ResultCode::ENotStyle2)
    } else if code == sys::DLPI_EBADMSG {
        Some(ResultCode::EBadMsg)
    } else if code == sys::DLPI_ERAWNOTSUP {
        Some(ResultCode::ERawNotSup)
    } else if code == sys::DLPI_ENOTEINVAL {
        Some(ResultCode::ENoteInval)
    } else if code == sys::DLPI_ENOTENOTSUP {
        Some(ResultCode::ENoteNotSup)
    } else if code == sys::DLPI_ENOTEIDINVAL {
        Some(ResultCode::ENoteIdInval)
    } else if code == sys::DLPI_EIPNETINFONOTSUP {
        Some(ResultCode::EIpNetInfoNotSup)
    } else if code == sys::DLPI_ERRMAX {
        Some(ResultCode::ErrMax)
    } else {
        None
    }
}

/// The kind a numeric code enumerates, if any.
pub fn result_code_from(code: i32) -> (r: Option<ResultCode>)
    ensures
        r == result_code_of(code),
{
    if code == sys::DLPI_SUCCESS {
        Some(ResultCode::Success)
    } else if code == sys::DLPI_EINVAL {
        Some(ResultCode::EInval)
    } else if code == sys::DLPI_ELINKNAMEINVAL {
        Some(ResultCode::ELinkNameInval)
    } else if code == sys::DLPI_ENOLINK {
        Some(ResultCode::ENoLink)
    } else if code == sys::DLPI_EBADLINK {
        Some(ResultCode::EBadLink)
    } else if code == sys::DLPI_EINHANDLE {
        Some(ResultCode::EInHandle)
    } else if code == sys::DLPI_ETIMEDOUT {
        Some(ResultCode::ETimedout)
    } else if code == sys::DLPI_EVERNOTSUP {
        Some(ResultCode::EVerNotSup)
    } else if code == sys::DLPI_EMODENOTSUP {
        Some(ResultCode::EModeNotSup)
    } else if code == sys::DLPI_EUNAVAILSAP {
        Some(ResultCode::EUnavailSAP)
    } else if code == sys::DLPI_FAILURE {
        Some(ResultCode::Failure)
    } else if code == sys::DLPI_ENOTSTYLE2 {
        Some(ResultCode::ENotStyle2)
    } else if code == sys::DLPI_EBADMSG {
        Some(ResultCode::EBadMsg)
    } else if code == sys::DLPI_ERAWNOTSUP {
        Some(ResultCode::ERawNotSup)
    } else if code == sys::DLPI_ENOTEINVAL {
        Some(ResultCode::ENoteInval)
    } else if code == sys::DLPI_ENOTENOTSUP {
        Some(ResultCode::ENoteNotSup)
    } else if code == sys::DLPI_ENOTEIDINVAL {
        Some(ResultCode::ENoteIdInval)
    } else if code == sys::DLPI_EIPNETINFONOTSUP {
        Some(ResultCode::EIpNetInfoNotSup)
    } else if code == sys::DLPI_ERRMAX {
        Some(ResultCode::ErrMax)
    } else {
        None
    }
}

/// A structured operation error.
#[derive(Clone, Copy, Debug, PartialEq, Eq, Structural)]
pub enum DlpiError {
    /// A provider-specific failure.
    Provider(ResultCode),
    /// A generic OS error, reported when the provider answers with the
    /// `sys::DL_SYSERR` sentinel; carries the last OS error number.
    System(i32),
    /// An unrecognized numeric code, carried verbatim for forward
    /// compatibility.
    Raw(i32),
}

/// What a non-success result code decodes to, given the OS error number
/// that was current when the provider answered: the system-error sentinel
/// first, then the enumerated codes, then the raw fallback.
pub open spec fn decoded_error(code: i32, os_errno: i32) -> DlpiError {
    if code == sys::DL_SYSERR {
        DlpiError::System(os_errno)
    } else {
        match result_code_of(code) {
            Some(rc) => DlpiError::Provider(rc),
            None => DlpiError::Raw(code),
        }
    }
}

/// Decode a non-success result code into a structured error. `os_errno` is
/// the OS error number current when the provider answered; it is consulted
/// only when `ret` is the system-error sentinel. Callers branch on
/// `sys::DLPI_SUCCESS` before constructing any error.
pub fn to_io_error(ret: i32, os_errno: i32) -> (r: DlpiError)
    requires
        ret != sys::DLPI_SUCCESS,
    ensures
        r == decoded_error(ret, os_errno),
{
    if ret == sys::DL_SYSERR {
        DlpiError::System(os_errno)
    } else {
        match result_code_from(ret) {
            Some(rc) => DlpiError::Provider(rc),
            None => DlpiError::Raw(ret),
        }
    }
}

/// Translate an operation's result code: `Ok` exactly on the success code,
/// and otherwise the decoded error.
pub fn check_return(ret: i32, os_errno: i32) -> (r: Result<(), DlpiError>)
    ensures
        r is Ok <==> ret == sys::DLPI_SUCCESS,
        ret != sys::DLPI_SUCCESS ==> r == Err::<(), DlpiError>(decoded_error(ret, os_errno)),
{
    if ret == sys::DLPI_SUCCESS {
        Ok(())
    } else {
        Err(to_io_error(ret, os_errno))
    }
}

/// The system-error sentinel always decodes to a `System` error wrapping
/// the last OS error, never to an enumerated provider kind: the sentinel
/// takes precedence over enumerated decoding.
pub proof fn lemma_syserr_decodes_to_system(os_errno: i32)
    ensures
        decoded_error(sys::DL_SYSERR, os_errno) == DlpiError::System(os_errno),
{
}

} // verus!
