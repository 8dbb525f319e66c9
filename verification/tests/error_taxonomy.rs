//! The error taxonomy: result codes decode with a fixed precedence.

use dlpi::check_return;
use dlpi::result_code_from;
use dlpi::sys;
use dlpi::to_io_error;
use dlpi::DlpiError;
use dlpi::ResultCode;

#[test]
fn success_code_is_not_an_error() {
    assert_eq!(check_return(10000, 0), Ok(()));
    assert_eq!(check_return(sys::DLPI_SUCCESS, 12345), Ok(()));
}

#[test]
fn syserr_sentinel_wraps_last_os_error() {
    assert_eq!(check_return(sys::DL_SYSERR, 13), Err(DlpiError::System(13)));
    assert_eq!(to_io_error(sys::DL_SYSERR, 1), DlpiError::System(1));
}

#[test]
fn syserr_sentinel_never_enumerated() {
    let e = to_io_error(sys::DL_SYSERR, 7);
    assert!(!matches!(e, DlpiError::Provider(_)));
    assert!(!matches!(e, DlpiError::Raw(_)));
}

#[test]
fn out_of_range_code_is_raw() {
    assert_eq!(check_return(99999, 0), Err(DlpiError::Raw(99999)));
    assert_eq!(to_io_error(99999, 55), DlpiError::Raw(99999));
    assert_eq!(to_io_error(0, 0), DlpiError::Raw(0));
    assert_eq!(to_io_error(-3, 0), DlpiError::Raw(-3));
}

#[test]
fn every_enumerated_code_decodes_to_its_kind() {
    let table: [(i32, ResultCode); 19] = [
        (10000, ResultCode::Success),
        (10001, ResultCode::EInval),
        (10002, ResultCode::ELinkNameInval),
        (10003, ResultCode::ENoLink),
        (10004, ResultCode::EBadLink),
        (10005, ResultCode::EInHandle),
        (10006, ResultCode::ETimedout),
        (10007, ResultCode::EVerNotSup),
        (10008, ResultCode::EModeNotSup),
        (10009, ResultCode::EUnavailSAP),
        (10010, ResultCode::Failure),
        (10011, ResultCode::ENotStyle2),
        (10012, ResultCode::EBadMsg),
        (10013, ResultCode::ERawNotSup),
        (10014, ResultCode::ENoteInval),
        (10015, ResultCode::ENoteNotSup),
        (10016, ResultCode::ENoteIdInval),
        (10017, ResultCode::EIpNetInfoNotSup),
        (10018, ResultCode::ErrMax),
    ];
    for (code, kind) in table {
        assert_eq!(result_code_from(code), Some(kind));
    }
}

#[test]
fn codes_outside_the_known_range_are_not_enumerated() {
    assert_eq!(result_code_from(9999), None);
    assert_eq!(result_code_from(10019), None);
    assert_eq!(result_code_from(0), None);
    assert_eq!(result_code_from(sys::DL_SYSERR), None);
    assert_eq!(result_code_from(-1), None);
}

#[test]
fn timeout_decodes_to_the_timed_out_kind() {
    assert_eq!(
        check_return(sys::DLPI_ETIMEDOUT, 0),
        Err(DlpiError::Provider(ResultCode::ETimedout))
    );
}

#[test]
fn failure_codes_decode_to_provider_kinds() {
    assert_eq!(
        check_return(sys::DLPI_FAILURE, 0),
        Err(DlpiError::Provider(ResultCode::Failure))
    );
    assert_eq!(
        check_return(sys::DLPI_ENOLINK, 0),
        Err(DlpiError::Provider(ResultCode::ENoLink))
    );
    assert_eq!(
        check_return(sys::DLPI_ELINKNAMEINVAL, 0),
        Err(DlpiError::Provider(ResultCode::ELinkNameInval))
    );
}
