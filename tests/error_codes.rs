use asi::{check_status, decoded_result, ErrorCode};

const TABLE: [ErrorCode; 18] = [
    ErrorCode::Success,
    ErrorCode::InvalidIndex,
    ErrorCode::InvalidId,
    ErrorCode::InvalidControlType,
    ErrorCode::CameraClosed,
    ErrorCode::CameraRemoved,
    ErrorCode::InvalidPath,
    ErrorCode::InvalidFileFormat,
    ErrorCode::InvalidSize,
    ErrorCode::InvalidImgType,
    ErrorCode::OutOfBoundary,
    ErrorCode::Timeout,
    ErrorCode::InvalidSequence,
    ErrorCode::BufferTooSmall,
    ErrorCode::VideoModeActive,
    ErrorCode::ExposureInProgress,
    ErrorCode::GeneralError,
    ErrorCode::InvalidMode,
];

#[test]
fn every_defined_status_code_maps_to_its_kind() {
    for (code, kind) in TABLE.iter().enumerate() {
        assert_eq!(ErrorCode::from(code as i32), *kind);
        assert_eq!(kind.code(), Some(code as i32));
    }
}

#[test]
fn undefined_status_codes_are_unknown() {
    for code in [18, 19, 100, i32::MAX, -1, -18, i32::MIN] {
        assert_eq!(ErrorCode::from(code), ErrorCode::Unknown);
    }
    assert_eq!(ErrorCode::Unknown.code(), None);
}

#[test]
fn to_result_keeps_value_only_on_success() {
    assert_eq!(ErrorCode::Success.to_result(42), Ok(42));
    assert_eq!(ErrorCode::Timeout.to_result(42), Err(ErrorCode::Timeout));
    assert_eq!(ErrorCode::Unknown.to_result("x"), Err(ErrorCode::Unknown));
}

#[test]
fn check_status_converts_codes() {
    assert_eq!(check_status(0, 7u8), Ok(7));
    assert_eq!(check_status(13, 7u8), Err(ErrorCode::BufferTooSmall));
    assert_eq!(check_status(-5, 7u8), Err(ErrorCode::Unknown));
}

#[test]
fn decoded_result_puts_status_first() {
    assert_eq!(decoded_result(0, Some(3)), Ok(3));
    assert_eq!(decoded_result::<i32>(0, None), Err(ErrorCode::Unknown));
    assert_eq!(decoded_result(4, Some(3)), Err(ErrorCode::CameraClosed));
    assert_eq!(decoded_result::<i32>(11, None), Err(ErrorCode::Timeout));
}
