use vstd::prelude::*;

verus! {

/// Every failure the native driver can report.
///
/// Worth retrying: `Timeout`, `BufferTooSmall` (after resizing the buffer),
/// `CameraRemoved` (after reconnecting). A mistake in the call, to be fixed
/// rather than retried: `InvalidControlType`, `InvalidIndex`, `InvalidSequence`.
/// `Unknown` stands for a status code the driver's ABI does not define, and
/// for a returned value outside the range the ABI allows.
#[derive(Debug, Clone, Copy, PartialEq, Eq, Structural)]
pub enum ErrorCode {
    Success,
    /// No camera connected or index value out of boundary.
    InvalidIndex,
    /// Invalid ID
    InvalidId,
    /// Invalid control type
    InvalidControlType,
    /// Camera didn't open.
    CameraClosed,
    /// Failed to find the camera, maybe the camera has been removed.
    CameraRemoved,
    /// Cannot find the path of the file.
    InvalidPath,
    InvalidFileFormat,
    /// Wrong video format size
    InvalidSize,
    /// Unsupported image format
    InvalidImgType,
    /// The start position is out of boundary.
    OutOfBoundary,
    /// Timeout
    Timeout,
    /// Stop capture first.
    InvalidSequence,
    /// Buffer size is not big enough.
    BufferTooSmall,
    VideoModeActive,
    ExposureInProgress,
    /// General error, eg: value is out of valid range.
    GeneralError,
    /// The current mode is wrong.
    InvalidMode,
    Unknown,
}

/// The kind that a native status code stands for.
pub open spec fn error_of(code: i32) -> ErrorCode {
    match code {
        0 => ErrorCode::Success,
        1 => ErrorCode::InvalidIndex,
        2 => ErrorCode::InvalidId,
        3 => ErrorCode::InvalidControlType,
        4 => ErrorCode::CameraClosed,
        5 => ErrorCode::CameraRemoved,
        6 => ErrorCode::InvalidPath,
        7 => ErrorCode::InvalidFileFormat,
        8 => ErrorCode::InvalidSize,
        9 => ErrorCode::InvalidImgType,
        10 => ErrorCode::OutOfBoundary,
        11 => ErrorCode::Timeout,
        12 => ErrorCode::InvalidSequence,
        13 => ErrorCode::BufferTooSmall,
        14 => ErrorCode::VideoModeActive,
        15 => ErrorCode::ExposureInProgress,
        16 => ErrorCode::GeneralError,
        17 => ErrorCode::InvalidMode,
        _ => ErrorCode::Unknown,
    }
}

/// `Ok(value)` for a success status, else the kind of the failure.
pub open spec fn status_result<T>(code: i32, value: T) -> Result<T, ErrorCode> {
    if code == 0 {
        Ok(value)
    } else {
        Err(error_of(code))
    }
}

impl ErrorCode {
    /// The native status code of this kind; `Unknown` has none.
    pub open spec fn spec_code(self) -> Option<i32> {
        match self {
            ErrorCode::Success => Some(0),
            ErrorCode::InvalidIndex => Some(1),
            ErrorCode::InvalidId => Some(2),
            ErrorCode::InvalidControlType => Some(3),
            ErrorCode::CameraClosed => Some(4),
            ErrorCode::CameraRemoved => Some(5),
            ErrorCode::InvalidPath => Some(6),
            ErrorCode::InvalidFileFormat => Some(7),
            ErrorCode::InvalidSize => Some(8),
            ErrorCode::InvalidImgType => Some(9),
            ErrorCode::OutOfBoundary => Some(10),
            ErrorCode::Timeout => Some(11),
            ErrorCode::InvalidSequence => Some(12),
            ErrorCode::BufferTooSmall => Some(13),
            ErrorCode::VideoModeActive => Some(14),
            ErrorCode::ExposureInProgress => Some(15),
            ErrorCode::GeneralError => Some(16),
            ErrorCode::InvalidMode => Some(17),
            ErrorCode::Unknown => None,
        }
    }

    /// The native status code of this kind, `None` for `Unknown`.
    pub fn code(self) -> (r: Option<i32>)
        ensures
            r == self.spec_code(),
    {
        match self {
            ErrorCode::Success => Some(0),
            ErrorCode::InvalidIndex => Some(1),
            ErrorCode::InvalidId => Some(2),
            ErrorCode::InvalidControlType => Some(3),
            ErrorCode::CameraClosed => Some(4),
            ErrorCode::CameraRemoved => Some(5),
            ErrorCode::InvalidPath => Some(6),
            ErrorCode::InvalidFileFormat => Some(7),
            ErrorCode::InvalidSize => Some(8),
            ErrorCode::InvalidImgType => Some(9),
            ErrorCode::OutOfBoundary => Some(10),
            ErrorCode::Timeout => Some(11),
            ErrorCode::InvalidSequence => Some(12),
            ErrorCode::BufferTooSmall => Some(13),
            ErrorCode::VideoModeActive => Some(14),
            ErrorCode::ExposureInProgress => Some(15),
            ErrorCode::GeneralError => Some(16),
            ErrorCode::InvalidMode => Some(17),
            ErrorCode::Unknown => None,
        }
    }

    /// `Ok(value)` if this is `Success`, else `Err(self)`; the value is dropped.
    pub fn to_result<T>(self, value: T) -> (r: Result<T, ErrorCode>)
        ensures
            self == ErrorCode::Success ==> r == Ok::<T, ErrorCode>(value),
            self != ErrorCode::Success ==> r == Err::<T, ErrorCode>(self),
    {
        if self == ErrorCode::Success {
            Ok(value)
        } else {
            Err(self)
        }
    }
}

impl From<i32> for ErrorCode {
    /// Total: a code the ABI does not define becomes `Unknown`.
    fn from(code: i32) -> (r: ErrorCode)
        ensures
            r == error_of(code),
    {
        match code {
            0 => ErrorCode::Success,
            1 => ErrorCode::InvalidIndex,
            2 => ErrorCode::InvalidId,
            3 => ErrorCode::InvalidControlType,
            4 => ErrorCode::CameraClosed,
            5 => ErrorCode::CameraRemoved,
            6 => ErrorCode::InvalidPath,
            7 => ErrorCode::InvalidFileFormat,
            8 => ErrorCode::InvalidSize,
            9 => ErrorCode::InvalidImgType,
            10 => ErrorCode::OutOfBoundary,
            11 => ErrorCode::Timeout,
            12 => ErrorCode::InvalidSequence,
            13 => ErrorCode::BufferTooSmall,
            14 => ErrorCode::VideoModeActive,
            15 => ErrorCode::ExposureInProgress,
            16 => ErrorCode::GeneralError,
            17 => ErrorCode::InvalidMode,
            _ => ErrorCode::Unknown,
        }
    }
}

impl vstd::std_specs::convert::FromSpecImpl<i32> for ErrorCode {
    open spec fn obeys_from_spec() -> bool {
        true
    }

    open spec fn from_spec(code: i32) -> ErrorCode {
        error_of(code)
    }
}

/// Turns a native status into a result: `Ok(value)` on success, else the
/// failure's kind.
pub fn check_status<T>(code: i32, value: T) -> (r: Result<T, ErrorCode>)
    ensures
        r == status_result(code, value),
{
    ErrorCode::from(code).to_result(value)
}

/// Combines a native status with a value decoded from the native answer:
/// the status decides first; then a value that could not be decoded (it lay
/// outside the range the ABI allows) gives `Unknown`.
pub fn decoded_result<T>(code: i32, value: Option<T>) -> (r: Result<T, ErrorCode>)
    ensures
        code != 0 ==> r == Err::<T, ErrorCode>(error_of(code)),
        code == 0 && value is None ==> r == Err::<T, ErrorCode>(ErrorCode::Unknown),
        code == 0 && value is Some ==> r == Ok::<T, ErrorCode>(value->0),
{
    match check_status(code, ()) {
        Err(e) => Err(e),
        Ok(()) => match value {
            Some(v) => Ok(v),
            None => Err(ErrorCode::Unknown),
        },
    }
}

/// The codes the native ABI defines, 0 to 17, each give the kind whose code
/// they are, and different codes give different kinds; every other code, and
/// every negative one, gives `Unknown`.
pub proof fn lemma_status_codes(code: i32)
    ensures
        0 <= code <= 17 ==> error_of(code).spec_code() == Some(code),
        !(0 <= code <= 17) ==> error_of(code) == ErrorCode::Unknown,
        forall|other: i32|
            0 <= code <= 17 && 0 <= other <= 17 && other != code ==> error_of(other) != error_of(
                code,
            ),
{
    assert forall|other: i32|
        0 <= code <= 17 && 0 <= other <= 17 && other != code implies error_of(other) != error_of(
        code,
    ) by {
        assert(error_of(other).spec_code() == Some(other));
    }
}

/// Each kind but `Unknown` is what its own code converts to.
pub proof fn lemma_code_round_trip(e: ErrorCode)
    ensures
        e.spec_code() matches Some(c) ==> error_of(c) == e,
        e.spec_code() is None <==> e == ErrorCode::Unknown,
{
}

} // verus!
