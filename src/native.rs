use vstd::prelude::*;

use crate::marshal::spec_flag;
use crate::records::NativeId;

verus! {

/// One call into the native driver on an open camera, with its arguments in
/// native form. The session decides which call to make; the embedding
/// program makes it with the camera's id and hands back the status and any
/// values the driver wrote.
#[derive(Debug, Clone, PartialEq, Eq)]
pub enum NativeCall {
    GetNumOfControls,
    GetControlCaps { index: i32 },
    GetControlValue { control: i32 },
    SetControlValue { control: i32, value: i32, auto: i32 },
    GetRoiFormat,
    SetRoiFormat { width: i32, height: i32, bin: i32, img_type: i32 },
    GetStartPos,
    SetStartPos { start_x: i32, start_y: i32 },
    GetDroppedFrames,
    /// The path's bytes, free of NUL, to be passed NUL-terminated.
    EnableDarkSubtract { path: Vec<u8> },
    DisableDarkSubtract,
    StartVideoCapture,
    StopVideoCapture,
    /// The buffer holds at least `buffer_len` bytes; -1 waits without limit.
    GetVideoData { buffer_len: usize, wait_ms: i32 },
    PulseGuideOn { direction: i32 },
    PulseGuideOff { direction: i32 },
    StartExposure { is_dark: i32 },
    StopExposure,
    GetExpStatus,
    /// The buffer holds at least `buffer_len` bytes.
    GetDataAfterExp { buffer_len: usize },
    GetId,
    SetId { id: NativeId },
    GetGainOffset,
    GetLmhGainOffset,
    GetCameraSupportMode,
    GetCameraMode,
    SetCameraMode { mode: i32 },
    SendSoftTrigger { start: i32 },
    GetSerialNumber,
    GetTriggerOutputIoConf { pin: i32 },
    SetTriggerOutputIoConf { pin: i32, pin_high: i32, delay: i32, duration: i32 },
}

/// A native count as a `usize`; `None` when it is negative.
pub fn count_from_native(v: i32) -> (r: Option<usize>)
    ensures
        v >= 0 ==> r == Some(v as usize),
        v < 0 ==> r is None,
{
    if v >= 0 {
        Some(v as usize)
    } else {
        None
    }
}

/// A control's value and automatic flag read from the native answer; `None`
/// if the value does not fit in `isize`.
pub open spec fn spec_control_value(value: i64, auto: i32) -> Option<(isize, bool)> {
    if isize::MIN <= value <= isize::MAX {
        Some((value as isize, spec_flag(auto)))
    } else {
        None
    }
}

/// The current value of a control and whether it is set automatically, read
/// from the native value and boolean. `None` if the value does not fit in
/// `isize`.
pub fn decode_control_value(value: i64, auto: i32) -> (r: Option<(isize, bool)>)
    ensures
        r == spec_control_value(value, auto),
{
    if (isize::MIN as i128) <= (value as i128) && (value as i128) <= (isize::MAX as i128) {
        Some((value as isize, auto == 1))
    } else {
        None
    }
}

/// A start position read from the native pair; `None` if a coordinate is
/// negative.
pub fn decode_position(start_x: i32, start_y: i32) -> (r: Option<(u32, u32)>)
    ensures
        start_x >= 0 && start_y >= 0 ==> r == Some((start_x as u32, start_y as u32)),
        !(start_x >= 0 && start_y >= 0) ==> r is None,
{
    if start_x >= 0 && start_y >= 0 {
        Some((start_x as u32, start_y as u32))
    } else {
        None
    }
}

/// Four preset gain and offset values read from the native answer; `None` if
/// one of them is negative.
pub fn decode_gain_offset(a: i32, b: i32, c: i32, d: i32) -> (r: Option<(u32, u32, u32, u32)>)
    ensures
        a >= 0 && b >= 0 && c >= 0 && d >= 0 ==> r == Some(
            (a as u32, b as u32, c as u32, d as u32),
        ),
        !(a >= 0 && b >= 0 && c >= 0 && d >= 0) ==> r is None,
{
    if a >= 0 && b >= 0 && c >= 0 && d >= 0 {
        Some((a as u32, b as u32, c as u32, d as u32))
    } else {
        None
    }
}

/// An output pin's configuration: whether it is driven high, its delay and
/// its duration. A duration of zero or less means the pin is off and reads as
/// 0. `None` if the delay is negative or a value does not fit in `usize`.
pub fn decode_output_conf(pin_high: i32, delay: i64, duration: i64) -> (r: Option<(bool, usize, usize)>)
    ensures
        r is Some <==> (0 <= delay <= usize::MAX && duration <= usize::MAX),
        r matches Some(t) ==> t == (pin_high == 1, delay as usize, if duration > 0 {
            duration as usize
        } else {
            0usize
        }),
{
    if delay < 0 || (delay as i128) > (usize::MAX as i128) || (duration as i128) > (
    usize::MAX as i128) {
        return None;
    }
    let duration = if duration > 0 {
        duration as usize
    } else {
        0
    };
    Some((pin_high == 1, delay as usize, duration))
}

} // verus!
