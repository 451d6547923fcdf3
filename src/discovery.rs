use vstd::prelude::*;

use crate::error::{decoded_result, error_of, ErrorCode};
use crate::marshal::{spec_flag, spec_native_text, text_from_native};
use crate::records::{camera_info_in_range, camera_info_read, CameraInfo, NativeCameraInfo};

verus! {

/// The number of connected cameras, from the driver's count. Camera ids are
/// bytes, so a count above 255 reads as 255; a negative one as 0.
pub fn number_of_connected_cameras(count: i32) -> (r: u8)
    ensures
        count < 0 ==> r == 0,
        0 <= count <= 255 ==> r == count,
        count > 255 ==> r == 255,
{
    if count < 0 {
        0
    } else if count > 255 {
        255
    } else {
        count as u8
    }
}

/// The product ids of supported cameras: the first `count` entries of the
/// buffer the driver filled, as many as it holds. The caller sizes the
/// buffer for the largest count the driver documents.
pub fn product_ids(filled: &[i32], count: i32) -> (r: Vec<i32>)
    ensures
        count <= 0 ==> r@.len() == 0,
        count > 0 ==> r@ == filled@.take(
            if count <= filled@.len() {
                count as int
            } else {
                filled@.len() as int
            },
        ),
{
    let mut out: Vec<i32> = Vec::new();
    if count <= 0 {
        return out;
    }
    let n: usize = if (count as usize) < filled.len() {
        count as usize
    } else {
        filled.len()
    };
    let mut i: usize = 0;
    while i < n
        invariant
            n <= filled@.len(),
            i <= n,
            out@ == filled@.take(i as int),
        decreases n - i,
    {
        out.push(filled[i]);
        i = i + 1;
        assert(out@ =~= filled@.take(i as int));
    }
    out
}

/// Whether a USB vendor and product id pair is a supported camera, from the
/// driver's native boolean answer.
pub fn camera_check(answer: i32) -> (r: bool)
    ensures
        r == spec_flag(answer),
{
    answer == 1
}

/// The properties of a connected camera looked up by index, from the status
/// and record the driver gave; no need to open the camera.
pub fn camera_property(status: i32, raw: &NativeCameraInfo) -> (r: Result<CameraInfo, ErrorCode>)
    ensures
        status != 0 ==> r == Err::<CameraInfo, ErrorCode>(error_of(status)),
        status == 0 && !camera_info_in_range(*raw) ==> r == Err::<CameraInfo, ErrorCode>(
            ErrorCode::Unknown,
        ),
        status == 0 && camera_info_in_range(*raw) ==> r is Ok,
        r matches Ok(info) ==> camera_info_read(info, *raw),
{
    decoded_result(status, CameraInfo::from_native(raw))
}

/// The properties of a connected camera looked up by its id, from the status
/// and record the driver gave; no need to open the camera.
pub fn camera_property_by_id(status: i32, raw: &NativeCameraInfo) -> (r: Result<
    CameraInfo,
    ErrorCode,
>)
    ensures
        status != 0 ==> r == Err::<CameraInfo, ErrorCode>(error_of(status)),
        status == 0 && !camera_info_in_range(*raw) ==> r == Err::<CameraInfo, ErrorCode>(
            ErrorCode::Unknown,
        ),
        status == 0 && camera_info_in_range(*raw) ==> r is Ok,
        r matches Ok(info) ==> camera_info_read(info, *raw),
{
    decoded_result(status, CameraInfo::from_native(raw))
}

/// The driver's version string, like "1, 13, 0503", from the bytes of the
/// C string it returns.
pub fn sdk_version(bytes: &[u8]) -> (r: String)
    ensures
        r@ == spec_native_text(bytes@),
{
    text_from_native(bytes)
}

} // verus!
