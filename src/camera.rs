use vstd::prelude::*;
use vstd::string::StringSliceAdditionalSpecFns;

use crate::codes::{CameraMode, ControlType, ExposureStatus, GuideDirection, ImgType, TrigOutput};
use crate::error::{check_status, error_of, status_result, ErrorCode};
use crate::marshal::{bytes_until_nul, flag_to_native, lemma_terminated, terminated};
use crate::native::{spec_control_value, NativeCall};
use crate::records::{Id, NativeId};

verus! {

/// The region of interest: width and height after binning, binning factor
/// and pixel format.
#[derive(Debug, Clone, Copy, PartialEq, Eq, Structural)]
pub struct RoiFormat {
    pub width: u32,
    pub height: u32,
    pub bin: u32,
    pub img_type: ImgType,
}

/// Bytes in one frame of `width` by `height` pixels of the given format, if
/// that number fits in `usize`.
pub open spec fn spec_frame_size(width: u32, height: u32, img_type: ImgType) -> Option<usize> {
    let n = width * height * img_type.spec_bytes_per_pixel();
    if n <= usize::MAX {
        Some(n as usize)
    } else {
        None
    }
}

/// Bytes a frame buffer must hold for a region of `width` by `height` pixels
/// of the given format: `width * height * bytes_per_pixel`. `None` if that
/// does not fit in `usize`.
pub fn frame_size(width: u32, height: u32, img_type: ImgType) -> (r: Option<usize>)
    ensures
        r == spec_frame_size(width, height, img_type),
{
    let bpp = img_type.bytes_per_pixel();
    proof {
        assert(width * height <= 0xffff_fffe_0000_0001) by (nonlinear_arith)
            requires
                width <= 0xffff_ffff,
                height <= 0xffff_ffff,
                width >= 0,
                height >= 0,
        ;
        assert(width * height * bpp <= 3 * 0xffff_fffe_0000_0001) by (nonlinear_arith)
            requires
                0 <= width * height <= 0xffff_fffe_0000_0001,
                1 <= bpp <= 3,
        ;
    }
    let n: u128 = (width as u128) * (height as u128) * (bpp as u128);
    if n > usize::MAX as u128 {
        None
    } else {
        Some(n as usize)
    }
}

/// The region read from the native answer; `None` if a size is negative or
/// the format code is unknown.
pub open spec fn spec_roi_from_native(width: i32, height: i32, bin: i32, img_type: i32) -> Option<
    RoiFormat,
> {
    if width >= 0 && height >= 0 && bin >= 0 && ImgType::spec_from_code(img_type) is Some {
        Some(
            RoiFormat {
                width: width as u32,
                height: height as u32,
                bin: bin as u32,
                img_type: ImgType::spec_from_code(img_type)->0,
            },
        )
    } else {
        None
    }
}

impl RoiFormat {
    /// Bytes in one frame of this region.
    pub open spec fn spec_frame_len(self) -> int {
        self.width * self.height * self.img_type.spec_bytes_per_pixel()
    }

    /// Reads the region from the native answer. `None` if a size is negative
    /// or the format code is unknown.
    pub fn from_native(width: i32, height: i32, bin: i32, img_type: i32) -> (r: Option<RoiFormat>)
        ensures
            r == spec_roi_from_native(width, height, bin, img_type),
    {
        if width < 0 || height < 0 || bin < 0 {
            return None;
        }
        match ImgType::from_code(img_type) {
            Some(t) => Some(
                RoiFormat { width: width as u32, height: height as u32, bin: bin as u32, img_type: t },
            ),
            None => None,
        }
    }

    /// Bytes a frame buffer must hold for this region, if that fits in `usize`.
    pub fn buffer_size(&self) -> (r: Option<usize>)
        ensures
            r == spec_frame_size(self.width, self.height, self.img_type),
    {
        frame_size(self.width, self.height, self.img_type)
    }
}

/// What the session knows of an open camera.
#[derive(Debug, Clone, Copy, PartialEq, Eq, Structural)]
pub struct CameraState {
    /// The id that addresses the camera in every native call.
    pub camera_id: u8,
    /// The region set by the last accepted `set_roi_format`, if any.
    pub roi: Option<RoiFormat>,
    /// The single-shot exposure's state, as last started, stopped, fetched or
    /// polled.
    pub exposure: ExposureStatus,
    /// Whether video capture is running.
    pub video: bool,
}

/// A session just opened: no region set, no capture running.
pub open spec fn fresh(camera_id: u8) -> CameraState {
    CameraState { camera_id, roi: None, exposure: ExposureStatus::Idle, video: false }
}

/// The outcome of opening `camera_id`, given the statuses of the native open
/// and initialize steps. Initialize only counts once open has succeeded.
pub open spec fn spec_open(camera_id: u8, open_status: i32, init_status: i32) -> Result<
    CameraState,
    ErrorCode,
> {
    if open_status != 0 {
        Err(error_of(open_status))
    } else if init_status != 0 {
        Err(error_of(init_status))
    } else {
        Ok(fresh(camera_id))
    }
}

/// The session after the driver answered success to `call`.
pub open spec fn after(s: CameraState, call: NativeCall) -> CameraState {
    match call {
        NativeCall::SetRoiFormat { width, height, bin, img_type } => CameraState {
            roi: spec_roi_from_native(width, height, bin, img_type),
            ..s
        },
        NativeCall::StartExposure { .. } => CameraState { exposure: ExposureStatus::Working, ..s },
        NativeCall::StopExposure => CameraState { exposure: ExposureStatus::Idle, ..s },
        NativeCall::GetDataAfterExp { .. } => CameraState { exposure: ExposureStatus::Idle, ..s },
        NativeCall::StartVideoCapture => CameraState { video: true, ..s },
        NativeCall::StopVideoCapture => CameraState { video: false, ..s },
        _ => s,
    }
}

/// Whether a capture holds the region fixed: an exposure running or
/// waiting to be fetched, or video running.
pub open spec fn capture_pending(s: CameraState) -> bool {
    s.exposure == ExposureStatus::Working || s.exposure == ExposureStatus::Success || s.video
}

/// The call that sets the region, or why it is refused.
pub open spec fn plan_set_roi_format(
    s: CameraState,
    width: u32,
    height: u32,
    bin: u32,
    img_type: ImgType,
) -> Result<NativeCall, ErrorCode> {
    if capture_pending(s) {
        Err(ErrorCode::InvalidSequence)
    } else if width > i32::MAX || height > i32::MAX || bin > i32::MAX || spec_frame_size(
        width,
        height,
        img_type,
    ) is None {
        Err(ErrorCode::InvalidSize)
    } else {
        Ok(
            NativeCall::SetRoiFormat {
                width: width as i32,
                height: height as i32,
                bin: bin as i32,
                img_type: img_type.spec_code(),
            },
        )
    }
}

/// The call that starts an exposure, or why it is refused.
pub open spec fn plan_start_exposure(s: CameraState, is_dark: bool) -> Result<NativeCall, ErrorCode> {
    if s.roi is None {
        Err(ErrorCode::InvalidSequence)
    } else if s.exposure == ExposureStatus::Working {
        Err(ErrorCode::ExposureInProgress)
    } else if s.video {
        Err(ErrorCode::VideoModeActive)
    } else {
        Ok(NativeCall::StartExposure { is_dark: if is_dark { 1 } else { 0 } })
    }
}

/// The call that starts video capture, or why it is refused.
pub open spec fn plan_start_video_capture(s: CameraState) -> Result<NativeCall, ErrorCode> {
    if s.roi is None {
        Err(ErrorCode::InvalidSequence)
    } else if s.video {
        Err(ErrorCode::VideoModeActive)
    } else if s.exposure == ExposureStatus::Working {
        Err(ErrorCode::ExposureInProgress)
    } else {
        Ok(NativeCall::StartVideoCapture)
    }
}

/// The native wait for a video frame: milliseconds, or -1 (no limit) for a
/// wait longer than the native argument can express.
pub open spec fn spec_wait(wait_ms: u32) -> i32 {
    if wait_ms <= i32::MAX {
        wait_ms as i32
    } else {
        -1i32
    }
}

/// The call that fetches a video frame, or why it is refused.
pub open spec fn plan_get_video_data(s: CameraState, buffer_len: usize, wait_ms: u32) -> Result<
    NativeCall,
    ErrorCode,
> {
    if !s.video || s.roi is None {
        Err(ErrorCode::InvalidSequence)
    } else {
        Ok(NativeCall::GetVideoData { buffer_len, wait_ms: spec_wait(wait_ms) })
    }
}

/// The dropped-frame count reported for a session: 0 while no video runs,
/// since the driver resets it when capture stops; else the driver's count.
pub open spec fn spec_dropped_frames(s: CameraState, status: i32, count: i32) -> Result<u32, ErrorCode> {
    if status != 0 {
        Err(error_of(status))
    } else if !s.video {
        Ok(0)
    } else if count < 0 {
        Err(ErrorCode::Unknown)
    } else {
        Ok(count as u32)
    }
}

/// Whether `buffer_len` bytes hold one frame of the session's region.
pub open spec fn holds_frame(s: CameraState, buffer_len: usize) -> bool {
    match s.roi {
        Some(roi) => roi.spec_frame_len() <= buffer_len,
        None => true,
    }
}

/// An open, initialized camera: the session that every operation on the
/// device goes through. It decides which native call each operation makes
/// (`Err` where the session's state forbids it) and follows the driver's
/// answers through `finish`. `close` ends it.
#[derive(Debug)]
pub struct Camera {
    state: CameraState,
}

impl View for Camera {
    type V = CameraState;

    closed spec fn view(&self) -> CameraState {
        self.state
    }
}

impl Camera {
    /// Opens and initializes the camera, given the statuses the driver gave
    /// to its open and then its initialize call. A failure of either step
    /// fails the whole: the camera must not be used then.
    pub fn open(camera_id: u8, open_status: i32, init_status: i32) -> (r: Result<Camera, ErrorCode>)
        ensures
            r matches Ok(c) ==> spec_open(camera_id, open_status, init_status) == Ok::<
                CameraState,
                ErrorCode,
            >(c@),
            r matches Err(e) ==> spec_open(camera_id, open_status, init_status) == Err::<
                CameraState,
                ErrorCode,
            >(e),
    {
        check_status(open_status, ())?;
        let camera = Camera {
            state: CameraState {
                camera_id,
                roi: None,
                exposure: ExposureStatus::Idle,
                video: false,
            },
        };
        check_status(init_status, camera)
    }

    /// Closes the camera, given the status the driver gave to the close call.
    /// The session is consumed either way.
    pub fn close(self, status: i32) -> (r: Result<(), ErrorCode>)
        ensures
            r == status_result(status, ()),
    {
        check_status(status, ())
    }

    /// The id that addresses this camera in native calls.
    pub fn camera_id(&self) -> (r: u8)
        ensures
            r == self@.camera_id,
    {
        self.state.camera_id
    }

    /// The region set by the last accepted `set_roi_format`, if any.
    pub fn roi(&self) -> (r: Option<RoiFormat>)
        ensures
            r == self@.roi,
    {
        self.state.roi
    }

    /// The exposure state as the session last learned it.
    pub fn exposure_state(&self) -> (r: ExposureStatus)
        ensures
            r == self@.exposure,
    {
        self.state.exposure
    }

    /// Whether video capture is running.
    pub fn is_capturing_video(&self) -> (r: bool)
        ensures
            r == self@.video,
    {
        self.state.video
    }

    /// Bytes a buffer must hold to receive one frame of the current region;
    /// `None` if no region is set or the size does not fit in `usize`.
    pub fn required_buffer_len(&self) -> (r: Option<usize>)
        ensures
            self@.roi is None ==> r is None,
            self@.roi matches Some(roi) ==> r == spec_frame_size(
                roi.width,
                roi.height,
                roi.img_type,
            ),
    {
        match self.state.roi {
            Some(roi) => roi.buffer_size(),
            None => None,
        }
    }

    /// Takes the driver's answer to `call`: its status and the value decoded
    /// from what it wrote (`Some(())` for a call that writes nothing). On
    /// success the session follows the call; on failure it is unchanged.
    pub fn finish<T>(&mut self, call: &NativeCall, status: i32, answer: Option<T>) -> (r: Result<
        T,
        ErrorCode,
    >)
        ensures
            final(self)@ == (if status == 0 {
                after(old(self)@, *call)
            } else {
                old(self)@
            }),
            status != 0 ==> r == Err::<T, ErrorCode>(error_of(status)),
            status == 0 && answer is None ==> r == Err::<T, ErrorCode>(ErrorCode::Unknown),
            status == 0 && answer is Some ==> r == Ok::<T, ErrorCode>(answer->0),
    {
        check_status(status, ())?;
        match call {
            NativeCall::SetRoiFormat { width, height, bin, img_type } => {
                self.state.roi = RoiFormat::from_native(*width, *height, *bin, *img_type);
            },
            NativeCall::StartExposure { .. } => {
                self.state.exposure = ExposureStatus::Working;
            },
            NativeCall::StopExposure => {
                self.state.exposure = ExposureStatus::Idle;
            },
            NativeCall::GetDataAfterExp { .. } => {
                self.state.exposure = ExposureStatus::Idle;
            },
            NativeCall::StartVideoCapture => {
                self.state.video = true;
            },
            NativeCall::StopVideoCapture => {
                self.state.video = false;
            },
            _ => {},
        }
        match answer {
            Some(v) => Ok(v),
            None => Err(ErrorCode::Unknown),
        }
    }

    /// Takes the driver's answer to `GetExpStatus`: its status and the
    /// native exposure status, which the session then holds.
    pub fn record_exposure_status(&mut self, status: i32, code: u32) -> (r: Result<
        ExposureStatus,
        ErrorCode,
    >)
        ensures
            status != 0 ==> r == Err::<ExposureStatus, ErrorCode>(error_of(status)),
            status == 0 && ExposureStatus::spec_from_code(code) is None ==> r == Err::<
                ExposureStatus,
                ErrorCode,
            >(ErrorCode::Unknown),
            status == 0 && ExposureStatus::spec_from_code(code) is Some ==> r == Ok::<
                ExposureStatus,
                ErrorCode,
            >(ExposureStatus::spec_from_code(code)->0),
            r matches Ok(e) ==> final(self)@ == (CameraState { exposure: e, ..old(self)@ }),
            r is Err ==> final(self)@ == old(self)@,
    {
        check_status(status, ())?;
        match ExposureStatus::from_code(code) {
            Some(e) => {
                self.state.exposure = e;
                Ok(e)
            },
            None => Err(ErrorCode::Unknown),
        }
    }

    /// Takes the driver's answer to `GetDroppedFrames`. Frames are dropped
    /// when they are not fetched fast enough during video capture; the count
    /// is 0 once capture has stopped.
    pub fn dropped_frames(&self, status: i32, count: i32) -> (r: Result<u32, ErrorCode>)
        ensures
            r == spec_dropped_frames(self@, status, count),
    {
        check_status(status, ())?;
        if !self.state.video {
            Ok(0)
        } else if count < 0 {
            Err(ErrorCode::Unknown)
        } else {
            Ok(count as u32)
        }
    }

    /// Set the region of interest before capture. Refused with
    /// `InvalidSequence` while an exposure runs or waits to be fetched, or
    /// video runs; with `InvalidSize` when a value exceeds the native range
    /// or a frame's size does not fit in `usize`. The width and height are
    /// the values after binning.
    pub fn set_roi_format(&self, width: u32, height: u32, bin: u32, img_type: ImgType) -> (r: Result<
        NativeCall,
        ErrorCode,
    >)
        ensures
            r == plan_set_roi_format(self@, width, height, bin, img_type),
    {
        if self.state.exposure == ExposureStatus::Working || self.state.exposure
            == ExposureStatus::Success || self.state.video {
            return Err(ErrorCode::InvalidSequence);
        }
        if width > i32::MAX as u32 || height > i32::MAX as u32 || bin > i32::MAX as u32 {
            return Err(ErrorCode::InvalidSize);
        }
        if frame_size(width, height, img_type).is_none() {
            return Err(ErrorCode::InvalidSize);
        }
        Ok(
            NativeCall::SetRoiFormat {
                width: width as i32,
                height: height as i32,
                bin: bin as i32,
                img_type: img_type.code(),
            },
        )
    }

    /// Start a single-shot exposure; `is_dark` asks for a dark frame where
    /// the camera has a mechanical shutter. Refused with `InvalidSequence`
    /// before a region is set, `ExposureInProgress` while one runs, and
    /// `VideoModeActive` while video runs.
    pub fn start_exposure(&self, is_dark: bool) -> (r: Result<NativeCall, ErrorCode>)
        ensures
            r == plan_start_exposure(self@, is_dark),
    {
        if self.state.roi.is_none() {
            return Err(ErrorCode::InvalidSequence);
        }
        if self.state.exposure == ExposureStatus::Working {
            return Err(ErrorCode::ExposureInProgress);
        }
        if self.state.video {
            return Err(ErrorCode::VideoModeActive);
        }
        Ok(NativeCall::StartExposure { is_dark: if is_dark { 1 } else { 0 } })
    }

    /// Start video capture; frames are then fetched with `get_video_data`.
    /// Refused with `InvalidSequence` before a region is set,
    /// `VideoModeActive` while video runs, and `ExposureInProgress` while an
    /// exposure runs.
    pub fn start_video_capture(&self) -> (r: Result<NativeCall, ErrorCode>)
        ensures
            r == plan_start_video_capture(self@),
    {
        if self.state.roi.is_none() {
            return Err(ErrorCode::InvalidSequence);
        }
        if self.state.video {
            return Err(ErrorCode::VideoModeActive);
        }
        if self.state.exposure == ExposureStatus::Working {
            return Err(ErrorCode::ExposureInProgress);
        }
        Ok(NativeCall::StartVideoCapture)
    }

    /// Fetch the next video frame into a buffer of `buffer_len` bytes,
    /// waiting up to `wait_ms` milliseconds. The buffer must hold a whole
    /// frame of the current region: the driver does not check it. Refused
    /// with `InvalidSequence` while no video runs.
    pub fn get_video_data(&self, buffer_len: usize, wait_ms: u32) -> (r: Result<NativeCall, ErrorCode>)
        requires
            holds_frame(self@, buffer_len),
        ensures
            r == plan_get_video_data(self@, buffer_len, wait_ms),
    {
        if !self.state.video || self.state.roi.is_none() {
            return Err(ErrorCode::InvalidSequence);
        }
        let wait: i32 = if wait_ms <= i32::MAX as u32 {
            wait_ms as i32
        } else {
            -1
        };
        Ok(NativeCall::GetVideoData { buffer_len, wait_ms: wait })
    }

    /// Fetch the frame of a finished exposure into a buffer of `buffer_len`
    /// bytes. Only after the exposure status read `Success`, and with a
    /// buffer that holds a whole frame of the current region: the driver
    /// checks neither.
    pub fn get_data_after_exposure(&self, buffer_len: usize) -> (r: NativeCall)
        requires
            self@.exposure == ExposureStatus::Success,
            self@.roi is Some,
            holds_frame(self@, buffer_len),
        ensures
            r == (NativeCall::GetDataAfterExp { buffer_len }),
    {
        NativeCall::GetDataAfterExp { buffer_len }
    }
}

/// The call that sets a control's value and automatic flag.
pub open spec fn plan_set_control_value(control_type: ControlType, value: i32, auto: bool) -> NativeCall {
    NativeCall::SetControlValue {
        control: control_type.spec_code(),
        value,
        auto: if auto { 1 } else { 0 },
    }
}

/// The call that reads a control's value and automatic flag.
pub open spec fn plan_control_value(control_type: ControlType) -> NativeCall {
    NativeCall::GetControlValue { control: control_type.spec_code() }
}

impl Camera {
    /// Get number of controls available for this camera.
    pub fn number_of_controls(&self) -> (r: NativeCall)
        ensures
            r == NativeCall::GetNumOfControls,
    {
        NativeCall::GetNumOfControls
    }

    /// Get the description of the control at `control_index`, below the
    /// number of controls. Refused with `InvalidIndex` beyond the native range.
    pub fn control_caps(&self, control_index: usize) -> (r: Result<NativeCall, ErrorCode>)
        ensures
            control_index <= i32::MAX ==> r == Ok::<NativeCall, ErrorCode>(
                NativeCall::GetControlCaps { index: control_index as i32 },
            ),
            control_index > i32::MAX ==> r == Err::<NativeCall, ErrorCode>(ErrorCode::InvalidIndex),
    {
        if control_index > i32::MAX as usize {
            Err(ErrorCode::InvalidIndex)
        } else {
            Ok(NativeCall::GetControlCaps { index: control_index as i32 })
        }
    }

    /// Get a control's current value and whether it is set automatically.
    /// For `ControlType::Flip` the value is a `FlipStatus` code.
    pub fn control_value(&self, control_type: ControlType) -> (r: NativeCall)
        ensures
            r == plan_control_value(control_type),
    {
        NativeCall::GetControlValue { control: control_type.code() }
    }

    /// Set a control's value and whether it is set automatically.
    pub fn set_control_value(&self, control_type: ControlType, value: i32, auto: bool) -> (r: NativeCall)
        ensures
            r == plan_set_control_value(control_type, value, auto),
    {
        NativeCall::SetControlValue {
            control: control_type.code(),
            value,
            auto: flag_to_native(auto),
        }
    }

    /// Get the current region of interest.
    pub fn roi_format(&self) -> (r: NativeCall)
        ensures
            r == NativeCall::GetRoiFormat,
    {
        NativeCall::GetRoiFormat
    }

    /// Get the start position of the current region.
    pub fn start_position(&self) -> (r: NativeCall)
        ensures
            r == NativeCall::GetStartPos,
    {
        NativeCall::GetStartPos
    }

    /// Move the region; allowed while video runs. At bin 2 or 3 the position
    /// is relative to the binned image. Refused with `OutOfBoundary` beyond
    /// the native range.
    pub fn set_start_position(&self, start_x: u32, start_y: u32) -> (r: Result<NativeCall, ErrorCode>)
        ensures
            start_x <= i32::MAX && start_y <= i32::MAX ==> r == Ok::<NativeCall, ErrorCode>(
                NativeCall::SetStartPos { start_x: start_x as i32, start_y: start_y as i32 },
            ),
            !(start_x <= i32::MAX && start_y <= i32::MAX) ==> r == Err::<NativeCall, ErrorCode>(
                ErrorCode::OutOfBoundary,
            ),
    {
        if start_x > i32::MAX as u32 || start_y > i32::MAX as u32 {
            Err(ErrorCode::OutOfBoundary)
        } else {
            Ok(NativeCall::SetStartPos { start_x: start_x as i32, start_y: start_y as i32 })
        }
    }

    /// Get the number of dropped frames; its answer goes to `dropped_frames`.
    pub fn get_dropped_frames(&self) -> (r: NativeCall)
        ensures
            r == NativeCall::GetDroppedFrames,
    {
        NativeCall::GetDroppedFrames
    }

    /// Enable subtraction of the dark file at `path`, which corrects hot
    /// pixels. The driver may remember it across sessions. Refused with
    /// `InvalidPath` when the path holds a NUL byte.
    pub fn enable_dark_subtract(&self, path: &str) -> (r: Result<NativeCall, ErrorCode>)
        ensures
            r is Err <==> path.spec_bytes().contains(0u8),
            r matches Err(e) ==> e == ErrorCode::InvalidPath,
            r matches Ok(call) ==> (call matches NativeCall::EnableDarkSubtract { path: p }
                && p@ == path.spec_bytes()),
    {
        let bytes = path.as_bytes();
        let kept = bytes_until_nul(bytes);
        proof {
            lemma_terminated(bytes@, 0u8);
        }
        if kept.len() < bytes.len() {
            assert(bytes@[kept@.len() as int] == 0u8);
            Err(ErrorCode::InvalidPath)
        } else {
            assert(kept@ =~= bytes@);
            assert forall|i: int| 0 <= i < bytes@.len() implies bytes@[i] != 0u8 by {
                assert(kept@[i] != 0u8);
            }
            Ok(NativeCall::EnableDarkSubtract { path: kept })
        }
    }

    /// Disable dark subtraction; the driver may have kept it on from an
    /// earlier session.
    pub fn disable_dark_subtract(&self) -> (r: NativeCall)
        ensures
            r == NativeCall::DisableDarkSubtract,
    {
        NativeCall::DisableDarkSubtract
    }

    /// Stop video capture.
    pub fn stop_video_capture(&self) -> (r: NativeCall)
        ensures
            r == NativeCall::StopVideoCapture,
    {
        NativeCall::StopVideoCapture
    }

    /// Pulse-guide on through the ST4 port, on cameras that have one.
    pub fn pulse_guide_on(&self, direction: GuideDirection) -> (r: NativeCall)
        ensures
            r == (NativeCall::PulseGuideOn { direction: direction.spec_code() }),
    {
        NativeCall::PulseGuideOn { direction: direction.code() }
    }

    /// Pulse-guide off through the ST4 port, on cameras that have one.
    pub fn pulse_guide_off(&self, direction: GuideDirection) -> (r: NativeCall)
        ensures
            r == (NativeCall::PulseGuideOff { direction: direction.spec_code() }),
    {
        NativeCall::PulseGuideOff { direction: direction.code() }
    }

    /// Cancel a running exposure, without data.
    pub fn stop_exposure(&self) -> (r: NativeCall)
        ensures
            r == NativeCall::StopExposure,
    {
        NativeCall::StopExposure
    }

    /// Poll the exposure status; its answer goes to `record_exposure_status`.
    /// After `Success` fetch the frame; after `Failed` start again.
    pub fn exposure_status(&self) -> (r: NativeCall)
        ensures
            r == NativeCall::GetExpStatus,
    {
        NativeCall::GetExpStatus
    }

    /// Get the id stored in flash; USB3 cameras only.
    pub fn id(&self) -> (r: NativeCall)
        ensures
            r == NativeCall::GetId,
    {
        NativeCall::GetId
    }

    /// Write an id to flash; USB3 cameras only.
    pub fn set_id(&self, id: Id) -> (r: NativeCall)
        ensures
            r == (NativeCall::SetId { id: NativeId { id: id.id } }),
    {
        NativeCall::SetId { id: id.to_asi_id() }
    }

    /// Get the preset gain and offset parameters.
    pub fn gain_offset(&self) -> (r: NativeCall)
        ensures
            r == NativeCall::GetGainOffset,
    {
        NativeCall::GetGainOffset
    }

    /// Get the frequently used low, medium and high gains and the offset.
    pub fn lmh_gain_offset(&self) -> (r: NativeCall)
        ensures
            r == NativeCall::GetLmhGainOffset,
    {
        NativeCall::GetLmhGainOffset
    }

    /// Get the camera modes of a trigger camera.
    pub fn camera_supported_mode(&self) -> (r: NativeCall)
        ensures
            r == NativeCall::GetCameraSupportMode,
    {
        NativeCall::GetCameraSupportMode
    }

    /// Get the current mode of a trigger camera.
    pub fn camera_mode(&self) -> (r: NativeCall)
        ensures
            r == NativeCall::GetCameraMode,
    {
        NativeCall::GetCameraMode
    }

    /// Set the mode of a trigger camera.
    pub fn set_camera_mode(&self, camera_mode: CameraMode) -> (r: NativeCall)
        ensures
            r == (NativeCall::SetCameraMode { mode: camera_mode.spec_code() }),
    {
        NativeCall::SetCameraMode { mode: camera_mode.code() }
    }

    /// Send a soft trigger. In an edge mode `true` starts an exposure; in a
    /// level mode `true` starts it and `false` ends it.
    pub fn send_soft_trigger(&self, start: bool) -> (r: NativeCall)
        ensures
            r == (NativeCall::SendSoftTrigger { start: if start { 1i32 } else { 0i32 } }),
    {
        NativeCall::SendSoftTrigger { start: flag_to_native(start) }
    }

    /// Get the serial number; its answer reads as text with `serial_text`.
    pub fn serial_number(&self) -> (r: NativeCall)
        ensures
            r == NativeCall::GetSerialNumber,
    {
        NativeCall::GetSerialNumber
    }

    /// Get the configuration of a trigger output pin.
    pub fn trigger_output_io_conf(&self, pin: TrigOutput) -> (r: NativeCall)
        ensures
            r == (NativeCall::GetTriggerOutputIoConf { pin: pin.spec_code() }),
    {
        NativeCall::GetTriggerOutputIoConf { pin: pin.code() }
    }

    /// Configure a trigger output pin; a duration of 0 turns it off. Refused
    /// with `GeneralError` when the delay or duration exceeds the native range.
    pub fn set_trigger_output_io_conf(
        &self,
        pin: TrigOutput,
        pin_high: bool,
        delay: usize,
        duration: usize,
    ) -> (r: Result<NativeCall, ErrorCode>)
        ensures
            delay <= i32::MAX && duration <= i32::MAX ==> r == Ok::<NativeCall, ErrorCode>(
                NativeCall::SetTriggerOutputIoConf {
                    pin: pin.spec_code(),
                    pin_high: if pin_high { 1i32 } else { 0i32 },
                    delay: delay as i32,
                    duration: duration as i32,
                },
            ),
            !(delay <= i32::MAX && duration <= i32::MAX) ==> r == Err::<NativeCall, ErrorCode>(
                ErrorCode::GeneralError,
            ),
    {
        if delay > i32::MAX as usize || duration > i32::MAX as usize {
            Err(ErrorCode::GeneralError)
        } else {
            Ok(
                NativeCall::SetTriggerOutputIoConf {
                    pin: pin.code(),
                    pin_high: flag_to_native(pin_high),
                    delay: delay as i32,
                    duration: duration as i32,
                },
            )
        }
    }
}

/// Closing a session leaves nothing behind: whatever state it reached,
/// closing succeeds when the driver answers success, and opening the same
/// camera again gives the same fresh session as the first opening did.
pub proof fn lemma_reopen(s: CameraState)
    ensures
        status_result(0, ()) == Ok::<(), ErrorCode>(()),
        spec_open(s.camera_id, 0, 0) == Ok::<CameraState, ErrorCode>(fresh(s.camera_id)),
{
}

/// Once an exposure has been started, starting another fails with
/// `ExposureInProgress` until the first is stopped, fetched or polled to an
/// end.
pub proof fn lemma_exposure_in_progress(s: CameraState, is_dark: bool, again_dark: bool)
    ensures
        plan_start_exposure(s, is_dark) matches Ok(call) ==> plan_start_exposure(
            after(s, call),
            again_dark,
        ) == Err::<NativeCall, ErrorCode>(ErrorCode::ExposureInProgress),
        s.roi is Some && s.exposure == ExposureStatus::Working ==> plan_start_exposure(
            s,
            again_dark,
        ) == Err::<NativeCall, ErrorCode>(ErrorCode::ExposureInProgress),
{
}

/// Starting video capture twice without stopping it in between fails the
/// second time with `VideoModeActive`; after a stop it is accepted again.
pub proof fn lemma_video_mode_active(s: CameraState)
    ensures
        plan_start_video_capture(s) matches Ok(call) ==> plan_start_video_capture(after(s, call))
            == Err::<NativeCall, ErrorCode>(ErrorCode::VideoModeActive),
        plan_start_video_capture(s) matches Ok(call) ==> plan_start_video_capture(
            after(after(s, call), NativeCall::StopVideoCapture),
        ) == plan_start_video_capture(s),
{
}

/// A value set with `set_control_value` reads back unchanged: both calls
/// address the same native control, and the native value and flag sent
/// decode to the value and flag that were set.
pub proof fn lemma_control_value_round_trip(control_type: ControlType, value: i32, auto: bool)
    ensures
        plan_set_control_value(control_type, value, auto) matches NativeCall::SetControlValue {
            control,
            value: sent,
            auto: sent_auto,
        } && plan_control_value(control_type) == (NativeCall::GetControlValue { control })
            && spec_control_value(sent as i64, sent_auto) == Some((value as isize, auto)),
{
}

/// The dropped-frame count is 0 once video capture has stopped, whatever the
/// driver reports; while capture runs, the driver's count is passed on, so
/// nothing resets it before the stop.
pub proof fn lemma_dropped_frames_reset(s: CameraState, count: i32)
    ensures
        spec_dropped_frames(after(s, NativeCall::StopVideoCapture), 0, count) == Ok::<
            u32,
            ErrorCode,
        >(0),
        s.video && count >= 0 ==> spec_dropped_frames(s, 0, count) == Ok::<u32, ErrorCode>(
            count as u32,
        ),
{
}

/// Exposure and video capture never run together when each is started
/// through its planner: from a session where they do not both run, an
/// accepted start of either leaves them not both running.
pub proof fn lemma_capture_modes_exclusive(s: CameraState, is_dark: bool)
    requires
        !(s.exposure == ExposureStatus::Working && s.video),
    ensures
        plan_start_exposure(s, is_dark) matches Ok(call) ==> !(after(s, call).exposure
            == ExposureStatus::Working && after(s, call).video),
        plan_start_video_capture(s) matches Ok(call) ==> !(after(s, call).exposure
            == ExposureStatus::Working && after(s, call).video),
{
}

} // verus!
