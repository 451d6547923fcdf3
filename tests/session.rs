use asi::{
    count_from_native, decode_control_value, decode_gain_offset, decode_output_conf,
    decode_position, frame_size, Camera, CameraMode, ControlType, ErrorCode, ExposureStatus,
    GuideDirection, Id, ImgType, NativeCall, NativeId, RoiFormat, TrigOutput,
};

fn open(id: u8) -> Camera {
    Camera::open(id, 0, 0).unwrap()
}

fn with_roi(width: u32, height: u32, img_type: ImgType) -> Camera {
    let mut cam = open(0);
    let call = cam.set_roi_format(width, height, 1, img_type).unwrap();
    cam.finish(&call, 0, Some(())).unwrap();
    cam
}

#[test]
fn open_fails_on_either_step() {
    assert_eq!(Camera::open(0, 2, 0).unwrap_err(), ErrorCode::InvalidId);
    assert_eq!(Camera::open(0, 5, 0).unwrap_err(), ErrorCode::CameraRemoved);
    assert_eq!(Camera::open(0, 0, 4).unwrap_err(), ErrorCode::CameraClosed);
    assert_eq!(Camera::open(0, 2, 4).unwrap_err(), ErrorCode::InvalidId);
}

#[test]
fn open_close_open_again() {
    let mut cam = open(1);
    assert_eq!(cam.camera_id(), 1);
    let call = cam.set_roi_format(640, 480, 1, ImgType::Raw8).unwrap();
    cam.finish(&call, 0, Some(())).unwrap();
    assert_eq!(cam.close(0), Ok(()));
    let again = open(1);
    assert_eq!(again.camera_id(), 1);
    assert_eq!(again.roi(), None);
    assert_eq!(again.exposure_state(), ExposureStatus::Idle);
    assert!(!again.is_capturing_video());
    assert_eq!(again.close(4), Err(ErrorCode::CameraClosed));
}

#[test]
fn capture_needs_a_region() {
    let cam = open(0);
    assert_eq!(cam.start_exposure(false), Err(ErrorCode::InvalidSequence));
    assert_eq!(cam.start_video_capture(), Err(ErrorCode::InvalidSequence));
    assert_eq!(cam.required_buffer_len(), None);
}

#[test]
fn second_exposure_is_refused_while_working() {
    let mut cam = with_roi(1920, 1080, ImgType::Raw8);
    let call = cam.start_exposure(true).unwrap();
    assert_eq!(call, NativeCall::StartExposure { is_dark: 1 });
    cam.finish(&call, 0, Some(())).unwrap();
    assert_eq!(cam.exposure_state(), ExposureStatus::Working);
    assert_eq!(cam.start_exposure(false), Err(ErrorCode::ExposureInProgress));
    assert_eq!(cam.start_video_capture(), Err(ErrorCode::ExposureInProgress));
    assert_eq!(cam.set_roi_format(640, 480, 1, ImgType::Raw8), Err(ErrorCode::InvalidSequence));
}

#[test]
fn exposure_runs_start_poll_fetch() {
    let mut cam = with_roi(1920, 1080, ImgType::Raw8);
    let call = cam.start_exposure(false).unwrap();
    cam.finish(&call, 0, Some(())).unwrap();
    assert_eq!(cam.exposure_status(), NativeCall::GetExpStatus);
    assert_eq!(cam.record_exposure_status(0, 1), Ok(ExposureStatus::Working));
    assert_eq!(cam.record_exposure_status(0, 9), Err(ErrorCode::Unknown));
    assert_eq!(cam.exposure_state(), ExposureStatus::Working);
    assert_eq!(cam.record_exposure_status(0, 2), Ok(ExposureStatus::Success));
    let len = cam.required_buffer_len().unwrap();
    assert_eq!(len, 1920 * 1080);
    let fetch = cam.get_data_after_exposure(len);
    assert_eq!(fetch, NativeCall::GetDataAfterExp { buffer_len: 1920 * 1080 });
    cam.finish(&fetch, 0, Some(())).unwrap();
    assert_eq!(cam.exposure_state(), ExposureStatus::Idle);
    assert!(cam.start_exposure(false).is_ok());
}

#[test]
fn failed_exposure_can_be_started_again() {
    let mut cam = with_roi(640, 480, ImgType::Raw16);
    let call = cam.start_exposure(false).unwrap();
    cam.finish(&call, 0, Some(())).unwrap();
    assert_eq!(cam.record_exposure_status(0, 3), Ok(ExposureStatus::Failed));
    assert!(cam.start_exposure(false).is_ok());
}

#[test]
fn stop_exposure_returns_to_idle() {
    let mut cam = with_roi(640, 480, ImgType::Raw8);
    let call = cam.start_exposure(false).unwrap();
    cam.finish(&call, 0, Some(())).unwrap();
    let stop = cam.stop_exposure();
    assert_eq!(stop, NativeCall::StopExposure);
    cam.finish(&stop, 0, Some(())).unwrap();
    assert_eq!(cam.exposure_state(), ExposureStatus::Idle);
}

#[test]
fn failed_native_call_leaves_session_unchanged() {
    let mut cam = with_roi(640, 480, ImgType::Raw8);
    let call = cam.start_exposure(false).unwrap();
    assert_eq!(cam.finish(&call, 15, Some(())), Err(ErrorCode::ExposureInProgress));
    assert_eq!(cam.exposure_state(), ExposureStatus::Idle);
    assert_eq!(cam.record_exposure_status(4, 1), Err(ErrorCode::CameraClosed));
    assert_eq!(cam.exposure_state(), ExposureStatus::Idle);
    assert_eq!(cam.finish::<u8>(&NativeCall::GetNumOfControls, 0, None), Err(ErrorCode::Unknown));
}

#[test]
fn second_video_start_is_refused() {
    let mut cam = with_roi(640, 480, ImgType::Raw8);
    let call = cam.start_video_capture().unwrap();
    cam.finish(&call, 0, Some(())).unwrap();
    assert!(cam.is_capturing_video());
    assert_eq!(cam.start_video_capture(), Err(ErrorCode::VideoModeActive));
    assert_eq!(cam.start_exposure(false), Err(ErrorCode::VideoModeActive));
    assert_eq!(cam.set_roi_format(320, 240, 2, ImgType::Raw8), Err(ErrorCode::InvalidSequence));
    let stop = cam.stop_video_capture();
    cam.finish(&stop, 0, Some(())).unwrap();
    assert!(cam.start_video_capture().is_ok());
}

#[test]
fn video_frames_need_running_capture() {
    let mut cam = with_roi(640, 480, ImgType::Rgb24);
    let len = cam.required_buffer_len().unwrap();
    assert_eq!(cam.get_video_data(len, 100), Err(ErrorCode::InvalidSequence));
    let call = cam.start_video_capture().unwrap();
    cam.finish(&call, 0, Some(())).unwrap();
    assert_eq!(cam.get_video_data(len, 100), Ok(NativeCall::GetVideoData { buffer_len: 921600, wait_ms: 100 }));
    assert_eq!(cam.get_video_data(len, u32::MAX), Ok(NativeCall::GetVideoData { buffer_len: 921600, wait_ms: -1 }));
}

#[test]
fn dropped_frames_reset_after_stop() {
    let mut cam = with_roi(640, 480, ImgType::Raw8);
    let call = cam.start_video_capture().unwrap();
    cam.finish(&call, 0, Some(())).unwrap();
    assert_eq!(cam.get_dropped_frames(), NativeCall::GetDroppedFrames);
    assert_eq!(cam.dropped_frames(0, 12), Ok(12));
    let stop = cam.stop_video_capture();
    assert_eq!(cam.dropped_frames(0, 12), Ok(12));
    cam.finish(&stop, 0, Some(())).unwrap();
    assert_eq!(cam.dropped_frames(0, 12), Ok(0));
    assert_eq!(cam.dropped_frames(4, 0), Err(ErrorCode::CameraClosed));
}

#[test]
fn buffer_size_follows_region_format() {
    assert_eq!(with_roi(1920, 1080, ImgType::Raw8).required_buffer_len(), Some(1920 * 1080));
    assert_eq!(with_roi(1920, 1080, ImgType::Rgb24).required_buffer_len(), Some(1920 * 1080 * 3));
    assert_eq!(with_roi(1920, 1080, ImgType::Raw16).required_buffer_len(), Some(1920 * 1080 * 2));
    assert_eq!(with_roi(1920, 1080, ImgType::Y8).required_buffer_len(), Some(1920 * 1080));
    assert_eq!(frame_size(0, 1080, ImgType::Rgb24), Some(0));
    assert_eq!(frame_size(3, 5, ImgType::Raw16), Some(30));
}

#[test]
fn region_round_trips_through_native_call() {
    let cam = with_roi(1280, 960, ImgType::Raw16);
    assert_eq!(cam.roi(), Some(RoiFormat { width: 1280, height: 960, bin: 1, img_type: ImgType::Raw16 }));
    assert_eq!(
        cam.set_roi_format(640, 480, 2, ImgType::Y8),
        Ok(NativeCall::SetRoiFormat { width: 640, height: 480, bin: 2, img_type: 3 })
    );
    assert_eq!(RoiFormat::from_native(640, 480, 2, 3), Some(RoiFormat { width: 640, height: 480, bin: 2, img_type: ImgType::Y8 }));
    assert_eq!(RoiFormat::from_native(-1, 480, 2, 3), None);
    assert_eq!(RoiFormat::from_native(640, 480, 2, 4), None);
}

#[test]
fn oversized_region_is_refused() {
    let cam = open(0);
    assert_eq!(cam.set_roi_format(u32::MAX, 10, 1, ImgType::Raw8), Err(ErrorCode::InvalidSize));
    assert_eq!(cam.set_roi_format(10, 10, 1 << 31, ImgType::Raw8), Err(ErrorCode::InvalidSize));
}

#[test]
fn gain_round_trip_through_native_values() {
    let cam = open(0);
    let set = cam.set_control_value(ControlType::Gain, 150, false);
    assert_eq!(set, NativeCall::SetControlValue { control: 0, value: 150, auto: 0 });
    assert_eq!(cam.control_value(ControlType::Gain), NativeCall::GetControlValue { control: 0 });
    assert_eq!(decode_control_value(150, 0), Some((150, false)));
    assert_eq!(decode_control_value(-40, 1), Some((-40, true)));
    assert_eq!(
        cam.set_control_value(ControlType::Exposure, 30000, true),
        NativeCall::SetControlValue { control: 1, value: 30000, auto: 1 }
    );
}

#[test]
fn planned_calls_carry_native_arguments() {
    let cam = open(0);
    assert_eq!(cam.number_of_controls(), NativeCall::GetNumOfControls);
    assert_eq!(cam.control_caps(3), Ok(NativeCall::GetControlCaps { index: 3 }));
    assert_eq!(cam.control_caps(1 << 31), Err(ErrorCode::InvalidIndex));
    assert_eq!(cam.roi_format(), NativeCall::GetRoiFormat);
    assert_eq!(cam.start_position(), NativeCall::GetStartPos);
    assert_eq!(cam.set_start_position(10, 20), Ok(NativeCall::SetStartPos { start_x: 10, start_y: 20 }));
    assert_eq!(cam.set_start_position(1 << 31, 0), Err(ErrorCode::OutOfBoundary));
    assert_eq!(cam.disable_dark_subtract(), NativeCall::DisableDarkSubtract);
    assert_eq!(cam.pulse_guide_on(GuideDirection::East), NativeCall::PulseGuideOn { direction: 2 });
    assert_eq!(cam.pulse_guide_off(GuideDirection::North), NativeCall::PulseGuideOff { direction: 0 });
    assert_eq!(cam.id(), NativeCall::GetId);
    assert_eq!(cam.set_id(Id { id: [9; 8] }), NativeCall::SetId { id: NativeId { id: [9; 8] } });
    assert_eq!(cam.gain_offset(), NativeCall::GetGainOffset);
    assert_eq!(cam.lmh_gain_offset(), NativeCall::GetLmhGainOffset);
    assert_eq!(cam.camera_supported_mode(), NativeCall::GetCameraSupportMode);
    assert_eq!(cam.camera_mode(), NativeCall::GetCameraMode);
    assert_eq!(cam.set_camera_mode(CameraMode::RiseEdge), NativeCall::SetCameraMode { mode: 2 });
    assert_eq!(cam.send_soft_trigger(true), NativeCall::SendSoftTrigger { start: 1 });
    assert_eq!(cam.serial_number(), NativeCall::GetSerialNumber);
    assert_eq!(cam.trigger_output_io_conf(TrigOutput::PinA), NativeCall::GetTriggerOutputIoConf { pin: 0 });
    assert_eq!(
        cam.set_trigger_output_io_conf(TrigOutput::PinB, true, 5, 0),
        Ok(NativeCall::SetTriggerOutputIoConf { pin: 1, pin_high: 1, delay: 5, duration: 0 })
    );
    assert_eq!(
        cam.set_trigger_output_io_conf(TrigOutput::PinB, false, 1 << 31, 0),
        Err(ErrorCode::GeneralError)
    );
}

#[test]
fn dark_subtract_path_must_be_free_of_nul() {
    let cam = open(0);
    assert_eq!(
        cam.enable_dark_subtract("/tmp/dark.bmp"),
        Ok(NativeCall::EnableDarkSubtract { path: b"/tmp/dark.bmp".to_vec() })
    );
    assert_eq!(cam.enable_dark_subtract("bad\0path"), Err(ErrorCode::InvalidPath));
}

#[test]
fn answer_decoders() {
    assert_eq!(count_from_native(12), Some(12));
    assert_eq!(count_from_native(-1), None);
    assert_eq!(decode_position(4, 8), Some((4, 8)));
    assert_eq!(decode_position(-4, 8), None);
    assert_eq!(decode_gain_offset(1, 2, 3, 4), Some((1, 2, 3, 4)));
    assert_eq!(decode_gain_offset(1, 2, -3, 4), None);
    assert_eq!(decode_output_conf(1, 10, 20), Some((true, 10, 20)));
    assert_eq!(decode_output_conf(0, 10, -5), Some((false, 10, 0)));
    assert_eq!(decode_output_conf(0, -1, 5), None);
}
