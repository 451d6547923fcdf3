//! Host-side control layer for ASI astronomical cameras.
//!
//! The native driver is reached through integer status codes and fixed-size
//! records. This crate turns those into typed values and keeps the session
//! state machine that decides which native calls may be made, and in what
//! order. The calls themselves are made by the embedding program, which hands
//! back what the driver answered.
//!
//! - `error`: the status codes and the failure kinds they stand for.
//! - `codes`: the integer-coded enumerations of the native ABI.
//! - `marshal`: native booleans, sentinel-terminated arrays and text.
//! - `records`: the driver's fixed-size records and what they read as.
//! - `native`: the calls a session plans, and the small answers they get.
//! - `camera`: the session of an open camera and its acquisition rules.
//! - `discovery`: what the driver answers without an open camera.

mod camera;
mod codes;
mod discovery;
mod error;
mod marshal;
mod native;
mod records;

pub use camera::{
    after, capture_pending, frame_size, fresh, holds_frame, lemma_capture_modes_exclusive,
    lemma_control_value_round_trip, lemma_dropped_frames_reset, lemma_exposure_in_progress,
    lemma_reopen, lemma_video_mode_active, plan_control_value, plan_get_video_data,
    plan_set_control_value, plan_set_roi_format, plan_start_exposure, plan_start_video_capture,
    spec_dropped_frames, spec_frame_size, spec_open, spec_roi_from_native, spec_wait, Camera,
    CameraState, RoiFormat,
};
pub use codes::{
    BayerPattern, CameraMode, ControlType, ExposureStatus, FlipStatus, GuideDirection, ImgType,
    TrigOutput,
};
pub use discovery::{
    camera_check, camera_property, camera_property_by_id, number_of_connected_cameras,
    product_ids, sdk_version,
};
pub use error::{
    check_status, decoded_result, error_of, lemma_code_round_trip, lemma_status_codes,
    status_result, ErrorCode,
};
pub use marshal::{
    bytes_until_nul, decode_bins, decode_camera_modes, decode_video_formats, flag_from_native,
    flag_to_native, hex_digit, hex_lower, lemma_terminated, serial_text, spec_flag,
    spec_native_text, take_until_sentinel, terminated, text_from_native, utf8_lossy,
};
pub use native::{
    count_from_native, decode_control_value, decode_gain_offset, decode_output_conf,
    decode_position, spec_control_value, NativeCall,
};
pub use records::{
    camera_info_in_range, camera_info_read, control_caps_in_range, control_caps_read,
    CameraInfo, ControlCaps, Id, NativeCameraInfo, NativeControlCaps, NativeId,
    NativeSupportedMode, SupportedMode, BINS_LEN, DESCRIPTION_LEN, MODES_LEN, NAME_LEN,
    VIDEO_FORMATS_LEN,
};
