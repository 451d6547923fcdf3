use asi::{
    BayerPattern, CameraInfo, ControlCaps, ControlType, Id, ImgType, NativeCameraInfo,
    NativeControlCaps, NativeId, NativeSupportedMode, SupportedMode, CameraMode, BINS_LEN,
    DESCRIPTION_LEN, MODES_LEN, NAME_LEN, VIDEO_FORMATS_LEN,
};

fn text(s: &str, len: usize) -> Vec<u8> {
    let mut v = s.as_bytes().to_vec();
    v.resize(len, 0);
    v
}

fn mono_camera() -> NativeCameraInfo {
    let mut raw = NativeCameraInfo::default();
    raw.name = text("ZWO ASI178MM", NAME_LEN);
    raw.camera_id = 2;
    raw.max_height = 1080;
    raw.max_width = 1920;
    raw.is_color_cam = 0;
    raw.bayer_pattern = 0;
    raw.supported_bins[..3].copy_from_slice(&[1, 2, 3]);
    raw.supported_video_format[..3].copy_from_slice(&[0, 2, -1]);
    raw.pixel_size_bits = 2.4f64.to_bits();
    raw.st4_port = 1;
    raw.is_cooler_cam = 7;
    raw.is_usb3_host = 1;
    raw.is_usb3_camera = 1;
    raw.elec_per_adu_bits = 0.25f32.to_bits();
    raw.bit_depth = 14;
    raw.is_trigger_cam = -1;
    raw
}

#[test]
fn native_records_default_to_zero_at_native_sizes() {
    let info = NativeCameraInfo::default();
    assert_eq!(info.name, vec![0u8; NAME_LEN]);
    assert_eq!(info.supported_bins, vec![0; BINS_LEN]);
    assert_eq!(info.supported_video_format, vec![0; VIDEO_FORMATS_LEN]);
    assert_eq!(info.camera_id, 0);
    let caps = NativeControlCaps::default();
    assert_eq!(caps.name.len(), 64);
    assert_eq!(caps.description, vec![0u8; DESCRIPTION_LEN]);
    assert_eq!(NativeSupportedMode::default().supported_camera_mode, vec![0; MODES_LEN]);
    assert_eq!(NativeId::default().id, [0u8; 8]);
}

#[test]
fn camera_info_reads_native_record() {
    let info = CameraInfo::from_native(&mono_camera()).unwrap();
    assert_eq!(info.name, "ZWO ASI178MM");
    assert_eq!(info.camera_id, 2);
    assert_eq!((info.max_width, info.max_height), (1920, 1080));
    assert!(!info.is_color_cam);
    assert_eq!(info.bayer_pattern, BayerPattern::Rg);
    assert_eq!(info.supported_bins, vec![1, 2, 3]);
    assert_eq!(info.supported_video_formats, vec![ImgType::Raw8, ImgType::Raw16]);
    assert_eq!(f64::from_bits(info.pixel_size_bits), 2.4);
    assert_eq!(f32::from_bits(info.elec_per_adu_bits), 0.25);
    assert!(!info.mechanical_shutter);
    assert!(info.st4_port);
    assert!(!info.is_cooler_cam);
    assert!(info.is_usb3_host && info.is_usb3_camera);
    assert_eq!(info.bit_depth, 14);
    assert!(!info.is_trigger_cam);
}

#[test]
fn camera_info_rejects_values_outside_the_abi() {
    let mut raw = mono_camera();
    raw.bayer_pattern = 4;
    assert_eq!(CameraInfo::from_native(&raw), None);
    let mut raw = mono_camera();
    raw.supported_video_format[1] = 9;
    assert_eq!(CameraInfo::from_native(&raw), None);
    let mut raw = mono_camera();
    raw.max_width = -1;
    assert_eq!(CameraInfo::from_native(&raw), None);
    let mut raw = mono_camera();
    raw.camera_id = 256;
    assert_eq!(CameraInfo::from_native(&raw), None);
    let mut raw = mono_camera();
    raw.supported_bins[1] = -2;
    assert_eq!(CameraInfo::from_native(&raw), None);
}

#[test]
fn control_caps_reads_native_record() {
    let mut raw = NativeControlCaps::default();
    raw.name = text("Gain", NAME_LEN);
    raw.description = text("Gain", DESCRIPTION_LEN);
    raw.max_value = 510;
    raw.min_value = 0;
    raw.default_value = 200;
    raw.is_auto_supported = 1;
    raw.is_writable = 1;
    raw.control_type = 0;
    let caps = ControlCaps::from_native(&raw).unwrap();
    assert_eq!(caps.name, "Gain");
    assert_eq!(caps.description, "Gain");
    assert_eq!((caps.min_value, caps.max_value, caps.default_value), (0, 510, 200));
    assert!(caps.is_auto_supported && caps.is_writable);
    assert_eq!(caps.control_type, ControlType::Gain);
}

#[test]
fn control_caps_rejects_values_outside_the_abi() {
    let mut raw = NativeControlCaps::default();
    raw.control_type = 23;
    assert_eq!(ControlCaps::from_native(&raw), None);
    let mut raw = NativeControlCaps::default();
    raw.max_value = i64::from(i32::MAX) + 1;
    assert_eq!(ControlCaps::from_native(&raw), None);
    let mut raw = NativeControlCaps::default();
    raw.min_value = i64::from(i32::MIN);
    raw.control_type = 8;
    assert_eq!(ControlCaps::from_native(&raw).unwrap().control_type, ControlType::Temperature);
}

#[test]
fn id_converts_both_ways() {
    let native = NativeId { id: [1, 2, 3, 4, 5, 6, 7, 8] };
    let id = Id::from(native);
    assert_eq!(id.id, [1, 2, 3, 4, 5, 6, 7, 8]);
    assert_eq!(id.to_asi_id(), native);
}

#[test]
fn supported_modes_stop_at_minus_one() {
    let mut raw = NativeSupportedMode::default();
    raw.supported_camera_mode[..4].copy_from_slice(&[0, 1, 3, -1]);
    let modes = SupportedMode::from_native(&raw).unwrap();
    assert_eq!(modes.camera_mode, vec![CameraMode::Normal, CameraMode::SoftEdge, CameraMode::FallEdge]);
    raw.supported_camera_mode[1] = 8;
    assert_eq!(SupportedMode::from_native(&raw), None);
}
