use asi::{
    bytes_until_nul, decode_bins, decode_camera_modes, decode_video_formats, flag_from_native,
    flag_to_native, serial_text, take_until_sentinel, text_from_native, BayerPattern, CameraMode,
    ControlType, ExposureStatus, FlipStatus, GuideDirection, ImgType, TrigOutput,
};

#[test]
fn sentinel_array_keeps_elements_before_first_sentinel() {
    assert_eq!(take_until_sentinel(&[1, 2, 0, 3, 0], 0), vec![1, 2]);
    assert_eq!(take_until_sentinel(&[0, 1, 2], 0), Vec::<i32>::new());
    assert_eq!(take_until_sentinel(&[4, 5, 6], 0), vec![4, 5, 6]);
    assert_eq!(take_until_sentinel(&[], -1), Vec::<i32>::new());
    assert_eq!(take_until_sentinel(&[3, 1, -1, 2], -1), vec![3, 1]);
}

#[test]
fn bins_stop_at_zero() {
    let mut raw = [0i32; 16];
    raw[0] = 1;
    raw[1] = 2;
    raw[2] = 4;
    assert_eq!(decode_bins(&raw), Some(vec![1, 2, 4]));
    assert_eq!(decode_bins(&[0, 2, 3]), Some(vec![]));
    assert_eq!(decode_bins(&[1, -2, 0]), None);
    assert_eq!(decode_bins(&[1, 2, 0, -2]), Some(vec![1, 2]));
}

#[test]
fn video_formats_stop_at_minus_one() {
    assert_eq!(
        decode_video_formats(&[0, 2, 1, 3, -1, 0, 0, 0]),
        Some(vec![ImgType::Raw8, ImgType::Raw16, ImgType::Rgb24, ImgType::Y8])
    );
    assert_eq!(decode_video_formats(&[-1, 0, 1]), Some(vec![]));
    assert_eq!(decode_video_formats(&[0, 7, -1]), None);
    assert_eq!(decode_video_formats(&[0, -1, 7]), Some(vec![ImgType::Raw8]));
}

#[test]
fn camera_modes_stop_at_minus_one() {
    assert_eq!(
        decode_camera_modes(&[0, 1, 6, -1, 3]),
        Some(vec![CameraMode::Normal, CameraMode::SoftEdge, CameraMode::LowLevel])
    );
    assert_eq!(decode_camera_modes(&[7, -1]), None);
}

#[test]
fn flags_are_true_only_for_one() {
    assert!(flag_from_native(1));
    assert!(!flag_from_native(0));
    assert!(!flag_from_native(2));
    assert!(!flag_from_native(-1));
    assert!(!flag_from_native(i32::MIN));
    assert_eq!(flag_to_native(true), 1);
    assert_eq!(flag_to_native(false), 0);
}

#[test]
fn text_stops_at_nul() {
    let mut buf = [0u8; 64];
    buf[..12].copy_from_slice(b"ZWO ASI120MM");
    assert_eq!(text_from_native(&buf), "ZWO ASI120MM");
    assert_eq!(bytes_until_nul(&buf), b"ZWO ASI120MM".to_vec());
}

#[test]
fn text_without_nul_uses_whole_buffer() {
    let buf = [b'a'; 64];
    assert_eq!(text_from_native(&buf), "a".repeat(64));
    assert_eq!(text_from_native(&[]), "");
}

#[test]
fn invalid_text_is_replaced_not_fatal() {
    let buf = [b'o', b'k', 0xff, 0xfe, b'!', 0];
    assert_eq!(text_from_native(&buf), "ok\u{fffd}\u{fffd}!");
    let utf8 = "Température".as_bytes();
    assert_eq!(text_from_native(utf8), "Température");
}

#[test]
fn serial_is_lowercase_hex() {
    assert_eq!(serial_text(&[0x01, 0xab, 0x00, 0xff, 0x10, 0x9c, 0x7e, 0x05]), "01ab00ff109c7e05");
    assert_eq!(serial_text(&[0; 8]), "0000000000000000");
}

#[test]
fn enumeration_codes_round_trip() {
    assert_eq!(BayerPattern::from_code(2), Some(BayerPattern::Gr));
    assert_eq!(BayerPattern::from_code(4), None);
    assert_eq!(ImgType::from_code(1), Some(ImgType::Rgb24));
    assert_eq!(ImgType::from_code(-1), None);
    assert_eq!(FlipStatus::from_code(0), Some(FlipStatus::NoFlip));
    assert_eq!(FlipStatus::from_code(4), None);
    assert_eq!(CameraMode::from_code(6), Some(CameraMode::LowLevel));
    assert_eq!(CameraMode::from_code(7), None);
    assert_eq!(ExposureStatus::from_code(3), Some(ExposureStatus::Failed));
    assert_eq!(ExposureStatus::from_code(4), None);
    assert_eq!(ControlType::from_code(22), Some(ControlType::Gps));
    assert_eq!(ControlType::from_code(23), None);
    for code in 0..23u32 {
        let t = ControlType::from_code(code).unwrap();
        assert_eq!(t.code(), code as i32);
    }
    assert_eq!(ControlType::Temperature.code(), 8);
    assert_eq!(GuideDirection::West.code(), 3);
    assert_eq!(TrigOutput::PinB.code(), 1);
    assert_eq!(TrigOutput::NoPin.code(), -1);
}

#[test]
fn bytes_per_pixel_by_format() {
    assert_eq!(ImgType::Raw8.bytes_per_pixel(), 1);
    assert_eq!(ImgType::Y8.bytes_per_pixel(), 1);
    assert_eq!(ImgType::Raw16.bytes_per_pixel(), 2);
    assert_eq!(ImgType::Rgb24.bytes_per_pixel(), 3);
}
