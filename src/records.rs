use vstd::prelude::*;

use crate::codes::{BayerPattern, CameraMode, ControlType, ImgType};
use crate::marshal::{
    decode_bins, decode_camera_modes, decode_video_formats, flag_from_native, spec_flag,
    spec_native_text, terminated, text_from_native,
};

verus! {

/// Bytes in the name buffer of a native camera or control record.
pub const NAME_LEN: usize = 64;

/// Bytes in the description buffer of a native control record.
pub const DESCRIPTION_LEN: usize = 128;

/// Entries in the native list of binning factors.
pub const BINS_LEN: usize = 16;

/// Entries in the native list of video formats.
pub const VIDEO_FORMATS_LEN: usize = 8;

/// Entries in the native list of camera modes.
pub const MODES_LEN: usize = 16;

/// A camera's static properties as the driver writes them: fixed-size,
/// sentinel-terminated arrays and integer-coded fields.
#[derive(Debug, Clone)]
pub struct NativeCameraInfo {
    /// Text, NUL-padded; not always NUL-terminated.
    pub name: Vec<u8>,
    pub camera_id: i32,
    pub max_height: i64,
    pub max_width: i64,
    pub is_color_cam: i32,
    pub bayer_pattern: u32,
    /// Terminated by the first 0.
    pub supported_bins: Vec<i32>,
    /// Terminated by the first -1.
    pub supported_video_format: Vec<i32>,
    /// Bits of the IEEE-754 double that gives the pixel size in micrometres.
    pub pixel_size_bits: u64,
    pub mechanical_shutter: i32,
    pub st4_port: i32,
    pub is_cooler_cam: i32,
    pub is_usb3_host: i32,
    pub is_usb3_camera: i32,
    /// Bits of the IEEE-754 single that gives electrons per ADU.
    pub elec_per_adu_bits: u32,
    pub bit_depth: i32,
    pub is_trigger_cam: i32,
}

impl Default for NativeCameraInfo {
    /// An all-zero record with the buffers at their native sizes.
    fn default() -> (r: NativeCameraInfo)
        ensures
            r.name@ == Seq::new(NAME_LEN as nat, |i: int| 0u8),
            r.supported_bins@ == Seq::new(BINS_LEN as nat, |i: int| 0i32),
            r.supported_video_format@ == Seq::new(VIDEO_FORMATS_LEN as nat, |i: int| 0i32),
            r.camera_id == 0 && r.max_height == 0 && r.max_width == 0,
            r.is_color_cam == 0 && r.bayer_pattern == 0 && r.pixel_size_bits == 0,
            r.mechanical_shutter == 0 && r.st4_port == 0 && r.is_cooler_cam == 0,
            r.is_usb3_host == 0 && r.is_usb3_camera == 0 && r.elec_per_adu_bits == 0,
            r.bit_depth == 0 && r.is_trigger_cam == 0,
    {
        NativeCameraInfo {
            name: zeroed_bytes(NAME_LEN),
            camera_id: 0,
            max_height: 0,
            max_width: 0,
            is_color_cam: 0,
            bayer_pattern: 0,
            supported_bins: zeroed_ints(BINS_LEN),
            supported_video_format: zeroed_ints(VIDEO_FORMATS_LEN),
            pixel_size_bits: 0,
            mechanical_shutter: 0,
            st4_port: 0,
            is_cooler_cam: 0,
            is_usb3_host: 0,
            is_usb3_camera: 0,
            elec_per_adu_bits: 0,
            bit_depth: 0,
            is_trigger_cam: 0,
        }
    }
}

fn zeroed_bytes(n: usize) -> (r: Vec<u8>)
    ensures
        r@ == Seq::new(n as nat, |i: int| 0u8),
{
    let mut v: Vec<u8> = Vec::new();
    let mut i: usize = 0;
    while i < n
        invariant
            i <= n,
            v@ == Seq::new(i as nat, |j: int| 0u8),
        decreases n - i,
    {
        v.push(0);
        i = i + 1;
        assert(v@ =~= Seq::new(i as nat, |j: int| 0u8));
    }
    v
}

fn zeroed_ints(n: usize) -> (r: Vec<i32>)
    ensures
        r@ == Seq::new(n as nat, |i: int| 0i32),
{
    let mut v: Vec<i32> = Vec::new();
    let mut i: usize = 0;
    while i < n
        invariant
            i <= n,
            v@ == Seq::new(i as nat, |j: int| 0i32),
        decreases n - i,
    {
        v.push(0);
        i = i + 1;
        assert(v@ =~= Seq::new(i as nat, |j: int| 0i32));
    }
    v
}

/// Immutable snapshot of a device's static capabilities.
#[derive(Debug, Clone, PartialEq)]
pub struct CameraInfo {
    /// The name of the camera.
    pub name: String,
    /// Addresses the camera in every other call. Starts from 0.
    pub camera_id: u8,
    /// The max height of the camera.
    pub max_height: u32,
    /// The max width of the camera.
    pub max_width: u32,
    pub is_color_cam: bool,
    pub bayer_pattern: BayerPattern,
    /// 1 means bin1, which every camera supports, 2 means bin2, and so on.
    pub supported_bins: Vec<u32>,
    /// The output formats the camera supports.
    pub supported_video_formats: Vec<ImgType>,
    /// Bits of the IEEE-754 double that gives the pixel size in micrometres.
    pub pixel_size_bits: u64,
    pub mechanical_shutter: bool,
    pub st4_port: bool,
    pub is_cooler_cam: bool,
    pub is_usb3_host: bool,
    pub is_usb3_camera: bool,
    /// Bits of the IEEE-754 single that gives electrons per ADU.
    pub elec_per_adu_bits: u32,
    pub bit_depth: u32,
    pub is_trigger_cam: bool,
}

/// Whether every field of a native camera record lies in the range the ABI
/// allows, so that it reads as a `CameraInfo`.
pub open spec fn camera_info_in_range(raw: NativeCameraInfo) -> bool {
    &&& 0 <= raw.camera_id <= 255
    &&& 0 <= raw.max_height <= u32::MAX
    &&& 0 <= raw.max_width <= u32::MAX
    &&& BayerPattern::spec_from_code(raw.bayer_pattern) is Some
    &&& forall|i: int|
        0 <= i < terminated(raw.supported_bins@, 0i32).len() ==> #[trigger] terminated(
            raw.supported_bins@,
            0i32,
        )[i] > 0
    &&& forall|i: int|
        0 <= i < terminated(raw.supported_video_format@, -1i32).len() ==> ImgType::spec_from_code(
            #[trigger] terminated(raw.supported_video_format@, -1i32)[i],
        ) is Some
    &&& raw.bit_depth >= 0
}

/// What the fields of a `CameraInfo` read from `raw` hold.
pub open spec fn camera_info_read(info: CameraInfo, raw: NativeCameraInfo) -> bool {
    &&& info.name@ == spec_native_text(raw.name@)
    &&& info.camera_id == raw.camera_id
    &&& info.max_height == raw.max_height
    &&& info.max_width == raw.max_width
    &&& info.is_color_cam == spec_flag(raw.is_color_cam)
    &&& Some(info.bayer_pattern) == BayerPattern::spec_from_code(raw.bayer_pattern)
    &&& info.supported_bins@ == terminated(raw.supported_bins@, 0i32).map_values(
        |c: i32| c as u32,
    )
    &&& info.supported_video_formats@ == terminated(raw.supported_video_format@, -1i32).map_values(
        |c: i32| ImgType::spec_from_code(c)->0,
    )
    &&& info.pixel_size_bits == raw.pixel_size_bits
    &&& info.mechanical_shutter == spec_flag(raw.mechanical_shutter)
    &&& info.st4_port == spec_flag(raw.st4_port)
    &&& info.is_cooler_cam == spec_flag(raw.is_cooler_cam)
    &&& info.is_usb3_host == spec_flag(raw.is_usb3_host)
    &&& info.is_usb3_camera == spec_flag(raw.is_usb3_camera)
    &&& info.elec_per_adu_bits == raw.elec_per_adu_bits
    &&& info.bit_depth == raw.bit_depth
    &&& info.is_trigger_cam == spec_flag(raw.is_trigger_cam)
}

impl CameraInfo {
    /// Reads a native camera record. `None` if a field lies outside the range
    /// the ABI allows (an unknown Bayer or format code, a negative size).
    pub fn from_native(raw: &NativeCameraInfo) -> (r: Option<CameraInfo>)
        ensures
            r is Some <==> camera_info_in_range(*raw),
            r matches Some(info) ==> camera_info_read(info, *raw),
    {
        if raw.camera_id < 0 || raw.camera_id > 255 {
            return None;
        }
        if raw.max_height < 0 || raw.max_height > u32::MAX as i64 {
            return None;
        }
        if raw.max_width < 0 || raw.max_width > u32::MAX as i64 {
            return None;
        }
        if raw.bit_depth < 0 {
            return None;
        }
        let bayer_pattern = match BayerPattern::from_code(raw.bayer_pattern) {
            Some(p) => p,
            None => {
                return None;
            },
        };
        let supported_bins = match decode_bins(raw.supported_bins.as_slice()) {
            Some(b) => b,
            None => {
                return None;
            },
        };
        let supported_video_formats = match decode_video_formats(
            raw.supported_video_format.as_slice(),
        ) {
            Some(f) => f,
            None => {
                return None;
            },
        };
        Some(
            CameraInfo {
                name: text_from_native(raw.name.as_slice()),
                camera_id: raw.camera_id as u8,
                max_height: raw.max_height as u32,
                max_width: raw.max_width as u32,
                is_color_cam: flag_from_native(raw.is_color_cam),
                bayer_pattern,
                supported_bins,
                supported_video_formats,
                pixel_size_bits: raw.pixel_size_bits,
                mechanical_shutter: flag_from_native(raw.mechanical_shutter),
                st4_port: flag_from_native(raw.st4_port),
                is_cooler_cam: flag_from_native(raw.is_cooler_cam),
                is_usb3_host: flag_from_native(raw.is_usb3_host),
                is_usb3_camera: flag_from_native(raw.is_usb3_camera),
                elec_per_adu_bits: raw.elec_per_adu_bits,
                bit_depth: raw.bit_depth as u32,
                is_trigger_cam: flag_from_native(raw.is_trigger_cam),
            },
        )
    }
}

/// A control's static description as the driver writes it.
#[derive(Debug, Clone)]
pub struct NativeControlCaps {
    /// Text, NUL-padded; not always NUL-terminated.
    pub name: Vec<u8>,
    /// Text, NUL-padded; not always NUL-terminated.
    pub description: Vec<u8>,
    pub max_value: i64,
    pub min_value: i64,
    pub default_value: i64,
    pub is_auto_supported: i32,
    pub is_writable: i32,
    pub control_type: u32,
}

impl Default for NativeControlCaps {
    /// An all-zero record with the buffers at their native sizes.
    fn default() -> (r: NativeControlCaps)
        ensures
            r.name@ == Seq::new(NAME_LEN as nat, |i: int| 0u8),
            r.description@ == Seq::new(DESCRIPTION_LEN as nat, |i: int| 0u8),
            r.max_value == 0 && r.min_value == 0 && r.default_value == 0,
            r.is_auto_supported == 0 && r.is_writable == 0 && r.control_type == 0,
    {
        NativeControlCaps {
            name: zeroed_bytes(NAME_LEN),
            description: zeroed_bytes(DESCRIPTION_LEN),
            max_value: 0,
            min_value: 0,
            default_value: 0,
            is_auto_supported: 0,
            is_writable: 0,
            control_type: 0,
        }
    }
}

/// Static description of one adjustable parameter.
#[derive(Debug, Clone, PartialEq)]
pub struct ControlCaps {
    /// The name of the control, like Exposure or Gain.
    pub name: String,
    /// Description of this control.
    pub description: String,
    pub max_value: i32,
    pub min_value: i32,
    pub default_value: i32,
    /// Whether the camera can set this control automatically.
    pub is_auto_supported: bool,
    /// Some controls, like the temperature, can only be read on some cameras.
    pub is_writable: bool,
    /// Selects this control when its value is read or set.
    pub control_type: ControlType,
}

/// Whether every field of a native control record lies in the range the ABI
/// allows, so that it reads as a `ControlCaps`.
pub open spec fn control_caps_in_range(raw: NativeControlCaps) -> bool {
    &&& i32::MIN <= raw.max_value <= i32::MAX
    &&& i32::MIN <= raw.min_value <= i32::MAX
    &&& i32::MIN <= raw.default_value <= i32::MAX
    &&& ControlType::spec_from_code(raw.control_type) is Some
}

/// What the fields of a `ControlCaps` read from `raw` hold.
pub open spec fn control_caps_read(caps: ControlCaps, raw: NativeControlCaps) -> bool {
    &&& caps.name@ == spec_native_text(raw.name@)
    &&& caps.description@ == spec_native_text(raw.description@)
    &&& caps.max_value == raw.max_value
    &&& caps.min_value == raw.min_value
    &&& caps.default_value == raw.default_value
    &&& caps.is_auto_supported == spec_flag(raw.is_auto_supported)
    &&& caps.is_writable == spec_flag(raw.is_writable)
    &&& Some(caps.control_type) == ControlType::spec_from_code(raw.control_type)
}

fn fits_i32(v: i64) -> (r: bool)
    ensures
        r == (i32::MIN <= v <= i32::MAX),
{
    i32::MIN as i64 <= v && v <= i32::MAX as i64
}

impl ControlCaps {
    /// Reads a native control record. `None` if a value does not fit in
    /// `i32` or the control type code is unknown.
    pub fn from_native(raw: &NativeControlCaps) -> (r: Option<ControlCaps>)
        ensures
            r is Some <==> control_caps_in_range(*raw),
            r matches Some(caps) ==> control_caps_read(caps, *raw),
    {
        if !fits_i32(raw.max_value) || !fits_i32(raw.min_value) || !fits_i32(raw.default_value) {
            return None;
        }
        let control_type = match ControlType::from_code(raw.control_type) {
            Some(t) => t,
            None => {
                return None;
            },
        };
        Some(
            ControlCaps {
                name: text_from_native(raw.name.as_slice()),
                description: text_from_native(raw.description.as_slice()),
                max_value: raw.max_value as i32,
                min_value: raw.min_value as i32,
                default_value: raw.default_value as i32,
                is_auto_supported: flag_from_native(raw.is_auto_supported),
                is_writable: flag_from_native(raw.is_writable),
                control_type,
            },
        )
    }
}

/// An 8-byte identifier as the driver passes it: the id stored in a camera's
/// flash, or its serial number.
#[derive(Debug, Clone, Copy, PartialEq, Eq)]
pub struct NativeId {
    pub id: [u8; 8],
}

impl Default for NativeId {
    /// An all-zero identifier.
    fn default() -> (r: NativeId)
        ensures
            r.id@ == Seq::new(8, |i: int| 0u8),
    {
        let r = NativeId { id: [0u8, 0u8, 0u8, 0u8, 0u8, 0u8, 0u8, 0u8] };
        assert(r.id@ =~= Seq::new(8, |i: int| 0u8));
        r
    }
}

/// The id stored in the flash of a USB3 camera.
#[derive(Debug, Clone, Copy, PartialEq, Eq)]
pub struct Id {
    pub id: [u8; 8],
}

impl From<NativeId> for Id {
    fn from(id: NativeId) -> (r: Id)
        ensures
            r == (Id { id: id.id }),
    {
        Id { id: id.id }
    }
}

impl vstd::std_specs::convert::FromSpecImpl<NativeId> for Id {
    open spec fn obeys_from_spec() -> bool {
        true
    }

    open spec fn from_spec(id: NativeId) -> Id {
        Id { id: id.id }
    }
}

impl Id {
    /// The native form of this id.
    pub fn to_asi_id(&self) -> (r: NativeId)
        ensures
            r == (NativeId { id: self.id }),
    {
        NativeId { id: self.id }
    }
}

/// The list of camera modes as the driver writes it.
#[derive(Debug, Clone)]
pub struct NativeSupportedMode {
    /// Terminated by the first -1.
    pub supported_camera_mode: Vec<i32>,
}

impl Default for NativeSupportedMode {
    /// An all-zero list at its native size.
    fn default() -> (r: NativeSupportedMode)
        ensures
            r.supported_camera_mode@ == Seq::new(MODES_LEN as nat, |i: int| 0i32),
    {
        NativeSupportedMode { supported_camera_mode: zeroed_ints(MODES_LEN) }
    }
}

/// The camera modes that a trigger camera supports.
#[derive(Debug, Clone, PartialEq)]
pub struct SupportedMode {
    /// The supported camera modes, in the driver's order.
    pub camera_mode: Vec<CameraMode>,
}

impl SupportedMode {
    /// Reads the native list: the entries before the first -1. `None` if one
    /// of them is not a known mode.
    pub fn from_native(raw: &NativeSupportedMode) -> (r: Option<SupportedMode>)
        ensures
            r is Some <==> (forall|i: int|
                0 <= i < terminated(raw.supported_camera_mode@, -1i32).len()
                    ==> CameraMode::spec_from_code(
                    #[trigger] terminated(raw.supported_camera_mode@, -1i32)[i],
                ) is Some),
            r matches Some(m) ==> m.camera_mode@ == terminated(
                raw.supported_camera_mode@,
                -1i32,
            ).map_values(|c: i32| CameraMode::spec_from_code(c)->0),
    {
        match decode_camera_modes(raw.supported_camera_mode.as_slice()) {
            Some(modes) => Some(SupportedMode { camera_mode: modes }),
            None => None,
        }
    }
}

} // verus!
