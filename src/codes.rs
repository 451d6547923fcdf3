use vstd::prelude::*;

verus! {

/// Colour filter layout over the sensor of a colour camera.
#[derive(Debug, Clone, Copy, PartialEq, Eq, Structural)]
pub enum BayerPattern {
    Rg,
    Bg,
    Gr,
    Gb,
}

impl BayerPattern {
    /// The value that stands for this variant in the native ABI.
    pub open spec fn spec_code(self) -> i32 {
        match self {
            BayerPattern::Rg => 0,
            BayerPattern::Bg => 1,
            BayerPattern::Gr => 2,
            BayerPattern::Gb => 3,
        }
    }

    /// The value that stands for this variant in the native ABI.
    pub fn code(self) -> (r: i32)
        ensures
            r == self.spec_code(),
    {
        match self {
            BayerPattern::Rg => 0,
            BayerPattern::Bg => 1,
            BayerPattern::Gr => 2,
            BayerPattern::Gb => 3,
        }
    }

    /// The variant a native value stands for; `None` outside the ABI's range.
    pub open spec fn spec_from_code(code: u32) -> Option<BayerPattern> {
        match code {
            0 => Some(BayerPattern::Rg),
            1 => Some(BayerPattern::Bg),
            2 => Some(BayerPattern::Gr),
            3 => Some(BayerPattern::Gb),
            _ => None,
        }
    }

    /// The variant a native value stands for. A value outside the ABI's
    /// range means the driver and this crate disagree on the ABI: it gives
    /// `None` rather than a guess.
    pub fn from_code(code: u32) -> (r: Option<BayerPattern>)
        ensures
            r == BayerPattern::spec_from_code(code),
            r matches Some(v) ==> v.spec_code() == code,
            r is Some <==> code < 4,
    {
        match code {
            0 => Some(BayerPattern::Rg),
            1 => Some(BayerPattern::Bg),
            2 => Some(BayerPattern::Gr),
            3 => Some(BayerPattern::Gb),
            _ => None,
        }
    }
}

/// Supported video format.
#[derive(Debug, Clone, Copy, PartialEq, Eq, Structural)]
pub enum ImgType {
    Raw8,
    Rgb24,
    Raw16,
    Y8,
}

impl ImgType {
    /// The value that stands for this variant in the native ABI.
    pub open spec fn spec_code(self) -> i32 {
        match self {
            ImgType::Raw8 => 0,
            ImgType::Rgb24 => 1,
            ImgType::Raw16 => 2,
            ImgType::Y8 => 3,
        }
    }

    /// The value that stands for this variant in the native ABI.
    pub fn code(self) -> (r: i32)
        ensures
            r == self.spec_code(),
    {
        match self {
            ImgType::Raw8 => 0,
            ImgType::Rgb24 => 1,
            ImgType::Raw16 => 2,
            ImgType::Y8 => 3,
        }
    }

    /// The variant a native value stands for; `None` outside the ABI's range.
    pub open spec fn spec_from_code(code: i32) -> Option<ImgType> {
        match code {
            0 => Some(ImgType::Raw8),
            1 => Some(ImgType::Rgb24),
            2 => Some(ImgType::Raw16),
            3 => Some(ImgType::Y8),
            _ => None,
        }
    }

    /// The variant a native value stands for. A value outside the ABI's
    /// range means the driver and this crate disagree on the ABI: it gives
    /// `None` rather than a guess.
    pub fn from_code(code: i32) -> (r: Option<ImgType>)
        ensures
            r == ImgType::spec_from_code(code),
            r matches Some(v) ==> v.spec_code() == code,
            r is Some <==> code < 4 && code >= 0,
    {
        match code {
            0 => Some(ImgType::Raw8),
            1 => Some(ImgType::Rgb24),
            2 => Some(ImgType::Raw16),
            3 => Some(ImgType::Y8),
            _ => None,
        }
    }
}

/// Guider direction on the ST4 port.
#[derive(Debug, Clone, Copy, PartialEq, Eq, Structural)]
pub enum GuideDirection {
    North,
    South,
    East,
    West,
}

impl GuideDirection {
    /// The value that stands for this variant in the native ABI.
    pub open spec fn spec_code(self) -> i32 {
        match self {
            GuideDirection::North => 0,
            GuideDirection::South => 1,
            GuideDirection::East => 2,
            GuideDirection::West => 3,
        }
    }

    /// The value that stands for this variant in the native ABI.
    pub fn code(self) -> (r: i32)
        ensures
            r == self.spec_code(),
    {
        match self {
            GuideDirection::North => 0,
            GuideDirection::South => 1,
            GuideDirection::East => 2,
            GuideDirection::West => 3,
        }
    }
}

/// Image flip applied by the camera, the value of `ControlType::Flip`.
#[derive(Debug, Clone, Copy, PartialEq, Eq, Structural)]
pub enum FlipStatus {
    NoFlip,
    Horizontal,
    Vertical,
    Both,
}

impl FlipStatus {
    /// The value that stands for this variant in the native ABI.
    pub open spec fn spec_code(self) -> i32 {
        match self {
            FlipStatus::NoFlip => 0,
            FlipStatus::Horizontal => 1,
            FlipStatus::Vertical => 2,
            FlipStatus::Both => 3,
        }
    }

    /// The value that stands for this variant in the native ABI.
    pub fn code(self) -> (r: i32)
        ensures
            r == self.spec_code(),
    {
        match self {
            FlipStatus::NoFlip => 0,
            FlipStatus::Horizontal => 1,
            FlipStatus::Vertical => 2,
            FlipStatus::Both => 3,
        }
    }

    /// The variant a native value stands for; `None` outside the ABI's range.
    pub open spec fn spec_from_code(code: i32) -> Option<FlipStatus> {
        match code {
            0 => Some(FlipStatus::NoFlip),
            1 => Some(FlipStatus::Horizontal),
            2 => Some(FlipStatus::Vertical),
            3 => Some(FlipStatus::Both),
            _ => None,
        }
    }

    /// The variant a native value stands for. A value outside the ABI's
    /// range means the driver and this crate disagree on the ABI: it gives
    /// `None` rather than a guess.
    pub fn from_code(code: i32) -> (r: Option<FlipStatus>)
        ensures
            r == FlipStatus::spec_from_code(code),
            r matches Some(v) ==> v.spec_code() == code,
            r is Some <==> code < 4 && code >= 0,
    {
        match code {
            0 => Some(FlipStatus::NoFlip),
            1 => Some(FlipStatus::Horizontal),
            2 => Some(FlipStatus::Vertical),
            3 => Some(FlipStatus::Both),
            _ => None,
        }
    }
}

/// Trigger mode of a trigger camera.
#[derive(Debug, Clone, Copy, PartialEq, Eq, Structural)]
pub enum CameraMode {
    Normal,
    SoftEdge,
    RiseEdge,
    FallEdge,
    SoftLevel,
    HighLevel,
    LowLevel,
}

impl CameraMode {
    /// The value that stands for this variant in the native ABI.
    pub open spec fn spec_code(self) -> i32 {
        match self {
            CameraMode::Normal => 0,
            CameraMode::SoftEdge => 1,
            CameraMode::RiseEdge => 2,
            CameraMode::FallEdge => 3,
            CameraMode::SoftLevel => 4,
            CameraMode::HighLevel => 5,
            CameraMode::LowLevel => 6,
        }
    }

    /// The value that stands for this variant in the native ABI.
    pub fn code(self) -> (r: i32)
        ensures
            r == self.spec_code(),
    {
        match self {
            CameraMode::Normal => 0,
            CameraMode::SoftEdge => 1,
            CameraMode::RiseEdge => 2,
            CameraMode::FallEdge => 3,
            CameraMode::SoftLevel => 4,
            CameraMode::HighLevel => 5,
            CameraMode::LowLevel => 6,
        }
    }

    /// The variant a native value stands for; `None` outside the ABI's range.
    pub open spec fn spec_from_code(code: i32) -> Option<CameraMode> {
        match code {
            0 => Some(CameraMode::Normal),
            1 => Some(CameraMode::SoftEdge),
            2 => Some(CameraMode::RiseEdge),
            3 => Some(CameraMode::FallEdge),
            4 => Some(CameraMode::SoftLevel),
            5 => Some(CameraMode::HighLevel),
            6 => Some(CameraMode::LowLevel),
            _ => None,
        }
    }

    /// The variant a native value stands for. A value outside the ABI's
    /// range means the driver and this crate disagree on the ABI: it gives
    /// `None` rather than a guess.
    pub fn from_code(code: i32) -> (r: Option<CameraMode>)
        ensures
            r == CameraMode::spec_from_code(code),
            r matches Some(v) ==> v.spec_code() == code,
            r is Some <==> code < 7 && code >= 0,
    {
        match code {
            0 => Some(CameraMode::Normal),
            1 => Some(CameraMode::SoftEdge),
            2 => Some(CameraMode::RiseEdge),
            3 => Some(CameraMode::FallEdge),
            4 => Some(CameraMode::SoftLevel),
            5 => Some(CameraMode::HighLevel),
            6 => Some(CameraMode::LowLevel),
            _ => None,
        }
    }
}

/// An adjustable parameter of a camera.
#[derive(Debug, Clone, Copy, PartialEq, Eq, Structural)]
pub enum ControlType {
    Gain,
    Exposure,
    Gamma,
    WbR,
    WbB,
    Offset,
    BandwidthOverflow,
    Overclock,
    /// Reports ten times the temperature.
    Temperature,
    /// A `FlipStatus` code.
    Flip,
    AutoMaxGain,
    /// In microseconds.
    AutoMaxExp,
    /// Target brightness.
    AutoTargetBrightness,
    HardwareBin,
    HighSpeedMode,
    CoolerPowerPerc,
    /// In degrees, not multiplied by ten.
    TargetTemp,
    CoolerOn,
    /// Leads to less grid at software bin mode for color camera.
    MonoBin,
    FanOn,
    PatternAdjust,
    AntiDewHeater,
    Gps,
}

impl ControlType {
    /// The value that stands for this variant in the native ABI.
    pub open spec fn spec_code(self) -> i32 {
        match self {
            ControlType::Gain => 0,
            ControlType::Exposure => 1,
            ControlType::Gamma => 2,
            ControlType::WbR => 3,
            ControlType::WbB => 4,
            ControlType::Offset => 5,
            ControlType::BandwidthOverflow => 6,
            ControlType::Overclock => 7,
            ControlType::Temperature => 8,
            ControlType::Flip => 9,
            ControlType::AutoMaxGain => 10,
            ControlType::AutoMaxExp => 11,
            ControlType::AutoTargetBrightness => 12,
            ControlType::HardwareBin => 13,
            ControlType::HighSpeedMode => 14,
            ControlType::CoolerPowerPerc => 15,
            ControlType::TargetTemp => 16,
            ControlType::CoolerOn => 17,
            ControlType::MonoBin => 18,
            ControlType::FanOn => 19,
            ControlType::PatternAdjust => 20,
            ControlType::AntiDewHeater => 21,
            ControlType::Gps => 22,
        }
    }

    /// The value that stands for this variant in the native ABI.
    pub fn code(self) -> (r: i32)
        ensures
            r == self.spec_code(),
    {
        match self {
            ControlType::Gain => 0,
            ControlType::Exposure => 1,
            ControlType::Gamma => 2,
            ControlType::WbR => 3,
            ControlType::WbB => 4,
            ControlType::Offset => 5,
            ControlType::BandwidthOverflow => 6,
            ControlType::Overclock => 7,
            ControlType::Temperature => 8,
            ControlType::Flip => 9,
            ControlType::AutoMaxGain => 10,
            ControlType::AutoMaxExp => 11,
            ControlType::AutoTargetBrightness => 12,
            ControlType::HardwareBin => 13,
            ControlType::HighSpeedMode => 14,
            ControlType::CoolerPowerPerc => 15,
            ControlType::TargetTemp => 16,
            ControlType::CoolerOn => 17,
            ControlType::MonoBin => 18,
            ControlType::FanOn => 19,
            ControlType::PatternAdjust => 20,
            ControlType::AntiDewHeater => 21,
            ControlType::Gps => 22,
        }
    }

    /// The variant a native value stands for; `None` outside the ABI's range.
    pub open spec fn spec_from_code(code: u32) -> Option<ControlType> {
        match code {
            0 => Some(ControlType::Gain),
            1 => Some(ControlType::Exposure),
            2 => Some(ControlType::Gamma),
            3 => Some(ControlType::WbR),
            4 => Some(ControlType::WbB),
            5 => Some(ControlType::Offset),
            6 => Some(ControlType::BandwidthOverflow),
            7 => Some(ControlType::Overclock),
            8 => Some(ControlType::Temperature),
            9 => Some(ControlType::Flip),
            10 => Some(ControlType::AutoMaxGain),
            11 => Some(ControlType::AutoMaxExp),
            12 => Some(ControlType::AutoTargetBrightness),
            13 => Some(ControlType::HardwareBin),
            14 => Some(ControlType::HighSpeedMode),
            15 => Some(ControlType::CoolerPowerPerc),
            16 => Some(ControlType::TargetTemp),
            17 => Some(ControlType::CoolerOn),
            18 => Some(ControlType::MonoBin),
            19 => Some(ControlType::FanOn),
            20 => Some(ControlType::PatternAdjust),
            21 => Some(ControlType::AntiDewHeater),
            22 => Some(ControlType::Gps),
            _ => None,
        }
    }

    /// The variant a native value stands for. A value outside the ABI's
    /// range means the driver and this crate disagree on the ABI: it gives
    /// `None` rather than a guess.
    pub fn from_code(code: u32) -> (r: Option<ControlType>)
        ensures
            r == ControlType::spec_from_code(code),
            r matches Some(v) ==> v.spec_code() == code,
            r is Some <==> code < 23,
    {
        match code {
            0 => Some(ControlType::Gain),
            1 => Some(ControlType::Exposure),
            2 => Some(ControlType::Gamma),
            3 => Some(ControlType::WbR),
            4 => Some(ControlType::WbB),
            5 => Some(ControlType::Offset),
            6 => Some(ControlType::BandwidthOverflow),
            7 => Some(ControlType::Overclock),
            8 => Some(ControlType::Temperature),
            9 => Some(ControlType::Flip),
            10 => Some(ControlType::AutoMaxGain),
            11 => Some(ControlType::AutoMaxExp),
            12 => Some(ControlType::AutoTargetBrightness),
            13 => Some(ControlType::HardwareBin),
            14 => Some(ControlType::HighSpeedMode),
            15 => Some(ControlType::CoolerPowerPerc),
            16 => Some(ControlType::TargetTemp),
            17 => Some(ControlType::CoolerOn),
            18 => Some(ControlType::MonoBin),
            19 => Some(ControlType::FanOn),
            20 => Some(ControlType::PatternAdjust),
            21 => Some(ControlType::AntiDewHeater),
            22 => Some(ControlType::Gps),
            _ => None,
        }
    }
}

/// State of a single-shot exposure.
#[derive(Debug, Clone, Copy, PartialEq, Eq, Structural)]
pub enum ExposureStatus {
    /// Idle, an exposure can be started.
    Idle,
    /// Exposing.
    Working,
    /// Exposure finished and waiting for download.
    Success,
    /// Exposure failed; it has to be started again.
    Failed,
}

impl ExposureStatus {
    /// The value that stands for this variant in the native ABI.
    pub open spec fn spec_code(self) -> i32 {
        match self {
            ExposureStatus::Idle => 0,
            ExposureStatus::Working => 1,
            ExposureStatus::Success => 2,
            ExposureStatus::Failed => 3,
        }
    }

    /// The value that stands for this variant in the native ABI.
    pub fn code(self) -> (r: i32)
        ensures
            r == self.spec_code(),
    {
        match self {
            ExposureStatus::Idle => 0,
            ExposureStatus::Working => 1,
            ExposureStatus::Success => 2,
            ExposureStatus::Failed => 3,
        }
    }

    /// The variant a native value stands for; `None` outside the ABI's range.
    pub open spec fn spec_from_code(code: u32) -> Option<ExposureStatus> {
        match code {
            0 => Some(ExposureStatus::Idle),
            1 => Some(ExposureStatus::Working),
            2 => Some(ExposureStatus::Success),
            3 => Some(ExposureStatus::Failed),
            _ => None,
        }
    }

    /// The variant a native value stands for. A value outside the ABI's
    /// range means the driver and this crate disagree on the ABI: it gives
    /// `None` rather than a guess.
    pub fn from_code(code: u32) -> (r: Option<ExposureStatus>)
        ensures
            r == ExposureStatus::spec_from_code(code),
            r matches Some(v) ==> v.spec_code() == code,
            r is Some <==> code < 4,
    {
        match code {
            0 => Some(ExposureStatus::Idle),
            1 => Some(ExposureStatus::Working),
            2 => Some(ExposureStatus::Success),
            3 => Some(ExposureStatus::Failed),
            _ => None,
        }
    }
}

/// Output pin of the trigger port.
#[derive(Debug, Clone, Copy, PartialEq, Eq, Structural)]
pub enum TrigOutput {
    /// Only pin A output
    PinA,
    /// Only pin B output
    PinB,
    /// No output pin
    NoPin,
}

impl TrigOutput {
    /// The value that stands for this pin in the native ABI.
    pub open spec fn spec_code(self) -> i32 {
        match self {
            TrigOutput::PinA => 0,
            TrigOutput::PinB => 1,
            TrigOutput::NoPin => -1i32,
        }
    }

    /// The value that stands for this pin in the native ABI.
    pub fn code(self) -> (r: i32)
        ensures
            r == self.spec_code(),
    {
        match self {
            TrigOutput::PinA => 0,
            TrigOutput::PinB => 1,
            TrigOutput::NoPin => -1i32,
        }
    }
}

impl ImgType {
    /// Bytes that one pixel of this format takes in a frame buffer.
    pub open spec fn spec_bytes_per_pixel(self) -> u32 {
        match self {
            ImgType::Raw8 => 1,
            ImgType::Rgb24 => 3,
            ImgType::Raw16 => 2,
            ImgType::Y8 => 1,
        }
    }

    /// Bytes that one pixel of this format takes in a frame buffer: 1 for the
    /// 8-bit formats, 2 for 16-bit raw, 3 for 24-bit RGB.
    pub fn bytes_per_pixel(self) -> (r: u32)
        ensures
            r == self.spec_bytes_per_pixel(),
            1 <= r <= 3,
    {
        match self {
            ImgType::Raw8 => 1,
            ImgType::Rgb24 => 3,
            ImgType::Raw16 => 2,
            ImgType::Y8 => 1,
        }
    }
}

} // verus!
