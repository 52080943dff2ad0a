//! Command opcodes of the controller's instruction set.
use vstd::prelude::*;

verus! {

/// Contrast control; followed by one value byte.
pub const SET_CONTRAST_CONTROL: u8 = 0x81;

/// Memory addressing mode; followed by one mode byte.
pub const SET_MEMORY_ADDRESS_MODE: u8 = 0x20;

/// Column address window; followed by start and end column.
pub const SET_COLUMN_ADDRESS: u8 = 0x21;

/// Page address window; followed by start and end page.
pub const SET_PAGE_ADDRESS: u8 = 0x22;

/// Display start line; the line (0 to 63) is or-ed into this opcode.
pub const SET_DISPLAY_START_LINE: u8 = 0x40;

/// Multiplex ratio; followed by one value byte.
pub const SET_MULTIPLEX_RATIO: u8 = 0xA8;

/// Vertical display offset; followed by one value byte.
pub const SET_DISPLAY_OFFSET: u8 = 0xD3;

/// COM pins hardware configuration; followed by one configuration byte.
pub const SET_COM_PINS_HARDWARE_CONFIGURATION: u8 = 0xDA;

/// Clock divide ratio and oscillator frequency; followed by one packed byte.
pub const SET_DISPLAY_CLOCK_DIVIDE_RATIO_OSCILLATOR_FREQUENCY: u8 = 0xD5;

/// Pre-charge period; followed by one packed byte.
pub const SET_PRECHARGE_PERIOD: u8 = 0xD9;

/// VCOMH deselect level; followed by one level byte.
pub const SET_VCOM_DESELECT_LEVEL: u8 = 0xDB;

/// Charge pump setting; followed by one setting byte.
pub const SET_CHARGE_PUMP: u8 = 0x8D;

/// Whether the panel shows RAM contents or lights every pixel.
#[derive(Clone, Copy, Debug, PartialEq, Eq, Structural)]
pub enum SetEntireDisplayOn {
    ResumeRam,
    IgnoreRam,
}

impl SetEntireDisplayOn {
    pub open spec fn spec_code(self) -> u8 {
        match self {
            SetEntireDisplayOn::ResumeRam => 0xA4,
            SetEntireDisplayOn::IgnoreRam => 0xA5,
        }
    }

    pub open spec fn spec_decode(b: u8) -> Option<Self> {
        if b == 0xA4 {
            Some(SetEntireDisplayOn::ResumeRam)
        } else if b == 0xA5 {
            Some(SetEntireDisplayOn::IgnoreRam)
        } else {
            None
        }
    }

    /// The byte that encodes this setting.
    pub fn code(self) -> (r: u8)
        ensures
            r == self.spec_code(),
    {
        match self {
            SetEntireDisplayOn::ResumeRam => 0xA4,
            SetEntireDisplayOn::IgnoreRam => 0xA5,
        }
    }

    /// The setting that byte `b` encodes, if any.
    pub fn from_code(b: u8) -> (r: Option<Self>)
        ensures
            r == Self::spec_decode(b),
    {
        if b == 0xA4 {
            Some(SetEntireDisplayOn::ResumeRam)
        } else if b == 0xA5 {
            Some(SetEntireDisplayOn::IgnoreRam)
        } else {
            None
        }
    }

    /// Decoding an encoded setting gives it back, and a byte decodes only
    /// to the setting that encodes to it.
    pub proof fn lemma_round_trip(self, b: u8)
        ensures
            Self::spec_decode(self.spec_code()) == Some(self),
            Self::spec_decode(b) == Some(self) ==> self.spec_code() == b,
    {
    }
}

/// Normal or inverted pixel polarity.
#[derive(Clone, Copy, Debug, PartialEq, Eq, Structural)]
pub enum SetDisplayColor {
    Normal,
    Inverse,
}

impl SetDisplayColor {
    pub open spec fn spec_code(self) -> u8 {
        match self {
            SetDisplayColor::Normal => 0xA6,
            SetDisplayColor::Inverse => 0xA7,
        }
    }

    pub open spec fn spec_decode(b: u8) -> Option<Self> {
        if b == 0xA6 {
            Some(SetDisplayColor::Normal)
        } else if b == 0xA7 {
            Some(SetDisplayColor::Inverse)
        } else {
            None
        }
    }

    /// The byte that encodes this setting.
    pub fn code(self) -> (r: u8)
        ensures
            r == self.spec_code(),
    {
        match self {
            SetDisplayColor::Normal => 0xA6,
            SetDisplayColor::Inverse => 0xA7,
        }
    }

    /// The setting that byte `b` encodes, if any.
    pub fn from_code(b: u8) -> (r: Option<Self>)
        ensures
            r == Self::spec_decode(b),
    {
        if b == 0xA6 {
            Some(SetDisplayColor::Normal)
        } else if b == 0xA7 {
            Some(SetDisplayColor::Inverse)
        } else {
            None
        }
    }

    /// Decoding an encoded setting gives it back, and a byte decodes only
    /// to the setting that encodes to it.
    pub proof fn lemma_round_trip(self, b: u8)
        ensures
            Self::spec_decode(self.spec_code()) == Some(self),
            Self::spec_decode(b) == Some(self) ==> self.spec_code() == b,
    {
    }
}

/// Display panel off (sleep) or on.
#[derive(Clone, Copy, Debug, PartialEq, Eq, Structural)]
pub enum SetDisplayPower {
    Off,
    On,
}

impl SetDisplayPower {
    pub open spec fn spec_code(self) -> u8 {
        match self {
            SetDisplayPower::Off => 0xAE,
            SetDisplayPower::On => 0xAF,
        }
    }

    pub open spec fn spec_decode(b: u8) -> Option<Self> {
        if b == 0xAE {
            Some(SetDisplayPower::Off)
        } else if b == 0xAF {
            Some(SetDisplayPower::On)
        } else {
            None
        }
    }

    /// The byte that encodes this setting.
    pub fn code(self) -> (r: u8)
        ensures
            r == self.spec_code(),
    {
        match self {
            SetDisplayPower::Off => 0xAE,
            SetDisplayPower::On => 0xAF,
        }
    }

    /// The setting that byte `b` encodes, if any.
    pub fn from_code(b: u8) -> (r: Option<Self>)
        ensures
            r == Self::spec_decode(b),
    {
        if b == 0xAE {
            Some(SetDisplayPower::Off)
        } else if b == 0xAF {
            Some(SetDisplayPower::On)
        } else {
            None
        }
    }

    /// Decoding an encoded setting gives it back, and a byte decodes only
    /// to the setting that encodes to it.
    pub proof fn lemma_round_trip(self, b: u8)
        ensures
            Self::spec_decode(self.spec_code()) == Some(self),
            Self::spec_decode(b) == Some(self) ==> self.spec_code() == b,
    {
    }
}

/// Which column address drives segment 0.
#[derive(Clone, Copy, Debug, PartialEq, Eq, Structural)]
pub enum SetSegmentRemap {
    Column0toSeg0,
    Column127toSeg0,
}

impl SetSegmentRemap {
    pub open spec fn spec_code(self) -> u8 {
        match self {
            SetSegmentRemap::Column0toSeg0 => 0xA0,
            SetSegmentRemap::Column127toSeg0 => 0xA1,
        }
    }

    pub open spec fn spec_decode(b: u8) -> Option<Self> {
        if b == 0xA0 {
            Some(SetSegmentRemap::Column0toSeg0)
        } else if b == 0xA1 {
            Some(SetSegmentRemap::Column127toSeg0)
        } else {
            None
        }
    }

    /// The byte that encodes this setting.
    pub fn code(self) -> (r: u8)
        ensures
            r == self.spec_code(),
    {
        match self {
            SetSegmentRemap::Column0toSeg0 => 0xA0,
            SetSegmentRemap::Column127toSeg0 => 0xA1,
        }
    }

    /// The setting that byte `b` encodes, if any.
    pub fn from_code(b: u8) -> (r: Option<Self>)
        ensures
            r == Self::spec_decode(b),
    {
        if b == 0xA0 {
            Some(SetSegmentRemap::Column0toSeg0)
        } else if b == 0xA1 {
            Some(SetSegmentRemap::Column127toSeg0)
        } else {
            None
        }
    }

    /// Decoding an encoded setting gives it back, and a byte decodes only
    /// to the setting that encodes to it.
    pub proof fn lemma_round_trip(self, b: u8)
        ensures
            Self::spec_decode(self.spec_code()) == Some(self),
            Self::spec_decode(b) == Some(self) ==> self.spec_code() == b,
    {
    }
}

/// Scan direction of the COM (row) outputs.
#[derive(Clone, Copy, Debug, PartialEq, Eq, Structural)]
pub enum SetComOutputScanDirection {
    Normal,
    Remapped,
}

impl SetComOutputScanDirection {
    pub open spec fn spec_code(self) -> u8 {
        match self {
            SetComOutputScanDirection::Normal => 0xC0,
            SetComOutputScanDirection::Remapped => 0xC8,
        }
    }

    pub open spec fn spec_decode(b: u8) -> Option<Self> {
        if b == 0xC0 {
            Some(SetComOutputScanDirection::Normal)
        } else if b == 0xC8 {
            Some(SetComOutputScanDirection::Remapped)
        } else {
            None
        }
    }

    /// The byte that encodes this setting.
    pub fn code(self) -> (r: u8)
        ensures
            r == self.spec_code(),
    {
        match self {
            SetComOutputScanDirection::Normal => 0xC0,
            SetComOutputScanDirection::Remapped => 0xC8,
        }
    }

    /// The setting that byte `b` encodes, if any.
    pub fn from_code(b: u8) -> (r: Option<Self>)
        ensures
            r == Self::spec_decode(b),
    {
        if b == 0xC0 {
            Some(SetComOutputScanDirection::Normal)
        } else if b == 0xC8 {
            Some(SetComOutputScanDirection::Remapped)
        } else {
            None
        }
    }

    /// Decoding an encoded setting gives it back, and a byte decodes only
    /// to the setting that encodes to it.
    pub proof fn lemma_round_trip(self, b: u8)
        ensures
            Self::spec_decode(self.spec_code()) == Some(self),
            Self::spec_decode(b) == Some(self) ==> self.spec_code() == b,
    {
    }
}

} // verus!
