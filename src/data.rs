//! Argument bytes that follow some of the controller's opcodes.
use vstd::prelude::*;

verus! {

/// Bit that is always set in the COM pins hardware configuration byte.
pub const SET_COM_PINS_HARDWARE_CONFIGURATION_BASE: u8 = 0x02;

/// How the RAM address pointer advances after each data byte.
#[derive(Clone, Copy, Debug, PartialEq, Eq, Structural)]
pub enum SetMemoryAddressingMode {
    Horizontal,
    Vertical,
    Page,
    Invalid,
}

impl SetMemoryAddressingMode {
    pub open spec fn spec_code(self) -> u8 {
        match self {
            SetMemoryAddressingMode::Horizontal => 0x00,
            SetMemoryAddressingMode::Vertical => 0x01,
            SetMemoryAddressingMode::Page => 0x02,
            SetMemoryAddressingMode::Invalid => 0x03,
        }
    }

    pub open spec fn spec_decode(b: u8) -> Option<Self> {
        if b == 0x00 {
            Some(SetMemoryAddressingMode::Horizontal)
        } else if b == 0x01 {
            Some(SetMemoryAddressingMode::Vertical)
        } else if b == 0x02 {
            Some(SetMemoryAddressingMode::Page)
        } else if b == 0x03 {
            Some(SetMemoryAddressingMode::Invalid)
        } else {
            None
        }
    }

    /// The byte that encodes this setting.
    pub fn code(self) -> (r: u8)
        ensures
            r == self.spec_code(),
    {
        match self {
            SetMemoryAddressingMode::Horizontal => 0x00,
            SetMemoryAddressingMode::Vertical => 0x01,
            SetMemoryAddressingMode::Page => 0x02,
            SetMemoryAddressingMode::Invalid => 0x03,
        }
    }

    /// The setting that byte `b` encodes, if any.
    pub fn from_code(b: u8) -> (r: Option<Self>)
        ensures
            r == Self::spec_decode(b),
    {
        if b == 0x00 {
            Some(SetMemoryAddressingMode::Horizontal)
        } else if b == 0x01 {
            Some(SetMemoryAddressingMode::Vertical)
        } else if b == 0x02 {
            Some(SetMemoryAddressingMode::Page)
        } else if b == 0x03 {
            Some(SetMemoryAddressingMode::Invalid)
        } else {
            None
        }
    }

    /// Decoding an encoded setting gives it back, and a byte decodes only
    /// to the setting that encodes to it.
    pub proof fn lemma_round_trip(self, b: u8)
        ensures
            Self::spec_decode(self.spec_code()) == Some(self),
            Self::spec_decode(b) == Some(self) ==> self.spec_code() == b,
    {
    }
}

/// Sequential or alternative COM pin wiring.
#[derive(Clone, Copy, Debug, PartialEq, Eq, Structural)]
pub enum SetComPinsHardwareConfigurationSequentialAlternative {
    Sequential,
    Alternative,
}

impl SetComPinsHardwareConfigurationSequentialAlternative {
    pub open spec fn spec_code(self) -> u8 {
        match self {
            SetComPinsHardwareConfigurationSequentialAlternative::Sequential => 0x00,
            SetComPinsHardwareConfigurationSequentialAlternative::Alternative => 0x10,
        }
    }

    pub open spec fn spec_decode(b: u8) -> Option<Self> {
        if b == 0x00 {
            Some(SetComPinsHardwareConfigurationSequentialAlternative::Sequential)
        } else if b == 0x10 {
            Some(SetComPinsHardwareConfigurationSequentialAlternative::Alternative)
        } else {
            None
        }
    }

    /// The byte that encodes this setting.
    pub fn code(self) -> (r: u8)
        ensures
            r == self.spec_code(),
    {
        match self {
            SetComPinsHardwareConfigurationSequentialAlternative::Sequential => 0x00,
            SetComPinsHardwareConfigurationSequentialAlternative::Alternative => 0x10,
        }
    }

    /// The setting that byte `b` encodes, if any.
    pub fn from_code(b: u8) -> (r: Option<Self>)
        ensures
            r == Self::spec_decode(b),
    {
        if b == 0x00 {
            Some(SetComPinsHardwareConfigurationSequentialAlternative::Sequential)
        } else if b == 0x10 {
            Some(SetComPinsHardwareConfigurationSequentialAlternative::Alternative)
        } else {
            None
        }
    }

    /// Decoding an encoded setting gives it back, and a byte decodes only
    /// to the setting that encodes to it.
    pub proof fn lemma_round_trip(self, b: u8)
        ensures
            Self::spec_decode(self.spec_code()) == Some(self),
            Self::spec_decode(b) == Some(self) ==> self.spec_code() == b,
    {
    }
}

/// Left/right remap of the COM pins.
#[derive(Clone, Copy, Debug, PartialEq, Eq, Structural)]
pub enum SetComPinsHardwareConfigurationLeftRightRemap {
    Enable,
    Disable,
}

impl SetComPinsHardwareConfigurationLeftRightRemap {
    pub open spec fn spec_code(self) -> u8 {
        match self {
            SetComPinsHardwareConfigurationLeftRightRemap::Enable => 0x00,
            SetComPinsHardwareConfigurationLeftRightRemap::Disable => 0x20,
        }
    }

    pub open spec fn spec_decode(b: u8) -> Option<Self> {
        if b == 0x00 {
            Some(SetComPinsHardwareConfigurationLeftRightRemap::Enable)
        } else if b == 0x20 {
            Some(SetComPinsHardwareConfigurationLeftRightRemap::Disable)
        } else {
            None
        }
    }

    /// The byte that encodes this setting.
    pub fn code(self) -> (r: u8)
        ensures
            r == self.spec_code(),
    {
        match self {
            SetComPinsHardwareConfigurationLeftRightRemap::Enable => 0x00,
            SetComPinsHardwareConfigurationLeftRightRemap::Disable => 0x20,
        }
    }

    /// The setting that byte `b` encodes, if any.
    pub fn from_code(b: u8) -> (r: Option<Self>)
        ensures
            r == Self::spec_decode(b),
    {
        if b == 0x00 {
            Some(SetComPinsHardwareConfigurationLeftRightRemap::Enable)
        } else if b == 0x20 {
            Some(SetComPinsHardwareConfigurationLeftRightRemap::Disable)
        } else {
            None
        }
    }

    /// Decoding an encoded setting gives it back, and a byte decodes only
    /// to the setting that encodes to it.
    pub proof fn lemma_round_trip(self, b: u8)
        ensures
            Self::spec_decode(self.spec_code()) == Some(self),
            Self::spec_decode(b) == Some(self) ==> self.spec_code() == b,
    {
    }
}

/// VCOMH deselect level, as a fraction of Vcc.
#[derive(Clone, Copy, Debug, PartialEq, Eq, Structural)]
pub enum SetVcomDeselectLevel {
    UpTo065xVcc,
    UpTo077xVcc,
    UpTo083xVcc,
}

impl SetVcomDeselectLevel {
    pub open spec fn spec_code(self) -> u8 {
        match self {
            SetVcomDeselectLevel::UpTo065xVcc => 0x00,
            SetVcomDeselectLevel::UpTo077xVcc => 0x20,
            SetVcomDeselectLevel::UpTo083xVcc => 0x30,
        }
    }

    pub open spec fn spec_decode(b: u8) -> Option<Self> {
        if b == 0x00 {
            Some(SetVcomDeselectLevel::UpTo065xVcc)
        } else if b == 0x20 {
            Some(SetVcomDeselectLevel::UpTo077xVcc)
        } else if b == 0x30 {
            Some(SetVcomDeselectLevel::UpTo083xVcc)
        } else {
            None
        }
    }

    /// The byte that encodes this setting.
    pub fn code(self) -> (r: u8)
        ensures
            r == self.spec_code(),
    {
        match self {
            SetVcomDeselectLevel::UpTo065xVcc => 0x00,
            SetVcomDeselectLevel::UpTo077xVcc => 0x20,
            SetVcomDeselectLevel::UpTo083xVcc => 0x30,
        }
    }

    /// The setting that byte `b` encodes, if any.
    pub fn from_code(b: u8) -> (r: Option<Self>)
        ensures
            r == Self::spec_decode(b),
    {
        if b == 0x00 {
            Some(SetVcomDeselectLevel::UpTo065xVcc)
        } else if b == 0x20 {
            Some(SetVcomDeselectLevel::UpTo077xVcc)
        } else if b == 0x30 {
            Some(SetVcomDeselectLevel::UpTo083xVcc)
        } else {
            None
        }
    }

    /// Decoding an encoded setting gives it back, and a byte decodes only
    /// to the setting that encodes to it.
    pub proof fn lemma_round_trip(self, b: u8)
        ensures
            Self::spec_decode(self.spec_code()) == Some(self),
            Self::spec_decode(b) == Some(self) ==> self.spec_code() == b,
    {
    }
}

/// Internal charge pump regulator on or off.
#[derive(Clone, Copy, Debug, PartialEq, Eq, Structural)]
pub enum ChargePumpSetting {
    Enable,
    Disable,
}

impl ChargePumpSetting {
    pub open spec fn spec_code(self) -> u8 {
        match self {
            ChargePumpSetting::Enable => 0x14,
            ChargePumpSetting::Disable => 0x10,
        }
    }

    pub open spec fn spec_decode(b: u8) -> Option<Self> {
        if b == 0x14 {
            Some(ChargePumpSetting::Enable)
        } else if b == 0x10 {
            Some(ChargePumpSetting::Disable)
        } else {
            None
        }
    }

    /// The byte that encodes this setting.
    pub fn code(self) -> (r: u8)
        ensures
            r == self.spec_code(),
    {
        match self {
            ChargePumpSetting::Enable => 0x14,
            ChargePumpSetting::Disable => 0x10,
        }
    }

    /// The setting that byte `b` encodes, if any.
    pub fn from_code(b: u8) -> (r: Option<Self>)
        ensures
            r == Self::spec_decode(b),
    {
        if b == 0x14 {
            Some(ChargePumpSetting::Enable)
        } else if b == 0x10 {
            Some(ChargePumpSetting::Disable)
        } else {
            None
        }
    }

    /// Decoding an encoded setting gives it back, and a byte decodes only
    /// to the setting that encodes to it.
    pub proof fn lemma_round_trip(self, b: u8)
        ensures
            Self::spec_decode(self.spec_code()) == Some(self),
            Self::spec_decode(b) == Some(self) ==> self.spec_code() == b,
    {
    }
}

} // verus!
