use oled_ssd1306::command::{
    SetComOutputScanDirection, SetDisplayColor, SetDisplayPower, SetEntireDisplayOn,
    SetSegmentRemap,
};
use oled_ssd1306::data::{
    ChargePumpSetting, SetComPinsHardwareConfigurationLeftRightRemap,
    SetComPinsHardwareConfigurationSequentialAlternative, SetMemoryAddressingMode,
    SetVcomDeselectLevel,
};

#[test]
fn vcom_level_round_trip() {
    for level in [
        SetVcomDeselectLevel::UpTo065xVcc,
        SetVcomDeselectLevel::UpTo077xVcc,
        SetVcomDeselectLevel::UpTo083xVcc,
    ] {
        assert_eq!(SetVcomDeselectLevel::from_code(level.code()), Some(level));
    }
    assert_eq!(SetVcomDeselectLevel::UpTo083xVcc.code(), 0x30);
    assert_eq!(SetVcomDeselectLevel::from_code(0x10), None);
}

#[test]
fn command_settings_codes() {
    assert_eq!(SetEntireDisplayOn::ResumeRam.code(), 0xA4);
    assert_eq!(SetEntireDisplayOn::IgnoreRam.code(), 0xA5);
    assert_eq!(SetDisplayColor::Normal.code(), 0xA6);
    assert_eq!(SetDisplayColor::Inverse.code(), 0xA7);
    assert_eq!(SetDisplayPower::Off.code(), 0xAE);
    assert_eq!(SetDisplayPower::On.code(), 0xAF);
    assert_eq!(SetSegmentRemap::Column0toSeg0.code(), 0xA0);
    assert_eq!(SetSegmentRemap::Column127toSeg0.code(), 0xA1);
    assert_eq!(SetComOutputScanDirection::Normal.code(), 0xC0);
    assert_eq!(SetComOutputScanDirection::Remapped.code(), 0xC8);
}

#[test]
fn command_settings_round_trip() {
    for v in [SetEntireDisplayOn::ResumeRam, SetEntireDisplayOn::IgnoreRam] {
        assert_eq!(SetEntireDisplayOn::from_code(v.code()), Some(v));
    }
    for v in [SetDisplayColor::Normal, SetDisplayColor::Inverse] {
        assert_eq!(SetDisplayColor::from_code(v.code()), Some(v));
    }
    for v in [SetDisplayPower::Off, SetDisplayPower::On] {
        assert_eq!(SetDisplayPower::from_code(v.code()), Some(v));
    }
    for v in [SetSegmentRemap::Column0toSeg0, SetSegmentRemap::Column127toSeg0] {
        assert_eq!(SetSegmentRemap::from_code(v.code()), Some(v));
    }
    for v in [SetComOutputScanDirection::Normal, SetComOutputScanDirection::Remapped] {
        assert_eq!(SetComOutputScanDirection::from_code(v.code()), Some(v));
    }
    assert_eq!(SetDisplayPower::from_code(0xAD), None);
    assert_eq!(SetComOutputScanDirection::from_code(0xC4), None);
}

#[test]
fn data_settings_round_trip() {
    for v in [
        SetMemoryAddressingMode::Horizontal,
        SetMemoryAddressingMode::Vertical,
        SetMemoryAddressingMode::Page,
        SetMemoryAddressingMode::Invalid,
    ] {
        assert_eq!(SetMemoryAddressingMode::from_code(v.code()), Some(v));
    }
    assert_eq!(SetMemoryAddressingMode::Vertical.code(), 0b01);
    assert_eq!(SetMemoryAddressingMode::from_code(4), None);
    for v in [
        SetComPinsHardwareConfigurationSequentialAlternative::Sequential,
        SetComPinsHardwareConfigurationSequentialAlternative::Alternative,
    ] {
        assert_eq!(
            SetComPinsHardwareConfigurationSequentialAlternative::from_code(v.code()),
            Some(v)
        );
    }
    assert_eq!(SetComPinsHardwareConfigurationSequentialAlternative::Alternative.code(), 0x10);
    for v in [
        SetComPinsHardwareConfigurationLeftRightRemap::Enable,
        SetComPinsHardwareConfigurationLeftRightRemap::Disable,
    ] {
        assert_eq!(SetComPinsHardwareConfigurationLeftRightRemap::from_code(v.code()), Some(v));
    }
    assert_eq!(SetComPinsHardwareConfigurationLeftRightRemap::Disable.code(), 0x20);
    for v in [ChargePumpSetting::Enable, ChargePumpSetting::Disable] {
        assert_eq!(ChargePumpSetting::from_code(v.code()), Some(v));
    }
    assert_eq!(ChargePumpSetting::Enable.code(), 0x14);
    assert_eq!(ChargePumpSetting::from_code(0x15), None);
}
