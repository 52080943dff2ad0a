use oled_ssd1306::command::{SetDisplayPower, SetEntireDisplayOn};
use oled_ssd1306::data::{
    ChargePumpSetting, SetComPinsHardwareConfigurationLeftRightRemap,
    SetComPinsHardwareConfigurationSequentialAlternative, SetMemoryAddressingMode,
    SetVcomDeselectLevel,
};
use oled_ssd1306::{page_count, BusOp, Color, Line, Oled, Transport};

fn display(width: u8, height: u8) -> Oled {
    Oled::new(width, height, Transport::new())
}

/// The command bytes of a log made only of command frames.
fn command_bytes(ops: &[BusOp]) -> Vec<u8> {
    assert_eq!(ops.len() % 2, 0);
    let mut out = Vec::new();
    for pair in ops.chunks(2) {
        assert_eq!(pair[0], BusOp::Drive(Line::DataCommand, false));
        match &pair[1] {
            BusOp::Write(b) => {
                assert_eq!(b.len(), 1);
                out.push(b[0]);
            }
            other => panic!("not a command frame: {:?}", other),
        }
    }
    out
}

fn init_bytes(width: u8, height: u8) -> Vec<u8> {
    let mut d = display(width, height);
    d.init();
    command_bytes(&d.take_ops())
}

#[test]
fn page_count_rounds_up() {
    assert_eq!(page_count(16), 2);
    assert_eq!(page_count(32), 4);
    assert_eq!(page_count(33), 5);
    assert_eq!(page_count(64), 8);
    assert_eq!(page_count(128), 16);
    assert_eq!(page_count(0), 0);
    assert_eq!(page_count(255), 32);
    assert_eq!(display(128, 64).page(), 8);
}

#[test]
fn sequential_config_by_height() {
    let seq = SetComPinsHardwareConfigurationSequentialAlternative::Sequential;
    let alt = SetComPinsHardwareConfigurationSequentialAlternative::Alternative;
    assert_eq!(display(128, 16).sequential_config(), seq);
    assert_eq!(display(128, 32).sequential_config(), seq);
    assert_eq!(display(128, 64).sequential_config(), alt);
    assert_eq!(display(128, 128).sequential_config(), alt);
}

#[test]
fn fill_dark_then_light() {
    let mut d = display(128, 64);
    d.fill(Color::Dark);
    d.fill(Color::Light);
    let ops = d.take_ops();
    let payloads: Vec<&Vec<u8>> = ops
        .iter()
        .filter_map(|op| match op {
            BusOp::Write(b) if b.len() > 1 => Some(b),
            _ => None,
        })
        .collect();
    assert_eq!(payloads.len(), 2);
    assert_eq!(payloads[0].len(), 1024);
    assert!(payloads[0].iter().all(|&b| b == 0x00));
    assert_eq!(payloads[1].len(), 1024);
    assert!(payloads[1].iter().all(|&b| b == 0xFF));
}

#[test]
fn fill_frames_window_then_data() {
    let mut d = display(128, 32);
    d.fill(Color::Light);
    let ops = d.take_ops();
    assert_eq!(ops.len(), 14);
    assert_eq!(command_bytes(&ops[..12]), vec![0x21, 0, 127, 0x22, 0, 3]);
    assert_eq!(ops[12], BusOp::Drive(Line::DataCommand, true));
    assert_eq!(ops[13], BusOp::Write(vec![0xFF; 512]));
}

fn window_of(width: u8, page: u8) -> Vec<u8> {
    let mut d = display(128, 64);
    d.draw_flow(width, page, &[1, 2, 3]);
    let ops = d.take_ops();
    assert_eq!(ops.len(), 14);
    assert_eq!(ops[12], BusOp::Drive(Line::DataCommand, true));
    assert_eq!(ops[13], BusOp::Write(vec![1, 2, 3]));
    command_bytes(&ops[..12])
}

#[test]
fn draw_flow_centers_narrow_panels() {
    assert_eq!(window_of(64, 8), vec![0x21, 32, 95, 0x22, 0, 7]);
    assert_eq!(window_of(72, 5), vec![0x21, 24, 95, 0x22, 0, 4]);
    assert_eq!(window_of(128, 4), vec![0x21, 0, 127, 0x22, 0, 3]);
    assert_eq!(window_of(96, 2), vec![0x21, 0, 95, 0x22, 0, 1]);
}

#[test]
fn draw_flow_with_empty_data_sends_only_windows() {
    let mut d = display(128, 64);
    d.draw_flow(128, 8, &[]);
    assert_eq!(command_bytes(&d.take_ops()), vec![0x21, 0, 127, 0x22, 0, 7]);
}

#[test]
fn draw_image_sends_the_frame() {
    let mut d = display(64, 32);
    let frame: Vec<u8> = (0..=255u8).collect();
    d.draw_image(&frame);
    let ops = d.take_ops();
    assert_eq!(command_bytes(&ops[..12]), vec![0x21, 32, 95, 0x22, 0, 3]);
    assert_eq!(ops[12], BusOp::Drive(Line::DataCommand, true));
    assert_eq!(ops[13], BusOp::Write(frame));
}

#[test]
fn init_sequence_128x64() {
    assert_eq!(
        init_bytes(128, 64),
        vec![
            0xAE, 0x20, 0x00, 0x40, 0xA1, 0xA8, 63, 0xC8, 0xD3, 0x00, 0xDA, 0x12, 0xD5, 0x80,
            0xD9, 0xF1, 0xDB, 0x30, 0x81, 0xFF, 0xA4, 0xA6, 0x8D, 0x14, 0xAF,
        ]
    );
}

#[test]
fn init_sequence_128x32_is_sequential() {
    let bytes = init_bytes(128, 32);
    assert_eq!(bytes[6], 31);
    assert_eq!(&bytes[10..12], &[0xDA, 0x02]);
    assert_eq!(bytes.len(), 25);
}

#[test]
fn init_width_72_adds_two_commands() {
    let narrow = init_bytes(72, 64);
    let wide = init_bytes(128, 64);
    assert_eq!(narrow.len(), wide.len() + 2);
    assert_eq!(&narrow[..wide.len()], &wide[..]);
    assert_eq!(&narrow[wide.len()..], &[0xAD, 0x30]);
    assert!(!wide.contains(&0xAD));
    assert_eq!(init_bytes(64, 64), wide);
}

#[test]
fn reset_pulses_the_reset_line() {
    let mut d = display(128, 64);
    d.reset();
    let ops = d.take_ops();
    assert_eq!(command_bytes(&ops[..2]), vec![0xAE]);
    assert_eq!(
        &ops[2..8],
        &[
            BusOp::Drive(Line::Reset, true),
            BusOp::Wait(100),
            BusOp::Drive(Line::Reset, false),
            BusOp::Wait(100),
            BusOp::Drive(Line::Reset, true),
            BusOp::Wait(100),
        ]
    );
    assert_eq!(command_bytes(&ops[8..]), vec![0xAF]);
}

#[test]
fn encoder_command_bytes() {
    let mut d = display(128, 64);
    d.set_contrast_control(0x7F);
    d.set_display_clock_divide_ratio_oscillator_frequency(0x3, 0xA);
    d.set_precharge_period(0x2, 0x2);
    d.set_display_start_line(5);
    d.set_com_pins_hardware_configuration(
        SetComPinsHardwareConfigurationSequentialAlternative::Alternative,
        SetComPinsHardwareConfigurationLeftRightRemap::Disable,
    );
    d.set_memory_address_mode(SetMemoryAddressingMode::Page);
    d.set_vcom_deselect_level(SetVcomDeselectLevel::UpTo077xVcc);
    d.set_charge_pump(ChargePumpSetting::Disable);
    d.set_entire_display_on(SetEntireDisplayOn::IgnoreRam);
    d.set_display_power(SetDisplayPower::On);
    d.set_multiplex_ratio(31);
    d.set_display_offset(2);
    d.set_column_address(1, 2);
    d.set_page_address(3, 4);
    assert_eq!(
        command_bytes(&d.take_ops()),
        vec![
            0x81, 0x7F, 0xD5, 0xA3, 0xD9, 0x22, 0x45, 0xDA, 0x32, 0x20, 0x02, 0xDB, 0x20, 0x8D,
            0x10, 0xA5, 0xAF, 0xA8, 31, 0xD3, 2, 0x21, 1, 2, 0x22, 3, 4,
        ]
    );
}

#[test]
fn packed_fields_truncate_to_a_byte() {
    let mut d = display(128, 64);
    d.set_precharge_period(0x01, 0x1F);
    assert_eq!(command_bytes(&d.take_ops()), vec![0xD9, 0xF1]);
}

#[test]
fn on_off_and_raw_commands() {
    let mut d = display(128, 64);
    d.off();
    d.on();
    d.command(0x2E);
    assert_eq!(command_bytes(&d.take_ops()), vec![0xAE, 0xAF, 0x2E]);
}

#[test]
fn display_data_and_chip_select() {
    let mut d = Oled::new(128, 16, Transport::with_buf_limit(2));
    assert_eq!(d.buf_limit(), 2);
    assert_eq!((d.width(), d.height()), (128, 16));
    d.use_device();
    d.data(&[1, 2, 3]);
    d.release_device();
    assert_eq!(
        d.take_ops(),
        vec![
            BusOp::Drive(Line::ChipSelect, false),
            BusOp::Drive(Line::DataCommand, true),
            BusOp::Write(vec![1, 2]),
            BusOp::Write(vec![3]),
            BusOp::Drive(Line::ChipSelect, true),
        ]
    );
}

#[test]
fn color_bits() {
    assert_eq!(Color::Light.bit(), 1);
    assert_eq!(Color::Dark.bit(), 0);
    assert_eq!(Color::Light.fill_byte(), 0xFF);
    assert_eq!(Color::Dark.fill_byte(), 0x00);
}

#[test]
fn init_with_reset_pulses_configures_and_clears() {
    let mut d = display(64, 32);
    d.init_with_reset();
    let ops = d.take_ops();
    assert_eq!(
        &ops[..6],
        &[
            BusOp::Drive(Line::Reset, true),
            BusOp::Wait(10),
            BusOp::Drive(Line::Reset, false),
            BusOp::Wait(100),
            BusOp::Drive(Line::Reset, true),
            BusOp::Wait(100),
        ]
    );
    let init = init_bytes(64, 32);
    let init_end = 6 + 2 * init.len();
    assert_eq!(command_bytes(&ops[6..init_end]), init);
    assert_eq!(
        command_bytes(&ops[init_end..init_end + 12]),
        vec![0x21, 32, 95, 0x22, 0, 3]
    );
    assert_eq!(ops[init_end + 12], BusOp::Drive(Line::DataCommand, true));
    assert_eq!(ops[init_end + 13], BusOp::Write(vec![0x00; 256]));
    assert_eq!(ops.len(), init_end + 14);
}
