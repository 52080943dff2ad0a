//! The display: geometry, the command encoder and the init, reset, fill and
//! draw sequences.
//!
//! Chip select is left to the caller: no operation of [`Oled`] drives it, so
//! a caller on a shared bus brackets each operation with
//! [`Oled::use_device`] and [`Oled::release_device`]. The same holds for
//! concurrency: one operation at a time per display, as the bus actions of
//! two interleaved operations would mix their framing.
use vstd::prelude::*;

use crate::bus::{commands, data_actions, BusAction, Line, Transport, lemma_commands_concat};
use crate::command::{
    SetComOutputScanDirection, SetDisplayColor, SetDisplayPower, SetEntireDisplayOn,
    SetSegmentRemap, SET_COLUMN_ADDRESS, SET_COM_PINS_HARDWARE_CONFIGURATION,
    SET_CHARGE_PUMP, SET_CONTRAST_CONTROL, SET_DISPLAY_CLOCK_DIVIDE_RATIO_OSCILLATOR_FREQUENCY,
    SET_DISPLAY_OFFSET, SET_DISPLAY_START_LINE, SET_MEMORY_ADDRESS_MODE, SET_MULTIPLEX_RATIO,
    SET_PAGE_ADDRESS, SET_PRECHARGE_PERIOD, SET_VCOM_DESELECT_LEVEL,
};
use crate::data::{
    ChargePumpSetting, SetComPinsHardwareConfigurationLeftRightRemap,
    SetComPinsHardwareConfigurationSequentialAlternative, SetMemoryAddressingMode,
    SetVcomDeselectLevel, SET_COM_PINS_HARDWARE_CONFIGURATION_BASE,
};

verus! {

/// Pixel color of a monochrome panel.
#[derive(Clone, Copy, Debug, PartialEq, Eq, Structural)]
pub enum Color {
    /// Lit pixel, bit 1.
    Light,
    /// Dark pixel, bit 0.
    Dark,
}

impl Color {
    pub open spec fn spec_bit(self) -> u8 {
        match self {
            Color::Light => 1,
            Color::Dark => 0,
        }
    }

    /// The byte of eight pixels of this color.
    pub open spec fn spec_fill_byte(self) -> u8 {
        match self {
            Color::Light => 0xFF,
            Color::Dark => 0x00,
        }
    }

    /// The bit that one pixel of this color takes.
    pub fn bit(self) -> (r: u8)
        ensures
            r == self.spec_bit(),
    {
        match self {
            Color::Light => 1,
            Color::Dark => 0,
        }
    }

    /// The byte of a column of eight pixels of this color.
    pub fn fill_byte(self) -> (r: u8)
        ensures
            r == self.spec_fill_byte(),
    {
        match self {
            Color::Light => 0xFF,
            Color::Dark => 0x00,
        }
    }
}

/// A frame already packed for the controller: pages of eight rows, one byte
/// per column of each page.
pub trait Image {
    /// The packed bytes of the frame.
    spec fn frame(&self) -> Seq<u8>;

    fn as_vec(&self) -> (r: &[u8])
        ensures
            r@ == self.frame(),
    ;
}

impl Image for Vec<u8> {
    open spec fn frame(&self) -> Seq<u8> {
        self@
    }

    fn as_vec(&self) -> (r: &[u8]) {
        self.as_slice()
    }
}

/// The panel heights that the controller family supports.
pub open spec fn is_supported_height(height: u8) -> bool {
    height == 16 || height == 32 || height == 64 || height == 128
}

/// Number of eight-row pages that cover `height` rows.
pub open spec fn spec_page_count(height: u8) -> nat {
    ((height + 7) / 8) as nat
}

/// First column that a panel of this width uses: panels of 64 and 72
/// columns sit centered in the controller's 128 columns.
pub open spec fn column_shift(width: u8) -> u8 {
    if width == 64 {
        32
    } else if width == 72 {
        24
    } else {
        0
    }
}

/// COM pin wiring for a panel height: sequential for 16 and 32 rows.
pub open spec fn spec_sequential_config(height: u8) -> SetComPinsHardwareConfigurationSequentialAlternative {
    if height == 16 || height == 32 {
        SetComPinsHardwareConfigurationSequentialAlternative::Sequential
    } else {
        SetComPinsHardwareConfigurationSequentialAlternative::Alternative
    }
}

/// Two 4-bit fields in one byte, the second one in the high half.
pub open spec fn pack_nibbles(low: u8, high: u8) -> u8 {
    low | ((high << 4u8) as u8)
}

/// The command bytes of the power-up configuration, in order.
pub open spec fn init_commands(width: u8, height: u8) -> Seq<u8> {
    let com_pins: u8 = if height == 16 || height == 32 {
        0x02
    } else {
        0x12
    };
    let base: Seq<u8> = seq![
        0xAE, 0x20, 0x00, 0x40, 0xA1, 0xA8, (height - 1) as u8, 0xC8, 0xD3, 0x00,
        0xDA, com_pins, 0xD5, 0x80, 0xD9, 0xF1, 0xDB, 0x30, 0x81, 0xFF,
        0xA4, 0xA6, 0x8D, 0x14, 0xAF,
    ];
    if width == 72 {
        base + seq![0xADu8, 0x30u8]
    } else {
        base
    }
}

/// The command bytes that open the address window before a frame.
pub open spec fn window_commands(width: u8, page: u8) -> Seq<u8> {
    seq![
        0x21, column_shift(width), (width - 1 + column_shift(width)) as u8,
        0x22, 0x00, (page - 1) as u8,
    ]
}

/// A frame drawn in a window `width` columns wide and `page` pages high.
pub open spec fn draw_actions(width: u8, page: u8, data: Seq<u8>, limit: nat) -> Seq<BusAction> {
    commands(window_commands(width, page)) + data_actions(data, limit)
}

/// The hardware reset: display off, the reset line pulsed low between waits
/// of 100 ms, display on.
pub open spec fn reset_actions() -> Seq<BusAction> {
    commands(seq![0xAEu8]) + seq![
        BusAction::Drive(Line::Reset, true),
        BusAction::Wait(100),
        BusAction::Drive(Line::Reset, false),
        BusAction::Wait(100),
        BusAction::Drive(Line::Reset, true),
        BusAction::Wait(100),
    ] + commands(seq![0xAFu8])
}

/// The reset pulse that precedes a cold initialisation: reset line high,
/// low, high, with waits of 10, 100 and 100 ms after each.
pub open spec fn reset_pulse_actions() -> Seq<BusAction> {
    seq![
        BusAction::Drive(Line::Reset, true),
        BusAction::Wait(10),
        BusAction::Drive(Line::Reset, false),
        BusAction::Wait(100),
        BusAction::Drive(Line::Reset, true),
        BusAction::Wait(100),
    ]
}

/// `n` bytes each equal to `b`.
pub open spec fn uniform(b: u8, n: nat) -> Seq<u8> {
    Seq::new(n, |i: int| b)
}

/// Number of pages that cover `height` rows, rounding up.
pub fn page_count(height: u8) -> (r: u8)
    ensures
        r == spec_page_count(height),
        r as int * 8 >= height,
        r as int * 8 < height + 8,
{
    ((height as u16 + 7) / 8) as u8
}

/// The column window of a frame: columns 32 to 95 on a 64-column panel,
/// 24 to 95 on a 72-column panel, 0 to 127 on a 128-column panel, whatever
/// the number of pages; the page window always starts at page 0.
pub proof fn lemma_column_windows(page: u8)
    requires
        page > 0,
    ensures
        window_commands(64, page).take(3) == seq![0x21u8, 32u8, 95u8],
        window_commands(72, page).take(3) == seq![0x21u8, 24u8, 95u8],
        window_commands(128, page).take(3) == seq![0x21u8, 0u8, 127u8],
        window_commands(128, page).skip(3) == seq![0x22u8, 0u8, (page - 1) as u8],
{
    assert(window_commands(64, page).take(3) =~= seq![0x21u8, 32u8, 95u8]);
    assert(window_commands(72, page).take(3) =~= seq![0x21u8, 24u8, 95u8]);
    assert(window_commands(128, page).take(3) =~= seq![0x21u8, 0u8, 127u8]);
    assert(window_commands(128, page).skip(3) =~= seq![0x22u8, 0u8, (page - 1) as u8]);
}

/// A 72-column panel's power-up sequence is that of any other width
/// followed by the two bytes 0xAD and 0x30, each sent as a command; no other
/// width gets them.
pub proof fn lemma_init_width_quirk(width: u8, height: u8)
    ensures
        init_commands(72, height) == init_commands(128, height) + seq![0xADu8, 0x30u8],
        width != 72 ==> init_commands(width, height) == init_commands(128, height),
        commands(init_commands(72, height)) == commands(init_commands(128, height)) + commands(
            seq![0xADu8, 0x30u8],
        ),
{
    lemma_commands_concat(init_commands(128, height), seq![0xADu8, 0x30u8]);
}

/// Framing a second run of commands after a first one frames the two runs
/// together.
proof fn lemma_log_extend(before: Seq<BusAction>, done: Seq<u8>, step: Seq<u8>)
    ensures
        before + commands(done) + commands(step) == before + commands(done + step),
{
    lemma_commands_concat(done, step);
    assert(before + commands(done) + commands(step) =~= before + (commands(done) + commands(
        step,
    )));
}

/// A display panel driven through a [`Transport`].
pub struct Oled {
    width: u8,
    height: u8,
    transport: Transport,
}

impl View for Oled {
    type V = Seq<BusAction>;

    /// The bus actions recorded and not yet taken.
    closed spec fn view(&self) -> Seq<BusAction> {
        self.transport@
    }
}

impl Oled {
    pub closed spec fn spec_width(&self) -> u8 {
        self.width
    }

    pub closed spec fn spec_height(&self) -> u8 {
        self.height
    }

    pub closed spec fn spec_buf_limit(&self) -> nat {
        self.transport.spec_buf_limit()
    }

    /// Geometry the controller supports and a usable transport.
    pub closed spec fn wf(&self) -> bool {
        &&& self.width > 0
        &&& is_supported_height(self.height)
        &&& self.transport.wf()
    }

    /// Same geometry, burst limit and well-formedness.
    pub open spec fn same_setup(&self, other: &Oled) -> bool {
        &&& self.spec_width() == other.spec_width()
        &&& self.spec_height() == other.spec_height()
        &&& self.spec_buf_limit() == other.spec_buf_limit()
        &&& self.wf() == other.wf()
    }

    /// A display of `width` by `height` pixels on `transport`.
    pub fn new(width: u8, height: u8, transport: Transport) -> (r: Self)
        requires
            width > 0,
            is_supported_height(height),
            transport.wf(),
        ensures
            r.wf(),
            r.spec_width() == width,
            r.spec_height() == height,
            r.spec_buf_limit() == transport.spec_buf_limit(),
            r@ == transport@,
    {
        Oled { width, height, transport }
    }

    pub fn width(&self) -> (r: u8)
        ensures
            r == self.spec_width(),
    {
        self.width
    }

    pub fn height(&self) -> (r: u8)
        ensures
            r == self.spec_height(),
    {
        self.height
    }

    /// The largest number of bytes in one bus write.
    pub fn buf_limit(&self) -> (r: usize)
        ensures
            r == self.spec_buf_limit(),
    {
        self.transport.buf_limit()
    }

    /// Number of eight-row pages of the panel.
    pub fn page(&self) -> (r: u8)
        ensures
            r == spec_page_count(self.spec_height()),
    {
        page_count(self.height)
    }

    /// COM pin wiring for this panel's height.
    pub fn sequential_config(&self) -> (r: SetComPinsHardwareConfigurationSequentialAlternative)
        ensures
            r == spec_sequential_config(self.spec_height()),
    {
        if self.height == 32 || self.height == 16 {
            SetComPinsHardwareConfigurationSequentialAlternative::Sequential
        } else {
            SetComPinsHardwareConfigurationSequentialAlternative::Alternative
        }
    }

    /// Hands over the recorded bus operations, oldest first, and forgets them.
    pub fn take_ops(&mut self) -> (r: Vec<crate::bus::BusOp>)
        ensures
            crate::bus::actions_of(r@) == old(self)@,
            final(self)@ == Seq::<BusAction>::empty(),
            final(self).same_setup(old(self)),
    {
        self.transport.take_ops()
    }

    /// Selects the device: chip select low.
    pub fn use_device(&mut self)
        ensures
            final(self)@ == old(self)@.push(BusAction::Drive(Line::ChipSelect, false)),
            final(self).same_setup(old(self)),
    {
        self.transport.use_device();
    }

    /// Deselects the device: chip select high.
    pub fn release_device(&mut self)
        ensures
            final(self)@ == old(self)@.push(BusAction::Drive(Line::ChipSelect, true)),
            final(self).same_setup(old(self)),
    {
        self.transport.release_device();
    }

    /// Writes `data` on the channel in one burst, with no framing.
    pub fn send(&mut self, data: &[u8])
        ensures
            final(self)@ == old(self)@.push(BusAction::Write(data@)),
            final(self).same_setup(old(self)),
    {
        self.transport.send(data);
    }

    /// Sends one command byte.
    pub fn send_command(&mut self, command: u8)
        ensures
            final(self)@ == old(self)@ + commands(seq![command]),
            final(self).same_setup(old(self)),
    {
        self.transport.send_command(command);
        assert(seq![command].drop_last() =~= Seq::<u8>::empty());
        assert(commands(Seq::<u8>::empty()) + crate::bus::command_actions(command)
            =~= crate::bus::command_actions(command));
    }

    /// Sends a data payload in bursts of at most the burst limit.
    pub fn send_data(&mut self, data: &[u8])
        requires
            old(self).wf(),
        ensures
            final(self)@ == old(self)@ + data_actions(data@, old(self).spec_buf_limit()),
            final(self).same_setup(old(self)),
    {
        self.transport.send_data(data);
    }

    /// Sends one command byte.
    pub fn command(&mut self, command: u8)
        ensures
            final(self)@ == old(self)@ + commands(seq![command]),
            final(self).same_setup(old(self)),
    {
        self.send_command(command);
    }

    /// Sends a data payload.
    pub fn data(&mut self, data: &[u8])
        requires
            old(self).wf(),
        ensures
            final(self)@ == old(self)@ + data_actions(data@, old(self).spec_buf_limit()),
            final(self).same_setup(old(self)),
    {
        self.send_data(data);
    }

    /// Sends the command bytes `cs`, in order, each framed on its own.
    fn commands(&mut self, cs: &[u8])
        ensures
            final(self)@ == old(self)@ + commands(cs@),
            final(self).same_setup(old(self)),
    {
        let mut i: usize = 0;
        assert(cs@.take(0) =~= Seq::<u8>::empty());
        assert(self@ =~= old(self)@ + commands(Seq::<u8>::empty()));
        while i < cs.len()
            invariant
                i <= cs@.len(),
                self@ == old(self)@ + commands(cs@.take(i as int)),
                self.same_setup(old(self)),
            decreases cs@.len() - i,
        {
            self.command(cs[i]);
            proof {
                lemma_log_extend(old(self)@, cs@.take(i as int), seq![cs@[i as int]]);
                assert(cs@.take(i as int) + seq![cs@[i as int]] =~= cs@.take(i + 1));
            }
            i = i + 1;
        }
        assert(cs@.take(i as int) =~= cs@);
    }

    /// Contrast, 0 to 255.
    pub fn set_contrast_control(&mut self, value: u8)
        ensures
            final(self)@ == old(self)@ + commands(seq![0x81u8, value]),
            final(self).same_setup(old(self)),
    {
        let cs: [u8; 2] = [SET_CONTRAST_CONTROL, value];
        assert(cs@ =~= seq![0x81u8, value]);
        self.commands(&cs);
    }

    pub fn set_display_power(&mut self, power: SetDisplayPower)
        ensures
            final(self)@ == old(self)@ + commands(seq![power.spec_code()]),
            final(self).same_setup(old(self)),
    {
        self.command(power.code());
    }

    pub fn set_entire_display_on(&mut self, mode: SetEntireDisplayOn)
        ensures
            final(self)@ == old(self)@ + commands(seq![mode.spec_code()]),
            final(self).same_setup(old(self)),
    {
        self.command(mode.code());
    }

    pub fn set_display_color(&mut self, color: SetDisplayColor)
        ensures
            final(self)@ == old(self)@ + commands(seq![color.spec_code()]),
            final(self).same_setup(old(self)),
    {
        self.command(color.code());
    }

    pub fn set_memory_address_mode(&mut self, mode: SetMemoryAddressingMode)
        ensures
            final(self)@ == old(self)@ + commands(seq![0x20u8, mode.spec_code()]),
            final(self).same_setup(old(self)),
    {
        let cs: [u8; 2] = [SET_MEMORY_ADDRESS_MODE, mode.code()];
        assert(cs@ =~= seq![0x20u8, mode.spec_code()]);
        self.commands(&cs);
    }

    /// Column window from `start` to `end`, both included.
    pub fn set_column_address(&mut self, start: u8, end: u8)
        ensures
            final(self)@ == old(self)@ + commands(seq![0x21u8, start, end]),
            final(self).same_setup(old(self)),
    {
        let cs: [u8; 3] = [SET_COLUMN_ADDRESS, start, end];
        assert(cs@ =~= seq![0x21u8, start, end]);
        self.commands(&cs);
    }

    /// Page window from `start` to `end`, both included.
    pub fn set_page_address(&mut self, start: u8, end: u8)
        ensures
            final(self)@ == old(self)@ + commands(seq![0x22u8, start, end]),
            final(self).same_setup(old(self)),
    {
        let cs: [u8; 3] = [SET_PAGE_ADDRESS, start, end];
        assert(cs@ =~= seq![0x22u8, start, end]);
        self.commands(&cs);
    }

    /// Display start line, 0 to 63, or-ed into the opcode.
    pub fn set_display_start_line(&mut self, line: u8)
        requires
            line < 64,
        ensures
            final(self)@ == old(self)@ + commands(seq![0x40u8 | line]),
            final(self).same_setup(old(self)),
    {
        self.command(SET_DISPLAY_START_LINE | line);
    }

    pub fn set_segment_remap(&mut self, remap: SetSegmentRemap)
        ensures
            final(self)@ == old(self)@ + commands(seq![remap.spec_code()]),
            final(self).same_setup(old(self)),
    {
        self.command(remap.code());
    }

    pub fn set_multiplex_ratio(&mut self, ratio: u8)
        ensures
            final(self)@ == old(self)@ + commands(seq![0xA8u8, ratio]),
            final(self).same_setup(old(self)),
    {
        let cs: [u8; 2] = [SET_MULTIPLEX_RATIO, ratio];
        assert(cs@ =~= seq![0xA8u8, ratio]);
        self.commands(&cs);
    }

    pub fn set_com_output_scan_direction(&mut self, direction: SetComOutputScanDirection)
        ensures
            final(self)@ == old(self)@ + commands(seq![direction.spec_code()]),
            final(self).same_setup(old(self)),
    {
        self.command(direction.code());
    }

    pub fn set_display_offset(&mut self, offset: u8)
        ensures
            final(self)@ == old(self)@ + commands(seq![0xD3u8, offset]),
            final(self).same_setup(old(self)),
    {
        let cs: [u8; 2] = [SET_DISPLAY_OFFSET, offset];
        assert(cs@ =~= seq![0xD3u8, offset]);
        self.commands(&cs);
    }

    pub fn set_com_pins_hardware_configuration(
        &mut self,
        wiring: SetComPinsHardwareConfigurationSequentialAlternative,
        remap: SetComPinsHardwareConfigurationLeftRightRemap,
    )
        ensures
            final(self)@ == old(self)@ + commands(
                seq![0xDAu8, 0x02u8 | wiring.spec_code() | remap.spec_code()],
            ),
            final(self).same_setup(old(self)),
    {
        let cs: [u8; 2] = [
            SET_COM_PINS_HARDWARE_CONFIGURATION,
            SET_COM_PINS_HARDWARE_CONFIGURATION_BASE | wiring.code() | remap.code(),
        ];
        assert(cs@ =~= seq![0xDAu8, 0x02u8 | wiring.spec_code() | remap.spec_code()]);
        self.commands(&cs);
    }

    /// Clock divide ratio in the low half, oscillator frequency in the high
    /// half of the argument byte.
    pub fn set_display_clock_divide_ratio_oscillator_frequency(&mut self, ratio: u8, freq: u8)
        ensures
            final(self)@ == old(self)@ + commands(seq![0xD5u8, pack_nibbles(ratio, freq)]),
            final(self).same_setup(old(self)),
    {
        let cs: [u8; 2] = [SET_DISPLAY_CLOCK_DIVIDE_RATIO_OSCILLATOR_FREQUENCY, ratio | (freq << 4u8)];
        assert(cs@ =~= seq![0xD5u8, pack_nibbles(ratio, freq)]);
        self.commands(&cs);
    }

    /// Phase 1 in the low half, phase 2 in the high half of the argument byte.
    pub fn set_precharge_period(&mut self, phase1: u8, phase2: u8)
        ensures
            final(self)@ == old(self)@ + commands(seq![0xD9u8, pack_nibbles(phase1, phase2)]),
            final(self).same_setup(old(self)),
    {
        let cs: [u8; 2] = [SET_PRECHARGE_PERIOD, phase1 | (phase2 << 4u8)];
        assert(cs@ =~= seq![0xD9u8, pack_nibbles(phase1, phase2)]);
        self.commands(&cs);
    }

    pub fn set_vcom_deselect_level(&mut self, level: SetVcomDeselectLevel)
        ensures
            final(self)@ == old(self)@ + commands(seq![0xDBu8, level.spec_code()]),
            final(self).same_setup(old(self)),
    {
        let cs: [u8; 2] = [SET_VCOM_DESELECT_LEVEL, level.code()];
        assert(cs@ =~= seq![0xDBu8, level.spec_code()]);
        self.commands(&cs);
    }

    pub fn set_charge_pump(&mut self, setting: ChargePumpSetting)
        ensures
            final(self)@ == old(self)@ + commands(seq![0x8Du8, setting.spec_code()]),
            final(self).same_setup(old(self)),
    {
        let cs: [u8; 2] = [SET_CHARGE_PUMP, setting.code()];
        assert(cs@ =~= seq![0x8Du8, setting.spec_code()]);
        self.commands(&cs);
    }

    /// Display on.
    pub fn on(&mut self)
        ensures
            final(self)@ == old(self)@ + commands(seq![0xAFu8]),
            final(self).same_setup(old(self)),
    {
        self.set_display_power(SetDisplayPower::On);
    }

    /// Display off (sleep).
    pub fn off(&mut self)
        ensures
            final(self)@ == old(self)@ + commands(seq![0xAEu8]),
            final(self).same_setup(old(self)),
    {
        self.set_display_power(SetDisplayPower::Off);
    }
    /// Draws `data` in a window `width` columns wide, shifted to the centre
    /// of the controller's columns for 64- and 72-column panels, and `page`
    /// pages high: column window, then page window, then the data.
    pub fn draw_flow(&mut self, width: u8, page: u8, data: &[u8])
        requires
            old(self).wf(),
            width > 0,
            page > 0,
        ensures
            final(self)@ == old(self)@ + draw_actions(width, page, data@, old(self).spec_buf_limit()),
            final(self).same_setup(old(self)),
    {
        let shift: u8 = match width {
            64 => 32,
            72 => 24,
            _ => 0,
        };
        self.set_column_address(shift, width - 1 + shift);
        self.set_page_address(0, page - 1);
        proof {
            lemma_log_extend(
                old(self)@,
                seq![0x21u8, shift, (width - 1 + shift) as u8],
                seq![0x22u8, 0x00u8, (page - 1) as u8],
            );
            assert(seq![0x21u8, shift, (width - 1 + shift) as u8] + seq![0x22u8, 0x00u8, (page - 1) as u8]
                =~= window_commands(width, page));
        }
        self.data(data);
        assert(self@ =~= old(self)@ + draw_actions(width, page, data@, old(self).spec_buf_limit()));
    }

    /// Draws a whole frame of packed bytes over the panel.
    pub fn draw_vec(&mut self, data: &[u8])
        requires
            old(self).wf(),
        ensures
            final(self)@ == old(self)@ + draw_actions(
                old(self).spec_width(),
                spec_page_count(old(self).spec_height()) as u8,
                data@,
                old(self).spec_buf_limit(),
            ),
            final(self).same_setup(old(self)),
    {
        let width = self.width();
        let page = self.page();
        self.draw_flow(width, page, data);
    }

    /// Draws a packed image over the panel.
    pub fn draw_image<I: Image>(&mut self, image: &I)
        requires
            old(self).wf(),
        ensures
            final(self)@ == old(self)@ + draw_actions(
                old(self).spec_width(),
                spec_page_count(old(self).spec_height()) as u8,
                image.frame(),
                old(self).spec_buf_limit(),
            ),
            final(self).same_setup(old(self)),
    {
        self.draw_vec(image.as_vec());
    }

    /// Paints the whole panel in one color: a frame of `width * page` bytes,
    /// each holding eight pixels of that color.
    pub fn fill(&mut self, color: Color)
        requires
            old(self).wf(),
        ensures
            final(self)@ == old(self)@ + draw_actions(
                old(self).spec_width(),
                spec_page_count(old(self).spec_height()) as u8,
                uniform(
                    color.spec_fill_byte(),
                    old(self).spec_width() as nat * spec_page_count(old(self).spec_height()),
                ),
                old(self).spec_buf_limit(),
            ),
            final(self).same_setup(old(self)),
    {
        let byte = color.fill_byte();
        let page = self.page();
        assert(page as usize * self.width as usize <= 32 * 255) by (nonlinear_arith)
            requires
                page <= 32,
        ;
        let n: usize = self.width as usize * page as usize;
        let mut frame: Vec<u8> = Vec::new();
        while frame.len() < n
            invariant
                frame.len() <= n,
                frame@ == uniform(byte, frame.len() as nat),
            decreases n - frame.len(),
        {
            frame.push(byte);
            assert(frame@ =~= uniform(byte, frame.len() as nat));
        }
        self.draw_vec(frame.as_slice());
    }

    /// Brings the controller from power-up to a lit, configured panel:
    /// display off, horizontal addressing, start line 0, column 127 on
    /// segment 0, multiplex ratio `height - 1`, remapped COM scan, offset 0,
    /// COM wiring for the height with left/right remap, clock divide 0 and
    /// frequency 8, pre-charge phases 1 and 15, VCOMH 0.83 Vcc, contrast 255,
    /// display from RAM, normal colors, charge pump on, display on. A
    /// 72-column panel also gets the bytes 0xAD and 0x30 last.
    #[verifier::rlimit(50)]
    pub fn init(&mut self)
        requires
            old(self).wf(),
        ensures
            final(self)@ == old(self)@ + commands(
                init_commands(old(self).spec_width(), old(self).spec_height()),
            ),
            final(self).same_setup(old(self)),
    {
        let ghost start = self@;
        self.off();
        let ghost done: Seq<u8> = seq![0xAEu8];

        self.set_memory_address_mode(SetMemoryAddressingMode::Horizontal);
        proof {
            lemma_log_extend(start, done, seq![0x20u8, 0x00u8]);
            done = done + seq![0x20u8, 0x00u8];
        }
        self.set_display_start_line(0);
        proof {
            assert(0x40u8 | 0u8 == 0x40u8) by (bit_vector);
            lemma_log_extend(start, done, seq![0x40u8]);
            done = done + seq![0x40u8];
        }
        self.set_segment_remap(SetSegmentRemap::Column127toSeg0);
        proof {
            lemma_log_extend(start, done, seq![0xA1u8]);
            done = done + seq![0xA1u8];
        }
        self.set_multiplex_ratio(self.height - 1);
        proof {
            lemma_log_extend(start, done, seq![0xA8u8, (self.height - 1) as u8]);
            done = done + seq![0xA8u8, (self.height - 1) as u8];
        }
        self.set_com_output_scan_direction(SetComOutputScanDirection::Remapped);
        proof {
            lemma_log_extend(start, done, seq![0xC8u8]);
            done = done + seq![0xC8u8];
        }
        self.set_display_offset(0);
        proof {
            lemma_log_extend(start, done, seq![0xD3u8, 0x00u8]);
            done = done + seq![0xD3u8, 0x00u8];
        }
        let wiring = self.sequential_config();
        self.set_com_pins_hardware_configuration(
            wiring,
            SetComPinsHardwareConfigurationLeftRightRemap::Enable,
        );
        let ghost com_pins: u8 = if self.height == 16 || self.height == 32 {
            0x02
        } else {
            0x12
        };
        proof {
            assert(0x02u8 | 0x00u8 | 0x00u8 == 0x02u8) by (bit_vector);
            assert(0x02u8 | 0x10u8 | 0x00u8 == 0x12u8) by (bit_vector);
            lemma_log_extend(start, done, seq![0xDAu8, com_pins]);
            done = done + seq![0xDAu8, com_pins];
        }
        self.set_display_clock_divide_ratio_oscillator_frequency(0, 0b1000);
        proof {
            assert(0u8 | ((8u8 << 4u8) as u8) == 0x80u8) by (bit_vector);
            lemma_log_extend(start, done, seq![0xD5u8, 0x80u8]);
            done = done + seq![0xD5u8, 0x80u8];
        }
        self.set_precharge_period(0b0001, 0b1111);
        proof {
            assert(1u8 | ((15u8 << 4u8) as u8) == 0xF1u8) by (bit_vector);
            lemma_log_extend(start, done, seq![0xD9u8, 0xF1u8]);
            done = done + seq![0xD9u8, 0xF1u8];
        }
        self.set_vcom_deselect_level(SetVcomDeselectLevel::UpTo083xVcc);
        proof {
            lemma_log_extend(start, done, seq![0xDBu8, 0x30u8]);
            done = done + seq![0xDBu8, 0x30u8];
        }
        self.set_contrast_control(255);
        proof {
            lemma_log_extend(start, done, seq![0x81u8, 0xFFu8]);
            done = done + seq![0x81u8, 0xFFu8];
        }
        self.set_entire_display_on(SetEntireDisplayOn::ResumeRam);
        proof {
            lemma_log_extend(start, done, seq![0xA4u8]);
            done = done + seq![0xA4u8];
        }
        self.set_display_color(SetDisplayColor::Normal);
        proof {
            lemma_log_extend(start, done, seq![0xA6u8]);
            done = done + seq![0xA6u8];
        }
        self.set_charge_pump(ChargePumpSetting::Enable);
        proof {
            lemma_log_extend(start, done, seq![0x8Du8, 0x14u8]);
            done = done + seq![0x8Du8, 0x14u8];
        }
        self.on();
        proof {
            lemma_log_extend(start, done, seq![0xAFu8]);
            done = done + seq![0xAFu8];
        }
        if self.width == 72 {
            self.command(0xAD);
            proof {
                lemma_log_extend(start, done, seq![0xADu8]);
                done = done + seq![0xADu8];
            }
            self.command(0x30);
            proof {
                lemma_log_extend(start, done, seq![0x30u8]);
                done = done + seq![0x30u8];
            }
        }
        assert(done =~= init_commands(self.width, self.height));
    }

    /// Hardware reset with the caller's timer: display off, reset line
    /// high, low, high with a wait of 100 ms after each, display on.
    pub fn reset(&mut self)
        ensures
            final(self)@ == old(self)@ + reset_actions(),
            final(self).same_setup(old(self)),
    {
        self.off();
        self.transport.drive(Line::Reset, true);
        self.transport.wait(100);
        self.transport.drive(Line::Reset, false);
        self.transport.wait(100);
        self.transport.drive(Line::Reset, true);
        self.transport.wait(100);
        self.on();
        assert(self@ =~= old(self)@ + reset_actions());
    }

    /// Cold start: the reset pulse, the power-up configuration of
    /// [`Oled::init`], then the whole panel painted dark.
    pub fn init_with_reset(&mut self)
        requires
            old(self).wf(),
        ensures
            final(self)@ == old(self)@ + reset_pulse_actions() + commands(
                init_commands(old(self).spec_width(), old(self).spec_height()),
            ) + draw_actions(
                old(self).spec_width(),
                spec_page_count(old(self).spec_height()) as u8,
                uniform(
                    Color::Dark.spec_fill_byte(),
                    old(self).spec_width() as nat * spec_page_count(old(self).spec_height()),
                ),
                old(self).spec_buf_limit(),
            ),
            final(self).same_setup(old(self)),
    {
        self.transport.drive(Line::Reset, true);
        self.transport.wait(10);
        self.transport.drive(Line::Reset, false);
        self.transport.wait(100);
        self.transport.drive(Line::Reset, true);
        self.transport.wait(100);
        assert(self@ =~= old(self)@ + reset_pulse_actions());
        self.init();
        self.fill(Color::Dark);
    }

}

} // verus!
