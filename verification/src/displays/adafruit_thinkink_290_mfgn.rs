//! Command sequences for Adafruit 2.9" e-ink displays using the SSD1680 controller.
//!
//! This module targets the 2025 revision of the Adafruit ThinkInk 2.9" and MagTag boards,
//! which use the SSD1680 e-paper controller. The original MagTag revision uses an IL0373
//! instead; see [`adafruit_thinkink_290_t5`](super::adafruit_thinkink_290_t5).
//!
//! ## Key differences from the IL0373 variant
//!
//! | Property | SSD1680 | IL0373 |
//! |----------|---------|--------|
//! | Busy pin polarity | Active-high (HIGH = busy) | Active-low (LOW = busy) |
//! | LUT registers | Single register (0x32) | Five registers (0x20–0x24) |
//! | RAM address counters | Required | Not used |
//! | Gray2 encoding | Identical two-plane scheme | Identical two-plane scheme |
//!
//! Two drivers are described here:
//! - [`ThinkInk2in9Mono`]: black/white rendering using the mono full LUT
//! - [`ThinkInk2in9Gray2`]: 4-level grayscale rendering using the Gray2 LUT
//!
//! Each operation of a driver is the sequence of interface operations it sends;
//! see [`crate::driver`] for how a sequence is carried out.
use vstd::prelude::*;

use crate::color::Color;
use crate::driver::ssd1680::{Cmd, Flag};
use crate::driver::{
    always_followed_by, cmd_with_data_ops, never_sends, sends_then, BusyPolarity, CommandSequence, OpModel,
};
use crate::graphics::spec_buffer_len;

pub use crate::graphics::display290_gray4_mfgn::Display2in9Gray2;
pub use crate::graphics::display290_mono::Display2in9Mono;

verus! {

/// Display width for 2.9in display
pub const WIDTH: u16 = 128;

/// Display height for 2.9in display
pub const HEIGHT: u16 = 296;

/// Adafruit ThinkInk 290 EA4MFGN MONO FULL LUT CODE Cmd: 0x32 Size: 0x99,
pub const TI_290_MONOFULL_LUT_CODE: [u8; 153] = [
  0x80, 0x66, 0x00, 0x00, 0x00, 0x00, 0x00, 0x00, 0x40, 0x00, 0x00, 0x00, //VS L0
  0x10, 0x66, 0x00, 0x00, 0x00, 0x00, 0x00, 0x00, 0x20, 0x00, 0x00, 0x00, //VS L1
  0x80, 0x66, 0x00, 0x00, 0x00, 0x00, 0x00, 0x00, 0x40, 0x00, 0x00, 0x00, //VS L2
  0x10, 0x66, 0x00, 0x00, 0x00, 0x00, 0x00, 0x00, 0x20, 0x00, 0x00, 0x00, //VS L3
  0x00, 0x00, 0x00, 0x00, 0x00, 0x00, 0x00, 0x00, 0x00, 0x00, 0x00, 0x00, //VS L4
  0x14, 0x08, 0x00, 0x00, 0x00, 0x00, 0x01,                               //TP, SR, RP of Group0
  0x0A, 0x0A, 0x00, 0x0A, 0x0A, 0x00, 0x01,                               //TP, SR, RP of Group1
  0x00, 0x00, 0x00, 0x00, 0x00, 0x00, 0x00,                               //TP, SR, RP of Group2
  0x00, 0x00, 0x00, 0x00, 0x00, 0x00, 0x00,                               //TP, SR, RP of Group3
  0x00, 0x00, 0x00, 0x00, 0x00, 0x00, 0x00,                               //TP, SR, RP of Group4
  0x00, 0x00, 0x00, 0x00, 0x00, 0x00, 0x00,                               //TP, SR, RP of Group5
  0x00, 0x00, 0x00, 0x00, 0x00, 0x00, 0x00,                               //TP, SR, RP of Group6
  0x00, 0x00, 0x00, 0x00, 0x00, 0x00, 0x00,                               //TP, SR, RP of Group7
  0x14, 0x08, 0x00, 0x01, 0x00, 0x00, 0x01,                               //TP, SR, RP of Group8
  0x00, 0x00, 0x00, 0x00, 0x00, 0x00, 0x01,                               //TP, SR, RP of Group9
  0x00, 0x00, 0x00, 0x00, 0x00, 0x00, 0x00,                               //TP, SR, RP of Group10
  0x00, 0x00, 0x00, 0x00, 0x00, 0x00, 0x00,                               //TP, SR, RP of Group11
  0x44, 0x44, 0x44, 0x44, 0x44, 0x44, 0x00, 0x00, 0x00                    //FR, XON
];

/// Adafruit ThinkInk 290 EA4MFGN GRAY2 LUT CODE Cmd: 0x32 Size: 0x99,
pub const TI_290MFGN_GRAY2_LUT_CODE: [u8; 153] = [
  0x00, 0x60, 0x00, 0x00, 0x00, 0x00, 0x00, 0x00, 0x00, 0x00, 0x00, 0x00, //VS L0  //2.28s
  0x20, 0x60, 0x10, 0x00, 0x00, 0x00, 0x00, 0x00, 0x00, 0x00, 0x00, 0x00, //VS L1
  0x28, 0x60, 0x14, 0x00, 0x00, 0x00, 0x00, 0x00, 0x00, 0x00, 0x00, 0x00, //VS L2
  0x2A, 0x60, 0x15, 0x00, 0x00, 0x00, 0x00, 0x00, 0x00, 0x00, 0x00, 0x00, //VS L3
  0x00, 0x90, 0x00, 0x00, 0x00, 0x00, 0x00, 0x00, 0x00, 0x00, 0x00, 0x00, //VS L4
  0x00, 0x02, 0x00, 0x05, 0x14, 0x00, 0x00,                               //TP, SR, RP of Group0
  0x1E, 0x1E, 0x00, 0x00, 0x00, 0x00, 0x01,                               //TP, SR, RP of Group1
  0x00, 0x02, 0x00, 0x05, 0x14, 0x00, 0x00,                               //TP, SR, RP of Group2
  0x00, 0x00, 0x00, 0x00, 0x00, 0x00, 0x00,                               //TP, SR, RP of Group3
  0x00, 0x00, 0x00, 0x00, 0x00, 0x00, 0x00,                               //TP, SR, RP of Group4
  0x00, 0x00, 0x00, 0x00, 0x00, 0x00, 0x00,                               //TP, SR, RP of Group5
  0x00, 0x00, 0x00, 0x00, 0x00, 0x00, 0x00,                               //TP, SR, RP of Group6
  0x00, 0x00, 0x00, 0x00, 0x00, 0x00, 0x00,                               //TP, SR, RP of Group7
  0x00, 0x00, 0x00, 0x00, 0x00, 0x00, 0x00,                               //TP, SR, RP of Group8
  0x00, 0x00, 0x00, 0x00, 0x00, 0x00, 0x00,                               //TP, SR, RP of Group9
  0x00, 0x00, 0x00, 0x00, 0x00, 0x00, 0x00,                               //TP, SR, RP of Group10
  0x00, 0x00, 0x00, 0x00, 0x00, 0x00, 0x00,                               //TP, SR, RP of Group11
  0x24, 0x22, 0x22, 0x22, 0x23, 0x32, 0x00, 0x00, 0x00,                   //FR, XON
];

/// Setting the RAM address counters to column byte `x / 8` and row `y`.
pub open spec fn ram_counter_ops(x: u32, y: u32) -> Seq<OpModel> {
    cmd_with_data_ops(Cmd::SET_RAMX_COUNTER, seq![(x >> 3u32) as u8])
        + cmd_with_data_ops(Cmd::SET_RAMY_COUNTER, seq![(y & 0xFF) as u8, ((y >> 8u32) & 0x01) as u8])
}

/// Writing a whole RAM plane: counters back to the origin, then the plane's
/// write command with the buffer.
pub open spec fn write_ram_ops(command: u8, buffer: Seq<u8>) -> Seq<OpModel> {
    ram_counter_ops(0, 0) + cmd_with_data_ops(command, buffer)
}

/// Gate lines, RAM scan direction, RAM window and border waveform of the panel.
pub open spec fn panel_setup_ops() -> Seq<OpModel> {
    cmd_with_data_ops(Cmd::DRIVER_OUTPUT_CTRL, seq![0x27u8, 0x01u8, 0x00u8])
        + cmd_with_data_ops(Cmd::DATA_ENTRY_MODE, seq![Flag::DATA_ENTRY_INCRY_INCRX])
        + cmd_with_data_ops(Cmd::SET_RAMXPOS, seq![0x00u8, 0x0Fu8])
        + cmd_with_data_ops(Cmd::SET_RAMYPOS, seq![0x00u8, 0x00u8, 0x27u8, 0x01u8])
        + cmd_with_data_ops(
        Cmd::BORDER_WAVEFORM_CTRL,
        seq![Flag::BORDER_WAVEFORM_FOLLOW_LUT | Flag::BORDER_WAVEFORM_LUT1],
    )
}

/// Temperature sensor, update control, end option and driving voltages.
pub open spec fn waveform_setup_ops() -> Seq<OpModel> {
    cmd_with_data_ops(Cmd::TEMP_CONTROL, seq![Flag::INTERNAL_TEMP_SENSOR])
        + cmd_with_data_ops(Cmd::DISPLAY_UPDATE_CTRL1, seq![0x00u8, 0x80u8])
        + cmd_with_data_ops(Cmd::END_OPTION, seq![Flag::END_OPTION_NORMAL])
        + cmd_with_data_ops(Cmd::GATE_VOLTAGE_CTRL, seq![0x17u8])
        + cmd_with_data_ops(Cmd::SOURCE_VOLTAGE_CTRL, seq![0x41u8, 0x00u8, 0x32u8])
        + cmd_with_data_ops(Cmd::WRITE_VCOM_REG, seq![0x36u8])
}

/// Reset and configure the panel, load the waveform `lut`, wait until ready.
pub open spec fn init_ops(lut: Seq<u8>) -> Seq<OpModel> {
    seq![OpModel::HardReset, OpModel::Command(Cmd::SW_RESET), OpModel::DelayMs(10)]
        + panel_setup_ops()
        + waveform_setup_ops()
        + cmd_with_data_ops(Cmd::WRITE_LUT_REG, lut)
        + seq![OpModel::WaitUntilIdle(BusyPolarity::ActiveHigh)]
}

/// Enter deep sleep, keeping RAM.
pub open spec fn sleep_ops() -> Seq<OpModel> {
    cmd_with_data_ops(Cmd::DEEP_SLEEP, seq![0x01u8]) + seq![OpModel::DelayMs(1)]
}

/// Run the display update sequence and wait until the refresh is done.
pub open spec fn display_ops() -> Seq<OpModel> {
    cmd_with_data_ops(Cmd::DISPLAY_UPDATE_CTRL2, seq![Flag::DISPLAY_MODE_1])
        + seq![OpModel::Command(Cmd::MASTER_ACTIVATE), OpModel::WaitUntilIdle(BusyPolarity::ActiveHigh)]
}

/// Write `buffer` to the black/white plane and wait until ready.
pub open spec fn update_bw_ops(buffer: Seq<u8>) -> Seq<OpModel> {
    write_ram_ops(Cmd::WRITE_BW_DATA, buffer) + seq![OpModel::WaitUntilIdle(BusyPolarity::ActiveHigh)]
}

/// Write `buffer` to the red plane and wait until ready.
pub open spec fn update_red_ops(buffer: Seq<u8>) -> Seq<OpModel> {
    write_ram_ops(Cmd::WRITE_RED_DATA, buffer) + seq![OpModel::WaitUntilIdle(BusyPolarity::ActiveHigh)]
}

/// Write both planes, then wait until ready once.
pub open spec fn update_ops(bw_buffer: Seq<u8>, red_buffer: Seq<u8>) -> Seq<OpModel> {
    write_ram_ops(Cmd::WRITE_BW_DATA, bw_buffer) + write_ram_ops(Cmd::WRITE_RED_DATA, red_buffer)
        + seq![OpModel::WaitUntilIdle(BusyPolarity::ActiveHigh)]
}

/// Number of bytes in one RAM plane of the panel.
pub open spec fn plane_len() -> u32 {
    spec_buffer_len(WIDTH as int, HEIGHT as int) as u32
}

/// Fill the black/white plane with white.
pub open spec fn clear_bw_ram_ops() -> Seq<OpModel> {
    seq![
        OpModel::Command(Cmd::WRITE_BW_DATA),
        OpModel::DataRepeat(Color::White.spec_byte_value(), plane_len()),
    ]
}

/// Fill the red plane with its cleared state, the inverse of white.
pub open spec fn clear_red_ram_ops() -> Seq<OpModel> {
    seq![
        OpModel::Command(Cmd::WRITE_RED_DATA),
        OpModel::DataRepeat(Color::White.spec_inverse().spec_byte_value(), plane_len()),
    ]
}

/// Hardware-reset the panel and put it to sleep.
pub open spec fn begin_ops() -> Seq<OpModel> {
    seq![OpModel::HardReset] + sleep_ops()
}

/// Clear both planes to white and refresh twice, 100 ms apart.
pub open spec fn clear_display_ops() -> Seq<OpModel> {
    clear_bw_ram_ops() + clear_red_ram_ops() + display_ops() + seq![OpModel::DelayMs(100)] + display_ops()
}

/// Initialise with `lut`, write the black/white plane, refresh, sleep.
pub open spec fn update_and_display_ops(lut: Seq<u8>, bw_buffer: Seq<u8>) -> Seq<OpModel> {
    init_ops(lut) + update_bw_ops(bw_buffer) + display_ops() + sleep_ops()
}

/// Initialise with `lut`, write both planes, refresh, sleep.
pub open spec fn update_gray2_and_display_ops(lut: Seq<u8>, bw_buffer: Seq<u8>, red_buffer: Seq<u8>) -> Seq<
    OpModel,
> {
    init_ops(lut) + update_bw_ops(bw_buffer) + update_red_ops(red_buffer) + display_ops() + sleep_ops()
}

fn push_set_ram_counter(seq: &mut CommandSequence, x: u32, y: u32)
    ensures
        final(seq)@ == old(seq)@ + ram_counter_ops(x, y),
{
    let column: [u8; 1] = [#[verifier::truncate] ((x >> 3) as u8)];
    let row: [u8; 2] = [#[verifier::truncate] ((y & 0xFF) as u8), #[verifier::truncate] (((y >> 8) & 0x01) as u8)];
    assert(column@ =~= seq![(x >> 3u32) as u8]);
    assert(row@ =~= seq![(y & 0xFF) as u8, ((y >> 8u32) & 0x01) as u8]);
    seq.cmd_with_data(Cmd::SET_RAMX_COUNTER, &column);
    seq.cmd_with_data(Cmd::SET_RAMY_COUNTER, &row);
    assert(final(seq)@ =~= old(seq)@ + ram_counter_ops(x, y));
}

fn push_write_ram(seq: &mut CommandSequence, command: u8, buffer: &[u8])
    ensures
        final(seq)@ == old(seq)@ + write_ram_ops(command, buffer@),
{
    push_set_ram_counter(seq, 0, 0);
    seq.cmd_with_data(command, buffer);
    assert(final(seq)@ =~= old(seq)@ + write_ram_ops(command, buffer@));
}

fn push_panel_setup(seq: &mut CommandSequence)
    ensures
        final(seq)@ == old(seq)@ + panel_setup_ops(),
{
    // Send Initialization Code 0x01, 0x11, 0x44, 0x45, 0x3C
    seq.cmd_with_data(Cmd::DRIVER_OUTPUT_CTRL, &[0x27, 0x01, 0x00]);
    seq.cmd_with_byte(Cmd::DATA_ENTRY_MODE, Flag::DATA_ENTRY_INCRY_INCRX);
    seq.cmd_with_data(Cmd::SET_RAMXPOS, &[0x00, 0x0F]);
    seq.cmd_with_data(Cmd::SET_RAMYPOS, &[0x00, 0x00, 0x27, 0x01]);
    seq.cmd_with_byte(Cmd::BORDER_WAVEFORM_CTRL, Flag::BORDER_WAVEFORM_FOLLOW_LUT | Flag::BORDER_WAVEFORM_LUT1);
    assert(final(seq)@ =~~= old(seq)@ + panel_setup_ops());
}

fn push_waveform_setup(seq: &mut CommandSequence)
    ensures
        final(seq)@ == old(seq)@ + waveform_setup_ops(),
{
    seq.cmd_with_byte(Cmd::TEMP_CONTROL, Flag::INTERNAL_TEMP_SENSOR);
    seq.cmd_with_data(Cmd::DISPLAY_UPDATE_CTRL1, &[0x00, 0x80]);
    seq.cmd_with_byte(Cmd::END_OPTION, Flag::END_OPTION_NORMAL);
    seq.cmd_with_byte(Cmd::GATE_VOLTAGE_CTRL, 0x17);
    seq.cmd_with_data(Cmd::SOURCE_VOLTAGE_CTRL, &[0x41, 0x00, 0x32]);
    seq.cmd_with_byte(Cmd::WRITE_VCOM_REG, 0x36);
    assert(final(seq)@ =~~= old(seq)@ + waveform_setup_ops());
}

fn push_init(seq: &mut CommandSequence, lut: &[u8])
    ensures
        final(seq)@ == old(seq)@ + init_ops(lut@),
{
    // hard reset
    seq.hard_reset();
    // Set Initialial Configuration
    seq.cmd(Cmd::SW_RESET);
    seq.delay_ms(10);
    push_panel_setup(seq);
    // Load Waveform LUT
    push_waveform_setup(seq);
    // load LUT into memory
    seq.cmd_with_data(Cmd::WRITE_LUT_REG, lut);
    seq.wait_until_idle(BusyPolarity::ActiveHigh);
    assert(final(seq)@ =~~= old(seq)@ + init_ops(lut@));
}

fn push_sleep(seq: &mut CommandSequence)
    ensures
        final(seq)@ == old(seq)@ + sleep_ops(),
{
    seq.cmd_with_byte(Cmd::DEEP_SLEEP, 0x01);
    seq.delay_ms(1);
    assert(final(seq)@ =~~= old(seq)@ + sleep_ops());
}

fn push_display(seq: &mut CommandSequence)
    ensures
        final(seq)@ == old(seq)@ + display_ops(),
{
    seq.cmd_with_byte(Cmd::DISPLAY_UPDATE_CTRL2, Flag::DISPLAY_MODE_1);
    seq.cmd(Cmd::MASTER_ACTIVATE);
    seq.wait_until_idle(BusyPolarity::ActiveHigh);
    assert(final(seq)@ =~~= old(seq)@ + display_ops());
}

fn push_update_bw(seq: &mut CommandSequence, buffer: &[u8])
    ensures
        final(seq)@ == old(seq)@ + update_bw_ops(buffer@),
{
    push_write_ram(seq, Cmd::WRITE_BW_DATA, buffer);
    seq.wait_until_idle(BusyPolarity::ActiveHigh);
    assert(final(seq)@ =~~= old(seq)@ + update_bw_ops(buffer@));
}

fn push_update_red(seq: &mut CommandSequence, buffer: &[u8])
    ensures
        final(seq)@ == old(seq)@ + update_red_ops(buffer@),
{
    push_write_ram(seq, Cmd::WRITE_RED_DATA, buffer);
    seq.wait_until_idle(BusyPolarity::ActiveHigh);
    assert(final(seq)@ =~~= old(seq)@ + update_red_ops(buffer@));
}

fn push_update(seq: &mut CommandSequence, bw_buffer: &[u8], red_buffer: &[u8])
    ensures
        final(seq)@ == old(seq)@ + update_ops(bw_buffer@, red_buffer@),
{
    push_write_ram(seq, Cmd::WRITE_BW_DATA, bw_buffer);
    push_write_ram(seq, Cmd::WRITE_RED_DATA, red_buffer);
    seq.wait_until_idle(BusyPolarity::ActiveHigh);
    assert(final(seq)@ =~~= old(seq)@ + update_ops(bw_buffer@, red_buffer@));
}

/// Number of bytes in one RAM plane of the panel.
fn ram_plane_len() -> (len: u32)
    ensures
        len == plane_len(),
{
    (WIDTH as u32 + 7) / 8 * (HEIGHT as u32)
}

fn push_clear_bw_ram(seq: &mut CommandSequence)
    ensures
        final(seq)@ == old(seq)@ + clear_bw_ram_ops(),
{
    let color = Color::White.get_byte_value();
    seq.cmd(Cmd::WRITE_BW_DATA);
    seq.data_x_times(color, ram_plane_len());
    assert(final(seq)@ =~~= old(seq)@ + clear_bw_ram_ops());
}

fn push_clear_red_ram(seq: &mut CommandSequence)
    ensures
        final(seq)@ == old(seq)@ + clear_red_ram_ops(),
{
    let color = Color::White.inverse().get_byte_value();
    seq.cmd(Cmd::WRITE_RED_DATA);
    seq.data_x_times(color, ram_plane_len());
    assert(final(seq)@ =~~= old(seq)@ + clear_red_ram_ops());
}

fn begin_sequence() -> (seq: CommandSequence)
    ensures
        seq@ == begin_ops(),
{
    let mut seq = CommandSequence::new();
    seq.hard_reset();
    push_sleep(&mut seq);
    assert(seq@ =~~= begin_ops());
    seq
}

fn clear_display_sequence() -> (seq: CommandSequence)
    ensures
        seq@ == clear_display_ops(),
{
    let mut seq = CommandSequence::new();
    push_clear_bw_ram(&mut seq);
    push_clear_red_ram(&mut seq);
    push_display(&mut seq);
    seq.delay_ms(100);
    push_display(&mut seq);
    assert(seq@ =~~= clear_display_ops());
    seq
}

fn update_and_display_sequence(lut: &[u8], bw_buffer: &[u8]) -> (seq: CommandSequence)
    ensures
        seq@ == update_and_display_ops(lut@, bw_buffer@),
{
    let mut seq = CommandSequence::new();
    push_init(&mut seq, lut);
    push_update_bw(&mut seq, bw_buffer);
    push_display(&mut seq);
    push_sleep(&mut seq);
    assert(seq@ =~~= update_and_display_ops(lut@, bw_buffer@));
    seq
}

fn update_gray2_and_display_sequence(lut: &[u8], bw_buffer: &[u8], red_buffer: &[u8]) -> (seq: CommandSequence)
    ensures
        seq@ == update_gray2_and_display_ops(lut@, bw_buffer@, red_buffer@),
{
    let mut seq = CommandSequence::new();
    push_init(&mut seq, lut);
    push_update_bw(&mut seq, bw_buffer);
    push_update_red(&mut seq, red_buffer);
    push_display(&mut seq);
    push_sleep(&mut seq);
    assert(seq@ =~~= update_gray2_and_display_ops(lut@, bw_buffer@, red_buffer@));
    seq
}

/// Command sequences of the Adafruit ThinkInk 2.9" monochrome e-ink display (SSD1680 controller).
///
/// The SSD1680 busy pin is active-high (HIGH = busy, LOW = ready).
///
/// Use [`Display2in9Mono`] as the graphics buffer for black/white rendering, or
/// [`ThinkInk2in9Gray2`] with [`Display2in9Gray2`] for 4-level grayscale.
#[derive(Clone, Copy, Debug)]
pub struct ThinkInk2in9Mono;

impl ThinkInk2in9Mono {
    /// Create a new ThinkInk 2.9" display
    pub fn new() -> (driver: Self) {
        ThinkInk2in9Mono
    }

    /// Reset and fully initialize the display: hardware reset, panel
    /// configuration, load [`TI_290_MONOFULL_LUT_CODE`], and wait for the busy pin to go low.
    pub fn init(&self) -> (seq: CommandSequence)
        ensures
            seq@ == init_ops(TI_290_MONOFULL_LUT_CODE@),
    {
        let mut seq = CommandSequence::new();
        push_init(&mut seq, &TI_290_MONOFULL_LUT_CODE);
        seq
    }

    /// Power down the display controller into deep sleep mode.
    pub fn sleep(&self) -> (seq: CommandSequence)
        ensures
            seq@ == sleep_ops(),
    {
        let mut seq = CommandSequence::new();
        push_sleep(&mut seq);
        seq
    }

    /// Write `buffer` to the black/white RAM plane and wait until ready.
    pub fn update_bw(&self, buffer: &[u8]) -> (seq: CommandSequence)
        ensures
            seq@ == update_bw_ops(buffer@),
    {
        let mut seq = CommandSequence::new();
        push_update_bw(&mut seq, buffer);
        seq
    }

    /// Write `buffer` to the red RAM plane and wait until ready.
    pub fn update_red(&self, buffer: &[u8]) -> (seq: CommandSequence)
        ensures
            seq@ == update_red_ops(buffer@),
    {
        let mut seq = CommandSequence::new();
        push_update_red(&mut seq, buffer);
        seq
    }

    /// Write both RAM planes and wait until ready; no refresh.
    pub fn update(&self, low_buffer: &[u8], high_buffer: &[u8]) -> (seq: CommandSequence)
        ensures
            seq@ == update_ops(low_buffer@, high_buffer@),
    {
        let mut seq = CommandSequence::new();
        push_update(&mut seq, low_buffer, high_buffer);
        seq
    }

    /// Fill the black/white RAM plane with white, clearing it.
    pub fn clear_bw_ram(&self) -> (seq: CommandSequence)
        ensures
            seq@ == clear_bw_ram_ops(),
    {
        let mut seq = CommandSequence::new();
        push_clear_bw_ram(&mut seq);
        seq
    }

    /// Fill the red RAM plane with its cleared state.
    pub fn clear_red_ram(&self) -> (seq: CommandSequence)
        ensures
            seq@ == clear_red_ram_ops(),
    {
        let mut seq = CommandSequence::new();
        push_clear_red_ram(&mut seq);
        seq
    }

    /// Hardware-reset the panel and put it into a low-power sleep state.
    pub fn begin(&self) -> (seq: CommandSequence)
        ensures
            seq@ == begin_ops(),
    {
        begin_sequence()
    }

    /// Fill both RAM planes with white and trigger two successive refreshes.
    ///
    /// A double refresh is used to fully clear any image ghosting from the panel.
    pub fn clear_display(&self) -> (seq: CommandSequence)
        ensures
            seq@ == clear_display_ops(),
    {
        clear_display_sequence()
    }

    /// Write the black/white buffer to the display and trigger a full refresh:
    /// initialise, write the plane, refresh, sleep.
    pub fn update_and_display(&self, bw_buffer: &[u8]) -> (seq: CommandSequence)
        ensures
            seq@ == update_and_display_ops(TI_290_MONOFULL_LUT_CODE@, bw_buffer@),
    {
        update_and_display_sequence(&TI_290_MONOFULL_LUT_CODE, bw_buffer)
    }

    /// Write both Gray2 framebuffer planes to the display and trigger a full
    /// refresh: initialise, write the black/white plane then the red plane,
    /// refresh, sleep.
    pub fn update_gray2_and_display(&self, bw_buffer: &[u8], red_buffer: &[u8]) -> (seq: CommandSequence)
        ensures
            seq@ == update_gray2_and_display_ops(TI_290_MONOFULL_LUT_CODE@, bw_buffer@, red_buffer@),
    {
        update_gray2_and_display_sequence(&TI_290_MONOFULL_LUT_CODE, bw_buffer, red_buffer)
    }
}

/// Command sequences of the Adafruit ThinkInk 2.9" 4-level grayscale e-ink display (SSD1680 controller).
///
/// The SSD1680 busy pin is active-high (HIGH = busy, LOW = ready).
///
/// Use [`Display2in9Gray2::new`] to create a correctly configured
/// graphics buffer for this driver.
#[derive(Clone, Copy, Debug)]
pub struct ThinkInk2in9Gray2;

impl ThinkInk2in9Gray2 {
    /// Create a new ThinkInk 2.9" grayscale display
    pub fn new() -> (driver: Self) {
        ThinkInk2in9Gray2
    }

    /// Reset and fully initialize the display: hardware reset, panel
    /// configuration, load [`TI_290MFGN_GRAY2_LUT_CODE`], and wait for the busy pin to go low.
    pub fn init(&self) -> (seq: CommandSequence)
        ensures
            seq@ == init_ops(TI_290MFGN_GRAY2_LUT_CODE@),
    {
        let mut seq = CommandSequence::new();
        push_init(&mut seq, &TI_290MFGN_GRAY2_LUT_CODE);
        seq
    }

    /// Power down the display controller into deep sleep mode.
    pub fn sleep(&self) -> (seq: CommandSequence)
        ensures
            seq@ == sleep_ops(),
    {
        let mut seq = CommandSequence::new();
        push_sleep(&mut seq);
        seq
    }

    /// Write `buffer` to the black/white RAM plane and wait until ready.
    pub fn update_bw(&self, buffer: &[u8]) -> (seq: CommandSequence)
        ensures
            seq@ == update_bw_ops(buffer@),
    {
        let mut seq = CommandSequence::new();
        push_update_bw(&mut seq, buffer);
        seq
    }

    /// Write `buffer` to the red RAM plane and wait until ready.
    pub fn update_red(&self, buffer: &[u8]) -> (seq: CommandSequence)
        ensures
            seq@ == update_red_ops(buffer@),
    {
        let mut seq = CommandSequence::new();
        push_update_red(&mut seq, buffer);
        seq
    }

    /// Write both RAM planes and wait until ready; no refresh.
    pub fn update(&self, low_buffer: &[u8], high_buffer: &[u8]) -> (seq: CommandSequence)
        ensures
            seq@ == update_ops(low_buffer@, high_buffer@),
    {
        let mut seq = CommandSequence::new();
        push_update(&mut seq, low_buffer, high_buffer);
        seq
    }

    /// Fill the black/white RAM plane with white, clearing it.
    pub fn clear_bw_ram(&self) -> (seq: CommandSequence)
        ensures
            seq@ == clear_bw_ram_ops(),
    {
        let mut seq = CommandSequence::new();
        push_clear_bw_ram(&mut seq);
        seq
    }

    /// Fill the red RAM plane with its cleared state.
    pub fn clear_red_ram(&self) -> (seq: CommandSequence)
        ensures
            seq@ == clear_red_ram_ops(),
    {
        let mut seq = CommandSequence::new();
        push_clear_red_ram(&mut seq);
        seq
    }

    /// Hardware-reset the panel and put it into a low-power sleep state.
    pub fn begin(&self) -> (seq: CommandSequence)
        ensures
            seq@ == begin_ops(),
    {
        begin_sequence()
    }

    /// Fill both RAM planes with white and trigger two successive refreshes.
    ///
    /// A double refresh is used to fully clear any image ghosting from the panel.
    pub fn clear_display(&self) -> (seq: CommandSequence)
        ensures
            seq@ == clear_display_ops(),
    {
        clear_display_sequence()
    }

    /// Write the black/white buffer to the display and trigger a full refresh:
    /// initialise, write the plane, refresh, sleep.
    pub fn update_and_display(&self, bw_buffer: &[u8]) -> (seq: CommandSequence)
        ensures
            seq@ == update_and_display_ops(TI_290MFGN_GRAY2_LUT_CODE@, bw_buffer@),
    {
        update_and_display_sequence(&TI_290MFGN_GRAY2_LUT_CODE, bw_buffer)
    }

    /// Write both Gray2 framebuffer planes to the display and trigger a full
    /// refresh: initialise, write the black/white plane then the red plane,
    /// refresh, sleep.
    pub fn update_gray2_and_display(&self, bw_buffer: &[u8], red_buffer: &[u8]) -> (seq: CommandSequence)
        ensures
            seq@ == update_gray2_and_display_ops(TI_290MFGN_GRAY2_LUT_CODE@, bw_buffer@, red_buffer@),
    {
        update_gray2_and_display_sequence(&TI_290MFGN_GRAY2_LUT_CODE, bw_buffer, red_buffer)
    }
}

/// The RAM counter data give back the counters set: the column byte is
/// `x / 8`, and the two row bytes are `y`, low byte first, for every row the
/// controller's 9-bit counter can hold.
pub proof fn lemma_ram_counter_encoding(x: u32, y: u32)
    requires
        x < 2048,
        y < 512,
    ensures
        ram_counter_ops(x, y) == cmd_with_data_ops(Cmd::SET_RAMX_COUNTER, seq![(x / 8) as u8])
            + cmd_with_data_ops(Cmd::SET_RAMY_COUNTER, seq![(y % 256) as u8, (y / 256) as u8]),
        (y % 256) + 256 * (y / 256) == y,
{
    assert(x < 2048 ==> (x >> 3u32) == x / 8) by (bit_vector);
    assert((y & 0xFF) == y % 256) by (bit_vector);
    assert(y < 512 ==> ((y >> 8u32) & 0x01) == y / 256) by (bit_vector);
}

/// The panel configuration sent by `init` covers exactly the panel: 296 gate
/// lines (the driver output control holds their number less one, low byte
/// first), a RAM window of 16 column bytes (0 to 15) and of rows 0 to 295.
pub proof fn lemma_panel_setup_matches_panel()
    ensures
        panel_setup_ops()[1] == OpModel::Data(seq![((HEIGHT - 1) % 256) as u8, ((HEIGHT - 1) / 256) as u8, 0x00u8]),
        panel_setup_ops()[5] == OpModel::Data(seq![0x00u8, (WIDTH / 8 - 1) as u8]),
        panel_setup_ops()[7] == OpModel::Data(
            seq![0x00u8, 0x00u8, ((HEIGHT - 1) % 256) as u8, ((HEIGHT - 1) / 256) as u8],
        ),
{
    assert(panel_setup_ops()[1] == OpModel::Data(seq![0x27u8, 0x01u8, 0x00u8]));
    assert(panel_setup_ops()[5] == OpModel::Data(seq![0x00u8, 0x0Fu8]));
    assert(panel_setup_ops()[7] == OpModel::Data(seq![0x00u8, 0x00u8, 0x27u8, 0x01u8]));
    assert(seq![((HEIGHT - 1) % 256) as u8, ((HEIGHT - 1) / 256) as u8, 0x00u8] =~= seq![0x27u8, 0x01u8, 0x00u8]);
    assert(seq![0x00u8, (WIDTH / 8 - 1) as u8] =~= seq![0x00u8, 0x0Fu8]);
    assert(seq![0x00u8, 0x00u8, ((HEIGHT - 1) % 256) as u8, ((HEIGHT - 1) / 256) as u8] =~= seq![
        0x00u8,
        0x00u8,
        0x27u8,
        0x01u8,
    ]);
}

/// Clearing a RAM plane writes exactly as many bytes as a graphics buffer holds.
pub proof fn lemma_clear_covers_buffer()
    ensures
        plane_len() == crate::graphics::display290_mono::BUFFER_LEN,
        plane_len() == crate::graphics::display290_gray4_mfgn::BUFFER_LEN,
{
}

/// The SSD1680 busy pin is active-high: no sequence waits on an active-low pin.
pub open spec fn waits_active_high(ops: Seq<OpModel>) -> bool {
    never_sends(ops, OpModel::WaitUntilIdle(BusyPolarity::ActiveLow))
}

/// `buffer` is written to the RAM plane of the write command `command`; that
/// command always carries `buffer`, and each time the RAM address counters are
/// first set back to the origin (column byte 0, row 0).
pub open spec fn writes_plane(ops: Seq<OpModel>, command: u8, buffer: Seq<u8>) -> bool {
    &&& sends_then(ops, OpModel::Command(command), OpModel::Data(buffer))
    &&& always_followed_by(ops, OpModel::Command(command), OpModel::Data(buffer))
    &&& forall|i: int|
        0 <= i < ops.len() && #[trigger] ops[i] == OpModel::Command(command) ==> {
            &&& i >= 4
            &&& ops[i - 4] == OpModel::Command(Cmd::SET_RAMX_COUNTER)
            &&& ops[i - 3] == OpModel::Data(seq![0u8])
            &&& ops[i - 2] == OpModel::Command(Cmd::SET_RAMY_COUNTER)
            &&& ops[i - 1] == OpModel::Data(seq![0u8, 0u8])
        }
}

/// The waveform table `lut` is loaded into the LUT register, and that
/// register always receives `lut`.
pub open spec fn loads_lut(ops: Seq<OpModel>, lut: Seq<u8>) -> bool {
    &&& sends_then(ops, OpModel::Command(Cmd::WRITE_LUT_REG), OpModel::Data(lut))
    &&& always_followed_by(ops, OpModel::Command(Cmd::WRITE_LUT_REG), OpModel::Data(lut))
}

/// Every refresh runs the full update sequence (option byte 0xC7 set just
/// before MASTER_ACTIVATE) and waits on the active-high busy pin for its end.
pub open spec fn refreshes_run_to_end(ops: Seq<OpModel>) -> bool {
    forall|i: int|
        0 <= i < ops.len() && #[trigger] ops[i] == OpModel::Command(Cmd::MASTER_ACTIVATE) ==> {
            &&& i >= 2
            &&& i + 1 < ops.len()
            &&& ops[i - 2] == OpModel::Command(Cmd::DISPLAY_UPDATE_CTRL2)
            &&& ops[i - 1] == OpModel::Data(seq![Flag::DISPLAY_MODE_1])
            &&& ops[i + 1] == OpModel::WaitUntilIdle(BusyPolarity::ActiveHigh)
        }
}

/// A full update refreshes the panel, to the end, before it enters deep sleep,
/// and deep sleep keeps the RAM (data 0x01).
pub open spec fn refresh_completes_before_sleep(ops: Seq<OpModel>) -> bool {
    &&& refreshes_run_to_end(ops)
    &&& always_followed_by(ops, OpModel::Command(Cmd::DEEP_SLEEP), OpModel::Data(seq![0x01u8]))
    &&& exists|r: int|
        0 <= r && r + 1 < ops.len() && #[trigger] ops[r] == OpModel::Command(Cmd::MASTER_ACTIVATE) && forall|j: int|
            0 <= j < ops.len() && #[trigger] ops[j] == OpModel::Command(Cmd::DEEP_SLEEP) ==> r + 1 < j
}

/// Setting the RAM counters to the origin sends column byte 0 and row bytes 0, 0.
pub proof fn lemma_origin_counter_ops()
    ensures
        ram_counter_ops(0, 0) == seq![
            OpModel::Command(Cmd::SET_RAMX_COUNTER),
            OpModel::Data(seq![0u8]),
            OpModel::Command(Cmd::SET_RAMY_COUNTER),
            OpModel::Data(seq![0u8, 0u8]),
        ],
{
    assert(((0u32 >> 3u32) as u8) == 0u8) by (bit_vector);
    assert(((0u32 & 0xFFu32) as u8) == 0u8) by (bit_vector);
    assert((((0u32 >> 8u32) & 0x01u32) as u8) == 0u8) by (bit_vector);
    assert(seq![(0u32 >> 3u32) as u8] =~= seq![0u8]);
    assert(seq![(0u32 & 0xFF) as u8, ((0u32 >> 8u32) & 0x01) as u8] =~= seq![0u8, 0u8]);
    assert(ram_counter_ops(0, 0) =~~= seq![
        OpModel::Command(Cmd::SET_RAMX_COUNTER),
        OpModel::Data(seq![0u8]),
        OpModel::Command(Cmd::SET_RAMY_COUNTER),
        OpModel::Data(seq![0u8, 0u8]),
    ]);
}

/// Initialisation resets the controller (hardware, then software), loads the
/// waveform `lut`, writes no RAM plane, and ends waiting on the active-high
/// busy pin.
pub proof fn lemma_init_effects(lut: Seq<u8>)
    ensures
        ({
            let ops = init_ops(lut);
            &&& ops[0] == OpModel::HardReset
            &&& ops[1] == OpModel::Command(Cmd::SW_RESET)
            &&& loads_lut(ops, lut)
            &&& never_sends(ops, OpModel::Command(Cmd::WRITE_BW_DATA))
            &&& never_sends(ops, OpModel::Command(Cmd::WRITE_RED_DATA))
            &&& ops.last() == OpModel::WaitUntilIdle(BusyPolarity::ActiveHigh)
            &&& waits_active_high(ops)
        }),
{
    let ops = init_ops(lut);
    assert(ops[25] == OpModel::Command(Cmd::WRITE_LUT_REG));
}

/// Writing one plane sends the buffer to that plane's RAM only, from the RAM
/// origin, then waits on the active-high busy pin; writing both sends the
/// first buffer to the black/white RAM and the second to the red RAM.
pub proof fn lemma_ram_writes_effects(a: Seq<u8>, b: Seq<u8>)
    ensures
        writes_plane(update_bw_ops(a), Cmd::WRITE_BW_DATA, a),
        never_sends(update_bw_ops(a), OpModel::Command(Cmd::WRITE_RED_DATA)),
        update_bw_ops(a).last() == OpModel::WaitUntilIdle(BusyPolarity::ActiveHigh),
        waits_active_high(update_bw_ops(a)),
        writes_plane(update_red_ops(a), Cmd::WRITE_RED_DATA, a),
        never_sends(update_red_ops(a), OpModel::Command(Cmd::WRITE_BW_DATA)),
        update_red_ops(a).last() == OpModel::WaitUntilIdle(BusyPolarity::ActiveHigh),
        waits_active_high(update_red_ops(a)),
        writes_plane(update_ops(a, b), Cmd::WRITE_BW_DATA, a),
        writes_plane(update_ops(a, b), Cmd::WRITE_RED_DATA, b),
        update_ops(a, b).last() == OpModel::WaitUntilIdle(BusyPolarity::ActiveHigh),
        waits_active_high(update_ops(a, b)),
{
    lemma_origin_counter_ops();
    assert(update_bw_ops(a)[4] == OpModel::Command(Cmd::WRITE_BW_DATA));
    assert(update_red_ops(a)[4] == OpModel::Command(Cmd::WRITE_RED_DATA));
    assert(update_ops(a, b)[4] == OpModel::Command(Cmd::WRITE_BW_DATA));
    assert(update_ops(a, b)[10] == OpModel::Command(Cmd::WRITE_RED_DATA));
}

/// The mono full update resets, loads `lut`, writes the frame to the
/// black/white RAM from the origin and nothing to the red RAM, refreshes to
/// the end before deep sleep, and waits only on the active-high busy pin.
#[verifier::rlimit(40)]
pub proof fn lemma_update_and_display_effects(lut: Seq<u8>, bw_buffer: Seq<u8>)
    ensures
        ({
            let ops = update_and_display_ops(lut, bw_buffer);
            &&& ops[0] == OpModel::HardReset
            &&& loads_lut(ops, lut)
            &&& writes_plane(ops, Cmd::WRITE_BW_DATA, bw_buffer)
            &&& never_sends(ops, OpModel::Command(Cmd::WRITE_RED_DATA))
            &&& refresh_completes_before_sleep(ops)
            &&& ops[ops.len() - 3] == OpModel::Command(Cmd::DEEP_SLEEP)
            &&& waits_active_high(ops)
        }),
{
    lemma_origin_counter_ops();
    let ops = update_and_display_ops(lut, bw_buffer);
    assert(ops[25] == OpModel::Command(Cmd::WRITE_LUT_REG));
    assert(ops[32] == OpModel::Command(Cmd::WRITE_BW_DATA));
    assert(ops[37] == OpModel::Command(Cmd::MASTER_ACTIVATE));
}

/// The grayscale full update resets and loads `lut`.
#[verifier::rlimit(40)]
pub proof fn lemma_update_gray2_and_display_loads_lut(lut: Seq<u8>, bw_buffer: Seq<u8>, red_buffer: Seq<u8>)
    ensures
        ({
            let ops = update_gray2_and_display_ops(lut, bw_buffer, red_buffer);
            &&& ops[0] == OpModel::HardReset
            &&& loads_lut(ops, lut)
        }),
{
    let ops = update_gray2_and_display_ops(lut, bw_buffer, red_buffer);
    assert(ops[25] == OpModel::Command(Cmd::WRITE_LUT_REG));
}

/// The grayscale full update writes its first buffer to the black/white plane
/// and its second to the red plane, each from the RAM origin.
#[verifier::rlimit(60)]
pub proof fn lemma_update_gray2_and_display_writes(lut: Seq<u8>, bw_buffer: Seq<u8>, red_buffer: Seq<u8>)
    ensures
        writes_plane(update_gray2_and_display_ops(lut, bw_buffer, red_buffer), Cmd::WRITE_BW_DATA, bw_buffer),
        writes_plane(update_gray2_and_display_ops(lut, bw_buffer, red_buffer), Cmd::WRITE_RED_DATA, red_buffer),
{
    lemma_origin_counter_ops();
    let ops = update_gray2_and_display_ops(lut, bw_buffer, red_buffer);
    assert(ops[32] == OpModel::Command(Cmd::WRITE_BW_DATA));
    assert(ops[39] == OpModel::Command(Cmd::WRITE_RED_DATA));
}

/// The grayscale full update refreshes to the end before deep sleep and waits
/// only on the active-high busy pin.
#[verifier::rlimit(40)]
pub proof fn lemma_update_gray2_and_display_refreshes(lut: Seq<u8>, bw_buffer: Seq<u8>, red_buffer: Seq<u8>)
    ensures
        ({
            let ops = update_gray2_and_display_ops(lut, bw_buffer, red_buffer);
            &&& refresh_completes_before_sleep(ops)
            &&& ops[ops.len() - 3] == OpModel::Command(Cmd::DEEP_SLEEP)
            &&& waits_active_high(ops)
        }),
{
    let ops = update_gray2_and_display_ops(lut, bw_buffer, red_buffer);
    assert(ops[44] == OpModel::Command(Cmd::MASTER_ACTIVATE));
}

/// Clearing fills a RAM plane with as many bytes as the frame buffer holds:
/// the black/white plane with the white byte, the red plane with its inverse.
/// Clearing the display clears both planes and then refreshes twice, to the
/// end each time, 100 ms apart. Deep sleep keeps the RAM; `begin` resets first.
pub proof fn lemma_clear_sleep_begin_effects()
    ensures
        clear_bw_ram_ops() == seq![
            OpModel::Command(Cmd::WRITE_BW_DATA),
            OpModel::DataRepeat(0xFF, crate::graphics::display290_mono::BUFFER_LEN as u32),
        ],
        clear_red_ram_ops() == seq![
            OpModel::Command(Cmd::WRITE_RED_DATA),
            OpModel::DataRepeat(0x00, crate::graphics::display290_mono::BUFFER_LEN as u32),
        ],
        clear_display_ops().take(4) == clear_bw_ram_ops() + clear_red_ram_ops(),
        refreshes_run_to_end(clear_display_ops()),
        clear_display_ops()[6] == OpModel::Command(Cmd::MASTER_ACTIVATE),
        clear_display_ops()[8] == OpModel::DelayMs(100),
        clear_display_ops()[11] == OpModel::Command(Cmd::MASTER_ACTIVATE),
        clear_display_ops().len() == 13,
        waits_active_high(clear_display_ops()),
        sleep_ops() == seq![OpModel::Command(Cmd::DEEP_SLEEP), OpModel::Data(seq![0x01u8]), OpModel::DelayMs(1)],
        begin_ops() == seq![OpModel::HardReset] + sleep_ops(),
        refresh_completes_before_sleep(display_ops() + sleep_ops()),
{
    assert(clear_bw_ram_ops() =~~= seq![
        OpModel::Command(Cmd::WRITE_BW_DATA),
        OpModel::DataRepeat(0xFF, crate::graphics::display290_mono::BUFFER_LEN as u32),
    ]);
    assert(clear_red_ram_ops() =~~= seq![
        OpModel::Command(Cmd::WRITE_RED_DATA),
        OpModel::DataRepeat(0x00, crate::graphics::display290_mono::BUFFER_LEN as u32),
    ]);
    assert(clear_display_ops().take(4) =~~= clear_bw_ram_ops() + clear_red_ram_ops());
    assert(sleep_ops() =~~= seq![OpModel::Command(Cmd::DEEP_SLEEP), OpModel::Data(seq![0x01u8]), OpModel::DelayMs(1)]);
    let ops = display_ops() + sleep_ops();
    assert(ops[2] == OpModel::Command(Cmd::MASTER_ACTIVATE));
}

} // verus!
