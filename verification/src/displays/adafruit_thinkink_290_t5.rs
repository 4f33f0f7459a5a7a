//! Command sequences for the Adafruit MagTag 2.9" e-ink display (IL0373 controller).
//!
//! This module targets the **original** Adafruit MagTag board revision which
//! uses the IL0373 e-paper controller. The 2025 edition uses an SSD1680
//! instead; see [`adafruit_thinkink_290_mfgn`](super::adafruit_thinkink_290_mfgn).
//!
//! ## Key differences from the SSD1680 variant
//!
//! | Property | SSD1680 | IL0373 |
//! |----------|---------|--------|
//! | Busy pin polarity | Active-high (HIGH = busy) | Active-low (LOW = busy) |
//! | LUT registers | Single register (0x32) | Five registers (0x20–0x24) |
//! | RAM address counters | Required | Not used |
//! | Gray2 encoding | Identical two-plane scheme | Identical two-plane scheme |
//!
//! The panel dimensions (296×128) and the Gray2 two-plane encoding are the
//! same as on the SSD1680 panel, so the same graphics buffers serve both:
//! [`Display2in9Mono`] for black/white and [`Display2in9Gray2`] for grayscale
//! (its high plane goes to DTM1, its low plane to DTM2).
//!
//! Two drivers are described here:
//! - [`ThinkInk2in9Gray2`]: 2-bit, 4-level grayscale rendering using the Gray4 LUTs
//! - [`ThinkInk2in9Mono`]: black/white rendering using the factory OTP waveform
use vstd::prelude::*;

use crate::color::Color;
use crate::driver::il0373::Il0373Cmd;
use crate::driver::{
    always_followed_by, cmd_with_data_ops, never_sends, sends_then, BusyPolarity, CommandSequence, OpModel,
};

pub use crate::graphics::display290_gray4_mfgn::Display2in9Gray2;
pub use crate::graphics::display290_mono::Display2in9Mono;

verus! {

/// Display width of the MagTag 2.9" IL0373 panel in pixels.
pub const WIDTH: u16 = 296;

/// Display height of the MagTag 2.9" IL0373 panel in pixels.
pub const HEIGHT: u16 = 128;

// ---------------------------------------------------------------------------
// Gray4 waveform LUTs (5 separate tables, each 42 bytes), from Adafruit's
// ThinkInk_290_Grayscale4_T5.h (ti_290t5_gray4_lut_code).
// ---------------------------------------------------------------------------

/// IL0373 Gray4 LUT1 (no-update waveform), register 0x20, 42 bytes.
///
/// Applied when a pixel does not need to change state. Keeping the pixel at
/// its current level without unnecessary voltage transitions reduces flicker.
pub const TI_290T5_GRAY4_LUT1: [u8; 42] = [
    0x00, 0x0A, 0x00, 0x00, 0x00, 0x01,
    0x60, 0x14, 0x14, 0x00, 0x00, 0x01,
    0x00, 0x14, 0x00, 0x00, 0x00, 0x01,
    0x00, 0x13, 0x0A, 0x01, 0x00, 0x01,
    0x00, 0x00, 0x00, 0x00, 0x00, 0x00,
    0x00, 0x00, 0x00, 0x00, 0x00, 0x00,
    0x00, 0x00, 0x00, 0x00, 0x00, 0x00,
];

/// IL0373 Gray4 LUTWW (white-to-white waveform), register 0x21, 42 bytes.
///
/// Applied when a pixel stays white across the update, ensuring the panel
/// maintains proper white-level driving voltage.
pub const TI_290T5_GRAY4_LUTWW: [u8; 42] = [
    0x40, 0x0A, 0x00, 0x00, 0x00, 0x01,
    0x90, 0x14, 0x14, 0x00, 0x00, 0x01,
    0x10, 0x14, 0x0A, 0x00, 0x00, 0x01,
    0xA0, 0x13, 0x01, 0x00, 0x00, 0x01,
    0x00, 0x00, 0x00, 0x00, 0x00, 0x00,
    0x00, 0x00, 0x00, 0x00, 0x00, 0x00,
    0x00, 0x00, 0x00, 0x00, 0x00, 0x00,
];

/// IL0373 Gray4 LUTBW (black-to-white waveform), register 0x22, 42 bytes.
///
/// Applied when a pixel transitions from black to white, driving the pixel
/// through the correct voltage sequence to fully clear the e-ink capsules.
pub const TI_290T5_GRAY4_LUTBW: [u8; 42] = [
    0x40, 0x0A, 0x00, 0x00, 0x00, 0x01,
    0x90, 0x14, 0x14, 0x00, 0x00, 0x01,
    0x00, 0x14, 0x0A, 0x00, 0x00, 0x01,
    0x99, 0x0C, 0x01, 0x03, 0x04, 0x01,
    0x00, 0x00, 0x00, 0x00, 0x00, 0x00,
    0x00, 0x00, 0x00, 0x00, 0x00, 0x00,
    0x00, 0x00, 0x00, 0x00, 0x00, 0x00,
];

/// IL0373 Gray4 LUTWB (white-to-black waveform), register 0x23, 42 bytes.
///
/// Applied when a pixel transitions from white to black, driving the e-ink
/// capsules to their fully actuated (dark) state.
pub const TI_290T5_GRAY4_LUTWB: [u8; 42] = [
    0x40, 0x0A, 0x00, 0x00, 0x00, 0x01,
    0x90, 0x14, 0x14, 0x00, 0x00, 0x01,
    0x00, 0x14, 0x0A, 0x00, 0x00, 0x01,
    0x99, 0x0B, 0x04, 0x04, 0x01, 0x01,
    0x00, 0x00, 0x00, 0x00, 0x00, 0x00,
    0x00, 0x00, 0x00, 0x00, 0x00, 0x00,
    0x00, 0x00, 0x00, 0x00, 0x00, 0x00,
];

/// IL0373 Gray4 LUTBB (black-to-black waveform), register 0x24, 42 bytes.
///
/// Applied when a pixel stays black across the update, maintaining the dark
/// state without unnecessary voltage transitions.
pub const TI_290T5_GRAY4_LUTBB: [u8; 42] = [
    0x80, 0x0A, 0x00, 0x00, 0x00, 0x01,
    0x90, 0x14, 0x14, 0x00, 0x00, 0x01,
    0x20, 0x14, 0x0A, 0x00, 0x00, 0x01,
    0x50, 0x13, 0x01, 0x00, 0x00, 0x01,
    0x00, 0x00, 0x00, 0x00, 0x00, 0x00,
    0x00, 0x00, 0x00, 0x00, 0x00, 0x00,
    0x00, 0x00, 0x00, 0x00, 0x00, 0x00,
];

/// Number of bytes in one RAM plane: 16 bytes for each of the 296 source lines.
pub open spec fn plane_len() -> u32 {
    ((HEIGHT as int + 7) / 8 * WIDTH as int) as u32
}

/// The data of the RESOLUTION command: gate lines (128), then the source lines
/// (296) as high and low byte.
pub open spec fn resolution_data() -> Seq<u8> {
    seq![(HEIGHT & 0xFF) as u8, ((WIDTH >> 8u16) & 0xFF) as u8, (WIDTH & 0xFF) as u8]
}

/// Power on with the booster soft start and wait for the panel.
pub open spec fn power_on_ops() -> Seq<OpModel> {
    cmd_with_data_ops(Il0373Cmd::BOOSTER_SOFT_START, seq![0x17u8, 0x17u8, 0x17u8])
        + seq![
        OpModel::Command(Il0373Cmd::POWER_ON),
        OpModel::WaitUntilIdle(BusyPolarity::ActiveLow),
        OpModel::DelayMs(200),
    ]
}

/// Mono initialisation with the factory OTP waveform (no LUT is loaded).
pub open spec fn mono_init_ops() -> Seq<OpModel> {
    seq![OpModel::HardReset] + power_on_ops()
        + cmd_with_data_ops(Il0373Cmd::PANEL_SETTING, seq![0x1fu8, 0x0du8])
        + cmd_with_data_ops(Il0373Cmd::CDI, seq![0x97u8])
}

/// The five Gray4 waveform tables, each to its register.
pub open spec fn gray4_lut_ops() -> Seq<OpModel> {
    cmd_with_data_ops(Il0373Cmd::LUT1, TI_290T5_GRAY4_LUT1@)
        + cmd_with_data_ops(Il0373Cmd::LUTWW, TI_290T5_GRAY4_LUTWW@)
        + cmd_with_data_ops(Il0373Cmd::LUTBW, TI_290T5_GRAY4_LUTBW@)
        + cmd_with_data_ops(Il0373Cmd::LUTWB, TI_290T5_GRAY4_LUTWB@)
        + cmd_with_data_ops(Il0373Cmd::LUTBB, TI_290T5_GRAY4_LUTBB@)
}

/// Grayscale initialisation: power setting, power on, panel, PLL, VCM and CDI
/// settings, the five waveform tables and the resolution.
pub open spec fn gray2_init_ops() -> Seq<OpModel> {
    seq![OpModel::HardReset]
        + cmd_with_data_ops(Il0373Cmd::POWER_SETTING, seq![0x03u8, 0x00u8, 0x2bu8, 0x2bu8, 0x13u8])
        + power_on_ops()
        + cmd_with_data_ops(Il0373Cmd::PANEL_SETTING, seq![0x3Fu8])
        + cmd_with_data_ops(Il0373Cmd::PLL, seq![0x3Cu8])
        + cmd_with_data_ops(Il0373Cmd::VCM_DC_SETTING, seq![0x12u8])
        + cmd_with_data_ops(Il0373Cmd::CDI, seq![0x97u8])
        + gray4_lut_ops()
        + cmd_with_data_ops(Il0373Cmd::RESOLUTION, resolution_data())
}

/// Float the border, discharge VCM and power off.
pub open spec fn sleep_ops() -> Seq<OpModel> {
    cmd_with_data_ops(Il0373Cmd::CDI, seq![0x17u8])
        + seq![
        OpModel::Command(Il0373Cmd::VCM_DC_SETTING),
        OpModel::Command(Il0373Cmd::POWER_OFF),
        OpModel::DelayMs(1),
    ]
}

/// Refresh the panel from RAM: wait 100 ms for the refresh to start, then
/// until the busy pin shows it done.
pub open spec fn display_ops() -> Seq<OpModel> {
    seq![
        OpModel::Command(Il0373Cmd::DISPLAY_REFRESH),
        OpModel::DelayMs(100),
        OpModel::WaitUntilIdle(BusyPolarity::ActiveLow),
    ]
}

/// Write `buffer` to the black/white plane (DTM1) and wait until ready.
pub open spec fn update_bw_ops(buffer: Seq<u8>) -> Seq<OpModel> {
    cmd_with_data_ops(Il0373Cmd::DTM1, buffer) + seq![OpModel::WaitUntilIdle(BusyPolarity::ActiveLow)]
}

/// Write `buffer` to the color plane (DTM2) and wait until ready.
pub open spec fn update_red_ops(buffer: Seq<u8>) -> Seq<OpModel> {
    cmd_with_data_ops(Il0373Cmd::DTM2, buffer) + seq![OpModel::WaitUntilIdle(BusyPolarity::ActiveLow)]
}

/// Write both planes, then wait until ready once.
pub open spec fn update_ops(bw_buffer: Seq<u8>, red_buffer: Seq<u8>) -> Seq<OpModel> {
    cmd_with_data_ops(Il0373Cmd::DTM1, bw_buffer) + cmd_with_data_ops(Il0373Cmd::DTM2, red_buffer)
        + seq![OpModel::WaitUntilIdle(BusyPolarity::ActiveLow)]
}

/// Fill the black/white plane (DTM1) with white.
pub open spec fn clear_bw_ram_ops() -> Seq<OpModel> {
    seq![
        OpModel::Command(Il0373Cmd::DTM1),
        OpModel::DataRepeat(Color::White.spec_byte_value(), plane_len()),
    ]
}

/// Fill the color plane (DTM2) with its cleared state, the inverse of white.
pub open spec fn clear_red_ram_ops() -> Seq<OpModel> {
    seq![
        OpModel::Command(Il0373Cmd::DTM2),
        OpModel::DataRepeat(Color::White.spec_inverse().spec_byte_value(), plane_len()),
    ]
}

/// Hardware-reset the panel and power it down.
pub open spec fn begin_ops() -> Seq<OpModel> {
    seq![OpModel::HardReset] + sleep_ops()
}

/// Mono full update: initialise, write the black/white plane, refresh, power down.
pub open spec fn mono_update_and_display_ops(bw_buffer: Seq<u8>) -> Seq<OpModel> {
    mono_init_ops() + update_bw_ops(bw_buffer) + display_ops() + sleep_ops()
}

/// Grayscale full update: initialise, write both planes, refresh, power down.
pub open spec fn gray2_update_and_display_ops(high_buffer: Seq<u8>, low_buffer: Seq<u8>) -> Seq<OpModel> {
    gray2_init_ops() + update_bw_ops(high_buffer) + update_red_ops(low_buffer) + display_ops() + sleep_ops()
}

fn push_power_on(seq: &mut CommandSequence)
    ensures
        final(seq)@ == old(seq)@ + power_on_ops(),
{
    seq.cmd_with_data(Il0373Cmd::BOOSTER_SOFT_START, &[0x17, 0x17, 0x17]);
    seq.cmd(Il0373Cmd::POWER_ON);
    seq.wait_until_idle(BusyPolarity::ActiveLow);
    seq.delay_ms(200);
    assert(final(seq)@ =~~= old(seq)@ + power_on_ops());
}

fn push_mono_init(seq: &mut CommandSequence)
    ensures
        final(seq)@ == old(seq)@ + mono_init_ops(),
{
    seq.hard_reset();
    push_power_on(seq);
    // 0x1f: OTP waveform (bit 5 = 0), scan up, shift right, booster on
    // 0x0d: additional panel configuration
    seq.cmd_with_data(Il0373Cmd::PANEL_SETTING, &[0x1f, 0x0d]);
    seq.cmd_with_byte(Il0373Cmd::CDI, 0x97);
    assert(final(seq)@ =~~= old(seq)@ + mono_init_ops());
}

fn push_gray4_luts(seq: &mut CommandSequence)
    ensures
        final(seq)@ == old(seq)@ + gray4_lut_ops(),
{
    seq.cmd_with_data(Il0373Cmd::LUT1, &TI_290T5_GRAY4_LUT1);
    seq.cmd_with_data(Il0373Cmd::LUTWW, &TI_290T5_GRAY4_LUTWW);
    seq.cmd_with_data(Il0373Cmd::LUTBW, &TI_290T5_GRAY4_LUTBW);
    seq.cmd_with_data(Il0373Cmd::LUTWB, &TI_290T5_GRAY4_LUTWB);
    seq.cmd_with_data(Il0373Cmd::LUTBB, &TI_290T5_GRAY4_LUTBB);
    assert(final(seq)@ =~~= old(seq)@ + gray4_lut_ops());
}

fn push_gray2_init(seq: &mut CommandSequence)
    ensures
        final(seq)@ == old(seq)@ + gray2_init_ops(),
{
    seq.hard_reset();
    // Power setting: external power, VGH=20V, VGL=-20V, VDH=15V, VDL=-15V
    seq.cmd_with_data(Il0373Cmd::POWER_SETTING, &[0x03, 0x00, 0x2b, 0x2b, 0x13]);
    // Booster soft start, power on, then wait for the display to be ready
    push_power_on(seq);
    // Panel setting: KW/R mode, scan up, shift right, booster on
    seq.cmd_with_byte(Il0373Cmd::PANEL_SETTING, 0x3F);
    // PLL: 50Hz frame rate
    seq.cmd_with_byte(Il0373Cmd::PLL, 0x3C);
    // VCM DC setting
    seq.cmd_with_byte(Il0373Cmd::VCM_DC_SETTING, 0x12);
    // CDI: border/data polarity
    seq.cmd_with_byte(Il0373Cmd::CDI, 0x97);
    // Load the 5-part Gray4 LUT
    push_gray4_luts(seq);
    // RESOLUTION format: [gate_lines, source_lines_hi, source_lines_lo]
    let resolution: [u8; 3] = [
        #[verifier::truncate] ((HEIGHT & 0xFF) as u8),
        #[verifier::truncate] (((WIDTH >> 8) & 0xFF) as u8),
        #[verifier::truncate] ((WIDTH & 0xFF) as u8),
    ];
    assert(resolution@ =~= resolution_data());
    seq.cmd_with_data(Il0373Cmd::RESOLUTION, &resolution);
    assert(final(seq)@ =~~= old(seq)@ + gray2_init_ops());
}

fn push_sleep(seq: &mut CommandSequence)
    ensures
        final(seq)@ == old(seq)@ + sleep_ops(),
{
    // CDI: border floating
    seq.cmd_with_byte(Il0373Cmd::CDI, 0x17);
    // VCM DC: discharge
    seq.cmd(Il0373Cmd::VCM_DC_SETTING);
    // Power off
    seq.cmd(Il0373Cmd::POWER_OFF);
    seq.delay_ms(1);
    assert(final(seq)@ =~~= old(seq)@ + sleep_ops());
}

fn push_display(seq: &mut CommandSequence)
    ensures
        final(seq)@ == old(seq)@ + display_ops(),
{
    seq.cmd(Il0373Cmd::DISPLAY_REFRESH);
    seq.delay_ms(100);
    seq.wait_until_idle(BusyPolarity::ActiveLow);
    assert(final(seq)@ =~~= old(seq)@ + display_ops());
}

fn push_update_bw(seq: &mut CommandSequence, buffer: &[u8])
    ensures
        final(seq)@ == old(seq)@ + update_bw_ops(buffer@),
{
    seq.cmd_with_data(Il0373Cmd::DTM1, buffer);
    seq.wait_until_idle(BusyPolarity::ActiveLow);
    assert(final(seq)@ =~~= old(seq)@ + update_bw_ops(buffer@));
}

fn push_update_red(seq: &mut CommandSequence, buffer: &[u8])
    ensures
        final(seq)@ == old(seq)@ + update_red_ops(buffer@),
{
    seq.cmd_with_data(Il0373Cmd::DTM2, buffer);
    seq.wait_until_idle(BusyPolarity::ActiveLow);
    assert(final(seq)@ =~~= old(seq)@ + update_red_ops(buffer@));
}

/// Number of bytes in one RAM plane of the panel.
fn ram_plane_len() -> (len: u32)
    ensures
        len == plane_len(),
{
    (HEIGHT as u32 + 7) / 8 * (WIDTH as u32)
}

fn push_clear(seq: &mut CommandSequence, command: u8, color: Color)
    ensures
        final(seq)@ == old(seq)@ + seq![
            OpModel::Command(command),
            OpModel::DataRepeat(color.spec_byte_value(), plane_len()),
        ],
{
    let byte = color.get_byte_value();
    seq.cmd(command);
    seq.data_x_times(byte, ram_plane_len());
    assert(final(seq)@ =~~= old(seq)@ + seq![
        OpModel::Command(command),
        OpModel::DataRepeat(color.spec_byte_value(), plane_len()),
    ]);
}

fn push_begin(seq: &mut CommandSequence)
    ensures
        final(seq)@ == old(seq)@ + begin_ops(),
{
    seq.hard_reset();
    push_sleep(seq);
    assert(final(seq)@ =~~= old(seq)@ + begin_ops());
}

/// Command sequences of the Adafruit MagTag 2.9" monochrome e-ink display (IL0373 controller).
///
/// The IL0373 busy pin is active-low (LOW = busy, HIGH = ready).
///
/// Full refreshes use the factory OTP waveform (no custom LUT is loaded).
/// Use [`Display2in9Mono`] as the graphics buffer.
#[derive(Clone, Copy, Debug)]
pub struct ThinkInk2in9Mono;

impl ThinkInk2in9Mono {
    /// Create a new MagTag 2.9" IL0373 monochrome display driver.
    pub fn new() -> (driver: Self) {
        ThinkInk2in9Mono
    }

    /// Initialize for full monochrome operation using the factory OTP waveform.
    ///
    /// PANEL_SETTING `0x1f` selects OTP waveform (bit 5 = 0), so no custom LUT
    /// is loaded. Matches Adafruit's `ti_290t5_monofull_init_code`.
    pub fn init(&self) -> (seq: CommandSequence)
        ensures
            seq@ == mono_init_ops(),
    {
        let mut seq = CommandSequence::new();
        push_mono_init(&mut seq);
        seq
    }

    /// Power down the display controller.
    pub fn sleep(&self) -> (seq: CommandSequence)
        ensures
            seq@ == sleep_ops(),
    {
        let mut seq = CommandSequence::new();
        push_sleep(&mut seq);
        seq
    }

    /// Write `buffer` to the black/white RAM plane (DTM1) and wait until ready.
    pub fn update_bw(&self, buffer: &[u8]) -> (seq: CommandSequence)
        ensures
            seq@ == update_bw_ops(buffer@),
    {
        let mut seq = CommandSequence::new();
        push_update_bw(&mut seq, buffer);
        seq
    }

    /// DTM2 is not used in mono OTP mode; this sends nothing.
    pub fn update_red(&self, buffer: &[u8]) -> (seq: CommandSequence)
        ensures
            seq@ == Seq::<OpModel>::empty(),
    {
        CommandSequence::new()
    }

    /// Write the BW plane and wait until ready. DTM2 is ignored in mono OTP mode.
    pub fn update(&self, bw_buffer: &[u8], red_buffer: &[u8]) -> (seq: CommandSequence)
        ensures
            seq@ == update_bw_ops(bw_buffer@),
    {
        let mut seq = CommandSequence::new();
        push_update_bw(&mut seq, bw_buffer);
        seq
    }

    /// Fill the black/white RAM plane (DTM1) with white, clearing it.
    pub fn clear_bw_ram(&self) -> (seq: CommandSequence)
        ensures
            seq@ == clear_bw_ram_ops(),
    {
        let mut seq = CommandSequence::new();
        push_clear(&mut seq, Il0373Cmd::DTM1, Color::White);
        seq
    }

    /// DTM2 is not used in mono OTP mode; this sends nothing.
    pub fn clear_red_ram(&self) -> (seq: CommandSequence)
        ensures
            seq@ == Seq::<OpModel>::empty(),
    {
        CommandSequence::new()
    }

    /// Hardware-reset the panel and put it into a low-power sleep state.
    pub fn begin(&self) -> (seq: CommandSequence)
        ensures
            seq@ == begin_ops(),
    {
        let mut seq = CommandSequence::new();
        push_begin(&mut seq);
        seq
    }

    /// Write the black/white buffer to the display and trigger a full refresh:
    /// initialise, write the plane, refresh, power down.
    pub fn update_and_display(&self, bw_buffer: &[u8]) -> (seq: CommandSequence)
        ensures
            seq@ == mono_update_and_display_ops(bw_buffer@),
    {
        let mut seq = CommandSequence::new();
        push_mono_init(&mut seq);
        push_update_bw(&mut seq, bw_buffer);
        push_display(&mut seq);
        push_sleep(&mut seq);
        assert(seq@ =~~= mono_update_and_display_ops(bw_buffer@));
        seq
    }
}

/// Command sequences of the Adafruit MagTag 2.9" 4-level grayscale e-ink display (IL0373 controller).
///
/// The IL0373 busy pin is active-low (LOW = busy, HIGH = ready), which is the
/// opposite of the SSD1680.
#[derive(Clone, Copy, Debug)]
pub struct ThinkInk2in9Gray2;

impl ThinkInk2in9Gray2 {
    /// Create a new MagTag 2.9" IL0373 grayscale display driver.
    pub fn new() -> (driver: Self) {
        ThinkInk2in9Gray2
    }

    /// Reset and fully initialize the display for 4-level grayscale operation:
    /// power and panel configuration, the five waveform LUT tables, and the
    /// panel resolution.
    pub fn init(&self) -> (seq: CommandSequence)
        ensures
            seq@ == gray2_init_ops(),
    {
        let mut seq = CommandSequence::new();
        push_gray2_init(&mut seq);
        seq
    }

    /// Power down the display controller.
    pub fn sleep(&self) -> (seq: CommandSequence)
        ensures
            seq@ == sleep_ops(),
    {
        let mut seq = CommandSequence::new();
        push_sleep(&mut seq);
        seq
    }

    /// Write `buffer` to the black/white RAM plane (DTM1) and wait until ready.
    pub fn update_bw(&self, buffer: &[u8]) -> (seq: CommandSequence)
        ensures
            seq@ == update_bw_ops(buffer@),
    {
        let mut seq = CommandSequence::new();
        push_update_bw(&mut seq, buffer);
        seq
    }

    /// Write `buffer` to the color RAM plane (DTM2) and wait until ready.
    pub fn update_red(&self, buffer: &[u8]) -> (seq: CommandSequence)
        ensures
            seq@ == update_red_ops(buffer@),
    {
        let mut seq = CommandSequence::new();
        push_update_red(&mut seq, buffer);
        seq
    }

    /// Write both RAM planes (DTM1 then DTM2) and wait until ready; no refresh.
    pub fn update(&self, bw_buffer: &[u8], red_buffer: &[u8]) -> (seq: CommandSequence)
        ensures
            seq@ == update_ops(bw_buffer@, red_buffer@),
    {
        let mut seq = CommandSequence::new();
        seq.cmd_with_data(Il0373Cmd::DTM1, bw_buffer);
        seq.cmd_with_data(Il0373Cmd::DTM2, red_buffer);
        seq.wait_until_idle(BusyPolarity::ActiveLow);
        assert(seq@ =~~= update_ops(bw_buffer@, red_buffer@));
        seq
    }

    /// Fill the black/white RAM plane (DTM1) with white, clearing it.
    pub fn clear_bw_ram(&self) -> (seq: CommandSequence)
        ensures
            seq@ == clear_bw_ram_ops(),
    {
        let mut seq = CommandSequence::new();
        push_clear(&mut seq, Il0373Cmd::DTM1, Color::White);
        seq
    }

    /// Fill the color RAM plane (DTM2) with its cleared state.
    pub fn clear_red_ram(&self) -> (seq: CommandSequence)
        ensures
            seq@ == clear_red_ram_ops(),
    {
        let mut seq = CommandSequence::new();
        push_clear(&mut seq, Il0373Cmd::DTM2, Color::White.inverse());
        seq
    }

    /// Hardware-reset the panel and put it into a low-power sleep state.
    pub fn begin(&self) -> (seq: CommandSequence)
        ensures
            seq@ == begin_ops(),
    {
        let mut seq = CommandSequence::new();
        push_begin(&mut seq);
        seq
    }

    /// Write both Gray2 framebuffer planes to the display and trigger a full
    /// refresh: `high_buffer` to DTM1, `low_buffer` to DTM2, refresh, power down.
    pub fn update_gray2_and_display(&self, high_buffer: &[u8], low_buffer: &[u8]) -> (seq: CommandSequence)
        ensures
            seq@ == gray2_update_and_display_ops(high_buffer@, low_buffer@),
    {
        let mut seq = CommandSequence::new();
        push_gray2_init(&mut seq);
        push_update_bw(&mut seq, high_buffer);
        push_update_red(&mut seq, low_buffer);
        push_display(&mut seq);
        push_sleep(&mut seq);
        assert(seq@ =~~= gray2_update_and_display_ops(high_buffer@, low_buffer@));
        seq
    }
}

/// The RESOLUTION data give the panel's 128 gate lines and its 296 source
/// lines, the latter as high byte then low byte.
pub proof fn lemma_resolution_matches_panel()
    ensures
        resolution_data().len() == 3,
        resolution_data()[0] == HEIGHT,
        256 * resolution_data()[1] + resolution_data()[2] == WIDTH,
{
    assert((HEIGHT & 0xFF) == 128u16) by (bit_vector);
    assert(((WIDTH >> 8u16) & 0xFF) == 1u16) by (bit_vector);
    assert((WIDTH & 0xFF) == 40u16) by (bit_vector);
}

/// Clearing a RAM plane writes exactly as many bytes as a graphics buffer holds.
pub proof fn lemma_clear_covers_buffer()
    ensures
        plane_len() == crate::graphics::display290_mono::BUFFER_LEN,
{
}

/// The refresh of a full update runs to its end before the panel is powered
/// down: DISPLAY_REFRESH is followed directly by a 100 ms pause for the refresh
/// to start and a wait until the (active-low) busy pin shows it done, and every
/// POWER_OFF comes after that wait.
pub open spec fn refresh_completes_before_power_off(ops: Seq<OpModel>) -> bool {
    &&& forall|i: int|
        0 <= i < ops.len() && #[trigger] ops[i] == OpModel::Command(Il0373Cmd::DISPLAY_REFRESH) ==> {
            &&& i + 2 < ops.len()
            &&& ops[i + 1] == OpModel::DelayMs(100)
            &&& ops[i + 2] == OpModel::WaitUntilIdle(BusyPolarity::ActiveLow)
        }
    &&& exists|r: int|
        0 <= r && r + 2 < ops.len() && #[trigger] ops[r] == OpModel::Command(Il0373Cmd::DISPLAY_REFRESH) && forall|j: int|
            0 <= j < ops.len() && #[trigger] ops[j] == OpModel::Command(Il0373Cmd::POWER_OFF) ==> r + 2 < j
}

/// The IL0373 busy pin is active-low: no sequence waits on an active-high pin.
pub open spec fn waits_active_low(ops: Seq<OpModel>) -> bool {
    never_sends(ops, OpModel::WaitUntilIdle(BusyPolarity::ActiveHigh))
}

/// Each of the five Gray4 waveform registers is sent, and always with the table
/// named for it.
pub open spec fn loads_gray4_luts(ops: Seq<OpModel>) -> bool {
    &&& sends_then(ops, OpModel::Command(Il0373Cmd::LUT1), OpModel::Data(TI_290T5_GRAY4_LUT1@))
    &&& always_followed_by(ops, OpModel::Command(Il0373Cmd::LUT1), OpModel::Data(TI_290T5_GRAY4_LUT1@))
    &&& sends_then(ops, OpModel::Command(Il0373Cmd::LUTWW), OpModel::Data(TI_290T5_GRAY4_LUTWW@))
    &&& always_followed_by(ops, OpModel::Command(Il0373Cmd::LUTWW), OpModel::Data(TI_290T5_GRAY4_LUTWW@))
    &&& sends_then(ops, OpModel::Command(Il0373Cmd::LUTBW), OpModel::Data(TI_290T5_GRAY4_LUTBW@))
    &&& always_followed_by(ops, OpModel::Command(Il0373Cmd::LUTBW), OpModel::Data(TI_290T5_GRAY4_LUTBW@))
    &&& sends_then(ops, OpModel::Command(Il0373Cmd::LUTWB), OpModel::Data(TI_290T5_GRAY4_LUTWB@))
    &&& always_followed_by(ops, OpModel::Command(Il0373Cmd::LUTWB), OpModel::Data(TI_290T5_GRAY4_LUTWB@))
    &&& sends_then(ops, OpModel::Command(Il0373Cmd::LUTBB), OpModel::Data(TI_290T5_GRAY4_LUTBB@))
    &&& always_followed_by(ops, OpModel::Command(Il0373Cmd::LUTBB), OpModel::Data(TI_290T5_GRAY4_LUTBB@))
}

/// `buffer` is written to the RAM of the DTM command `command`, and that
/// command always carries `buffer`.
pub open spec fn writes_ram(ops: Seq<OpModel>, command: u8, buffer: Seq<u8>) -> bool {
    &&& sends_then(ops, OpModel::Command(command), OpModel::Data(buffer))
    &&& always_followed_by(ops, OpModel::Command(command), OpModel::Data(buffer))
}

/// Power-on completes before anything else is configured: POWER_ON is always
/// followed by a wait on the active-low busy pin.
pub open spec fn waits_after_power_on(ops: Seq<OpModel>) -> bool {
    &&& sends_then(ops, OpModel::Command(Il0373Cmd::POWER_ON), OpModel::WaitUntilIdle(BusyPolarity::ActiveLow))
    &&& always_followed_by(ops, OpModel::Command(Il0373Cmd::POWER_ON), OpModel::WaitUntilIdle(BusyPolarity::ActiveLow))
}

/// The mono full update starts with a hardware reset, powers on and waits for
/// the panel, sends the frame to the black/white RAM (DTM1) and never to the
/// colour RAM (DTM2), which mono OTP mode ignores, refreshes to the end before
/// powering down, and waits only on the active-low busy pin.
pub proof fn lemma_mono_update_and_display_effects(bw_buffer: Seq<u8>)
    ensures
        ({
            let ops = mono_update_and_display_ops(bw_buffer);
            &&& ops[0] == OpModel::HardReset
            &&& waits_after_power_on(ops)
            &&& writes_ram(ops, Il0373Cmd::DTM1, bw_buffer)
            &&& never_sends(ops, OpModel::Command(Il0373Cmd::DTM2))
            &&& refresh_completes_before_power_off(ops)
            &&& ops[ops.len() - 2] == OpModel::Command(Il0373Cmd::POWER_OFF)
            &&& waits_active_low(ops)
        }),
{
    let ops = mono_update_and_display_ops(bw_buffer);
    assert(ops[10] == OpModel::Command(Il0373Cmd::DTM1));
    assert(ops[3] == OpModel::Command(Il0373Cmd::POWER_ON));
    assert(ops[13] == OpModel::Command(Il0373Cmd::DISPLAY_REFRESH));
}

/// The grayscale full update starts with a hardware reset, powers on and waits
/// for the panel, and loads each Gray4 waveform table into the register named
/// for it.
#[verifier::rlimit(40)]
pub proof fn lemma_gray2_update_and_display_loads_luts(high_buffer: Seq<u8>, low_buffer: Seq<u8>)
    ensures
        ({
            let ops = gray2_update_and_display_ops(high_buffer, low_buffer);
            &&& ops[0] == OpModel::HardReset
            &&& waits_after_power_on(ops)
            &&& loads_gray4_luts(ops)
        }),
{
    let ops = gray2_update_and_display_ops(high_buffer, low_buffer);
    assert(ops[5] == OpModel::Command(Il0373Cmd::POWER_ON));
    assert(ops[16] == OpModel::Command(Il0373Cmd::LUT1));
    assert(ops[18] == OpModel::Command(Il0373Cmd::LUTWW));
    assert(ops[20] == OpModel::Command(Il0373Cmd::LUTBW));
    assert(ops[22] == OpModel::Command(Il0373Cmd::LUTWB));
    assert(ops[24] == OpModel::Command(Il0373Cmd::LUTBB));
}

/// The grayscale full update sends the high plane to the black/white RAM
/// (DTM1) and the low plane to the colour RAM (DTM2).
#[verifier::rlimit(40)]
pub proof fn lemma_gray2_update_and_display_routes_planes(high_buffer: Seq<u8>, low_buffer: Seq<u8>)
    ensures
        ({
            let ops = gray2_update_and_display_ops(high_buffer, low_buffer);
            &&& writes_ram(ops, Il0373Cmd::DTM1, high_buffer)
            &&& writes_ram(ops, Il0373Cmd::DTM2, low_buffer)
        }),
{
    let ops = gray2_update_and_display_ops(high_buffer, low_buffer);
    assert(ops[28] == OpModel::Command(Il0373Cmd::DTM1));
    assert(ops[31] == OpModel::Command(Il0373Cmd::DTM2));
}

/// The grayscale full update refreshes to the end before powering down, ends
/// powered off, and waits only on the active-low busy pin.
#[verifier::rlimit(40)]
pub proof fn lemma_gray2_update_and_display_refreshes(high_buffer: Seq<u8>, low_buffer: Seq<u8>)
    ensures
        ({
            let ops = gray2_update_and_display_ops(high_buffer, low_buffer);
            &&& refresh_completes_before_power_off(ops)
            &&& ops[ops.len() - 2] == OpModel::Command(Il0373Cmd::POWER_OFF)
            &&& waits_active_low(ops)
        }),
{
    let ops = gray2_update_and_display_ops(high_buffer, low_buffer);
    assert(ops[34] == OpModel::Command(Il0373Cmd::DISPLAY_REFRESH));
}

/// The grayscale initialisation loads each Gray4 waveform table into the
/// register named for it and waits for power-on on the active-low busy pin.
pub proof fn lemma_gray2_init_effects()
    ensures
        ({
            let ops = gray2_init_ops();
            &&& ops[0] == OpModel::HardReset
            &&& waits_after_power_on(ops)
            &&& loads_gray4_luts(ops)
            &&& writes_ram(ops, Il0373Cmd::RESOLUTION, resolution_data())
            &&& never_sends(ops, OpModel::Command(Il0373Cmd::DTM1))
            &&& never_sends(ops, OpModel::Command(Il0373Cmd::DTM2))
            &&& waits_active_low(ops)
        }),
{
    let ops = gray2_init_ops();
    assert(ops[5] == OpModel::Command(Il0373Cmd::POWER_ON));
    assert(ops[16] == OpModel::Command(Il0373Cmd::LUT1));
    assert(ops[18] == OpModel::Command(Il0373Cmd::LUTWW));
    assert(ops[20] == OpModel::Command(Il0373Cmd::LUTBW));
    assert(ops[22] == OpModel::Command(Il0373Cmd::LUTWB));
    assert(ops[24] == OpModel::Command(Il0373Cmd::LUTBB));
    assert(ops[26] == OpModel::Command(Il0373Cmd::RESOLUTION));
}

/// The mono initialisation uses the factory waveform: it loads no LUT register
/// and writes no RAM.
pub proof fn lemma_mono_init_effects()
    ensures
        ({
            let ops = mono_init_ops();
            &&& ops[0] == OpModel::HardReset
            &&& waits_after_power_on(ops)
            &&& never_sends(ops, OpModel::Command(Il0373Cmd::LUT1))
            &&& never_sends(ops, OpModel::Command(Il0373Cmd::LUTWW))
            &&& never_sends(ops, OpModel::Command(Il0373Cmd::LUTBW))
            &&& never_sends(ops, OpModel::Command(Il0373Cmd::LUTWB))
            &&& never_sends(ops, OpModel::Command(Il0373Cmd::LUTBB))
            &&& never_sends(ops, OpModel::Command(Il0373Cmd::DTM1))
            &&& never_sends(ops, OpModel::Command(Il0373Cmd::DTM2))
            &&& waits_active_low(ops)
        }),
{
    let ops = mono_init_ops();
    assert(ops[3] == OpModel::Command(Il0373Cmd::POWER_ON));
}

/// Writing one plane sends the buffer to that plane's RAM only, then waits on
/// the active-low busy pin; writing both sends the first buffer to DTM1 and
/// the second to DTM2.
pub proof fn lemma_ram_writes_effects(a: Seq<u8>, b: Seq<u8>)
    ensures
        writes_ram(update_bw_ops(a), Il0373Cmd::DTM1, a),
        never_sends(update_bw_ops(a), OpModel::Command(Il0373Cmd::DTM2)),
        update_bw_ops(a).last() == OpModel::WaitUntilIdle(BusyPolarity::ActiveLow),
        writes_ram(update_red_ops(a), Il0373Cmd::DTM2, a),
        never_sends(update_red_ops(a), OpModel::Command(Il0373Cmd::DTM1)),
        update_red_ops(a).last() == OpModel::WaitUntilIdle(BusyPolarity::ActiveLow),
        writes_ram(update_ops(a, b), Il0373Cmd::DTM1, a),
        writes_ram(update_ops(a, b), Il0373Cmd::DTM2, b),
        update_ops(a, b).last() == OpModel::WaitUntilIdle(BusyPolarity::ActiveLow),
        waits_active_low(update_ops(a, b)),
{
    assert(update_bw_ops(a)[0] == OpModel::Command(Il0373Cmd::DTM1));
    assert(update_red_ops(a)[0] == OpModel::Command(Il0373Cmd::DTM2));
    assert(update_ops(a, b)[0] == OpModel::Command(Il0373Cmd::DTM1));
    assert(update_ops(a, b)[2] == OpModel::Command(Il0373Cmd::DTM2));
}

/// Clearing fills a RAM plane with as many bytes as the frame buffer holds:
/// the black/white plane (DTM1) with the white byte, the colour plane (DTM2)
/// with its inverse; power-down floats the border, discharges VCOM and ends
/// with POWER_OFF; `begin` resets before powering down.
pub proof fn lemma_clear_sleep_begin_effects()
    ensures
        sends_then(
            clear_bw_ram_ops(),
            OpModel::Command(Il0373Cmd::DTM1),
            OpModel::DataRepeat(0xFF, crate::graphics::display290_mono::BUFFER_LEN as u32),
        ),
        clear_bw_ram_ops().len() == 2,
        sends_then(
            clear_red_ram_ops(),
            OpModel::Command(Il0373Cmd::DTM2),
            OpModel::DataRepeat(0x00, crate::graphics::display290_mono::BUFFER_LEN as u32),
        ),
        clear_red_ram_ops().len() == 2,
        sleep_ops()[sleep_ops().len() - 2] == OpModel::Command(Il0373Cmd::POWER_OFF),
        sends_then(sleep_ops(), OpModel::Command(Il0373Cmd::CDI), OpModel::Data(seq![0x17u8])),
        begin_ops()[0] == OpModel::HardReset,
        begin_ops().drop_first() == sleep_ops(),
        waits_active_low(display_ops()),
        refresh_completes_before_power_off(display_ops() + sleep_ops()),
{
    assert(clear_bw_ram_ops()[0] == OpModel::Command(Il0373Cmd::DTM1));
    assert(clear_red_ram_ops()[0] == OpModel::Command(Il0373Cmd::DTM2));
    assert(sleep_ops()[0] == OpModel::Command(Il0373Cmd::CDI));
    assert(begin_ops().drop_first() =~= sleep_ops());
    let ops = display_ops() + sleep_ops();
    assert(ops[0] == OpModel::Command(Il0373Cmd::DISPLAY_REFRESH));
}

} // verus!
