use epd_datafuri::displays::adafruit_thinkink_290_mfgn as mfgn;
use epd_datafuri::displays::adafruit_thinkink_290_t5 as t5;
use epd_datafuri::driver::il0373::Il0373Cmd;
use epd_datafuri::driver::ssd1680::{Cmd, Flag};
use epd_datafuri::driver::{BusyPolarity, CommandSequence, Op, Transaction};

fn data(bytes: &[u8]) -> Op {
    Op::Data(bytes.to_vec())
}

#[test]
fn busy_polarity() {
    assert!(BusyPolarity::ActiveHigh.is_busy(true));
    assert!(!BusyPolarity::ActiveHigh.is_busy(false));
    assert!(BusyPolarity::ActiveLow.is_busy(false));
    assert!(!BusyPolarity::ActiveLow.is_busy(true));
}

#[test]
fn command_sequence_builds_in_order() {
    let mut seq = CommandSequence::new();
    seq.hard_reset();
    seq.cmd_with_data(0x44, &[1, 2]);
    seq.cmd_with_byte(0x10, 0x01);
    seq.data_x_times(0xFF, 3);
    seq.wait_until_idle(BusyPolarity::ActiveLow);
    seq.delay_ms(7);
    let mut other = CommandSequence::new();
    other.cmd(0x20);
    seq.append(other);
    assert_eq!(
        seq.into_ops(),
        vec![
            Op::HardReset,
            Op::Command(0x44),
            data(&[1, 2]),
            Op::Command(0x10),
            data(&[0x01]),
            Op::DataRepeat(0xFF, 3),
            Op::WaitUntilIdle(BusyPolarity::ActiveLow),
            Op::DelayMs(7),
            Op::Command(0x20),
        ]
    );
}

#[test]
fn transaction_all_succeed() {
    let driver = mfgn::ThinkInk2in9Mono::new();
    let mut t: Transaction<&'static str> = Transaction::new(driver.sleep());
    let mut performed = Vec::new();
    while let Some(op) = t.next_op() {
        performed.push(format!("{op:?}"));
        t.record(Ok(()));
    }
    assert_eq!(performed.len(), 3);
    assert_eq!(t.finish(), Ok(()));
}

#[test]
fn transaction_stops_at_first_error() {
    let driver = mfgn::ThinkInk2in9Mono::new();
    let mut t: Transaction<u32> = Transaction::new(driver.init());
    let mut count = 0u32;
    while let Some(_op) = t.next_op() {
        count += 1;
        if count == 4 {
            t.record(Err(4));
        } else if count == 6 {
            t.record(Err(6));
        } else {
            t.record(Ok(()));
        }
    }
    assert_eq!(count, 4);
    assert_eq!(t.finish(), Err(4));
}

#[test]
fn transaction_of_nothing_succeeds() {
    let t: Transaction<u32> = Transaction::new(CommandSequence::new());
    assert!(t.next_op().is_none());
    assert_eq!(t.finish(), Ok(()));
}

#[test]
fn ssd1680_init_sequence() {
    let ops = mfgn::ThinkInk2in9Mono::new().init().into_ops();
    let expected = vec![
        Op::HardReset,
        Op::Command(Cmd::SW_RESET),
        Op::DelayMs(10),
        Op::Command(Cmd::DRIVER_OUTPUT_CTRL),
        data(&[0x27, 0x01, 0x00]),
        Op::Command(Cmd::DATA_ENTRY_MODE),
        data(&[Flag::DATA_ENTRY_INCRY_INCRX]),
        Op::Command(Cmd::SET_RAMXPOS),
        data(&[0x00, 0x0F]),
        Op::Command(Cmd::SET_RAMYPOS),
        data(&[0x00, 0x00, 0x27, 0x01]),
        Op::Command(Cmd::BORDER_WAVEFORM_CTRL),
        data(&[0x05]),
        Op::Command(Cmd::TEMP_CONTROL),
        data(&[0x80]),
        Op::Command(Cmd::DISPLAY_UPDATE_CTRL1),
        data(&[0x00, 0x80]),
        Op::Command(Cmd::END_OPTION),
        data(&[0x22]),
        Op::Command(Cmd::GATE_VOLTAGE_CTRL),
        data(&[0x17]),
        Op::Command(Cmd::SOURCE_VOLTAGE_CTRL),
        data(&[0x41, 0x00, 0x32]),
        Op::Command(Cmd::WRITE_VCOM_REG),
        data(&[0x36]),
        Op::Command(0x32),
        data(&mfgn::TI_290_MONOFULL_LUT_CODE),
        Op::WaitUntilIdle(BusyPolarity::ActiveHigh),
    ];
    assert_eq!(ops, expected);
    let gray = mfgn::ThinkInk2in9Gray2::new().init().into_ops();
    assert_eq!(gray.len(), expected.len());
    assert_eq!(gray[26], data(&mfgn::TI_290MFGN_GRAY2_LUT_CODE));
    assert_eq!(gray[..26], expected[..26]);
}

#[test]
fn ssd1680_buffer_writes_reset_ram_counter() {
    let buffer = [0xAAu8; 5];
    let ops = mfgn::ThinkInk2in9Mono::new().update_bw(&buffer).into_ops();
    assert_eq!(
        ops,
        vec![
            Op::Command(0x4E),
            data(&[0]),
            Op::Command(0x4F),
            data(&[0, 0]),
            Op::Command(0x24),
            data(&buffer),
            Op::WaitUntilIdle(BusyPolarity::ActiveHigh),
        ]
    );
    let red = mfgn::ThinkInk2in9Gray2::new().update_red(&buffer).into_ops();
    assert_eq!(red[4], Op::Command(0x26));
    let both = mfgn::ThinkInk2in9Mono::new().update(&[1], &[2]).into_ops();
    assert_eq!(both.len(), 13);
    assert_eq!(both[5], data(&[1]));
    assert_eq!(both[10], Op::Command(0x26));
    assert_eq!(both[11], data(&[2]));
    assert_eq!(both[12], Op::WaitUntilIdle(BusyPolarity::ActiveHigh));
}

#[test]
fn ssd1680_clear_and_sleep() {
    let driver = mfgn::ThinkInk2in9Gray2::new();
    assert_eq!(driver.clear_bw_ram().into_ops(), vec![Op::Command(0x24), Op::DataRepeat(0xFF, 4736)]);
    assert_eq!(driver.clear_red_ram().into_ops(), vec![Op::Command(0x26), Op::DataRepeat(0x00, 4736)]);
    assert_eq!(driver.sleep().into_ops(), vec![Op::Command(0x10), data(&[0x01]), Op::DelayMs(1)]);
    assert_eq!(
        driver.begin().into_ops(),
        vec![Op::HardReset, Op::Command(0x10), data(&[0x01]), Op::DelayMs(1)]
    );
}

#[test]
fn ssd1680_clear_display_refreshes_twice() {
    let ops = mfgn::ThinkInk2in9Mono::new().clear_display().into_ops();
    let refresh = vec![
        Op::Command(0x22),
        data(&[0xC7]),
        Op::Command(0x20),
        Op::WaitUntilIdle(BusyPolarity::ActiveHigh),
    ];
    let mut expected = vec![
        Op::Command(0x24),
        Op::DataRepeat(0xFF, 4736),
        Op::Command(0x26),
        Op::DataRepeat(0x00, 4736),
    ];
    expected.extend(refresh.iter().cloned_ops());
    expected.push(Op::DelayMs(100));
    expected.extend(refresh.iter().cloned_ops());
    assert_eq!(ops, expected);
}

trait ClonedOps<'a> {
    fn cloned_ops(self) -> Vec<Op>;
}

impl<'a, I: Iterator<Item = &'a Op>> ClonedOps<'a> for I {
    fn cloned_ops(self) -> Vec<Op> {
        self.map(|op| match op {
            Op::Command(c) => Op::Command(*c),
            Op::Data(d) => Op::Data(d.clone()),
            Op::DataRepeat(b, n) => Op::DataRepeat(*b, *n),
            Op::HardReset => Op::HardReset,
            Op::WaitUntilIdle(p) => Op::WaitUntilIdle(*p),
            Op::DelayMs(ms) => Op::DelayMs(*ms),
        })
        .collect()
    }
}

#[test]
fn ssd1680_full_updates_compose() {
    let driver = mfgn::ThinkInk2in9Gray2::new();
    let bw = [1u8, 2, 3];
    let red = [4u8, 5];
    let mut expected = driver.init().into_ops();
    expected.extend(driver.update_bw(&bw).into_ops());
    expected.extend(driver.update_red(&red).into_ops());
    let refresh = vec![
        Op::Command(0x22),
        data(&[0xC7]),
        Op::Command(0x20),
        Op::WaitUntilIdle(BusyPolarity::ActiveHigh),
    ];
    expected.extend(refresh.iter().cloned_ops());
    expected.extend(driver.sleep().into_ops());
    assert_eq!(driver.update_gray2_and_display(&bw, &red).into_ops(), expected);

    let mono = mfgn::ThinkInk2in9Mono::new();
    let mut expected = mono.init().into_ops();
    expected.extend(mono.update_bw(&bw).into_ops());
    expected.extend(refresh.iter().cloned_ops());
    expected.extend(mono.sleep().into_ops());
    assert_eq!(mono.update_and_display(&bw).into_ops(), expected);
}

#[test]
fn il0373_mono_sequences() {
    let driver = t5::ThinkInk2in9Mono::new();
    assert_eq!(
        driver.init().into_ops(),
        vec![
            Op::HardReset,
            Op::Command(Il0373Cmd::BOOSTER_SOFT_START),
            data(&[0x17, 0x17, 0x17]),
            Op::Command(Il0373Cmd::POWER_ON),
            Op::WaitUntilIdle(BusyPolarity::ActiveLow),
            Op::DelayMs(200),
            Op::Command(Il0373Cmd::PANEL_SETTING),
            data(&[0x1f, 0x0d]),
            Op::Command(Il0373Cmd::CDI),
            data(&[0x97]),
        ]
    );
    assert_eq!(
        driver.sleep().into_ops(),
        vec![
            Op::Command(0x50),
            data(&[0x17]),
            Op::Command(0x82),
            Op::Command(0x02),
            Op::DelayMs(1),
        ]
    );
    assert!(driver.update_red(&[1, 2, 3]).into_ops().is_empty());
    assert!(driver.clear_red_ram().into_ops().is_empty());
    assert_eq!(
        driver.update(&[9], &[8]).into_ops(),
        vec![Op::Command(0x10), data(&[9]), Op::WaitUntilIdle(BusyPolarity::ActiveLow)]
    );
    assert_eq!(driver.clear_bw_ram().into_ops(), vec![Op::Command(0x10), Op::DataRepeat(0xFF, 4736)]);
    let full = driver.update_and_display(&[7]).into_ops();
    assert_eq!(full.len(), 10 + 3 + 3 + 5);
    assert_eq!(full[13], Op::Command(Il0373Cmd::DISPLAY_REFRESH));
    assert_eq!(full[14], Op::DelayMs(100));
    assert_eq!(full[15], Op::WaitUntilIdle(BusyPolarity::ActiveLow));
    assert_eq!(driver.begin().into_ops()[0], Op::HardReset);
}

#[test]
fn il0373_gray2_sequences() {
    let driver = t5::ThinkInk2in9Gray2::new();
    let ops = driver.init().into_ops();
    assert_eq!(ops.len(), 1 + 2 + 5 + 8 + 10 + 2);
    assert_eq!(ops[1], Op::Command(Il0373Cmd::POWER_SETTING));
    assert_eq!(ops[2], data(&[0x03, 0x00, 0x2b, 0x2b, 0x13]));
    assert_eq!(ops[8], Op::Command(Il0373Cmd::PANEL_SETTING));
    assert_eq!(ops[9], data(&[0x3F]));
    assert_eq!(ops[17], data(&t5::TI_290T5_GRAY4_LUT1));
    assert_eq!(ops[24], Op::Command(Il0373Cmd::LUTBB));
    assert_eq!(ops[25], data(&t5::TI_290T5_GRAY4_LUTBB));
    assert_eq!(ops[26], Op::Command(Il0373Cmd::RESOLUTION));
    assert_eq!(ops[27], data(&[0x80, 0x01, 0x28]));
    assert_eq!(
        driver.update(&[1], &[2]).into_ops(),
        vec![
            Op::Command(0x10),
            data(&[1]),
            Op::Command(0x13),
            data(&[2]),
            Op::WaitUntilIdle(BusyPolarity::ActiveLow),
        ]
    );
    assert_eq!(driver.clear_red_ram().into_ops(), vec![Op::Command(0x13), Op::DataRepeat(0x00, 4736)]);
    let full = driver.update_gray2_and_display(&[1], &[2]).into_ops();
    assert_eq!(full.len(), 28 + 3 + 3 + 3 + 5);
    assert_eq!(full[28], Op::Command(0x10));
    assert_eq!(full[31], Op::Command(0x13));
    assert_eq!(full[34], Op::Command(0x12));
}

#[test]
fn command_constants() {
    assert_eq!(Cmd::WRITE_LUT_REG, 0x32);
    assert_eq!(Flag::BORDER_WAVEFORM_FOLLOW_LUT | Flag::BORDER_WAVEFORM_LUT1, 0x05);
    assert_eq!(Il0373Cmd::DTM2, 0x13);
    assert_eq!(mfgn::TI_290_MONOFULL_LUT_CODE.len(), 153);
    assert_eq!(t5::TI_290T5_GRAY4_LUTWW.len(), 42);
}

#[test]
fn il0373_gray2_uses_the_two_plane_buffer() {
    let mut display = t5::Display2in9Gray2::new();
    display.clear_buffer(epd_datafuri::color::GrayLevel::new(1));
    let ops = t5::ThinkInk2in9Gray2::new()
        .update_gray2_and_display(display.high_buffer(), display.low_buffer())
        .into_ops();
    assert_eq!(ops[29], data(&[0xFF; 4736]));
    assert_eq!(ops[32], data(&[0x00; 4736]));
}
