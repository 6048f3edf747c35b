use ssd1322_rs::instruction::consts::{
    BUF_COL_MAX, NUM_BUF_COLS, NUM_PIXEL_COLS, NUM_PIXEL_ROWS, PIXEL_COL_MAX, PIXEL_ROW_MAX,
};
use ssd1322_rs::instruction::{
    ColumnRemap, ComLayout, ComScanDirection, Command, CommandData, CommandError, DisplayMode,
    FunctionSelection, IncrementAxis, NibbleRemap,
};

fn encoded(command: Command) -> (u8, Vec<u8>) {
    let data: CommandData = command.prepare().unwrap();
    assert!(data.len <= 2);
    for unused in data.len..2 {
        assert_eq!(data.data[unused], 0);
    }
    (data.cmd, data.data[..data.len].to_vec())
}

fn rejected(command: Command) -> bool {
    match command.prepare() {
        Err(CommandError::OutOfRange) => true,
        _ => false,
    }
}

#[test]
fn constants_describe_the_controller() {
    assert_eq!(NUM_PIXEL_COLS, 480);
    assert_eq!(NUM_PIXEL_ROWS, 128);
    assert_eq!(NUM_BUF_COLS, 120);
    assert_eq!(PIXEL_COL_MAX, 479);
    assert_eq!(PIXEL_ROW_MAX, 127);
    assert_eq!(BUF_COL_MAX, 119);
}

#[test]
fn column_address_encodes_both_bytes() {
    assert_eq!(encoded(Command::SetColumnAddress(28, 91)), (0x15, vec![28, 91]));
    assert_eq!(encoded(Command::SetColumnAddress(0, 0)), (0x15, vec![0, 0]));
    assert_eq!(encoded(Command::SetColumnAddress(119, 119)), (0x15, vec![119, 119]));
    assert_eq!(encoded(Command::SetColumnAddress(119, 0)), (0x15, vec![119, 0]));
}

#[test]
fn column_address_accepts_every_pair_up_to_119() {
    for start in 0..=255u8 {
        for end in 0..=255u8 {
            let result = Command::SetColumnAddress(start, end).prepare();
            if start <= 119 && end <= 119 {
                let data = result.unwrap();
                assert_eq!(data.cmd, 0x15);
                assert_eq!(data.len, 2);
                assert_eq!(data.data, [start, end]);
            } else {
                assert_eq!(result.unwrap_err(), CommandError::OutOfRange);
            }
        }
    }
}

#[test]
fn mux_ratio_is_sent_zero_based() {
    for ratio in 0..=255u8 {
        let result = Command::SetMuxRatio(ratio).prepare();
        if (16..=128).contains(&ratio) {
            let data = result.unwrap();
            assert_eq!(data.cmd, 0xCA);
            assert_eq!(data.len, 1);
            assert_eq!(data.data[0], ratio - 1);
        } else {
            assert_eq!(result.unwrap_err(), CommandError::OutOfRange);
        }
    }
}

#[test]
fn mux_ratio_edges() {
    assert_eq!(encoded(Command::SetMuxRatio(16)), (0xCA, vec![15]));
    assert_eq!(encoded(Command::SetMuxRatio(64)), (0xCA, vec![63]));
    assert_eq!(encoded(Command::SetMuxRatio(128)), (0xCA, vec![127]));
    assert!(rejected(Command::SetMuxRatio(0)));
    assert!(rejected(Command::SetMuxRatio(15)));
    assert!(rejected(Command::SetMuxRatio(129)));
}

#[test]
fn commands_without_parameters() {
    assert_eq!(encoded(Command::EnableGrayScaleTable), (0x00, vec![]));
    assert_eq!(encoded(Command::WriteRam), (0x5C, vec![]));
    assert_eq!(encoded(Command::ReadRam), (0x5D, vec![]));
    assert_eq!(encoded(Command::DisablePartialDisplay), (0xA9, vec![]));
    assert_eq!(encoded(Command::SetDefaultGrayScaleTable), (0xB9, vec![]));
    assert_eq!(encoded(Command::SetSleepMode(true)), (0xAE, vec![]));
    assert_eq!(encoded(Command::SetSleepMode(false)), (0xAF, vec![]));
}

#[test]
fn display_mode_selects_the_opcode() {
    assert_eq!(encoded(Command::SetDisplayMode(DisplayMode::BlankDark)), (0xA4, vec![]));
    assert_eq!(encoded(Command::SetDisplayMode(DisplayMode::BlankBright)), (0xA5, vec![]));
    assert_eq!(encoded(Command::SetDisplayMode(DisplayMode::Normal)), (0xA6, vec![]));
    assert_eq!(encoded(Command::SetDisplayMode(DisplayMode::Inverse)), (0xA7, vec![]));
}

#[test]
fn row_address_range() {
    assert_eq!(encoded(Command::SetRowAddress(0, 63)), (0x75, vec![0, 63]));
    assert_eq!(encoded(Command::SetRowAddress(127, 127)), (0x75, vec![127, 127]));
    assert_eq!(encoded(Command::SetRowAddress(100, 3)), (0x75, vec![100, 3]));
    assert!(rejected(Command::SetRowAddress(128, 0)));
    assert!(rejected(Command::SetRowAddress(0, 128)));
}

#[test]
fn start_line_and_offset() {
    assert_eq!(encoded(Command::SetStartLine(0)), (0xA1, vec![0]));
    assert_eq!(encoded(Command::SetStartLine(127)), (0xA1, vec![127]));
    assert!(rejected(Command::SetStartLine(128)));
    assert_eq!(encoded(Command::SetDisplayOffset(40)), (0xA2, vec![40]));
    assert_eq!(encoded(Command::SetDisplayOffset(127)), (0xA2, vec![127]));
    assert!(rejected(Command::SetDisplayOffset(128)));
}

#[test]
fn partial_display_wants_an_ordered_range() {
    assert_eq!(encoded(Command::EnablePartialDisplay(3, 100)), (0xA8, vec![3, 100]));
    assert_eq!(encoded(Command::EnablePartialDisplay(5, 5)), (0xA8, vec![5, 5]));
    assert_eq!(encoded(Command::EnablePartialDisplay(0, 127)), (0xA8, vec![0, 127]));
    assert!(rejected(Command::EnablePartialDisplay(6, 5)));
    assert!(rejected(Command::EnablePartialDisplay(0, 128)));
    assert!(rejected(Command::EnablePartialDisplay(128, 130)));
}

#[test]
fn function_select() {
    assert_eq!(encoded(Command::FunctionSelect(FunctionSelection::ExternalVDD)), (0xAB, vec![0]));
    assert_eq!(encoded(Command::FunctionSelect(FunctionSelection::InternalVDD)), (0xAB, vec![1]));
}

#[test]
fn phase_lengths_share_one_byte() {
    assert_eq!(encoded(Command::SetPhaseLengths(5, 15)), (0xB1, vec![0xF2]));
    assert_eq!(encoded(Command::SetPhaseLengths(6, 3)), (0xB1, vec![0x32]));
    assert_eq!(encoded(Command::SetPhaseLengths(31, 3)), (0xB1, vec![0x3F]));
    assert_eq!(encoded(Command::SetPhaseLengths(9, 7)), (0xB1, vec![0x74]));
    assert!(rejected(Command::SetPhaseLengths(4, 3)));
    assert!(rejected(Command::SetPhaseLengths(32, 3)));
    assert!(rejected(Command::SetPhaseLengths(5, 2)));
    assert!(rejected(Command::SetPhaseLengths(5, 16)));
}

#[test]
fn phase_lengths_follow_the_formula() {
    for phase_1 in 5..=31u8 {
        for phase_2 in 3..=15u8 {
            let expected = ((phase_1 - 1) / 2) + 16 * phase_2;
            assert_eq!(encoded(Command::SetPhaseLengths(phase_1, phase_2)), (0xB1, vec![expected]));
        }
    }
}

#[test]
fn clock_and_divider_share_one_byte() {
    assert_eq!(encoded(Command::SetClockFoscDivset(10, 1)), (0xB3, vec![0xA1]));
    assert_eq!(encoded(Command::SetClockFoscDivset(15, 10)), (0xB3, vec![0xFA]));
    assert_eq!(encoded(Command::SetClockFoscDivset(0, 0)), (0xB3, vec![0x00]));
    assert!(rejected(Command::SetClockFoscDivset(16, 0)));
    assert!(rejected(Command::SetClockFoscDivset(0, 11)));
}

#[test]
fn display_enhancements() {
    assert_eq!(encoded(Command::SetDisplayEnhancements(true, true)), (0xB4, vec![0xA0, 0xFD]));
    assert_eq!(encoded(Command::SetDisplayEnhancements(true, false)), (0xB4, vec![0xA0, 0xB5]));
    assert_eq!(encoded(Command::SetDisplayEnhancements(false, true)), (0xB4, vec![0xA2, 0xFD]));
    assert_eq!(encoded(Command::SetDisplayEnhancements(false, false)), (0xB4, vec![0xA2, 0xB5]));
}

#[test]
fn voltages_periods_and_contrast() {
    assert_eq!(encoded(Command::SetSecondPrechargePeriod(8)), (0xB6, vec![8]));
    assert_eq!(encoded(Command::SetSecondPrechargePeriod(15)), (0xB6, vec![15]));
    assert!(rejected(Command::SetSecondPrechargePeriod(16)));
    assert_eq!(encoded(Command::SetPreChargeVoltage(31)), (0xBB, vec![31]));
    assert!(rejected(Command::SetPreChargeVoltage(32)));
    assert_eq!(encoded(Command::SetComDeselectVoltage(7)), (0xBE, vec![7]));
    assert!(rejected(Command::SetComDeselectVoltage(8)));
    assert_eq!(encoded(Command::SetContrastCurrent(0)), (0xC1, vec![0]));
    assert_eq!(encoded(Command::SetContrastCurrent(255)), (0xC1, vec![255]));
    assert_eq!(encoded(Command::SetMasterContrast(15)), (0xC7, vec![15]));
    assert!(rejected(Command::SetMasterContrast(16)));
}

#[test]
fn command_lock() {
    assert_eq!(encoded(Command::SetCommandLock(true)), (0xFD, vec![0x16]));
    assert_eq!(encoded(Command::SetCommandLock(false)), (0xFD, vec![0x12]));
}

#[test]
fn remapping_combines_five_settings() {
    let all_off = Command::SetRemapping(
        IncrementAxis::Horizontal,
        ColumnRemap::Forward,
        NibbleRemap::Reverse,
        ComScanDirection::RowZeroFirst,
        ComLayout::Progressive,
    );
    assert_eq!(encoded(all_off), (0xA0, vec![0x00, 0x01]));
    let all_on = Command::SetRemapping(
        IncrementAxis::Vertical,
        ColumnRemap::Reverse,
        NibbleRemap::Forward,
        ComScanDirection::RowZeroLast,
        ComLayout::Interlaced,
    );
    assert_eq!(encoded(all_on), (0xA0, vec![0x37, 0x01]));
    let dual = Command::SetRemapping(
        IncrementAxis::Horizontal,
        ColumnRemap::Forward,
        NibbleRemap::Forward,
        ComScanDirection::RowZeroLast,
        ComLayout::DualProgressive,
    );
    assert_eq!(encoded(dual), (0xA0, vec![0x14, 0x11]));
    let vertical = Command::SetRemapping(
        IncrementAxis::Vertical,
        ColumnRemap::Forward,
        NibbleRemap::Reverse,
        ComScanDirection::RowZeroFirst,
        ComLayout::DualProgressive,
    );
    assert_eq!(encoded(vertical), (0xA0, vec![0x01, 0x11]));
}

#[test]
fn the_two_error_kinds_are_distinct() {
    assert_ne!(CommandError::OutOfRange, CommandError::BadTableLength);
    assert_eq!(format!("{:?}", CommandError::BadTableLength), "BadTableLength");
}

#[test]
fn encoding_does_not_depend_on_history() {
    let first = Command::SetPhaseLengths(7, 9).prepare().unwrap();
    let _ = Command::SetColumnAddress(200, 200).prepare();
    let second = Command::SetPhaseLengths(7, 9).prepare().unwrap();
    assert_eq!(first, second);
}
