//! SSD1322 commands, used to configure and control the display.
//!
//! A [`Command`] is an intent with typed parameters. [`Command::prepare`]
//! checks the parameters against the controller's limits and produces the
//! bytes that go on the wire as a [`CommandData`].

use vstd::prelude::*;

pub mod consts;

verus! {

/// Errors that can occur in commands.
#[derive(Debug, Clone, Copy, PartialEq, Eq)]
pub enum CommandError {
    /// An argument to the command was outside of the valid range.
    OutOfRange,
    /// The gray scale table provided was not the correct length.
    BadTableLength,
}

/// An encoded command: the opcode and up to two parameter bytes.
///
/// Only the first `len` bytes of `data` are parameters; the rest is padding
/// and is never transmitted.
#[derive(Debug, Clone, Copy, PartialEq, Eq)]
pub struct CommandData {
    /// The command byte to be sent to the display.
    pub cmd: u8,
    /// An array containing up to two data bytes to be sent with the command.
    pub data: [u8; 2],
    /// The length of the data to be sent (0, 1, or 2).
    pub len: usize,
}

impl CommandData {
    /// The parameter count fits the parameter array.
    pub open spec fn wf(&self) -> bool {
        self.len <= 2
    }

    /// The parameter bytes that follow the opcode on the wire.
    pub open spec fn parameters(&self) -> Seq<u8> {
        self.data@.subrange(0, self.len as int)
    }
}

/// The address increment orientation when writing image data. This configures how the SSD1322 will
/// auto-increment the row and column addresses when image data is written.
#[derive(Debug, Clone, Copy, PartialEq, Eq)]
pub enum IncrementAxis {
    /// The column address will increment as image data is written, writing pairs of bytes
    /// (horizontal groups of 4 pixels) from left to right in the range set by `SetColumnAddress`
    /// command, and then top to bottom in the range set by `SetRowAddress` command.
    Horizontal,
    /// The row address will increment as image data is written, writing pairs of bytes
    /// (*horizontal* groups of 4 pixels) from top to bottom in the range set by `SetRowAddress`
    /// command, and then left to right in the range set by `SetColumnAddress` command.
    Vertical,
}

/// Setting of column address remapping. This controls the direction of mapping display RAM column
/// addresses onto groups of pixel column driver lines.
#[derive(Debug, Clone, Copy, PartialEq, Eq)]
pub enum ColumnRemap {
    /// Column addresses 0->119 map to pixel columns 0,1,2,3->476,477,478,479.
    Forward,
    /// Column addresses 0->119 map to pixel columns 476,477,478,479->0,1,2,3. Note that the pixels
    /// within each column number in the same order; `NibbleRemap` controls the order of mapping
    /// pixels to nibbles within each column.
    Reverse,
}

/// Setting of data nibble remapping. This controls how the SSD1322 will interpret the nibble-wise
/// endianness of each 2-byte word, changing the order in which each group of 4 pixels is mapped
/// onto the 4 nibbles stored at the corresponding display RAM column address.
#[derive(Debug, Clone, Copy, PartialEq, Eq)]
pub enum NibbleRemap {
    /// The 2-byte sequence at each column address 0xABCD maps (in L->R order) to pixels 3,2,1,0.
    Reverse,
    /// The 2-byte sequence at each column address 0xABCD maps (in L->R order) to pixels 0,1,2,3.
    Forward,
}

/// Setting of the COM line scanning of rows. This controls the order in which COM lines are
/// scanned, leaving the order in which display RAM row addresses are scanned unchanged. Toggling
/// this setting will thus flip the displayed image vertically.
#[derive(Debug, Clone, Copy, PartialEq, Eq)]
pub enum ComScanDirection {
    /// COM lines scan row addresses top to bottom, so that row address 0 is the first row of the
    /// display.
    RowZeroFirst,
    /// COM lines scan row addresses bottom to top, so that row address 0 is the last row of the
    /// display.
    RowZeroLast,
}

/// Setting the layout of the COM lines to the display rows. This setting is dictated by how the
/// display module itself wires the OLED matrix to the driver chip, and changing it to anything
/// other than the correct setting for your module will yield a corrupted image. See the display
/// module datasheet for the correct value to use.
#[derive(Debug, Clone, Copy, PartialEq, Eq)]
pub enum ComLayout {
    /// COM lines are connected to display rows in a progressive arrangement, so that COM lines
    /// 0->127 map to display rows 0->127.
    Progressive,
    /// COM lines are connected to display rows in an interlaced arrangement, so that COM lines
    /// 0->63 map to *even* display rows 0->126, and COM lines 64->127 map to *odd* display rows
    /// 1->127.
    Interlaced,
    /// COM lines are connected to display rows in a dual-COM progressive arrangement, so that COM
    /// lines 0->63 map to display rows 0->63 for half of the columns, and COM lines 64->127 map to
    /// display rows 0->63 for the other half. The maximum displayable image size for this
    /// configuration is halved to 480x64 because each display row uses two COM lines.
    DualProgressive,
}

/// Setting of the display mode. The display mode controls whether the display is blanked, and
/// whether the pixel intensities are rendered normal or inverted.
#[derive(Debug, Clone, Copy, PartialEq, Eq)]
pub enum DisplayMode {
    /// The display is blanked with all pixels turned OFF (to grayscale level 0).
    BlankDark,
    /// The display is blanked with all pixels turned ON (to grayscale level 15).
    BlankBright,
    /// The display operates normally, showing the image in the display RAM.
    Normal,
    /// The display operates with inverse brightness, showing the image in the display RAM with the
    /// grayscale levels inverted (level 0->15, 1->14, ..., 15->0).
    Inverse,
}

/// Setting of the Function Selection. This double byte command is used to enable or disable
/// the internal VDD regulator.
#[derive(Debug, Clone, Copy, PartialEq, Eq)]
pub enum FunctionSelection {
    /// Disable Internal VDD, use external VDD.
    ExternalVDD,
    /// Enable internal VDD regulator (Default).
    InternalVDD,
}

/// Enumerates most of the valid instructions that can be sent to the SSD1322 along with their
/// parameter values.
#[derive(Debug, Clone, Copy, PartialEq, Eq)]
pub enum Command {
    /// Enable the gray scale gamma table.
    EnableGrayScaleTable,
    /// Set the column start and end address range when writing to the display RAM. The column
    /// address pointer is reset to the start column address such that `WriteRam` will begin
    /// writing there. Range is 0-119.
    SetColumnAddress(u8, u8),
    /// After entering this single byte command, data entries will be written into the display RAM until
    /// another command is written. Address pointer is increased accordingly.
    /// This command must be sent before writing any data (to be displayed) into RAM.
    WriteRam,
    /// After entering this single byte command, data is read from display RAM until another command is written.
    /// Address pointer is increased accordingly. This command must be sent before read data from RAM.
    ReadRam,
    /// Set the row start and end address range when writing to the display RAM. The row address
    /// pointer is reset to the start row address such that `WriteRam` will begin writing
    /// there. Range is 0-127.
    SetRowAddress(u8, u8),
    /// Set the direction of display address increment, column address remapping, data nibble
    /// remapping, COM scan direction, and COM line layout. See documentation for each enum for
    /// details.
    SetRemapping(IncrementAxis, ColumnRemap, NibbleRemap, ComScanDirection, ComLayout),
    /// Set the display start line. Setting this to e.g. 40 will cause the first row of pixels on
    /// the display to display row 40 or the display RAM, and rows 0-39 of the display RAM will be
    /// wrapped to the bottom, "rolling" the displayed image upwards.  This transformation is
    /// applied *before* the MUX ratio setting, meaning if the MUX ratio is set to 90, display rows
    /// 0->89 will always be active, and the "rolled" image will be rendered within those display
    /// rows. Range is 0-127.
    SetStartLine(u8),
    /// Set the display COM line offset. This has a similar effect to `SetStartLine`, rolling the
    /// displayed image upwards as the values increase, except that it is applied *after* the MUX
    /// ratio setting. This means both the image *and* the display rows seleced by the MUX ratio
    /// setting will be rolled upwards. Range is 0-127.
    SetDisplayOffset(u8),
    /// Set the display operating mode. See enum for details.
    SetDisplayMode(DisplayMode),
    /// Enable partial display mode. This selects an inclusive range of rows `start` and `end` in
    /// the display area which will be active, while all others remain inactive. Range is 0-127,
    /// where `start` must be <= `end`.
    EnablePartialDisplay(u8, u8),
    /// Disable partial display mode.
    DisablePartialDisplay,
    /// Set the VDD Source
    FunctionSelect(FunctionSelection),
    /// Control sleep mode. When sleep mode is enabled (`true`), the display multiplexer and driver
    /// circuits are powered off.
    SetSleepMode(bool),
    /// Set the refresh phase lengths. The first phase (reset) can be set from 5-31 DCLKs, and the
    /// second (first pre-charge) can be set from 3-15 DCLKs. The display module datasheet should
    /// have appropriate values.
    SetPhaseLengths(u8, u8),
    /// Set the oscillator frequency Fosc and the display clock divider. The relationship between
    /// the frequency settings 0-15 and the actual Fosc value is not documented, except that higher
    /// values increase the frequency. The divider DIVSET is a value n from 0-10, where DCLK is
    /// produced by dividing Fosc by 2^n. The resulting DCLK rate indirectly determines the refresh
    /// rate of the display (the exact rate depends on the MUX ratio and some other things).
    SetClockFoscDivset(u8, u8),
    /// Enable or disable display enhancements "external VSL" and "Enhanced low GS display
    /// quality".
    SetDisplayEnhancements(bool, bool),
    /// Set the second pre-charge period. Range 0-15 DCLKs.
    SetSecondPrechargePeriod(u8),
    /// Set the gray scale gamma table to the factory default.
    SetDefaultGrayScaleTable,
    /// Set the pre-charge voltage level, from 0.2*Vcc to 0.6*Vcc. Range 0-31.
    SetPreChargeVoltage(u8),
    /// Set the COM deselect voltage level, from 0.72*Vcc to 0.86*Vcc. Range 0-7.
    SetComDeselectVoltage(u8),
    /// Set the contrast current. Range 0-255.
    SetContrastCurrent(u8),
    /// Set the master contrast control, uniformly reducing all grayscale levels by 0-15
    /// sixteenths. Range 0 (maximum dimming) to 15 (normal contrast).
    SetMasterContrast(u8),
    /// Set the MUX ratio, which controls the number of COM lines that are active and thus the
    /// number of display pixel rows which are active. Which COM lines are active is controlled by
    /// `SetDisplayOffset`, and how the COM lines map to display RAM row addresses is controlled by
    /// `SetStartLine`. Range 16-128.
    SetMuxRatio(u8),
    /// Set whether the command lock is enabled or disabled. Enabling the command lock (`true`)
    /// blocks all commands except `SetCommandLock`.
    SetCommandLock(bool),
}

/// The first remapping byte: the five settings at their bit positions.
///
/// Bit 0 is the increment axis, bit 1 the column remap, bit 2 the nibble remap,
/// bit 4 the COM scan direction and bit 5 the interlace flag of the COM layout.
/// The fields do not overlap, so the byte is their sum.
pub open spec fn remap_first(
    axis: IncrementAxis,
    column: ColumnRemap,
    nibble: NibbleRemap,
    scan: ComScanDirection,
    layout: ComLayout,
) -> int {
    (match axis {
        IncrementAxis::Horizontal => 0x00int,
        IncrementAxis::Vertical => 0x01,
    }) + (match column {
        ColumnRemap::Forward => 0x00int,
        ColumnRemap::Reverse => 0x02,
    }) + (match nibble {
        NibbleRemap::Reverse => 0x00int,
        NibbleRemap::Forward => 0x04,
    }) + (match scan {
        ComScanDirection::RowZeroFirst => 0x00int,
        ComScanDirection::RowZeroLast => 0x10,
    }) + (match layout {
        ComLayout::Interlaced => 0x20int,
        _ => 0x00,
    })
}

/// The second remapping byte: bit 4 selects the dual-COM layout, bit 0 is always set.
pub open spec fn remap_second(layout: ComLayout) -> int {
    match layout {
        ComLayout::DualProgressive => 0x11,
        _ => 0x01,
    }
}

impl Command {
    /// Whether every parameter lies within the limits the controller documents.
    pub open spec fn in_range(self) -> bool {
        match self {
            Command::SetColumnAddress(start, end) => start <= 119 && end <= 119,
            Command::SetRowAddress(start, end) => start <= 127 && end <= 127,
            Command::SetStartLine(line) => line <= 127,
            Command::SetDisplayOffset(line) => line <= 127,
            Command::EnablePartialDisplay(start, end) => start <= end && end <= 127,
            Command::SetPhaseLengths(phase_1, phase_2) => 5 <= phase_1 <= 31 && 3 <= phase_2 <= 15,
            Command::SetClockFoscDivset(fosc, divset) => fosc <= 15 && divset <= 10,
            Command::SetSecondPrechargePeriod(period) => period <= 15,
            Command::SetPreChargeVoltage(voltage) => voltage <= 31,
            Command::SetComDeselectVoltage(voltage) => voltage <= 7,
            Command::SetMasterContrast(contrast) => contrast <= 15,
            Command::SetMuxRatio(ratio) => 16 <= ratio <= 128,
            _ => true,
        }
    }

    /// The opcode byte of the command.
    pub open spec fn opcode(self) -> u8 {
        match self {
            Command::EnableGrayScaleTable => 0x00,
            Command::SetColumnAddress(_, _) => 0x15,
            Command::WriteRam => 0x5C,
            Command::ReadRam => 0x5D,
            Command::SetRowAddress(_, _) => 0x75,
            Command::SetRemapping(_, _, _, _, _) => 0xA0,
            Command::SetStartLine(_) => 0xA1,
            Command::SetDisplayOffset(_) => 0xA2,
            Command::SetDisplayMode(mode) => match mode {
                DisplayMode::BlankDark => 0xA4,
                DisplayMode::BlankBright => 0xA5,
                DisplayMode::Normal => 0xA6,
                DisplayMode::Inverse => 0xA7,
            },
            Command::EnablePartialDisplay(_, _) => 0xA8,
            Command::DisablePartialDisplay => 0xA9,
            Command::FunctionSelect(_) => 0xAB,
            Command::SetSleepMode(enable) => if enable {
                0xAE
            } else {
                0xAF
            },
            Command::SetPhaseLengths(_, _) => 0xB1,
            Command::SetClockFoscDivset(_, _) => 0xB3,
            Command::SetDisplayEnhancements(_, _) => 0xB4,
            Command::SetSecondPrechargePeriod(_) => 0xB6,
            Command::SetDefaultGrayScaleTable => 0xB9,
            Command::SetPreChargeVoltage(_) => 0xBB,
            Command::SetComDeselectVoltage(_) => 0xBE,
            Command::SetContrastCurrent(_) => 0xC1,
            Command::SetMasterContrast(_) => 0xC7,
            Command::SetMuxRatio(_) => 0xCA,
            Command::SetCommandLock(_) => 0xFD,
        }
    }

    /// The parameter bytes that follow the opcode, for a command that is in range.
    ///
    /// Multi-field parameters are written as arithmetic on the fields: a field
    /// shifted left by four bits is the field times sixteen, and fields that do
    /// not overlap combine by addition.
    pub open spec fn parameters(self) -> Seq<u8> {
        match self {
            Command::SetColumnAddress(start, end) => seq![start, end],
            Command::SetRowAddress(start, end) => seq![start, end],
            Command::SetRemapping(axis, column, nibble, scan, layout) => seq![
                remap_first(axis, column, nibble, scan, layout) as u8,
                remap_second(layout) as u8,
            ],
            Command::SetStartLine(line) => seq![line],
            Command::SetDisplayOffset(line) => seq![line],
            Command::EnablePartialDisplay(start, end) => seq![start, end],
            Command::FunctionSelect(mode) => seq![
                match mode {
                    FunctionSelection::ExternalVDD => 0u8,
                    FunctionSelection::InternalVDD => 1u8,
                },
            ],
            Command::SetPhaseLengths(phase_1, phase_2) => seq![
                ((phase_1 - 1) / 2 + 16 * phase_2) as u8,
            ],
            Command::SetClockFoscDivset(fosc, divset) => seq![(16 * fosc + divset) as u8],
            Command::SetDisplayEnhancements(external_vsl, low_gs_quality) => seq![
                if external_vsl {
                    0xA0u8
                } else {
                    0xA2u8
                },
                if low_gs_quality {
                    0xFDu8
                } else {
                    0xB5u8
                },
            ],
            Command::SetSecondPrechargePeriod(period) => seq![period],
            Command::SetPreChargeVoltage(voltage) => seq![voltage],
            Command::SetComDeselectVoltage(voltage) => seq![voltage],
            Command::SetContrastCurrent(current) => seq![current],
            Command::SetMasterContrast(contrast) => seq![contrast],
            Command::SetMuxRatio(ratio) => seq![(ratio - 1) as u8],
            Command::SetCommandLock(enable) => seq![
                if enable {
                    0x16u8
                } else {
                    0x12u8
                },
            ],
            _ => Seq::empty(),
        }
    }

    /// Whether `encoded` is the wire form of this command: its opcode, its
    /// parameters in order, and zero padding behind them.
    pub open spec fn encodes_to(self, encoded: CommandData) -> bool {
        &&& encoded.cmd == self.opcode()
        &&& encoded.len == self.parameters().len()
        &&& encoded.parameters() == self.parameters()
        &&& forall|i: int| 0 <= i < encoded.len ==> encoded.data@[i] == self.parameters()[i]
        &&& forall|i: int| encoded.len <= i < 2 ==> encoded.data@[i] == 0
    }

    /// Encodes the command for transmission.
    ///
    /// Succeeds exactly when every parameter is within the controller's
    /// limits; the only failure is [`CommandError::OutOfRange`].
    pub fn prepare(self) -> (result: Result<CommandData, CommandError>)
        ensures
            match result {
                Ok(encoded) => self.in_range() && self.encodes_to(encoded),
                Err(e) => !self.in_range() && e == CommandError::OutOfRange,
            },
    {
        match self {
            Command::EnableGrayScaleTable => Ok(bare(0x00)),
            Command::SetColumnAddress(start, end) => {
                if start <= consts::BUF_COL_MAX && end <= consts::BUF_COL_MAX {
                    Ok(with_two(0x15, start, end))
                } else {
                    Err(CommandError::OutOfRange)
                }
            },
            Command::SetRowAddress(start, end) => {
                if start <= consts::PIXEL_ROW_MAX && end <= consts::PIXEL_ROW_MAX {
                    Ok(with_two(0x75, start, end))
                } else {
                    Err(CommandError::OutOfRange)
                }
            },
            Command::WriteRam => Ok(bare(0x5C)),
            Command::ReadRam => Ok(bare(0x5D)),
            Command::SetRemapping(axis, column, nibble, scan, layout) => {
                let ia: u8 = match axis {
                    IncrementAxis::Horizontal => 0x00,
                    IncrementAxis::Vertical => 0x01,
                };
                let cr: u8 = match column {
                    ColumnRemap::Forward => 0x00,
                    ColumnRemap::Reverse => 0x02,
                };
                let nr: u8 = match nibble {
                    NibbleRemap::Reverse => 0x00,
                    NibbleRemap::Forward => 0x04,
                };
                let csd: u8 = match scan {
                    ComScanDirection::RowZeroFirst => 0x00,
                    ComScanDirection::RowZeroLast => 0x10,
                };
                let (interlace, dual_com): (u8, u8) = match layout {
                    ComLayout::Progressive => (0x00, 0x01),
                    ComLayout::Interlaced => (0x20, 0x01),
                    ComLayout::DualProgressive => (0x00, 0x11),
                };
                assert(ia | cr | nr | csd | interlace == ia + cr + nr + csd + interlace) by (bit_vector)
                    requires
                        ia == 0x00 || ia == 0x01,
                        cr == 0x00 || cr == 0x02,
                        nr == 0x00 || nr == 0x04,
                        csd == 0x00 || csd == 0x10,
                        interlace == 0x00 || interlace == 0x20,
                ;
                Ok(with_two(0xA0, ia | cr | nr | csd | interlace, dual_com))
            },
            Command::SetStartLine(line) => {
                if line <= consts::PIXEL_ROW_MAX {
                    Ok(with_one(0xA1, line))
                } else {
                    Err(CommandError::OutOfRange)
                }
            },
            Command::SetDisplayOffset(line) => {
                if line <= consts::PIXEL_ROW_MAX {
                    Ok(with_one(0xA2, line))
                } else {
                    Err(CommandError::OutOfRange)
                }
            },
            Command::SetDisplayMode(mode) => Ok(
                bare(
                    match mode {
                        DisplayMode::BlankDark => 0xA4,
                        DisplayMode::BlankBright => 0xA5,
                        DisplayMode::Normal => 0xA6,
                        DisplayMode::Inverse => 0xA7,
                    },
                ),
            ),
            Command::EnablePartialDisplay(start, end) => {
                if start <= consts::PIXEL_ROW_MAX && end <= consts::PIXEL_ROW_MAX && start <= end {
                    Ok(with_two(0xA8, start, end))
                } else {
                    Err(CommandError::OutOfRange)
                }
            },
            Command::DisablePartialDisplay => Ok(bare(0xA9)),
            Command::FunctionSelect(mode) => Ok(
                with_one(
                    0xAB,
                    match mode {
                        FunctionSelection::ExternalVDD => 0,
                        FunctionSelection::InternalVDD => 1,
                    },
                ),
            ),
            Command::SetSleepMode(enable) => Ok(
                bare(
                    if enable {
                        0xAE
                    } else {
                        0xAF
                    },
                ),
            ),
            Command::SetPhaseLengths(phase_1, phase_2) => {
                if 5 <= phase_1 && phase_1 <= 31 && 3 <= phase_2 && phase_2 <= 15 {
                    let p1: u8 = (phase_1 - 1) >> 1;
                    let p2: u8 = 0xF0 & (phase_2 << 4);
                    assert(p1 | p2 == (phase_1 - 1) / 2 + 16 * phase_2) by (bit_vector)
                        requires
                            5 <= phase_1 <= 31,
                            3 <= phase_2 <= 15,
                            p1 == (phase_1 - 1) as u8 >> 1,
                            p2 == 0xF0u8 & (phase_2 << 4),
                    ;
                    Ok(with_one(0xB1, p1 | p2))
                } else {
                    Err(CommandError::OutOfRange)
                }
            },
            Command::SetClockFoscDivset(fosc, divset) => {
                if fosc <= 15 && divset <= 10 {
                    assert(fosc << 4 | divset == 16 * fosc + divset) by (bit_vector)
                        requires
                            fosc <= 15,
                            divset <= 10,
                    ;
                    Ok(with_one(0xB3, fosc << 4 | divset))
                } else {
                    Err(CommandError::OutOfRange)
                }
            },
            Command::SetDisplayEnhancements(external_vsl, low_gs_quality) => {
                let vsl: u8 = if external_vsl {
                    0xA0
                } else {
                    0xA2
                };
                let gs: u8 = if low_gs_quality {
                    0xFD
                } else {
                    0xB5
                };
                Ok(with_two(0xB4, vsl, gs))
            },
            Command::SetSecondPrechargePeriod(period) => {
                if period <= 15 {
                    Ok(with_one(0xB6, period))
                } else {
                    Err(CommandError::OutOfRange)
                }
            },
            Command::SetDefaultGrayScaleTable => Ok(bare(0xB9)),
            Command::SetPreChargeVoltage(voltage) => {
                if voltage <= 31 {
                    Ok(with_one(0xBB, voltage))
                } else {
                    Err(CommandError::OutOfRange)
                }
            },
            Command::SetComDeselectVoltage(voltage) => {
                if voltage <= 7 {
                    Ok(with_one(0xBE, voltage))
                } else {
                    Err(CommandError::OutOfRange)
                }
            },
            Command::SetContrastCurrent(current) => Ok(with_one(0xC1, current)),
            Command::SetMasterContrast(contrast) => {
                if contrast <= 15 {
                    Ok(with_one(0xC7, contrast))
                } else {
                    Err(CommandError::OutOfRange)
                }
            },
            Command::SetMuxRatio(ratio) => {
                if 16 <= ratio && ratio <= consts::NUM_PIXEL_ROWS {
                    Ok(with_one(0xCA, ratio - 1))
                } else {
                    Err(CommandError::OutOfRange)
                }
            },
            Command::SetCommandLock(enable) => {
                let e: u8 = if enable {
                    0x16
                } else {
                    0x12
                };
                Ok(with_one(0xFD, e))
            },
        }
    }
}

/// A column address range is accepted exactly when both addresses are at
/// most 119; its wire form is opcode 0x15 followed by the start and the end
/// address, unchanged.
pub proof fn column_address_encoding(start: u8, end: u8)
    ensures
        Command::SetColumnAddress(start, end).in_range() <==> start <= 119 && end <= 119,
        Command::SetColumnAddress(start, end).opcode() == 0x15,
        Command::SetColumnAddress(start, end).parameters() == seq![start, end],
{
}

/// A multiplex ratio is accepted exactly when it lies in 16..=128; its wire
/// form is opcode 0xCA followed by the single byte `ratio - 1`.
pub proof fn mux_ratio_encoding(ratio: u8)
    ensures
        Command::SetMuxRatio(ratio).in_range() <==> 16 <= ratio <= 128,
        Command::SetMuxRatio(ratio).opcode() == 0xCA,
        Command::SetMuxRatio(ratio).parameters().len() == 1,
        Command::SetMuxRatio(ratio).in_range() ==> Command::SetMuxRatio(ratio).parameters()[0]
            == ratio - 1,
{
}

/// Every command carries at most two parameter bytes, so an encoding of it
/// always fits a [`CommandData`].
pub proof fn parameters_fit(command: Command)
    ensures
        command.parameters().len() <= 2,
{
}

/// The wire form of a command is unique: two encodings of one command agree
/// in every field.
pub proof fn encoding_is_unique(command: Command, a: CommandData, b: CommandData)
    requires
        command.encodes_to(a),
        command.encodes_to(b),
    ensures
        a == b,
{
    assert(a.data =~= b.data);
}

/// An encoded command without parameters.
fn bare(cmd: u8) -> (encoded: CommandData)
    ensures
        encoded.cmd == cmd,
        encoded.len == 0,
        encoded.parameters() == Seq::<u8>::empty(),
        encoded.data@[0] == 0 && encoded.data@[1] == 0,
{
    let encoded = CommandData { cmd, data: [0, 0], len: 0 };
    assert(encoded.parameters() =~= Seq::<u8>::empty());
    encoded
}

/// An encoded command with one parameter byte.
fn with_one(cmd: u8, first: u8) -> (encoded: CommandData)
    ensures
        encoded.cmd == cmd,
        encoded.len == 1,
        encoded.parameters() == seq![first],
        encoded.data@[1] == 0,
{
    let encoded = CommandData { cmd, data: [first, 0], len: 1 };
    assert(encoded.parameters() =~= seq![first]);
    encoded
}

/// An encoded command with two parameter bytes.
fn with_two(cmd: u8, first: u8, second: u8) -> (encoded: CommandData)
    ensures
        encoded.cmd == cmd,
        encoded.len == 2,
        encoded.parameters() == seq![first, second],
{
    let encoded = CommandData { cmd, data: [first, second], len: 2 };
    assert(encoded.parameters() =~= seq![first, second]);
    encoded
}

} // verus!
