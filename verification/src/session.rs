//! The controller session: which steps carry out each operation of the
//! display, and what the session remembers of the commands it has issued.
//!
//! A session goes through reset and initialization once and then serves
//! orientation changes and frame transfers for as long as it lives:
//! `hard_reset`, then `init_default`, then any number of `set_orientation`,
//! `set_address_window`, `flush_buffer` and `flush_frame`.

use vstd::prelude::*;
use crate::bus::{payload_steps, push_command, steps_of, Step};
use crate::frame::Frame;
use crate::instruction::{
    ColumnRemap, ComLayout, ComScanDirection, Command, CommandError, DisplayMode,
    FunctionSelection, IncrementAxis, NibbleRemap,
};

verus! {

/// Display orientation.
///
/// Each orientation stands for one fixed remapping configuration of the
/// controller.
#[derive(Debug, Clone, Copy, PartialEq, Eq)]
pub enum Orientation {
    /// Standard orientation: columns forward, row zero scanned last.
    Standard,
    /// Inverted orientation: columns reversed, row zero scanned first.
    Inverted,
}

impl Orientation {
    /// The remapping command of this orientation. Both orientations increment
    /// horizontally, keep the nibble order forward and use the dual-COM
    /// progressive layout.
    pub open spec fn remapping(self) -> Command {
        match self {
            Orientation::Standard => Command::SetRemapping(
                IncrementAxis::Horizontal,
                ColumnRemap::Forward,
                NibbleRemap::Forward,
                ComScanDirection::RowZeroLast,
                ComLayout::DualProgressive,
            ),
            Orientation::Inverted => Command::SetRemapping(
                IncrementAxis::Horizontal,
                ColumnRemap::Reverse,
                NibbleRemap::Forward,
                ComScanDirection::RowZeroFirst,
                ComLayout::DualProgressive,
            ),
        }
    }

    /// The remapping command that puts the controller into this orientation.
    pub fn remap_command(self) -> (command: Command)
        ensures
            command == self.remapping(),
    {
        match self {
            Orientation::Standard => Command::SetRemapping(
                IncrementAxis::Horizontal,
                ColumnRemap::Forward,
                NibbleRemap::Forward,
                ComScanDirection::RowZeroLast,
                ComLayout::DualProgressive,
            ),
            Orientation::Inverted => Command::SetRemapping(
                IncrementAxis::Horizontal,
                ColumnRemap::Reverse,
                NibbleRemap::Forward,
                ComScanDirection::RowZeroFirst,
                ComLayout::DualProgressive,
            ),
        }
    }
}

/// Optional configuration structure to invert the colour or screen orientation.
#[derive(Debug, Clone, Copy, PartialEq, Eq)]
pub struct Config {
    /// Whether the grayscale levels are shown inverted.
    pub inverted_colour: bool,
    /// The orientation that initialization puts the display into.
    pub orientation: Orientation,
}

impl Default for Config {
    /// Normal colours in the standard orientation.
    fn default() -> (config: Self)
        ensures
            config == (Config { inverted_colour: false, orientation: Orientation::Standard }),
    {
        Self { inverted_colour: false, orientation: Orientation::Standard }
    }
}

/// The power-on sequence: hold the reset line low, release it, then enable
/// the panel supply, with one millisecond before, between and after.
pub open spec fn reset_steps() -> Seq<Step> {
    seq![
        Step::DelayMs(1),
        Step::ResetLow,
        Step::DelayMs(1),
        Step::ResetHigh,
        Step::DelayMs(1),
        Step::PowerOn,
        Step::DelayMs(1),
    ]
}

/// The commands of the default initialization, in the order the controller
/// needs them: unlock, sleep, configure, wake.
pub open spec fn init_commands(inverted: bool) -> Seq<Command> {
    seq![
        Command::SetCommandLock(false),
        Command::SetSleepMode(true),
        Orientation::Standard.remapping(),
        Command::SetStartLine(0),
        Command::SetDisplayOffset(0),
        Command::SetDisplayMode(
            if inverted {
                DisplayMode::Inverse
            } else {
                DisplayMode::Normal
            },
        ),
        Command::FunctionSelect(FunctionSelection::InternalVDD),
        Command::SetPhaseLengths(5, 15),
        Command::SetClockFoscDivset(10, 1),
        Command::SetDisplayEnhancements(true, true),
        Command::SetSecondPrechargePeriod(8),
        Command::SetDefaultGrayScaleTable,
        Command::SetPreChargeVoltage(31),
        Command::SetComDeselectVoltage(7),
        Command::SetContrastCurrent(0x3C),
        Command::SetMasterContrast(0xA),
        Command::SetMuxRatio(0x3F),
        Command::DisablePartialDisplay,
        Command::SetSleepMode(false),
    ]
}

/// The whole of initialization: the power-on sequence, the default
/// commands, and the remapping command of the configured orientation.
pub open spec fn init_steps(config: Config) -> Seq<Step> {
    reset_steps() + steps_of(init_commands(config.inverted_colour))
        + config.orientation.remapping().steps()
}

/// What a change of orientation does: the configuration that the session
/// mirrors afterwards, and the steps that send the remapping command.
pub open spec fn reoriented(state: Config, orientation: Orientation) -> (Config, Seq<Step>) {
    (Config { orientation, ..state }, orientation.remapping().steps())
}

/// The first and last display RAM column of a window that is `width` pixels
/// wide and starts at pixel column `start_x`, centred on the controller's 480
/// pixel columns. A column address covers four pixels.
pub open spec fn window_columns(start_x: int, width: int) -> (int, int) {
    let offset = (480 - width + start_x) / 2;
    let column_start = offset / 4;
    (column_start, column_start + width / 4 - 1)
}

/// The first and last row of a window that is `height` rows high and starts
/// at row `start_y`.
pub open spec fn window_rows(start_y: int, height: int) -> (int, int) {
    (start_y, start_y + height - 1)
}

/// Whether the window lies within what the controller can address: columns
/// 0 to 119 and rows 0 to 127.
pub open spec fn window_in_range(start_x: int, start_y: int, width: int, height: int) -> bool {
    let (column_start, column_end) = window_columns(start_x, width);
    let (row_start, row_end) = window_rows(start_y, height);
    &&& 0 <= column_start <= 119
    &&& 0 <= column_end <= 119
    &&& 0 <= row_start <= 127
    &&& 0 <= row_end <= 127
}

/// The commands that select a window: its column range, then its row range.
pub open spec fn window_commands(start_x: int, start_y: int, width: int, height: int) -> Seq<
    Command,
> {
    let (column_start, column_end) = window_columns(start_x, width);
    let (row_start, row_end) = window_rows(start_y, height);
    seq![
        Command::SetColumnAddress(column_start as u8, column_end as u8),
        Command::SetRowAddress(row_start as u8, row_end as u8),
    ]
}

/// SSD1322 OLED display session.
///
/// The session mirrors the last colour inversion and orientation that were
/// sent to the controller, and knows the steps of each operation.
pub struct SSD1322 {
    /// Whether the colors are inverted (`true`) or not (`false`).
    inverted: bool,
    /// Orientation of the display.
    orientation: Orientation,
}

impl View for SSD1322 {
    type V = Config;

    closed spec fn view(&self) -> Config {
        Config { inverted_colour: self.inverted, orientation: self.orientation }
    }
}

impl SSD1322 {
    /// Creates a new session with the given configuration.
    pub fn new(config: Config) -> (session: Self)
        ensures
            session@ == config,
    {
        Self { inverted: config.inverted_colour, orientation: config.orientation }
    }

    /// The orientation that was last sent to the controller, or that
    /// initialization will send.
    pub fn orientation(&self) -> (orientation: Orientation)
        ensures
            orientation == self@.orientation,
    {
        self.orientation
    }

    /// Whether the display shows inverted grayscale levels.
    pub fn inverted(&self) -> (inverted: bool)
        ensures
            inverted == self@.inverted_colour,
    {
        self.inverted
    }

    /// The steps of the power-on sequence of the controller.
    ///
    /// 1. Wait at least 1ms for the internal VDD to stabilize.
    /// 2. Set the RES# pin low for at least 100µs and then high.
    /// 3. Wait for at least 100µs, then power on VCC.
    pub fn hard_reset(&self) -> (steps: Vec<Step>)
        ensures
            steps@ == reset_steps(),
    {
        let mut steps: Vec<Step> = Vec::new();
        steps.push(Step::DelayMs(1));
        steps.push(Step::ResetLow);
        steps.push(Step::DelayMs(1));
        steps.push(Step::ResetHigh);
        steps.push(Step::DelayMs(1));
        steps.push(Step::PowerOn);
        steps.push(Step::DelayMs(1));
        assert(steps@ =~= reset_steps());
        steps
    }

    /// The steps that initialize the display in the default configuration of
    /// this library: the power-on sequence, the default commands and the
    /// remapping of the configured orientation. Every command of the default
    /// profile is within the controller's limits, so this never fails.
    pub fn init_default(&mut self) -> (plan: Result<Vec<Step>, CommandError>)
        ensures
            final(self)@ == old(self)@,
            plan matches Ok(steps) && steps@ == init_steps(old(self)@),
    {
        let inverted = self.inverted;
        let commands: [Command; 19] = [
            Command::SetCommandLock(false),
            Command::SetSleepMode(true),
            Orientation::Standard.remap_command(),
            Command::SetStartLine(0),
            Command::SetDisplayOffset(0),
            Command::SetDisplayMode(
                if inverted {
                    DisplayMode::Inverse
                } else {
                    DisplayMode::Normal
                },
            ),
            Command::FunctionSelect(FunctionSelection::InternalVDD),
            Command::SetPhaseLengths(5, 15),
            Command::SetClockFoscDivset(10, 1),
            Command::SetDisplayEnhancements(true, true),
            Command::SetSecondPrechargePeriod(8),
            Command::SetDefaultGrayScaleTable,
            Command::SetPreChargeVoltage(31),
            Command::SetComDeselectVoltage(7),
            Command::SetContrastCurrent(0x3C),
            Command::SetMasterContrast(0xA),
            Command::SetMuxRatio(0x3F),
            Command::DisablePartialDisplay,
            // Display enhancement B is left at its reset value.
            Command::SetSleepMode(false),
        ];
        assert(commands@ =~= init_commands(inverted));
        let mut steps = self.hard_reset();
        let mut i: usize = 0;
        while i < 19
            invariant
                i <= 19,
                commands@ == init_commands(inverted),
                steps@ == reset_steps() + steps_of(commands@.take(i as int)),
            decreases 19 - i,
        {
            proof {
                let upto = commands@.take(i + 1);
                assert(upto.drop_last() =~= commands@.take(i as int));
                assert(upto.last() == commands@[i as int]);
                assert(commands@[i as int].in_range());
            }
            match commands[i].prepare() {
                Ok(encoded) => push_command(&mut steps, &encoded),
                Err(e) => {
                    return Err(e);
                },
            }
            i += 1;
        }
        assert(commands@.take(19) =~= commands@);
        let orientation = self.orientation;
        match self.set_orientation(orientation) {
            Ok(remap) => {
                let mut remap = remap;
                steps.append(&mut remap);
                Ok(steps)
            },
            Err(e) => Err(e),
        }
    }

    /// Configures the orientation of the display.
    ///
    /// Records the orientation and yields the steps that send its remapping
    /// command. It can be called at any time after initialization.
    pub fn set_orientation(&mut self, orientation: Orientation) -> (plan: Result<
        Vec<Step>,
        CommandError,
    >)
        ensures
            plan matches Ok(steps) && (final(self)@, steps@) == reoriented(old(self)@, orientation),
    {
        self.orientation = orientation;
        let encoded = orientation.remap_command().prepare()?;
        Ok(self.write_command(&encoded))
    }

    /// The steps that send one encoded command: the opcode in command mode,
    /// then the parameters, if there are any, in data mode.
    pub fn write_command(&self, command: &crate::instruction::CommandData) -> (steps: Vec<Step>)
        requires
            command.wf(),
        ensures
            steps@ == command.steps(),
    {
        let mut steps: Vec<Step> = Vec::new();
        push_command(&mut steps, command);
        steps
    }

    /// The steps that send the caller's data to the display. The address
    /// window is taken as it was last set.
    pub fn write_data(&self) -> (steps: Vec<Step>)
        ensures
            steps@ == payload_steps(),
    {
        let mut steps: Vec<Step> = Vec::new();
        steps.push(Step::SelectData);
        steps.push(Step::WritePayload);
        assert(steps@ =~= payload_steps());
        steps
    }

    /// Sets the address window for the display: the rectangle of display RAM
    /// that the next data write fills.
    ///
    /// Fails with [`CommandError::OutOfRange`], before anything is sent, when
    /// a column of the window lies outside 0..=119 or a row outside 0..=127.
    pub fn set_address_window(&self, start_x: u16, start_y: u16, width: u16, height: u16) -> (plan:
        Result<Vec<Step>, CommandError>)
        ensures
            plan is Ok <==> window_in_range(
                start_x as int,
                start_y as int,
                width as int,
                height as int,
            ),
            plan matches Err(e) ==> e == CommandError::OutOfRange,
            plan matches Ok(steps) ==> steps@ == steps_of(
                window_commands(start_x as int, start_y as int, width as int, height as int),
            ),
    {
        let total: i32 = 480 - (width as i32) + (start_x as i32);
        if total < 0 {
            return Err(CommandError::OutOfRange);
        }
        let offset: i32 = total / 2;
        let column_start: i32 = offset / 4;
        let column_end: i32 = column_start + (width as i32) / 4 - 1;
        let row_start: i32 = start_y as i32;
        let row_end: i32 = row_start + (height as i32) - 1;
        if column_start > 119 || column_end < 0 || column_end > 119 || row_start > 127 || row_end
            < 0 || row_end > 127 {
            return Err(CommandError::OutOfRange);
        }
        let columns = Command::SetColumnAddress(column_start as u8, column_end as u8);
        let rows = Command::SetRowAddress(row_start as u8, row_end as u8);
        let mut steps: Vec<Step> = Vec::new();
        let encoded_columns = columns.prepare()?;
        push_command(&mut steps, &encoded_columns);
        let encoded_rows = rows.prepare()?;
        push_command(&mut steps, &encoded_rows);
        proof {
            let commands = window_commands(
                start_x as int,
                start_y as int,
                width as int,
                height as int,
            );
            assert(commands =~= seq![columns, rows]);
            assert(commands.drop_last() =~= seq![columns]);
            assert(seq![columns].drop_last() =~= Seq::<Command>::empty());
            reveal_with_fuel(steps_of, 3);
            assert(steps@ =~= steps_of(commands));
        }
        Ok(steps)
    }

    /// The steps that write the caller's buffer to the display RAM: the
    /// write-RAM command, then the data. The address window is taken as it
    /// was last set.
    pub fn flush_buffer(&self) -> (plan: Result<Vec<Step>, CommandError>)
        ensures
            plan matches Ok(steps) && steps@ == Command::WriteRam.steps() + payload_steps(),
    {
        let encoded = Command::WriteRam.prepare()?;
        let mut steps = self.write_command(&encoded);
        let mut data = self.write_data();
        steps.append(&mut data);
        Ok(steps)
    }

    /// The steps that write a whole frame to the display, and the bytes that
    /// their one data write carries: the address window is set to the frame's
    /// dimensions at the origin, then the frame's buffer is written to RAM.
    ///
    /// Fails with [`CommandError::OutOfRange`], before anything is sent, when
    /// the frame's dimensions are no window that the controller can address.
    pub fn flush_frame<'a, const N: usize>(&self, frame: &'a Frame<N>) -> (plan: Result<
        (Vec<Step>, &'a [u8]),
        CommandError,
    >)
        ensures
            plan is Ok <==> window_in_range(0, 0, frame.width as int, frame.height as int),
            plan matches Err(e) ==> e == CommandError::OutOfRange,
            plan matches Ok(transfer) ==> {
                &&& transfer.0@ == steps_of(
                    window_commands(0, 0, frame.width as int, frame.height as int),
                ) + Command::WriteRam.steps() + payload_steps()
                &&& transfer.1@ == frame.buffer@
            },
    {
        let mut steps = self.set_address_window(0, 0, frame.width, frame.height)?;
        let mut write = self.flush_buffer()?;
        steps.append(&mut write);
        assert(steps@ =~= steps_of(window_commands(0, 0, frame.width as int, frame.height as int))
            + Command::WriteRam.steps() + payload_steps());
        Ok((steps, frame.buffer.as_slice()))
    }
}

/// The two orientations are told apart on the wire: standard sends the
/// remapping bytes `0x14, 0x11` and inverted sends `0x06, 0x11`, both behind
/// opcode `0xA0`, and both are within the controller's limits.
pub proof fn orientation_bytes()
    ensures
        Orientation::Standard.remapping().in_range(),
        Orientation::Inverted.remapping().in_range(),
        Orientation::Standard.remapping().opcode() == 0xA0,
        Orientation::Inverted.remapping().opcode() == 0xA0,
        Orientation::Standard.remapping().parameters() == seq![0x14u8, 0x11u8],
        Orientation::Inverted.remapping().parameters() == seq![0x06u8, 0x11u8],
{
}

/// Orientation round trip: after a detour through any other orientation,
/// setting an orientation again leaves the session as the first time and
/// sends exactly the steps that were sent for it the first time.
pub proof fn orientation_round_trip(state: Config, wanted: Orientation, detour: Orientation)
    ensures
        reoriented(reoriented(reoriented(state, wanted).0, detour).0, wanted) == reoriented(
            state,
            wanted,
        ),
{
}

/// Every command of the default initialization is within the controller's
/// limits, whatever the colour inversion.
pub proof fn init_commands_in_range(inverted: bool, i: int)
    requires
        0 <= i < init_commands(inverted).len(),
    ensures
        init_commands(inverted).len() == 19,
        init_commands(inverted)[i].in_range(),
{
}

/// A window is addressable exactly when its formula stays within the
/// controller's limits; in particular a window whose last column lies beyond
/// 119, or whose last row lies beyond 127, is not.
pub proof fn window_limits(start_x: int, start_y: int, width: int, height: int)
    ensures
        window_columns(start_x, width).1 > 119 ==> !window_in_range(
            start_x,
            start_y,
            width,
            height,
        ),
        window_rows(start_y, height).1 > 127 ==> !window_in_range(start_x, start_y, width, height),
        window_in_range(start_x, start_y, width, height) ==> {
            &&& window_commands(start_x, start_y, width, height)[0].in_range()
            &&& window_commands(start_x, start_y, width, height)[1].in_range()
        },
{
}

} // verus!
