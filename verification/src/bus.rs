//! The wires of the display, one action at a time.
//!
//! The driver never touches a pin or a transport itself. Each operation
//! yields the ordered list of [`Step`]s that carries it out; whoever owns the
//! hardware performs them in order and stops at the first that fails.

use vstd::prelude::*;
use crate::instruction::{Command, CommandData};

verus! {

/// One action on the reset line, the power line, the data/command select
/// line or the transport.
#[derive(Debug, Clone, Copy, PartialEq, Eq)]
pub enum Step {
    /// Wait for at least this many milliseconds.
    DelayMs(u32),
    /// Drive the reset line low.
    ResetLow,
    /// Drive the reset line high.
    ResetHigh,
    /// Drive the power-enable line high.
    PowerOn,
    /// Drive the data/command select line low: the next write is an opcode.
    SelectCommand,
    /// Drive the data/command select line high: the next write is data.
    SelectData,
    /// Write this one byte to the transport.
    WriteOne(u8),
    /// Write these two bytes to the transport, in one transfer.
    WriteTwo(u8, u8),
    /// Write the caller's data to the transport, in one transfer.
    WritePayload,
}

/// The framing of one command: select command mode and write the opcode;
/// then, only if there are parameters, select data mode and write exactly
/// the parameter bytes.
pub open spec fn framing(opcode: u8, parameters: Seq<u8>) -> Seq<Step> {
    let head = seq![Step::SelectCommand, Step::WriteOne(opcode)];
    if parameters.len() == 1 {
        head + seq![Step::SelectData, Step::WriteOne(parameters[0])]
    } else if parameters.len() == 2 {
        head + seq![Step::SelectData, Step::WriteTwo(parameters[0], parameters[1])]
    } else {
        head
    }
}

/// The steps that stream the caller's data: select data mode, then one write.
pub open spec fn payload_steps() -> Seq<Step> {
    seq![Step::SelectData, Step::WritePayload]
}

impl Command {
    /// The steps that transmit this command.
    pub open spec fn steps(self) -> Seq<Step> {
        framing(self.opcode(), self.parameters())
    }
}

impl CommandData {
    /// The steps that transmit this encoded command.
    pub open spec fn steps(&self) -> Seq<Step> {
        framing(self.cmd, self.parameters())
    }
}

/// The steps that transmit the commands of `commands`, one after another.
pub open spec fn steps_of(commands: Seq<Command>) -> Seq<Step>
    decreases commands.len(),
{
    if commands.len() == 0 {
        Seq::empty()
    } else {
        steps_of(commands.drop_last()) + commands.last().steps()
    }
}

/// The bytes that the transport carries when `steps` are performed with
/// `payload` as the caller's data, in order and without regard to framing.
pub open spec fn wire_bytes(steps: Seq<Step>, payload: Seq<u8>) -> Seq<u8>
    decreases steps.len(),
{
    if steps.len() == 0 {
        Seq::empty()
    } else {
        wire_bytes(steps.drop_last(), payload) + match steps.last() {
            Step::WriteOne(a) => seq![a],
            Step::WriteTwo(a, b) => seq![a, b],
            Step::WritePayload => payload,
            _ => Seq::empty(),
        }
    }
}

/// Appends the framing of `command` to `steps`.
pub fn push_command(steps: &mut Vec<Step>, command: &CommandData)
    requires
        command.wf(),
    ensures
        final(steps)@ == old(steps)@ + command.steps(),
{
    steps.push(Step::SelectCommand);
    steps.push(Step::WriteOne(command.cmd));
    if command.len == 1 {
        steps.push(Step::SelectData);
        steps.push(Step::WriteOne(command.data[0]));
    } else if command.len == 2 {
        steps.push(Step::SelectData);
        steps.push(Step::WriteTwo(command.data[0], command.data[1]));
    }
    assert(steps@ =~= old(steps)@ + command.steps());
}

/// The framing of a command is the framing of any of its encodings.
pub proof fn encoded_steps(command: Command, encoded: CommandData)
    requires
        command.encodes_to(encoded),
    ensures
        encoded.steps() == command.steps(),
{
}

/// Every command is written in command mode and its parameters, if it has
/// any, in data mode: the bytes of its framing are the opcode followed by
/// the parameters, and nothing else.
pub proof fn framing_carries_opcode_and_parameters(command: Command, payload: Seq<u8>)
    ensures
        wire_bytes(command.steps(), payload) == seq![command.opcode()] + command.parameters(),
{
    let steps = command.steps();
    let parameters = command.parameters();
    let head = seq![Step::SelectCommand, Step::WriteOne(command.opcode())];
    assert(head.drop_last() =~= seq![Step::SelectCommand]);
    assert(seq![Step::SelectCommand].drop_last() =~= Seq::<Step>::empty());
    reveal_with_fuel(wire_bytes, 5);
    if parameters.len() == 1 {
        let select = head.push(Step::SelectData);
        assert(steps.drop_last() =~= select);
        assert(select.drop_last() =~= head);
        assert(wire_bytes(steps, payload) =~= seq![command.opcode()] + parameters);
    } else if parameters.len() == 2 {
        let select = head.push(Step::SelectData);
        assert(steps.drop_last() =~= select);
        assert(select.drop_last() =~= head);
        assert(wire_bytes(steps, payload) =~= seq![command.opcode()] + parameters);
    } else {
        assert(parameters.len() == 0);
        assert(wire_bytes(steps, payload) =~= seq![command.opcode()] + parameters);
    }
}

} // verus!
