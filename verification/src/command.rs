//! The controller's command set and its byte-level encoding.

use crate::interface::{DisplayError, Transaction, Transport};
use vstd::prelude::*;

verus! {

/// One logical controller operation, carrying the parameters it needs.
///
/// Commands are transient: constructed, encoded into the opcode and
/// parameter bytes the controller expects, and discarded. Each command
/// is independent; ordering (for instance that the address window is
/// configured before pixel data arrives) is the caller's business.
#[derive(Clone, Copy, Debug, PartialEq, Eq, Structural)]
pub enum Command {
    /// Turns the panel on.
    DisplayOn,
    /// Turns the panel off.
    DisplayOff,
    /// Sets the column address window, as start and end byte.
    ColumnAddress { start: u8, end: u8 },
    /// Sets the row address window, as start and end byte.
    RowAddress { start: u8, end: u8 },
    /// Sets the contrast level.
    Contrast(u8),
    /// Configures segment remap and orientation.
    SetRemap(u8),
    /// Sets the display start line.
    StartLine(u8),
    /// Sets the vertical offset.
    Offset(u8),
    /// Selects the normal (non-inverted) display mode.
    DisplayModeNormal,
    /// Sets the multiplex ratio.
    MuxRatio(u8),
    /// Sets the phase length / charge period.
    PhaseLength(u8),
    /// Sets the front clock divider and oscillator frequency.
    FrontClockDivider(u8),
    /// Function selection A (internal regulator configuration).
    FunctionSelectionA(u8),
    /// Sets the second pre-charge period.
    SecondPreChargePeriod(u8),
    /// Sets the COM deselect voltage level.
    ComVoltageLevel(u8),
    /// Sets the pre-charge voltage.
    PreChargeVoltage(u8),
    /// Function selection B (second pre-charge and VSL configuration).
    FunctionSelectionB(u8),
    /// Sets the command lock state.
    CommandLock(u8),
}

impl Command {
    /// The exact bytes this command puts on the bus: the opcode,
    /// then any parameter bytes.
    pub open spec fn spec_encode(self) -> Seq<u8> {
        match self {
            Command::DisplayOn => seq![0xAFu8],
            Command::DisplayOff => seq![0xAEu8],
            Command::ColumnAddress { start, end } => seq![0x15u8, start, end],
            Command::RowAddress { start, end } => seq![0x75u8, start, end],
            Command::Contrast(value) => seq![0x81u8, value],
            Command::SetRemap(value) => seq![0xA0u8, value],
            Command::StartLine(value) => seq![0xA1u8, value],
            Command::Offset(value) => seq![0xA2u8, value],
            Command::DisplayModeNormal => seq![0xA4u8],
            Command::MuxRatio(value) => seq![0xA8u8, value],
            Command::PhaseLength(value) => seq![0xB1u8, value],
            Command::FrontClockDivider(value) => seq![0xB3u8, value],
            Command::FunctionSelectionA(value) => seq![0xABu8, value],
            Command::SecondPreChargePeriod(value) => seq![0xB6u8, value],
            Command::ComVoltageLevel(value) => seq![0xBEu8, value],
            Command::PreChargeVoltage(value) => seq![0xBCu8, value],
            Command::FunctionSelectionB(value) => seq![0xD5u8, value],
            Command::CommandLock(value) => seq![0xFDu8, value],
        }
    }

    /// Encodes this command into the opcode and parameter bytes the
    /// controller expects, bit for bit.
    pub fn encode(self) -> (r: Vec<u8>)
        ensures
            r@ == self.spec_encode(),
    {
        let mut v: Vec<u8> = Vec::new();
        match self {
            Command::DisplayOn => {
                v.push(0xAF);
            },
            Command::DisplayOff => {
                v.push(0xAE);
            },
            Command::ColumnAddress { start, end } => {
                v.push(0x15);
                v.push(start);
                v.push(end);
            },
            Command::RowAddress { start, end } => {
                v.push(0x75);
                v.push(start);
                v.push(end);
            },
            Command::Contrast(value) => {
                v.push(0x81);
                v.push(value);
            },
            Command::SetRemap(value) => {
                v.push(0xA0);
                v.push(value);
            },
            Command::StartLine(value) => {
                v.push(0xA1);
                v.push(value);
            },
            Command::Offset(value) => {
                v.push(0xA2);
                v.push(value);
            },
            Command::DisplayModeNormal => {
                v.push(0xA4);
            },
            Command::MuxRatio(value) => {
                v.push(0xA8);
                v.push(value);
            },
            Command::PhaseLength(value) => {
                v.push(0xB1);
                v.push(value);
            },
            Command::FrontClockDivider(value) => {
                v.push(0xB3);
                v.push(value);
            },
            Command::FunctionSelectionA(value) => {
                v.push(0xAB);
                v.push(value);
            },
            Command::SecondPreChargePeriod(value) => {
                v.push(0xB6);
                v.push(value);
            },
            Command::ComVoltageLevel(value) => {
                v.push(0xBE);
                v.push(value);
            },
            Command::PreChargeVoltage(value) => {
                v.push(0xBC);
                v.push(value);
            },
            Command::FunctionSelectionB(value) => {
                v.push(0xD5);
                v.push(value);
            },
            Command::CommandLock(value) => {
                v.push(0xFD);
                v.push(value);
            },
        }
        proof {
            assert(v@ =~= self.spec_encode());
        }
        v
    }

    /// Issues this command to the transport as a single command
    /// transaction, propagating a write failure unchanged.
    pub fn send<DI: Transport>(self, display: &mut DI) -> (r: Result<(), DisplayError>)
        ensures
            r is Ok ==> final(display).log() == old(display).log().push(
                Transaction::Command(self.spec_encode()),
            ),
            r is Err ==> final(display).log() == old(display).log(),
    {
        let bytes = self.encode();
        display.send_commands(&bytes)
    }
}

} // verus!
