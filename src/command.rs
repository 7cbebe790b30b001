//! Opcodes of the display controller and the bytes that go with them.
use vstd::prelude::*;

verus! {

/// An opcode of the display controller.
#[derive(Clone, Copy, Debug, PartialEq, Eq, Structural)]
pub enum Command {
    SoftReset,
    TemperatureSensorControl,
    BoosterSoftStart,
    DriverOutputControl,
    BorderWaveformControl,
    DataEntryMode,
    SetRamXRange,
    SetRamYRange,
    SetRamXCounter,
    SetRamYCounter,
    AutoWriteBwRam,
    AutoWriteRedRam,
    WriteBwRam,
    WriteRedRam,
    DisplayUpdateControl1,
    DisplayUpdateControl2,
    MasterActivation,
    WriteTemperature,
    DeepSleep,
}

/// The byte that carries each opcode on the wire.
pub open spec fn command_byte(c: Command) -> u8 {
    match c {
        Command::SoftReset => 0x12,
        Command::TemperatureSensorControl => 0x18,
        Command::BoosterSoftStart => 0x0C,
        Command::DriverOutputControl => 0x01,
        Command::BorderWaveformControl => 0x3C,
        Command::DataEntryMode => 0x11,
        Command::SetRamXRange => 0x44,
        Command::SetRamYRange => 0x45,
        Command::SetRamXCounter => 0x4E,
        Command::SetRamYCounter => 0x4F,
        Command::AutoWriteBwRam => 0x46,
        Command::AutoWriteRedRam => 0x47,
        Command::WriteBwRam => 0x24,
        Command::WriteRedRam => 0x26,
        Command::DisplayUpdateControl1 => 0x21,
        Command::DisplayUpdateControl2 => 0x22,
        Command::MasterActivation => 0x20,
        Command::WriteTemperature => 0x1A,
        Command::DeepSleep => 0x10,
    }
}

/// No two opcodes share a byte.
pub proof fn lemma_command_byte_injective(a: Command, b: Command)
    ensures
        command_byte(a) == command_byte(b) ==> a == b,
{
}

impl Command {
    /// The byte sent on the wire for this opcode.
    pub fn byte(self) -> (r: u8)
        ensures
            r == command_byte(self),
    {
        match self {
            Command::SoftReset => 0x12,
            Command::TemperatureSensorControl => 0x18,
            Command::BoosterSoftStart => 0x0C,
            Command::DriverOutputControl => 0x01,
            Command::BorderWaveformControl => 0x3C,
            Command::DataEntryMode => 0x11,
            Command::SetRamXRange => 0x44,
            Command::SetRamYRange => 0x45,
            Command::SetRamXCounter => 0x4E,
            Command::SetRamYCounter => 0x4F,
            Command::AutoWriteBwRam => 0x46,
            Command::AutoWriteRedRam => 0x47,
            Command::WriteBwRam => 0x24,
            Command::WriteRedRam => 0x26,
            Command::DisplayUpdateControl1 => 0x21,
            Command::DisplayUpdateControl2 => 0x22,
            Command::MasterActivation => 0x20,
            Command::WriteTemperature => 0x1A,
            Command::DeepSleep => 0x10,
        }
    }
}

/// How the controller compares its two RAM planes during an update.
#[derive(Clone, Copy, Debug, PartialEq, Eq, Structural)]
pub enum ControlMode {
    /// Compare the red plane against the black/white plane (partial update).
    Normal,
    /// Treat the red plane as zero (full update).
    BypassRed,
}

/// The byte that selects each comparison mode.
pub open spec fn control_mode_byte(m: ControlMode) -> u8 {
    match m {
        ControlMode::Normal => 0x00,
        ControlMode::BypassRed => 0x40,
    }
}

impl ControlMode {
    /// The byte sent on the wire for this comparison mode.
    pub fn byte(self) -> (r: u8)
        ensures
            r == control_mode_byte(self),
    {
        match self {
            ControlMode::Normal => 0x00,
            ControlMode::BypassRed => 0x40,
        }
    }
}

} // verus!
