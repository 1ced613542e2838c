//! From a command to the bytes on the bus.

use crate::command::{bit, spec_bit, Command};
use vstd::prelude::*;

verus! {

/// An encoded command: the command byte, and the parameter byte where the
/// command has one.
#[derive(Debug, Copy, Clone, PartialEq, Eq, Structural)]
pub enum EncodedFrame {
    Single(u8),
    Double(u8, u8),
}

impl View for EncodedFrame {
    type V = Seq<u8>;

    /// The bytes in the order in which they are sent.
    open spec fn view(&self) -> Seq<u8> {
        match *self {
            EncodedFrame::Single(command) => seq![command],
            EncodedFrame::Double(command, parameter) => seq![command, parameter],
        }
    }
}

/// The frame that the controller expects for each command.
///
/// An address, ratio or volume wider than its field is cut to the field's
/// width; no value is rejected.
pub open spec fn spec_encode(command: Command) -> EncodedFrame {
    match command {
        Command::DisplayOnOff { on } => EncodedFrame::Single(0xAEu8 | spec_bit(on)),
        Command::DisplayStartLineSet { address } => EncodedFrame::Single(0x40u8 | (address & 0x3Fu8)),
        Command::PageAddressSet { address } => EncodedFrame::Single(0xB0u8 | (address & 0x0Fu8)),
        Command::ColumnAddressSet { address } => EncodedFrame::Double(
            0x10u8 | ((address >> 4) & 0x0Fu8),
            address & 0x0Fu8,
        ),
        Command::AdcSelect { reverse } => EncodedFrame::Single(0xA0u8 | spec_bit(reverse)),
        Command::DisplayNormalReverse { reverse } => EncodedFrame::Single(0xA6u8 | spec_bit(reverse)),
        Command::DisplayAllPoints { on } => EncodedFrame::Single(0xA4u8 | spec_bit(on)),
        Command::LcdBiasSet { bias_mode_1 } => EncodedFrame::Single(0xA2u8 | spec_bit(bias_mode_1)),
        Command::Reset => EncodedFrame::Single(0xE2u8),
        Command::CommonOutputModeSelect { reverse_direction } => EncodedFrame::Single(
            0xC0u8 | (spec_bit(reverse_direction) << 3),
        ),
        Command::PowerControlSet { mode } => EncodedFrame::Single(0x28u8 | mode.spec_bits()),
        Command::VoltageRegulatorInternalResistorSet { resistor_ratio } => EncodedFrame::Single(
            0x20u8 | (resistor_ratio & 0x07u8),
        ),
        Command::ElectronicVolumeSet { volume_value } => EncodedFrame::Double(
            0x81u8,
            volume_value & 0x3Fu8,
        ),
        Command::StaticIndicatorSet { mode: None } => EncodedFrame::Single(0xACu8),
        Command::StaticIndicatorSet { mode: Some(mode) } => EncodedFrame::Double(
            0xADu8,
            mode.spec_code(),
        ),
        Command::BoosterRatioSet { stepup_value } => EncodedFrame::Double(
            0xF8u8,
            stepup_value.spec_code(),
        ),
        Command::NOP => EncodedFrame::Single(0xE3u8),
    }
}

/// The encoding read as arithmetic: each command byte is its opcode plus the
/// value of its field, the field taken modulo the size of its range.
pub open spec fn spec_encode_arithmetic(command: Command) -> EncodedFrame {
    match command {
        Command::DisplayOnOff { on } => EncodedFrame::Single((0xAE + spec_bit(on)) as u8),
        Command::DisplayStartLineSet { address } => EncodedFrame::Single((0x40 + address % 64) as u8),
        Command::PageAddressSet { address } => EncodedFrame::Single((0xB0 + address % 16) as u8),
        Command::ColumnAddressSet { address } => EncodedFrame::Double(
            (0x10 + address / 16) as u8,
            (address % 16) as u8,
        ),
        Command::AdcSelect { reverse } => EncodedFrame::Single((0xA0 + spec_bit(reverse)) as u8),
        Command::DisplayNormalReverse { reverse } => EncodedFrame::Single(
            (0xA6 + spec_bit(reverse)) as u8,
        ),
        Command::DisplayAllPoints { on } => EncodedFrame::Single((0xA4 + spec_bit(on)) as u8),
        Command::LcdBiasSet { bias_mode_1 } => EncodedFrame::Single(
            (0xA2 + spec_bit(bias_mode_1)) as u8,
        ),
        Command::Reset => EncodedFrame::Single(0xE2),
        Command::CommonOutputModeSelect { reverse_direction } => EncodedFrame::Single(
            (0xC0 + 8 * spec_bit(reverse_direction)) as u8,
        ),
        Command::PowerControlSet { mode } => EncodedFrame::Single(
            (0x28 + 4 * spec_bit(mode.booster_circuit) + 2 * spec_bit(
                mode.voltage_regulator_circuit,
            ) + spec_bit(mode.voltage_follower_circuit)) as u8,
        ),
        Command::VoltageRegulatorInternalResistorSet { resistor_ratio } => EncodedFrame::Single(
            (0x20 + resistor_ratio % 8) as u8,
        ),
        Command::ElectronicVolumeSet { volume_value } => EncodedFrame::Double(
            0x81,
            (volume_value % 64) as u8,
        ),
        Command::StaticIndicatorSet { mode: None } => EncodedFrame::Single(0xAC),
        Command::StaticIndicatorSet { mode: Some(mode) } => EncodedFrame::Double(
            0xAD,
            mode.spec_code(),
        ),
        Command::BoosterRatioSet { stepup_value } => EncodedFrame::Double(
            0xF8,
            stepup_value.spec_code(),
        ),
        Command::NOP => EncodedFrame::Single(0xE3),
    }
}

/// The bitwise table and its arithmetic reading give the same frame for
/// every command.
pub proof fn lemma_encode_arithmetic(command: Command)
    ensures
        spec_encode(command) == spec_encode_arithmetic(command),
{
    match command {
        Command::DisplayOnOff { on } => {
            let x: u8 = spec_bit(on);
            assert(x <= 1 ==> 0xAEu8 | x == 0xAE + x) by (bit_vector);
        },
        Command::DisplayStartLineSet { address } => {
            assert(0x40u8 | (address & 0x3F) == 0x40 + address % 64) by (bit_vector);
        },
        Command::PageAddressSet { address } => {
            assert(0xB0u8 | (address & 0x0F) == 0xB0 + address % 16) by (bit_vector);
        },
        Command::ColumnAddressSet { address } => {
            assert(0x10u8 | ((address >> 4) & 0x0F) == 0x10 + address / 16 && address & 0x0F
                == address % 16) by (bit_vector);
        },
        Command::AdcSelect { reverse } => {
            let x: u8 = spec_bit(reverse);
            assert(x <= 1 ==> 0xA0u8 | x == 0xA0 + x) by (bit_vector);
        },
        Command::DisplayNormalReverse { reverse } => {
            let x: u8 = spec_bit(reverse);
            assert(x <= 1 ==> 0xA6u8 | x == 0xA6 + x) by (bit_vector);
        },
        Command::DisplayAllPoints { on } => {
            let x: u8 = spec_bit(on);
            assert(x <= 1 ==> 0xA4u8 | x == 0xA4 + x) by (bit_vector);
        },
        Command::LcdBiasSet { bias_mode_1 } => {
            let x: u8 = spec_bit(bias_mode_1);
            assert(x <= 1 ==> 0xA2u8 | x == 0xA2 + x) by (bit_vector);
        },
        Command::CommonOutputModeSelect { reverse_direction } => {
            let x: u8 = spec_bit(reverse_direction);
            assert(x <= 1 ==> 0xC0u8 | (x << 3) == 0xC0 + 8 * x) by (bit_vector);
        },
        Command::PowerControlSet { mode } => {
            let b: u8 = spec_bit(mode.booster_circuit);
            let r: u8 = spec_bit(mode.voltage_regulator_circuit);
            let f: u8 = spec_bit(mode.voltage_follower_circuit);
            assert(b <= 1 && r <= 1 && f <= 1 ==> 0x28u8 | ((b << 2) | (r << 1) | f) == 0x28 + 4 * b
                + 2 * r + f) by (bit_vector);
        },
        Command::VoltageRegulatorInternalResistorSet { resistor_ratio } => {
            assert(0x20u8 | (resistor_ratio & 0x07) == 0x20 + resistor_ratio % 8) by (bit_vector);
        },
        Command::ElectronicVolumeSet { volume_value } => {
            assert(volume_value & 0x3F == volume_value % 64) by (bit_vector);
        },
        _ => {},
    }
}

/// Encodes a command. Every command has a frame: encoding cannot fail.
///
/// The frame is the one that the table gives, stated in both of its
/// readings.
#[verifier::when_used_as_spec(spec_encode)]
pub fn encode(command: Command) -> (frame: EncodedFrame)
    ensures
        frame == spec_encode(command),
        frame == spec_encode_arithmetic(command),
{
    proof {
        lemma_encode_arithmetic(command);
    }
    match command {
        Command::DisplayOnOff { on } => EncodedFrame::Single(0xAE | bit(on)),
        Command::DisplayStartLineSet { address } => EncodedFrame::Single(0x40 | (address & 0x3F)),
        Command::PageAddressSet { address } => EncodedFrame::Single(0xB0 | (address & 0x0F)),
        Command::ColumnAddressSet { address } => EncodedFrame::Double(
            0x10 | ((address >> 4) & 0x0F),
            address & 0x0F,
        ),
        Command::AdcSelect { reverse } => EncodedFrame::Single(0xA0 | bit(reverse)),
        Command::DisplayNormalReverse { reverse } => EncodedFrame::Single(0xA6 | bit(reverse)),
        Command::DisplayAllPoints { on } => EncodedFrame::Single(0xA4 | bit(on)),
        Command::LcdBiasSet { bias_mode_1 } => EncodedFrame::Single(0xA2 | bit(bias_mode_1)),
        Command::Reset => EncodedFrame::Single(0xE2),
        Command::CommonOutputModeSelect { reverse_direction } => EncodedFrame::Single(
            0xC0 | (bit(reverse_direction) << 3),
        ),
        Command::PowerControlSet { mode } => EncodedFrame::Single(0x28 | mode.bits()),
        Command::VoltageRegulatorInternalResistorSet { resistor_ratio } => EncodedFrame::Single(
            0x20 | (resistor_ratio & 0x07),
        ),
        Command::ElectronicVolumeSet { volume_value } => EncodedFrame::Double(
            0x81,
            volume_value & 0x3F,
        ),
        Command::StaticIndicatorSet { mode: None } => EncodedFrame::Single(0xAC),
        Command::StaticIndicatorSet { mode: Some(mode) } => EncodedFrame::Double(0xAD, mode.code()),
        Command::BoosterRatioSet { stepup_value } => EncodedFrame::Double(
            0xF8,
            stepup_value.code(),
        ),
        Command::NOP => EncodedFrame::Single(0xE3),
    }
}

} // verus!
