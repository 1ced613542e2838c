//! What holds of the encoding for every command.

use crate::command::Command;
use crate::frame::{lemma_encode_arithmetic, spec_encode, EncodedFrame};
use vstd::prelude::*;

verus! {

/// Whether a command is followed by a parameter byte.
pub open spec fn has_parameter(command: Command) -> bool {
    match command {
        Command::ColumnAddressSet { .. } => true,
        Command::ElectronicVolumeSet { .. } => true,
        Command::BoosterRatioSet { .. } => true,
        Command::StaticIndicatorSet { mode } => mode is Some,
        _ => false,
    }
}

/// The length of a frame is fixed by the kind of command, never by the value
/// of a field: two bytes where the command has a parameter byte, else one.
/// The static indicator is the one command with both shapes, a parameter
/// byte being sent exactly when a blink state is given.
pub proof fn lemma_frame_length(command: Command)
    ensures
        has_parameter(command) ==> spec_encode(command) is Double && spec_encode(command)@.len() == 2,
        !has_parameter(command) ==> spec_encode(command) is Single && spec_encode(command)@.len() == 1,
{
}

/// Address bits above the width of the field never reach the wire: two start
/// line addresses that agree in their low six bits, and two page addresses
/// that agree in their low four, are encoded alike.
pub proof fn lemma_high_address_bits_ignored(address: u8, other: u8)
    ensures
        address & 0x3F == other & 0x3F ==> spec_encode(Command::DisplayStartLineSet { address })
            == spec_encode(Command::DisplayStartLineSet { address: other }),
        address & 0x0F == other & 0x0F ==> spec_encode(Command::PageAddressSet { address })
            == spec_encode(Command::PageAddressSet { address: other }),
{
}

/// An address changes nothing above its field: the high bits of the command
/// byte are the opcode whatever the address is, and the low bits are the
/// address cut to the field's width.
pub proof fn lemma_address_field_in_place(address: u8)
    ensures
        spec_encode(Command::DisplayStartLineSet { address }) matches EncodedFrame::Single(byte)
            && byte & 0xC0 == 0x40 && byte & 0x3F == address & 0x3F,
        spec_encode(Command::PageAddressSet { address }) matches EncodedFrame::Single(byte) && byte
            & 0xF0 == 0xB0 && byte & 0x0F == address & 0x0F,
{
    assert((0x40u8 | (address & 0x3F)) & 0xC0 == 0x40 && (0x40u8 | (address & 0x3F)) & 0x3F
        == address & 0x3F) by (bit_vector);
    assert((0xB0u8 | (address & 0x0F)) & 0xF0 == 0xB0 && (0xB0u8 | (address & 0x0F)) & 0x0F
        == address & 0x0F) by (bit_vector);
}

/// An address held in a wider integer is encoded by its low byte alone:
/// setting bits above the byte changes nothing.
pub proof fn lemma_wide_address_truncated(wide: u16)
    ensures
        spec_encode(Command::DisplayStartLineSet { address: (wide | 0xFF00) as u8 }) == spec_encode(
            Command::DisplayStartLineSet { address: wide as u8 },
        ),
        spec_encode(Command::PageAddressSet { address: (wide | 0xFF00) as u8 }) == spec_encode(
            Command::PageAddressSet { address: wide as u8 },
        ),
{
    assert((wide | 0xFF00) as u8 == wide as u8) by (bit_vector);
}

/// The two bytes of a column address command carry the whole address: the
/// low nibble of the first byte is its high nibble, the low nibble of the
/// second byte its low nibble.
pub proof fn lemma_column_address_reassembles(address: u8)
    ensures
        spec_encode(Command::ColumnAddressSet { address }) matches EncodedFrame::Double(high, low)
            && ((high & 0x0F) << 4) | (low & 0x0F) == address,
{
    assert((((0x10u8 | ((address >> 4) & 0x0F)) & 0x0F) << 4) | ((address & 0x0F) & 0x0F)
        == address) by (bit_vector);
}

/// The command with each numeric field cut to the width that the controller
/// reads: six bits of a start line and of a volume, four of a page, three of
/// a resistor ratio. A column address keeps all eight bits.
pub open spec fn normalized(command: Command) -> Command {
    match command {
        Command::DisplayStartLineSet { address } => Command::DisplayStartLineSet {
            address: address & 0x3F,
        },
        Command::PageAddressSet { address } => Command::PageAddressSet { address: address & 0x0F },
        Command::VoltageRegulatorInternalResistorSet {
            resistor_ratio,
        } => Command::VoltageRegulatorInternalResistorSet { resistor_ratio: resistor_ratio & 0x07 },
        Command::ElectronicVolumeSet { volume_value } => Command::ElectronicVolumeSet {
            volume_value: volume_value & 0x3F,
        },
        _ => command,
    }
}

/// A field wider than its place on the wire is cut silently: the frame of a
/// command is the frame of the command with its field cut to width, so
/// cutting a field twice is cutting it once.
pub proof fn lemma_normalized_same_frame(command: Command)
    ensures
        spec_encode(normalized(command)) == spec_encode(command),
        normalized(normalized(command)) == normalized(command),
{
    match command {
        Command::DisplayStartLineSet { address } => {
            assert((address & 0x3F) & 0x3F == address & 0x3F) by (bit_vector);
        },
        Command::PageAddressSet { address } => {
            assert((address & 0x0F) & 0x0F == address & 0x0F) by (bit_vector);
        },
        Command::VoltageRegulatorInternalResistorSet { resistor_ratio } => {
            assert((resistor_ratio & 0x07) & 0x07 == resistor_ratio & 0x07) by (bit_vector);
        },
        Command::ElectronicVolumeSet { volume_value } => {
            assert((volume_value & 0x3F) & 0x3F == volume_value & 0x3F) by (bit_vector);
        },
        _ => {},
    }
}

/// What a mask keeps of a byte is the byte's remainder by the size of the
/// field.
proof fn lemma_mask_is_remainder(x: u8)
    by (bit_vector)
    ensures
        x & 0x3F == x % 64,
        x & 0x0F == x % 16,
        x & 0x07 == x % 8,
{
}

/// The controller can tell any two commands apart: commands with the same
/// frame are of the same kind and agree in every field, as far as the field
/// reaches the wire.
pub proof fn lemma_same_frame_same_command(first: Command, second: Command)
    requires
        spec_encode(first) == spec_encode(second),
    ensures
        normalized(first) == normalized(second),
{
    lemma_encode_arithmetic(first);
    lemma_encode_arithmetic(second);
    match first {
        Command::DisplayStartLineSet { address } => lemma_mask_is_remainder(address),
        Command::PageAddressSet { address } => lemma_mask_is_remainder(address),
        Command::VoltageRegulatorInternalResistorSet { resistor_ratio } => lemma_mask_is_remainder(
            resistor_ratio,
        ),
        Command::ElectronicVolumeSet { volume_value } => lemma_mask_is_remainder(volume_value),
        _ => {},
    }
    match second {
        Command::DisplayStartLineSet { address } => lemma_mask_is_remainder(address),
        Command::PageAddressSet { address } => lemma_mask_is_remainder(address),
        Command::VoltageRegulatorInternalResistorSet { resistor_ratio } => lemma_mask_is_remainder(
            resistor_ratio,
        ),
        Command::ElectronicVolumeSet { volume_value } => lemma_mask_is_remainder(volume_value),
        _ => {},
    }
}

} // verus!
