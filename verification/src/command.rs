//! Display commands.

use vstd::prelude::*;

verus! {

/// Step-up ratio of the internal voltage booster.
#[derive(Debug, Copy, Clone)]
pub enum BoosterRatio {
    StepUp2x3x4x,
    StepUp5x,
    StepUp6x,
}

/// Which of the three power supply circuits are switched on.
#[derive(Debug, Copy, Clone)]
pub struct PowerControlMode {
    pub booster_circuit: bool,
    pub voltage_regulator_circuit: bool,
    pub voltage_follower_circuit: bool,
}

/// Blink state of the static indicator while it is enabled.
#[derive(Debug, Copy, Clone)]
pub enum StaticIndicatorMode {
    Off,
    BlinkSlow,
    BlinkFast,
    On,
}

/// Commands
#[allow(inconsistent_fields)]
#[derive(Debug, Copy, Clone)]
pub enum Command {
    DisplayOnOff { on: bool },
    DisplayStartLineSet { address: u8 },
    PageAddressSet { address: u8 },
    ColumnAddressSet { address: u8 },
    AdcSelect { reverse: bool },
    DisplayNormalReverse { reverse: bool },
    DisplayAllPoints { on: bool },
    LcdBiasSet { bias_mode_1: bool },
    Reset,
    CommonOutputModeSelect { reverse_direction: bool },
    PowerControlSet { mode: PowerControlMode },
    VoltageRegulatorInternalResistorSet { resistor_ratio: u8 },
    ElectronicVolumeSet { volume_value: u8 },
    StaticIndicatorSet { mode: Option<StaticIndicatorMode> },
    BoosterRatioSet { stepup_value: BoosterRatio },
    NOP,
}

impl BoosterRatio {
    /// The parameter byte that selects this ratio. The codes are the
    /// controller's own: 6x is `0b11`, and `0b10` selects nothing.
    pub open spec fn spec_code(self) -> u8 {
        match self {
            BoosterRatio::StepUp2x3x4x => 0b00u8,
            BoosterRatio::StepUp5x => 0b01u8,
            BoosterRatio::StepUp6x => 0b11u8,
        }
    }

    /// Computes the parameter byte that selects this ratio.
    #[verifier::when_used_as_spec(spec_code)]
    pub fn code(self) -> (c: u8)
        ensures
            c == self.spec_code(),
    {
        match self {
            BoosterRatio::StepUp2x3x4x => 0b00,
            BoosterRatio::StepUp5x => 0b01,
            BoosterRatio::StepUp6x => 0b11,
        }
    }
}

impl StaticIndicatorMode {
    /// The parameter byte that selects this blink state.
    pub open spec fn spec_code(self) -> u8 {
        match self {
            StaticIndicatorMode::Off => 0b00u8,
            StaticIndicatorMode::BlinkSlow => 0b01u8,
            StaticIndicatorMode::BlinkFast => 0b10u8,
            StaticIndicatorMode::On => 0b11u8,
        }
    }

    /// Computes the parameter byte that selects this blink state.
    #[verifier::when_used_as_spec(spec_code)]
    pub fn code(self) -> (c: u8)
        ensures
            c == self.spec_code(),
    {
        match self {
            StaticIndicatorMode::Off => 0b00,
            StaticIndicatorMode::BlinkSlow => 0b01,
            StaticIndicatorMode::BlinkFast => 0b10,
            StaticIndicatorMode::On => 0b11,
        }
    }
}

impl PowerControlMode {
    /// The three circuit flags packed into the low bits of the power control
    /// command: booster in bit 2, regulator in bit 1, follower in bit 0.
    pub open spec fn spec_bits(self) -> u8 {
        (spec_bit(self.booster_circuit) << 2) | (spec_bit(self.voltage_regulator_circuit) << 1)
            | spec_bit(self.voltage_follower_circuit)
    }

    /// Packs the three circuit flags into the low bits of the power control
    /// command.
    #[verifier::when_used_as_spec(spec_bits)]
    pub fn bits(self) -> (b: u8)
        ensures
            b == self.spec_bits(),
    {
        (bit(self.booster_circuit) << 2) | (bit(self.voltage_regulator_circuit) << 1) | bit(
            self.voltage_follower_circuit,
        )
    }
}

/// The bit that a flag contributes to a command byte: 1 when set, 0 when clear.
pub open spec fn spec_bit(flag: bool) -> u8 {
    if flag {
        1u8
    } else {
        0u8
    }
}

/// Computes the bit that a flag contributes to a command byte.
#[verifier::when_used_as_spec(spec_bit)]
pub fn bit(flag: bool) -> (b: u8)
    ensures
        b == spec_bit(flag),
{
    if flag {
        1
    } else {
        0
    }
}

} // verus!
