use st7565::command::{BoosterRatio, Command, PowerControlMode, StaticIndicatorMode};
use st7565::frame::{encode, EncodedFrame};

fn bytes_of(frame: EncodedFrame) -> Vec<u8> {
    match frame {
        EncodedFrame::Single(command) => vec![command],
        EncodedFrame::Double(command, parameter) => vec![command, parameter],
    }
}

fn flags() -> [bool; 2] {
    [false, true]
}

/// One command for each frame that there is: every kind, with every value
/// of its field that reaches the wire.
fn every_command_cut_to_width() -> Vec<Command> {
    let mut all: Vec<Command> = Vec::new();
    for on in flags() {
        all.push(Command::DisplayOnOff { on });
        all.push(Command::DisplayAllPoints { on });
        all.push(Command::AdcSelect { reverse: on });
        all.push(Command::DisplayNormalReverse { reverse: on });
        all.push(Command::LcdBiasSet { bias_mode_1: on });
        all.push(Command::CommonOutputModeSelect { reverse_direction: on });
    }
    for address in 0..64u8 {
        all.push(Command::DisplayStartLineSet { address });
        all.push(Command::ElectronicVolumeSet { volume_value: address });
    }
    for address in 0..16u8 {
        all.push(Command::PageAddressSet { address });
    }
    for address in 0..=255u8 {
        all.push(Command::ColumnAddressSet { address });
    }
    for resistor_ratio in 0..8u8 {
        all.push(Command::VoltageRegulatorInternalResistorSet { resistor_ratio });
    }
    for booster_circuit in flags() {
        for voltage_regulator_circuit in flags() {
            for voltage_follower_circuit in flags() {
                all.push(Command::PowerControlSet {
                    mode: PowerControlMode {
                        booster_circuit,
                        voltage_regulator_circuit,
                        voltage_follower_circuit,
                    },
                });
            }
        }
    }
    all.push(Command::StaticIndicatorSet { mode: None });
    all.push(Command::StaticIndicatorSet { mode: Some(StaticIndicatorMode::Off) });
    all.push(Command::StaticIndicatorSet { mode: Some(StaticIndicatorMode::BlinkSlow) });
    all.push(Command::StaticIndicatorSet { mode: Some(StaticIndicatorMode::BlinkFast) });
    all.push(Command::StaticIndicatorSet { mode: Some(StaticIndicatorMode::On) });
    all.push(Command::BoosterRatioSet { stepup_value: BoosterRatio::StepUp2x3x4x });
    all.push(Command::BoosterRatioSet { stepup_value: BoosterRatio::StepUp5x });
    all.push(Command::BoosterRatioSet { stepup_value: BoosterRatio::StepUp6x });
    all.push(Command::Reset);
    all.push(Command::NOP);
    all
}

#[test]
fn start_line_depends_on_low_six_bits_only() {
    for address in 0..=255u8 {
        let cut: u8 = address & 0x3F;
        assert_eq!(
            encode(Command::DisplayStartLineSet { address }),
            encode(Command::DisplayStartLineSet { address: cut })
        );
        assert_eq!(
            encode(Command::DisplayStartLineSet { address }),
            encode(Command::DisplayStartLineSet { address: cut | 0xC0 })
        );
    }
}

#[test]
fn page_depends_on_low_four_bits_only() {
    for address in 0..=255u8 {
        let cut: u8 = address & 0x0F;
        assert_eq!(
            encode(Command::PageAddressSet { address }),
            encode(Command::PageAddressSet { address: cut })
        );
        assert_eq!(
            encode(Command::PageAddressSet { address }),
            encode(Command::PageAddressSet { address: cut | 0xF0 })
        );
    }
}

#[test]
fn bits_above_the_byte_change_nothing() {
    for wide in 0..=255u16 {
        let above: u16 = wide | 0xFF00;
        assert_eq!(
            encode(Command::DisplayStartLineSet { address: above as u8 }),
            encode(Command::DisplayStartLineSet { address: wide as u8 })
        );
        assert_eq!(
            encode(Command::PageAddressSet { address: above as u8 }),
            encode(Command::PageAddressSet { address: wide as u8 })
        );
    }
}

#[test]
fn start_line_keeps_its_opcode_bits() {
    for address in 0..=255u8 {
        match encode(Command::DisplayStartLineSet { address }) {
            EncodedFrame::Single(byte) => {
                assert_eq!(byte & 0xC0, 0x40);
                assert_eq!(byte & 0x3F, address & 0x3F);
            }
            EncodedFrame::Double(..) => panic!("a start line is one byte"),
        }
    }
}

#[test]
fn page_keeps_its_opcode_bits() {
    for address in 0..=255u8 {
        match encode(Command::PageAddressSet { address }) {
            EncodedFrame::Single(byte) => {
                assert_eq!(byte & 0xF0, 0xB0);
                assert_eq!(byte & 0x0F, address & 0x0F);
            }
            EncodedFrame::Double(..) => panic!("a page address is one byte"),
        }
    }
}

#[test]
fn column_address_reassembles_from_its_nibbles() {
    for address in 0..=255u8 {
        match encode(Command::ColumnAddressSet { address }) {
            EncodedFrame::Double(high, low) => {
                assert_eq!(((high & 0x0F) << 4) | (low & 0x0F), address);
                assert_eq!(high & 0xF0, 0x10);
                assert_eq!(low & 0xF0, 0x00);
            }
            EncodedFrame::Single(..) => panic!("a column address is two bytes"),
        }
    }
}

#[test]
fn arithmetic_reading_of_the_masked_fields() {
    for value in 0..=255u8 {
        assert_eq!(
            encode(Command::DisplayStartLineSet { address: value }),
            EncodedFrame::Single(0x40 + value % 64)
        );
        assert_eq!(
            encode(Command::PageAddressSet { address: value }),
            EncodedFrame::Single(0xB0 + value % 16)
        );
        assert_eq!(
            encode(Command::ColumnAddressSet { address: value }),
            EncodedFrame::Double(0x10 + value / 16, value % 16)
        );
        assert_eq!(
            encode(Command::VoltageRegulatorInternalResistorSet { resistor_ratio: value }),
            EncodedFrame::Single(0x20 + value % 8)
        );
        assert_eq!(
            encode(Command::ElectronicVolumeSet { volume_value: value }),
            EncodedFrame::Double(0x81, value % 64)
        );
    }
}

#[test]
fn arithmetic_reading_of_the_flags() {
    for booster in flags() {
        for regulator in flags() {
            for follower in flags() {
                let expected: u8 =
                    0x28 + 4 * u8::from(booster) + 2 * u8::from(regulator) + u8::from(follower);
                let mode = PowerControlMode {
                    booster_circuit: booster,
                    voltage_regulator_circuit: regulator,
                    voltage_follower_circuit: follower,
                };
                assert_eq!(
                    encode(Command::PowerControlSet { mode }),
                    EncodedFrame::Single(expected)
                );
            }
        }
    }
    for flag in flags() {
        assert_eq!(
            encode(Command::CommonOutputModeSelect { reverse_direction: flag }),
            EncodedFrame::Single(0xC0 + 8 * u8::from(flag))
        );
        assert_eq!(
            encode(Command::DisplayOnOff { on: flag }),
            EncodedFrame::Single(0xAE + u8::from(flag))
        );
    }
}

#[test]
fn frame_length_is_fixed_by_the_kind_of_command() {
    for command in every_command_cut_to_width() {
        let expected: usize = match command {
            Command::ColumnAddressSet { .. } => 2,
            Command::ElectronicVolumeSet { .. } => 2,
            Command::BoosterRatioSet { .. } => 2,
            Command::StaticIndicatorSet { mode: Some(_) } => 2,
            _ => 1,
        };
        assert_eq!(bytes_of(encode(command)).len(), expected);
    }
}

#[test]
fn static_indicator_is_the_one_command_with_two_shapes() {
    assert_eq!(bytes_of(encode(Command::StaticIndicatorSet { mode: None })), vec![0xAC]);
    assert_eq!(
        bytes_of(encode(Command::StaticIndicatorSet { mode: Some(StaticIndicatorMode::Off) })),
        vec![0xAD, 0x00]
    );
}

#[test]
fn no_two_commands_share_a_frame() {
    let all = every_command_cut_to_width();
    assert_eq!(all.len(), 12 + 128 + 16 + 256 + 8 + 8 + 5 + 3 + 2);
    let mut frames: Vec<Vec<u8>> = Vec::new();
    for command in all.iter() {
        frames.push(bytes_of(encode(*command)));
    }
    frames.sort();
    let before: usize = frames.len();
    frames.dedup();
    assert_eq!(frames.len(), before);
}

#[test]
fn no_two_kinds_share_a_command_byte() {
    let mut firsts: Vec<(u8, u8)> = Vec::new();
    for command in every_command_cut_to_width() {
        let kind: u8 = match command {
            Command::DisplayOnOff { .. } => 0,
            Command::DisplayStartLineSet { .. } => 1,
            Command::PageAddressSet { .. } => 2,
            Command::ColumnAddressSet { .. } => 3,
            Command::AdcSelect { .. } => 4,
            Command::DisplayNormalReverse { .. } => 5,
            Command::DisplayAllPoints { .. } => 6,
            Command::LcdBiasSet { .. } => 7,
            Command::Reset => 8,
            Command::CommonOutputModeSelect { .. } => 9,
            Command::PowerControlSet { .. } => 10,
            Command::VoltageRegulatorInternalResistorSet { .. } => 11,
            Command::ElectronicVolumeSet { .. } => 12,
            Command::StaticIndicatorSet { .. } => 13,
            Command::BoosterRatioSet { .. } => 14,
            Command::NOP => 15,
        };
        firsts.push((bytes_of(encode(command))[0], kind));
    }
    for (byte, kind) in firsts.iter() {
        for (other_byte, other_kind) in firsts.iter() {
            if byte == other_byte {
                assert_eq!(kind, other_kind);
            }
        }
    }
}
