use emu_8080::logical_instructions::{ana_instruction, ana_mem_instruction, ani_instruction, cma_instruction, cmc_instruction, cmp_instruction, cmp_mem_instruction, cpi_instruction, ora_instruction, ora_mem_instruction, ori_instruction, ral_instruction, rar_instruction, rlc_instruction, rrc_instruction, stc_instruction, xra_instruction, xra_mem_instruction, xri_instruction};
use emu_8080::{ConditionFlag, Register, State, StateBuilder};

fn assert_state_is_as_expected(state: &State, expected_state: &State) {
    assert_eq!(
        state.registers, expected_state.registers,
        "Expected registers {:?}, but instead they were {:?}",
        expected_state.registers, state.registers
    );
    assert_eq!(
        state.condition_flags, expected_state.condition_flags,
        "Expected condition flags {:?}, but instead they were {:?}",
        expected_state.condition_flags, state.condition_flags
    );
    assert_eq!(
        state.program_counter, expected_state.program_counter,
        "Expected program counter to have value {:#X}, but instead it had value {:#X}",
        expected_state.program_counter, state.program_counter
    );
    assert_eq!(
        state.stack_pointer, expected_state.stack_pointer,
        "Expected stack pointer to have value {:#X}, but instead it had value {:#X}",
        expected_state.stack_pointer, state.stack_pointer
    );
    assert_eq!(state.are_interrupts_enabled, expected_state.are_interrupts_enabled);
    assert_eq!(state.is_halted, expected_state.is_halted);
    for memory_address in 0..state.memory.len() {
        assert_eq!(
            state.memory[memory_address], expected_state.memory[memory_address],
            "Expected memory location {:#X} to have value {}, but instead it had value {}",
            memory_address, expected_state.memory[memory_address], state.memory[memory_address]
        );
    }
}

#[test]
fn ana_logically_ands_the_accumulator_with_the_value_of_the_given_register() {
    let mut state = StateBuilder::default()
        .register_values(vec![(Register::A, 0b01010100), (Register::B, 0b01000101)])
        .build();
    ana_instruction(&mut state, Register::B);
    assert_state_is_as_expected(
        &state,
        &StateBuilder::default()
            .register_values(vec![(Register::B, 0b01000101), (Register::A, 0b01000100)])
            .condition_flag_values(vec![(ConditionFlag::Parity, true)])
            .build(),
    );
}

#[test]
fn ana_applied_to_an_existing_accumulator_value_does_nothing() {
    let mut state = StateBuilder::default()
        .register_values(vec![(Register::A, 0b10100110)])
        .build();
    ana_instruction(&mut state, Register::A);
    assert_state_is_as_expected(
        &state,
        &StateBuilder::default()
            .register_values(vec![(Register::A, 0b10100110)])
            .condition_flag_values(
                vec![(ConditionFlag::Sign, true), (ConditionFlag::Parity, true)],
            )
            .build(),
    );
}

#[test]
fn ana_clears_the_carry_flag() {
    let mut state = StateBuilder::default()
        .condition_flag_values(vec![(ConditionFlag::Carry, true)])
        .build();
    ana_instruction(&mut state, Register::A);
    assert_state_is_as_expected(
        &state,
        &StateBuilder::default()
            .condition_flag_values(
                vec![(ConditionFlag::Zero, true), (ConditionFlag::Parity, true)],
            )
            .build(),
    );
}

#[test]
fn ana_mem_logically_ands_the_accumulator_with_the_memory_value() {
    let mut state = StateBuilder::default()
        .register_values(
            vec![(Register::A, 0b01010101), (Register::H, 148), (Register::L, 77)],
        )
        .memory_values(vec![(0x944D, 0b11011011)])
        .condition_flag_values(vec![(ConditionFlag::Carry, true)])
        .build();
    ana_mem_instruction(&mut state);
    assert_state_is_as_expected(
        &state,
        &StateBuilder::default()
            .register_values(
                vec![(Register::A, 0b01010001), (Register::H, 148), (Register::L, 77)],
            )
            .memory_values(vec![(0x944D, 0b11011011)])
            .build(),
    );
}

#[test]
fn ani_logically_ands_the_accumulator_with_the_given_value() {
    let mut state = StateBuilder::default()
        .register_values(vec![(Register::A, 0b11000110)])
        .build();
    ani_instruction(&mut state, 0b01100011);
    assert_state_is_as_expected(
        &state,
        &StateBuilder::default()
            .register_values(vec![(Register::A, 0b01000010)])
            .condition_flag_values(vec![(ConditionFlag::Parity, true)])
            .build(),
    );
}

#[test]
fn ani_clears_the_carry_and_auxiliary_carry_flags() {
    let mut state = StateBuilder::default()
        .condition_flag_values(
            vec![(ConditionFlag::Carry, true), (ConditionFlag::AuxiliaryCarry, true)],
        )
        .build();
    ani_instruction(&mut state, 0b00000000);
    assert_state_is_as_expected(
        &state,
        &StateBuilder::default()
            .condition_flag_values(
                vec![(ConditionFlag::Zero, true), (ConditionFlag::Parity, true)],
            )
            .build(),
    );
}

#[test]
fn xra_logically_xors_the_accumulator_with_the_value_of_the_given_register() {
    let mut state = StateBuilder::default()
        .register_values(vec![(Register::A, 0b01010100), (Register::B, 0b01000101)])
        .build();
    xra_instruction(&mut state, Register::B);
    assert_state_is_as_expected(
        &state,
        &StateBuilder::default()
            .register_values(vec![(Register::B, 0b01000101), (Register::A, 0b00010001)])
            .condition_flag_values(vec![(ConditionFlag::Parity, true)])
            .build(),
    );
}

#[test]
fn xra_applied_to_an_existing_accumulator_value_zeroes_that_value() {
    let mut state = StateBuilder::default()
        .register_values(vec![(Register::A, 0b10100110)])
        .build();
    xra_instruction(&mut state, Register::A);
    assert_state_is_as_expected(
        &state,
        &StateBuilder::default()
            .register_values(vec![(Register::A, 0b00000000)])
            .condition_flag_values(
                vec![(ConditionFlag::Zero, true), (ConditionFlag::Parity, true)],
            )
            .build(),
    );
}

#[test]
fn xra_clears_the_carry_and_auxiliary_carry_flags() {
    let mut state = StateBuilder::default()
        .condition_flag_values(
            vec![(ConditionFlag::Carry, true), (ConditionFlag::AuxiliaryCarry, true)],
        )
        .build();
    xra_instruction(&mut state, Register::A);
    assert_state_is_as_expected(
        &state,
        &StateBuilder::default()
            .condition_flag_values(
                vec![(ConditionFlag::Zero, true), (ConditionFlag::Parity, true)],
            )
            .build(),
    );
}

#[test]
fn xra_mem_logically_xors_the_accumulator_with_the_memory_value() {
    let mut state = StateBuilder::default()
        .register_values(
            vec![(Register::A, 0b01010101), (Register::H, 30), (Register::L, 49)],
        )
        .memory_values(vec![(0x1E31, 0b11011011)])
        .condition_flag_values(
            vec![(ConditionFlag::Carry, true), (ConditionFlag::AuxiliaryCarry, true)],
        )
        .build();
    xra_mem_instruction(&mut state);
    assert_state_is_as_expected(
        &state,
        &StateBuilder::default()
            .register_values(
                vec![(Register::A, 0b10001110), (Register::H, 30), (Register::L, 49)],
            )
            .memory_values(vec![(0x1E31, 0b11011011)])
            .condition_flag_values(
                vec![(ConditionFlag::Sign, true), (ConditionFlag::Parity, true)],
            )
            .build(),
    );
}

#[test]
fn xri_logically_xors_the_accumulator_with_the_given_value() {
    let mut state = StateBuilder::default()
        .register_values(vec![(Register::A, 0b11000110)])
        .build();
    xri_instruction(&mut state, 0b01100011);
    assert_state_is_as_expected(
        &state,
        &StateBuilder::default()
            .register_values(vec![(Register::A, 0b10100101)])
            .condition_flag_values(
                vec![(ConditionFlag::Sign, true), (ConditionFlag::Parity, true)],
            )
            .build(),
    );
}

#[test]
fn xri_clears_the_carry_and_auxiliary_carry_flags() {
    let mut state = StateBuilder::default()
        .condition_flag_values(
            vec![(ConditionFlag::Carry, true), (ConditionFlag::AuxiliaryCarry, true)],
        )
        .build();
    xri_instruction(&mut state, 0b00000000);
    assert_state_is_as_expected(
        &state,
        &StateBuilder::default()
            .condition_flag_values(
                vec![(ConditionFlag::Zero, true), (ConditionFlag::Parity, true)],
            )
            .build(),
    );
}

#[test]
fn ora_logically_ors_the_accumulator_with_the_value_of_the_given_register() {
    let mut state = StateBuilder::default()
        .register_values(vec![(Register::A, 0b01010100), (Register::B, 0b01000101)])
        .build();
    ora_instruction(&mut state, Register::B);
    assert_state_is_as_expected(
        &state,
        &StateBuilder::default()
            .register_values(vec![(Register::B, 0b01000101), (Register::A, 0b01010101)])
            .condition_flag_values(vec![(ConditionFlag::Parity, true)])
            .build(),
    );
}

#[test]
fn ora_applied_to_an_existing_accumulator_value_does_nothing() {
    let mut state = StateBuilder::default()
        .register_values(vec![(Register::A, 0b10100110)])
        .build();
    ora_instruction(&mut state, Register::A);
    assert_state_is_as_expected(
        &state,
        &StateBuilder::default()
            .register_values(vec![(Register::A, 0b10100110)])
            .condition_flag_values(
                vec![(ConditionFlag::Sign, true), (ConditionFlag::Parity, true)],
            )
            .build(),
    );
}

#[test]
fn ora_clears_the_carry_and_auxiliary_carry_flags() {
    let mut state = StateBuilder::default()
        .condition_flag_values(
            vec![(ConditionFlag::Carry, true), (ConditionFlag::AuxiliaryCarry, true)],
        )
        .build();
    ora_instruction(&mut state, Register::A);
    assert_state_is_as_expected(
        &state,
        &StateBuilder::default()
            .condition_flag_values(
                vec![(ConditionFlag::Zero, true), (ConditionFlag::Parity, true)],
            )
            .build(),
    );
}

#[test]
fn ora_mem_logically_ors_the_accumulator_with_the_memory_value() {
    let mut state = StateBuilder::default()
        .register_values(
            vec![(Register::A, 0b01010101), (Register::H, 227), (Register::L, 137)],
        )
        .memory_values(vec![(0xE389, 0b11011011)])
        .condition_flag_values(
            vec![(ConditionFlag::Carry, true), (ConditionFlag::AuxiliaryCarry, true)],
        )
        .build();
    ora_mem_instruction(&mut state);
    assert_state_is_as_expected(
        &state,
        &StateBuilder::default()
            .register_values(
                vec![(Register::A, 0b11011111), (Register::H, 227), (Register::L, 137)],
            )
            .memory_values(vec![(0xE389, 0b11011011)])
            .condition_flag_values(vec![(ConditionFlag::Sign, true)])
            .build(),
    );
}

#[test]
fn ori_logically_ors_the_accumulator_with_the_given_value() {
    let mut state = StateBuilder::default()
        .register_values(vec![(Register::A, 0b11000110)])
        .build();
    ori_instruction(&mut state, 0b01100011);
    assert_state_is_as_expected(
        &state,
        &StateBuilder::default()
            .register_values(vec![(Register::A, 0b11100111)])
            .condition_flag_values(
                vec![(ConditionFlag::Sign, true), (ConditionFlag::Parity, true)],
            )
            .build(),
    );
}

#[test]
fn ori_clears_the_carry_and_auxiliary_carry_flags() {
    let mut state = StateBuilder::default()
        .condition_flag_values(
            vec![(ConditionFlag::Carry, true), (ConditionFlag::AuxiliaryCarry, true)],
        )
        .build();
    ori_instruction(&mut state, 0b00000000);
    assert_state_is_as_expected(
        &state,
        &StateBuilder::default()
            .condition_flag_values(
                vec![(ConditionFlag::Zero, true), (ConditionFlag::Parity, true)],
            )
            .build(),
    );
}

#[test]
fn cmp_sets_the_zero_flag_if_both_are_same() {
    let mut state = StateBuilder::default()
        .register_values(vec![(Register::A, 36), (Register::H, 36)])
        .build();
    cmp_instruction(&mut state, Register::H);
    assert_state_is_as_expected(
        &state,
        &StateBuilder::default()
            .register_values(vec![(Register::A, 36), (Register::H, 36)])
            .condition_flag_values(
                vec![(ConditionFlag::Zero, true), (ConditionFlag::Parity, true)],
            )
            .build(),
    );
}

#[test]
fn cmp_sets_the_carry_flag_if_register_value_is_greater() {
    let mut state = StateBuilder::default()
        .register_values(vec![(Register::A, 24), (Register::E, 48)])
        .build();
    cmp_instruction(&mut state, Register::E);
    assert_state_is_as_expected(
        &state,
        &StateBuilder::default()
            .register_values(vec![(Register::A, 24), (Register::E, 48)])
            .condition_flag_values(vec![(ConditionFlag::Sign, true), (ConditionFlag::Parity, true), (ConditionFlag::Carry, true)])
            .build(),
    );
}

#[test]
fn cmp_mem_sets_the_zero_flag_if_both_are_same() {
    let mut state = StateBuilder::default()
        .register_values(vec![(Register::A, 99), (Register::H, 163), (Register::L, 57)])
        .memory_values(vec![(0xA339, 99)])
        .build();
    cmp_mem_instruction(&mut state);
    assert_state_is_as_expected(
        &state,
        &StateBuilder::default()
            .register_values(
                vec![(Register::A, 99), (Register::H, 163), (Register::L, 57)],
            )
            .memory_values(vec![(0xA339, 99)])
            .condition_flag_values(
                vec![(ConditionFlag::Zero, true), (ConditionFlag::Parity, true)],
            )
            .build(),
    );
}

#[test]
fn cmp_mem_sets_the_carry_flag_if_memory_value_is_greater() {
    let mut state = StateBuilder::default()
        .register_values(vec![(Register::A, 51), (Register::H, 120), (Register::L, 113)])
        .memory_values(vec![(0x7871, 253)])
        .build();
    cmp_mem_instruction(&mut state);
    assert_state_is_as_expected(
        &state,
        &StateBuilder::default()
            .register_values(
                vec![(Register::A, 51), (Register::H, 120), (Register::L, 113)],
            )
            .memory_values(vec![(0x7871, 253)])
            .condition_flag_values(
                vec![(ConditionFlag::Parity, true), (ConditionFlag::Carry, true)],
            )
            .build(),
    );
}

#[test]
fn cpi_sets_the_zero_flag_if_both_are_same() {
    let mut state = StateBuilder::default()
        .register_values(vec![(Register::A, 54)])
        .build();
    cpi_instruction(&mut state, 54);
    assert_state_is_as_expected(
        &state,
        &StateBuilder::default()
            .register_values(vec![(Register::A, 54)])
            .condition_flag_values(
                vec![(ConditionFlag::Zero, true), (ConditionFlag::Parity, true)],
            )
            .build(),
    );
}

#[test]
fn cpi_sets_the_carry_flag_if_given_value_is_greater() {
    let mut state = StateBuilder::default()
        .register_values(vec![(Register::A, 196)])
        .build();
    cpi_instruction(&mut state, 220);
    assert_state_is_as_expected(
        &state,
        &StateBuilder::default()
            .register_values(vec![(Register::A, 196)])
            .condition_flag_values(vec![(ConditionFlag::Sign, true), (ConditionFlag::Parity, true), (ConditionFlag::Carry, true)])
            .build(),
    );
}

#[test]
fn rlc_shifts_the_accumulator_value_left() {
    let mut state = StateBuilder::default()
        .register_values(vec![(Register::A, 0b01100011)])
        .build();
    rlc_instruction(&mut state);
    assert_state_is_as_expected(
        &state,
        &StateBuilder::default()
            .register_values(vec![(Register::A, 0b11000110)])
            .build(),
    );
}

#[test]
fn rlc_wraps_shifted_bit_and_sets_carry_flag() {
    let mut state = StateBuilder::default()
        .register_values(vec![(Register::A, 0b10000000)])
        .build();
    rlc_instruction(&mut state);
    assert_state_is_as_expected(
        &state,
        &StateBuilder::default()
            .register_values(vec![(Register::A, 0b00000001)])
            .condition_flag_values(vec![(ConditionFlag::Carry, true)])
            .build(),
    );
}

#[test]
fn rrc_shifts_the_accumulator_value_right() {
    let mut state = StateBuilder::default()
        .register_values(vec![(Register::A, 0b11000110)])
        .build();
    rrc_instruction(&mut state);
    assert_state_is_as_expected(
        &state,
        &StateBuilder::default()
            .register_values(vec![(Register::A, 0b01100011)])
            .build(),
    );
}

#[test]
fn rrc_wraps_shifted_bit_and_sets_carry_flag() {
    let mut state = StateBuilder::default()
        .register_values(vec![(Register::A, 0b00000001)])
        .build();
    rrc_instruction(&mut state);
    assert_state_is_as_expected(
        &state,
        &StateBuilder::default()
            .register_values(vec![(Register::A, 0b10000000)])
            .condition_flag_values(vec![(ConditionFlag::Carry, true)])
            .build(),
    );
}

#[test]
fn ral_shifts_the_accumulator_value_left_setting_carry_flag() {
    let mut state = StateBuilder::default()
        .register_values(vec![(Register::A, 0b11000110)])
        .build();
    ral_instruction(&mut state);
    assert_state_is_as_expected(
        &state,
        &StateBuilder::default()
            .register_values(vec![(Register::A, 0b10001100)])
            .condition_flag_values(vec![(ConditionFlag::Carry, true)])
            .build(),
    );
}

#[test]
fn ral_shifts_the_accumulator_value_left_including_the_carry_flag() {
    let mut state = StateBuilder::default()
        .condition_flag_values(vec![(ConditionFlag::Carry, true)])
        .build();
    ral_instruction(&mut state);
    assert_state_is_as_expected(
        &state,
        &StateBuilder::default()
            .register_values(vec![(Register::A, 0b00000001)])
            .build(),
    );
}

#[test]
fn ral_shifts_the_accumulator_value_left_setting_and_including_the_carry_flag() {
    let mut state = StateBuilder::default()
        .register_values(vec![(Register::A, 0b10100101)])
        .condition_flag_values(vec![(ConditionFlag::Carry, true)])
        .build();
    ral_instruction(&mut state);
    assert_state_is_as_expected(
        &state,
        &StateBuilder::default()
            .register_values(vec![(Register::A, 0b01001011)])
            .condition_flag_values(vec![(ConditionFlag::Carry, true)])
            .build(),
    );
}

#[test]
fn rar_shifts_the_accumulator_value_right_setting_carry_flag() {
    let mut state = StateBuilder::default()
        .register_values(vec![(Register::A, 0b01100011)])
        .build();
    rar_instruction(&mut state);
    assert_state_is_as_expected(
        &state,
        &StateBuilder::default()
            .register_values(vec![(Register::A, 0b00110001)])
            .condition_flag_values(vec![(ConditionFlag::Carry, true)])
            .build(),
    );
}

#[test]
fn rar_shifts_the_accumulator_value_right_including_the_carry_flag() {
    let mut state = StateBuilder::default()
        .condition_flag_values(vec![(ConditionFlag::Carry, true)])
        .build();
    rar_instruction(&mut state);
    assert_state_is_as_expected(
        &state,
        &StateBuilder::default()
            .register_values(vec![(Register::A, 0b10000000)])
            .build(),
    );
}

#[test]
fn rar_shifts_the_accumulator_value_right_setting_and_including_the_carry_flag() {
    let mut state = StateBuilder::default()
        .register_values(vec![(Register::A, 0b10100101)])
        .condition_flag_values(vec![(ConditionFlag::Carry, true)])
        .build();
    rar_instruction(&mut state);
    assert_state_is_as_expected(
        &state,
        &StateBuilder::default()
            .register_values(vec![(Register::A, 0b11010010)])
            .condition_flag_values(vec![(ConditionFlag::Carry, true)])
            .build(),
    );
}

#[test]
fn cma_complements_the_value_in_the_accumulator() {
    let mut state = StateBuilder::default()
        .register_values(vec![(Register::A, 0b11000110)])
        .build();
    cma_instruction(&mut state);
    assert_state_is_as_expected(
        &state,
        &StateBuilder::default()
            .register_values(vec![(Register::A, 0b00111001)])
            .build(),
    );
}

#[test]
fn cmc_inverts_the_carry_flag() {
    let mut state = State::default();
    cmc_instruction(&mut state);
    assert_state_is_as_expected(
        &state,
        &StateBuilder::default()
            .condition_flag_values(vec![(ConditionFlag::Carry, true)])
            .build(),
    );
    cmc_instruction(&mut state);
    assert_state_is_as_expected(&state, &State::default());
}

#[test]
fn stc_sets_the_carry_flag_to_true() {
    let mut state = State::default();
    stc_instruction(&mut state);
    assert_state_is_as_expected(
        &state,
        &StateBuilder::default()
            .condition_flag_values(vec![(ConditionFlag::Carry, true)])
            .build(),
    );
}
