use emu_8080::branch_instructions::{call_instruction, ccond_instruction, jcond_instruction, jmp_instruction, pchl_instruction, rcond_instruction, ret_instruction, rst_instruction};
use emu_8080::{ConditionFlag, Register, State, StateBuilder};

fn assert_state_is_as_expected(state: &State, expected_state: &State) {
    assert_eq!(
        state.registers, expected_state.registers,
        "Expected registers {:?}, but instead they were {:?}",
        expected_state.registers, state.registers
    );
    assert_eq!(
        state.condition_flags, expected_state.condition_flags,
        "Expected condition flags {:?}, but instead they were {:?}",
        expected_state.condition_flags, state.condition_flags
    );
    assert_eq!(
        state.program_counter, expected_state.program_counter,
        "Expected program counter to have value {:#X}, but instead it had value {:#X}",
        expected_state.program_counter, state.program_counter
    );
    assert_eq!(
        state.stack_pointer, expected_state.stack_pointer,
        "Expected stack pointer to have value {:#X}, but instead it had value {:#X}",
        expected_state.stack_pointer, state.stack_pointer
    );
    assert_eq!(state.are_interrupts_enabled, expected_state.are_interrupts_enabled);
    assert_eq!(state.is_halted, expected_state.is_halted);
    for memory_address in 0..state.memory.len() {
        assert_eq!(
            state.memory[memory_address], expected_state.memory[memory_address],
            "Expected memory location {:#X} to have value {}, but instead it had value {}",
            memory_address, expected_state.memory[memory_address], state.memory[memory_address]
        );
    }
}

#[test]
fn jmp_sets_the_program_counter_to_the_given_value() {
    let mut state = State::default();
    jmp_instruction(&mut state, 0x0D, 0xD0);
    assert_state_is_as_expected(
        &state,
        &StateBuilder::default().program_counter(0xD00D).build(),
    );
}

#[test]
fn jcond_sets_the_program_counter_when_condition_is_true() {
    let mut state = State::default();
    jcond_instruction(&mut state, 0xFF, 0xFF, (ConditionFlag::Zero, false));
    assert_state_is_as_expected(
        &state,
        &StateBuilder::default().program_counter(0xFFFF).build(),
    );
}

#[test]
fn jcond_does_not_set_the_program_counter_when_condition_is_false() {
    let mut state = State::default();
    jcond_instruction(&mut state, 0xFF, 0xFF, (ConditionFlag::Zero, true));
    assert_state_is_as_expected(&state, &State::default());
}

#[test]
fn jcond_sets_the_program_counter_when_carry_flag_is_set_for_condition() {
    let mut state = StateBuilder::default()
        .condition_flag_values(vec![(ConditionFlag::Carry, true)])
        .build();
    jcond_instruction(&mut state, 0x0F, 0x00, (ConditionFlag::Carry, true));
    assert_state_is_as_expected(
        &state,
        &StateBuilder::default()
            .condition_flag_values(vec![(ConditionFlag::Carry, true)])
            .program_counter(0x000F)
            .build(),
    );
}

#[test]
fn call_calls_the_function_at_the_given_value() {
    let mut state = StateBuilder::default()
        .program_counter(0x33FA)
        .stack_pointer(0x77E1)
        .build();
    call_instruction(&mut state, 0x6F, 0x7B);
    assert_state_is_as_expected(
        &state,
        &StateBuilder::default()
            .program_counter(0x7B6F)
            .stack_pointer(0x77DF)
            .memory_values(vec![(0x77DF, 250), (0x77E0, 51)])
            .build(),
    );
}

#[test]
fn call_underflows_if_stack_pointer_is_near_zero() {
    let mut state = StateBuilder::default()
        .program_counter(0x40E0)
        .stack_pointer(0x0001)
        .build();
    call_instruction(&mut state, 0x0D, 0x4E);
    assert_state_is_as_expected(
        &state,
        &StateBuilder::default()
            .program_counter(0x4E0D)
            .stack_pointer(0xFFFF)
            .memory_values(vec![(0xFFFF, 224), (0x0000, 64)])
            .build(),
    );
}

#[test]
fn call_overwrites_if_pointers_are_default() {
    let mut state = StateBuilder::default()
        .memory_values(vec![(0xFFFD, 208), (0xFFFE, 146), (0xFFFF, 80), (0x0000, 73)])
        .build();
    call_instruction(&mut state, 0xB3, 0x2D);
    assert_state_is_as_expected(
        &state,
        &StateBuilder::default()
            .program_counter(0x2DB3)
            .stack_pointer(0xFFFE)
            .memory_values(vec![(0xFFFD, 208), (0x0000, 73)])
            .build(),
    );
}

#[test]
fn ccond_calls_the_function_when_condition_is_true() {
    let mut state = StateBuilder::default()
        .program_counter(0x33FA)
        .stack_pointer(0x77E1)
        .condition_flag_values(vec![(ConditionFlag::Zero, true)])
        .build();
    ccond_instruction(&mut state, 0x6F, 0x7B, (ConditionFlag::Zero, true));
    assert_state_is_as_expected(
        &state,
        &StateBuilder::default()
            .program_counter(0x7B6F)
            .stack_pointer(0x77DF)
            .memory_values(vec![(0x77DF, 250), (0x77E0, 51)])
            .condition_flag_values(vec![(ConditionFlag::Zero, true)])
            .build(),
    );
}

#[test]
fn ccond_does_not_call_the_function_when_condition_is_false() {
    let mut state = StateBuilder::default()
        .program_counter(0x33FA)
        .stack_pointer(0x77E1)
        .condition_flag_values(vec![(ConditionFlag::Zero, true)])
        .build();
    ccond_instruction(&mut state, 0x6F, 0x7B, (ConditionFlag::Zero, false));
    assert_state_is_as_expected(
        &state,
        &StateBuilder::default()
            .program_counter(0x33FA)
            .stack_pointer(0x77E1)
            .condition_flag_values(vec![(ConditionFlag::Zero, true)])
            .build(),
    );
}

#[test]
fn ret_returns_from_the_stack_pointer_value() {
    let mut state = StateBuilder::default()
        .stack_pointer(0xA462)
        .memory_values(vec![(0xA462, 72), (0xA463, 201)])
        .build();
    ret_instruction(&mut state);
    assert_state_is_as_expected(
        &state,
        &StateBuilder::default()
            .stack_pointer(0xA464)
            .program_counter(0xC948)
            .memory_values(vec![(0xA462, 72), (0xA463, 201)])
            .build(),
    );
}

#[test]
fn ret_overflows_if_stack_pointer_is_near_max() {
    let mut state = StateBuilder::default()
        .stack_pointer(0xFFFF)
        .memory_values(vec![(0xFFFE, 33), (0xFFFF, 118), (0x0000, 160), (0x0001, 155)])
        .build();
    ret_instruction(&mut state);
    assert_state_is_as_expected(
        &state,
        &StateBuilder::default()
            .program_counter(0xA076)
            .stack_pointer(0x0001)
            .memory_values(
                vec![(0xFFFE, 33), (0xFFFF, 118), (0x0000, 160), (0x0001, 155)],
            )
            .build(),
    );
}

#[test]
fn rcond_returns_when_condition_is_true() {
    let mut state = StateBuilder::default()
        .stack_pointer(0xA462)
        .memory_values(vec![(0xA462, 72), (0xA463, 201)])
        .condition_flag_values(vec![(ConditionFlag::Parity, true)])
        .build();
    rcond_instruction(&mut state, (ConditionFlag::Parity, true));
    assert_state_is_as_expected(
        &state,
        &StateBuilder::default()
            .stack_pointer(0xA464)
            .program_counter(0xC948)
            .memory_values(vec![(0xA462, 72), (0xA463, 201)])
            .condition_flag_values(vec![(ConditionFlag::Parity, true)])
            .build(),
    );
}

#[test]
fn rcond_does_not_return_when_condition_is_false() {
    let mut state = StateBuilder::default()
        .stack_pointer(0xA462)
        .memory_values(vec![(0xA462, 72), (0xA463, 201)])
        .condition_flag_values(vec![(ConditionFlag::Parity, true)])
        .build();
    rcond_instruction(&mut state, (ConditionFlag::Parity, false));
    assert_state_is_as_expected(
        &state,
        &StateBuilder::default()
            .stack_pointer(0xA462)
            .memory_values(vec![(0xA462, 72), (0xA463, 201)])
            .condition_flag_values(vec![(ConditionFlag::Parity, true)])
            .build(),
    );
}

#[test]
fn rst_calls_the_function_at_a_set_offset_from_the_given_value() {
    let mut state = StateBuilder::default()
        .program_counter(0x1914)
        .stack_pointer(0x9DEC)
        .build();
    rst_instruction(&mut state, 7);
    assert_state_is_as_expected(
        &state,
        &StateBuilder::default()
            .program_counter(0x0038)
            .stack_pointer(0x9DEA)
            .memory_values(vec![(0x9DEA, 20), (0x9DEB, 25)])
            .build(),
    );
}

#[test]
fn pchl_sets_the_program_counter_from_registers() {
    let mut state = StateBuilder::default()
        .register_values(vec![(Register::H, 192), (Register::L, 63)])
        .build();
    pchl_instruction(&mut state);
    assert_state_is_as_expected(
        &state,
        &StateBuilder::default()
            .register_values(vec![(Register::H, 192), (Register::L, 63)])
            .program_counter(0xC03F)
            .build(),
    );
}
