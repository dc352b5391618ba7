use emu_8080::stack_instructions::{di_instruction, ei_instruction, pop_instruction, push_instruction, sphl_instruction};
use emu_8080::{Register, RegisterPair, State, StateBuilder};

fn assert_state_is_as_expected(state: &State, expected_state: &State) {
    assert_eq!(
        state.registers, expected_state.registers,
        "Expected registers {:?}, but instead they were {:?}",
        expected_state.registers, state.registers
    );
    assert_eq!(
        state.condition_flags, expected_state.condition_flags,
        "Expected condition flags {:?}, but instead they were {:?}",
        expected_state.condition_flags, state.condition_flags
    );
    assert_eq!(
        state.program_counter, expected_state.program_counter,
        "Expected program counter to have value {:#X}, but instead it had value {:#X}",
        expected_state.program_counter, state.program_counter
    );
    assert_eq!(
        state.stack_pointer, expected_state.stack_pointer,
        "Expected stack pointer to have value {:#X}, but instead it had value {:#X}",
        expected_state.stack_pointer, state.stack_pointer
    );
    assert_eq!(state.are_interrupts_enabled, expected_state.are_interrupts_enabled);
    assert_eq!(state.is_halted, expected_state.is_halted);
    for memory_address in 0..state.memory.len() {
        assert_eq!(
            state.memory[memory_address], expected_state.memory[memory_address],
            "Expected memory location {:#X} to have value {}, but instead it had value {}",
            memory_address, expected_state.memory[memory_address], state.memory[memory_address]
        );
    }
}

#[test]
fn push_sets_stack_pointer_values_based_on_given_register_pair() {
    let mut state = StateBuilder::default()
        .register_values(vec![(Register::B, (-35i8) as u8), (Register::C, 101)])
        .stack_pointer(0xF028)
        .build();
    push_instruction(&mut state, RegisterPair::BC);
    assert_state_is_as_expected(
        &state,
        &StateBuilder::default()
            .register_values(vec![(Register::B, (-35i8) as u8), (Register::C, 101)])
            .stack_pointer(0xF026)
            .memory_values(vec![(0xF026, 101), (0xF027, 221)])
            .build(),
    );
}

#[test]
fn pop_sets_given_register_pair_values_based_on_stack_pointer() {
    let mut state = StateBuilder::default()
        .stack_pointer(0x8CCD)
        .memory_values(vec![(0x8CCC, 102), (0x8CCD, 40), (0x8CCE, 204), (0x8CCF, 16)])
        .build();
    pop_instruction(&mut state, RegisterPair::DE);
    assert_state_is_as_expected(
        &state,
        &StateBuilder::default()
            .register_values(vec![(Register::D, (-52i8) as u8), (Register::E, 40)])
            .stack_pointer(0x8CCF)
            .memory_values(
                vec![(0x8CCC, 102), (0x8CCD, 40), (0x8CCE, 204), (0x8CCF, 16)],
            )
            .build(),
    );
}

#[test]
fn sphl_sets_the_stack_pointer_to_register_values() {
    let mut state = StateBuilder::default()
        .register_values(vec![(Register::H, 10), (Register::L, (-100i8) as u8)])
        .build();
    sphl_instruction(&mut state);
    assert_state_is_as_expected(
        &state,
        &StateBuilder::default()
            .register_values(vec![(Register::H, 10), (Register::L, (-100i8) as u8)])
            .stack_pointer(0x0A9C)
            .build(),
    );
}

#[test]
fn ei_sets_interrupts_as_enabled() {
    let mut state = State::default();
    ei_instruction(&mut state);
    assert_state_is_as_expected(
        &state,
        &StateBuilder::default().interrupts_enabled(true).build(),
    )
}

#[test]
fn di_sets_interrupts_as_disabled() {
    let mut state = StateBuilder::default().interrupts_enabled(true).build();
    di_instruction(&mut state);
    assert_state_is_as_expected(&state, &State::default())
}
