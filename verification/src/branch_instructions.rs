use vstd::prelude::*;

use crate::bit_operations::{self, word, low_byte_of, high_byte_of};
use crate::{Condition, ConditionFlag, RegisterPair, State, StateView};

verus! {

/// The stack pointer moved down by `amount`, wrapping.
pub open spec fn stack_pointer_minus(state: StateView, amount: int) -> u16 {
    ((state.stack_pointer + 65536 - amount) % 65536) as u16
}

/// The stack pointer moved up by `amount`, wrapping.
pub open spec fn stack_pointer_plus(state: StateView, amount: int) -> u16 {
    ((state.stack_pointer + amount) % 65536) as u16
}

/// The 8080 tests zero, carry, parity and sign in branches; never the
/// auxiliary carry.
pub open spec fn is_branch_condition(condition: Condition) -> bool {
    condition.0 != ConditionFlag::AuxiliaryCarry
}

/// JMP: the program counter takes the given address.
pub open spec fn jmp_effect(state: StateView, low_data: u8, high_data: u8) -> StateView {
    StateView { program_counter: word(low_data, high_data), ..state }
}

/// CALL: the program counter is pushed (high byte first, so that the low
/// byte ends at the lower address) and then takes the given address.
pub open spec fn call_effect(state: StateView, low_data: u8, high_data: u8) -> StateView {
    let return_address = state.program_counter;
    let pushed = state.with_memory_at(
        stack_pointer_minus(state, 1),
        high_byte_of(return_address),
    ).with_memory_at(stack_pointer_minus(state, 2), low_byte_of(return_address));
    StateView {
        stack_pointer: stack_pointer_minus(state, 2),
        program_counter: word(low_data, high_data),
        ..pushed
    }
}

/// RET: the program counter is popped.
pub open spec fn ret_effect(state: StateView) -> StateView {
    StateView {
        program_counter: word(
            state.memory_at(state.stack_pointer),
            state.memory_at(stack_pointer_plus(state, 1)),
        ),
        stack_pointer: stack_pointer_plus(state, 2),
        ..state
    }
}

/// Whether a condition holds, for the instruction named by `base_instruction`.
fn is_condition_true(state: &State, condition: Condition, base_instruction: &str) -> (is_true: bool)
    requires
        is_branch_condition(condition),
    ensures
        is_true == state@.is_condition_true(condition),
{
    state.is_condition_true(condition)
}

pub fn jmp_instruction(state: &mut State, low_data: u8, high_data: u8)
    ensures
        final(state)@ == jmp_effect(old(state)@, low_data, high_data),
        final(state).ports == old(state).ports,
{
    state.program_counter = bit_operations::concat_low_high_bytes(low_data, high_data);
}

pub fn jcond_instruction(state: &mut State, low_data: u8, high_data: u8, condition: Condition)
    requires
        is_branch_condition(condition),
    ensures
        final(state)@ == if old(state)@.is_condition_true(condition) {
            jmp_effect(old(state)@, low_data, high_data)
        } else {
            old(state)@
        },
        final(state).ports == old(state).ports,
{
    if is_condition_true(state, condition, "JMP") {
        jmp_instruction(state, low_data, high_data);
    }
}

pub fn call_instruction(state: &mut State, low_data: u8, high_data: u8)
    ensures
        final(state)@ == call_effect(old(state)@, low_data, high_data),
        final(state).ports == old(state).ports,
{
    let (pc_low, pc_high) = bit_operations::split_to_low_high_bytes(state.program_counter);
    let sp_minus_one = state.stack_pointer.wrapping_sub(1);
    let sp_minus_two = state.stack_pointer.wrapping_sub(2);
    state.memory[sp_minus_one as usize] = pc_high;
    state.memory[sp_minus_two as usize] = pc_low;
    state.stack_pointer = sp_minus_two;
    state.program_counter = bit_operations::concat_low_high_bytes(low_data, high_data);
}

pub fn ccond_instruction(state: &mut State, low_data: u8, high_data: u8, condition: Condition)
    requires
        is_branch_condition(condition),
    ensures
        final(state)@ == if old(state)@.is_condition_true(condition) {
            call_effect(old(state)@, low_data, high_data)
        } else {
            old(state)@
        },
        final(state).ports == old(state).ports,
{
    if is_condition_true(state, condition, "CALL") {
        call_instruction(state, low_data, high_data);
    }
}

pub fn ret_instruction(state: &mut State)
    ensures
        final(state)@ == ret_effect(old(state)@),
        final(state).ports == old(state).ports,
{
    let sp_plus_one = state.stack_pointer.wrapping_add(1);
    let sp_plus_two = state.stack_pointer.wrapping_add(2);
    let value_for_pc_low = state.memory[state.stack_pointer as usize];
    let value_for_pc_high = state.memory[sp_plus_one as usize];
    state.program_counter = bit_operations::concat_low_high_bytes(
        value_for_pc_low,
        value_for_pc_high,
    );
    state.stack_pointer = sp_plus_two;
}

pub fn rcond_instruction(state: &mut State, condition: Condition)
    requires
        is_branch_condition(condition),
    ensures
        final(state)@ == if old(state)@.is_condition_true(condition) {
            ret_effect(old(state)@)
        } else {
            old(state)@
        },
        final(state).ports == old(state).ports,
{
    if is_condition_true(state, condition, "RET") {
        ret_instruction(state);
    }
}

/// RST: a call to the address eight times the reset index.
pub fn rst_instruction(state: &mut State, reset_index: u8)
    requires
        reset_index < 8,
    ensures
        final(state)@ == call_effect(old(state)@, (reset_index * 8) as u8, 0),
        final(state).ports == old(state).ports,
{
    call_instruction(state, reset_index * 8, 0x00);
}

pub fn pchl_instruction(state: &mut State)
    ensures
        final(state)@ == (StateView {
            program_counter: old(state)@.register_pair(RegisterPair::HL),
            ..old(state)@
        }),
        final(state).ports == old(state).ports,
{
    state.program_counter = state.full_rp_value(RegisterPair::HL);
}

/// RET after CALL returns to the address the call was made from, with the
/// stack pointer back where it was.
pub proof fn lemma_ret_undoes_call(state: StateView, low_data: u8, high_data: u8)
    requires
        state.is_well_formed(),
    ensures
        ret_effect(call_effect(state, low_data, high_data)).program_counter
            == state.program_counter,
        ret_effect(call_effect(state, low_data, high_data)).stack_pointer == state.stack_pointer,
        ret_effect(call_effect(state, low_data, high_data)).registers == state.registers,
        ret_effect(call_effect(state, low_data, high_data)).condition_flags
            == state.condition_flags,
{
    let called = call_effect(state, low_data, high_data);
    assert(stack_pointer_plus(called, 1) == stack_pointer_minus(state, 1));
    assert(stack_pointer_minus(state, 1) != stack_pointer_minus(state, 2));
    crate::bit_operations::lemma_concat_undoes_split(state.program_counter);
}

} // verus!
