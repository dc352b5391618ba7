use vstd::prelude::*;

use crate::bit_operations::{word, low_byte_of, high_byte_of};
use crate::branch_instructions::{stack_pointer_minus, stack_pointer_plus};
use crate::{ConditionFlags, Register, RegisterPair, State, StateView};

verus! {

/// PUSH: the high byte goes below the stack pointer, the low byte below
/// that, and the stack pointer moves down by two.
pub open spec fn push_bytes_effect(state: StateView, low_value: u8, high_value: u8) -> StateView {
    StateView {
        stack_pointer: stack_pointer_minus(state, 2),
        ..state.with_memory_at(stack_pointer_minus(state, 1), high_value).with_memory_at(
            stack_pointer_minus(state, 2),
            low_value,
        )
    }
}

/// The low and the high byte on top of the stack.
pub open spec fn stack_top(state: StateView) -> (u8, u8) {
    (state.memory_at(state.stack_pointer), state.memory_at(stack_pointer_plus(state, 1)))
}

/// The stack pointer moved up by two, past the popped bytes.
pub open spec fn popped(state: StateView) -> StateView {
    StateView { stack_pointer: stack_pointer_plus(state, 2), ..state }
}

/// PUSH of BC, DE or HL.
pub open spec fn push_effect(state: StateView, register_pair: RegisterPair) -> StateView {
    let value = state.register_pair(register_pair);
    push_bytes_effect(state, low_byte_of(value), high_byte_of(value))
}

/// POP into BC, DE or HL.
pub open spec fn pop_effect(state: StateView, register_pair: RegisterPair) -> StateView {
    let (low_value, high_value) = stack_top(state);
    popped(state).with_register_pair(register_pair, word(low_value, high_value))
}

/// PUSH PSW: the accumulator, then the flags byte.
pub open spec fn push_psw_effect(state: StateView) -> StateView {
    push_bytes_effect(state, state.condition_flags.as_byte(), state.register(Register::A))
}

/// POP PSW: the flags from the flags byte, then the accumulator.
pub open spec fn pop_psw_effect(state: StateView) -> StateView {
    let (flags_byte, accumulator) = stack_top(state);
    StateView {
        condition_flags: ConditionFlags::from_byte(flags_byte),
        ..popped(state).with_register(Register::A, accumulator)
    }
}

/// XTHL: L trades with the byte on top of the stack and H with the byte above it.
pub open spec fn xthl_effect(state: StateView) -> StateView {
    let (low_value, high_value) = stack_top(state);
    state.with_memory_at(state.stack_pointer, state.register(Register::L)).with_memory_at(
        stack_pointer_plus(state, 1),
        state.register(Register::H),
    ).with_register(Register::L, low_value).with_register(Register::H, high_value)
}

pub fn push_instruction(state: &mut State, register_pair: RegisterPair)
    requires
        register_pair != RegisterPair::SP,
    ensures
        final(state)@ == push_effect(old(state)@, register_pair),
        final(state).ports == old(state).ports,
{
    let (register_pair_low, register_pair_high) = state.low_high_rp_value(register_pair);
    let sp_minus_one = state.stack_pointer.wrapping_sub(1);
    let sp_minus_two = state.stack_pointer.wrapping_sub(2);
    state.set_memory_value_at(sp_minus_one, register_pair_high);
    state.set_memory_value_at(sp_minus_two, register_pair_low);
    state.stack_pointer = sp_minus_two;
}

pub fn pop_instruction(state: &mut State, register_pair: RegisterPair)
    requires
        register_pair != RegisterPair::SP,
    ensures
        final(state)@ == pop_effect(old(state)@, register_pair),
        final(state).ports == old(state).ports,
{
    let sp_plus_one = state.stack_pointer.wrapping_add(1);
    let sp_plus_two = state.stack_pointer.wrapping_add(2);
    let value_for_register_pair_low = state.memory_value_at(state.stack_pointer);
    let value_for_register_pair_high = state.memory_value_at(sp_plus_one);
    state.stack_pointer = sp_plus_two;
    state.set_low_high_rp_value(
        register_pair,
        value_for_register_pair_low,
        value_for_register_pair_high,
    );
}

pub fn push_psw_instruction(state: &mut State)
    ensures
        final(state)@ == push_psw_effect(old(state)@),
        final(state).ports == old(state).ports,
{
    let condition_flag_byte = state.condition_flag_byte();
    let accumulator_value = state.registers.a;
    let sp_minus_one = state.stack_pointer.wrapping_sub(1);
    let sp_minus_two = state.stack_pointer.wrapping_sub(2);
    state.set_memory_value_at(sp_minus_one, accumulator_value);
    state.set_memory_value_at(sp_minus_two, condition_flag_byte);
    state.stack_pointer = sp_minus_two;
}

pub fn pop_psw_instruction(state: &mut State)
    ensures
        final(state)@ == pop_psw_effect(old(state)@),
        final(state).ports == old(state).ports,
{
    let sp_plus_one = state.stack_pointer.wrapping_add(1);
    let sp_plus_two = state.stack_pointer.wrapping_add(2);
    state.set_condition_flag_byte(state.stack_pointer);
    state.registers.a = state.memory_value_at(sp_plus_one);
    state.stack_pointer = sp_plus_two;
}

pub fn xthl_instruction(state: &mut State)
    ensures
        final(state)@ == xthl_effect(old(state)@),
        final(state).ports == old(state).ports,
{
    let sp_plus_one = state.stack_pointer.wrapping_add(1);
    let stack_low_value = state.memory_value_at(state.stack_pointer);
    let stack_high_value = state.memory_value_at(sp_plus_one);
    let l_register_value = state.registers.l;
    let h_register_value = state.registers.h;
    state.set_memory_value_at(state.stack_pointer, l_register_value);
    state.set_memory_value_at(sp_plus_one, h_register_value);
    state.registers.l = stack_low_value;
    state.registers.h = stack_high_value;
}

pub fn sphl_instruction(state: &mut State)
    ensures
        final(state)@ == (StateView {
            stack_pointer: old(state)@.register_pair(RegisterPair::HL),
            ..old(state)@
        }),
        final(state).ports == old(state).ports,
{
    state.stack_pointer = state.full_rp_value(RegisterPair::HL);
}

pub fn ei_instruction(state: &mut State)
    ensures
        final(state)@ == (StateView { are_interrupts_enabled: true, ..old(state)@ }),
        final(state).ports == old(state).ports,
{
    state.are_interrupts_enabled = true;
}

pub fn di_instruction(state: &mut State)
    ensures
        final(state)@ == (StateView { are_interrupts_enabled: false, ..old(state)@ }),
        final(state).ports == old(state).ports,
{
    state.are_interrupts_enabled = false;
}

pub fn hlt_instruction(state: &mut State)
    ensures
        final(state)@ == (StateView { is_halted: true, ..old(state)@ }),
        final(state).ports == old(state).ports,
{
    state.is_halted = true;
}

/// POP after PUSH of the same register pair restores the pair and the stack
/// pointer; only the two bytes below the stack pointer have changed.
pub proof fn lemma_pop_undoes_push(state: StateView, register_pair: RegisterPair)
    requires
        state.is_well_formed(),
        register_pair != RegisterPair::SP,
    ensures
        pop_effect(push_effect(state, register_pair), register_pair).registers == state.registers,
        pop_effect(push_effect(state, register_pair), register_pair).stack_pointer
            == state.stack_pointer,
        pop_effect(push_effect(state, register_pair), register_pair).condition_flags
            == state.condition_flags,
        pop_effect(push_effect(state, register_pair), register_pair).program_counter
            == state.program_counter,
{
    let pushed = push_effect(state, register_pair);
    assert(stack_pointer_plus(pushed, 1) == stack_pointer_minus(state, 1));
    assert(stack_pointer_minus(state, 1) != stack_pointer_minus(state, 2));
    crate::bit_operations::lemma_concat_undoes_split(state.register_pair(register_pair));
    crate::lemma_register_pair_write_of_read(state, register_pair);
}

/// POP PSW after PUSH PSW restores the accumulator, every flag and the
/// stack pointer.
pub proof fn lemma_pop_psw_undoes_push_psw(state: StateView)
    requires
        state.is_well_formed(),
    ensures
        pop_psw_effect(push_psw_effect(state)).registers == state.registers,
        pop_psw_effect(push_psw_effect(state)).condition_flags == state.condition_flags,
        pop_psw_effect(push_psw_effect(state)).stack_pointer == state.stack_pointer,
{
    let pushed = push_psw_effect(state);
    assert(stack_pointer_plus(pushed, 1) == stack_pointer_minus(state, 1));
    assert(stack_pointer_minus(state, 1) != stack_pointer_minus(state, 2));
    crate::lemma_flags_byte_round_trip(state.condition_flags);
}

/// XTHL twice leaves the state as it was.
pub proof fn lemma_xthl_twice_is_identity(state: StateView)
    requires
        state.is_well_formed(),
    ensures
        xthl_effect(xthl_effect(state)) == state,
{
    let once = xthl_effect(state);
    assert(stack_pointer_plus(state, 1) != state.stack_pointer);
    assert(xthl_effect(once).memory =~= state.memory);
}

} // verus!
