use vstd::prelude::*;

use crate::bit_operations::{self, word};
use crate::{Register, RegisterPair, State, StateView};

verus! {

/// MVI: the register takes the data byte.
pub open spec fn mvi_effect(state: StateView, register: Register, data: u8) -> StateView {
    state.with_register(register, data)
}

/// MVI M: the byte at the address in HL takes the data byte.
pub open spec fn mvi_mem_effect(state: StateView, data: u8) -> StateView {
    state.with_memory_at(state.register_pair(RegisterPair::HL), data)
}

/// LDA: the accumulator takes the byte at the given address.
pub open spec fn lda_effect(state: StateView, low_data: u8, high_data: u8) -> StateView {
    state.with_register(Register::A, state.memory_at(word(low_data, high_data)))
}

/// STA: the byte at the given address takes the accumulator.
pub open spec fn sta_effect(state: StateView, low_data: u8, high_data: u8) -> StateView {
    state.with_memory_at(word(low_data, high_data), state.register(Register::A))
}

/// The address after the given one, wrapping at the top of memory.
pub open spec fn next_address(address: u16) -> u16 {
    ((address + 1) % 65536) as u16
}

/// LHLD: L takes the byte at the given address and H the byte after it.
pub open spec fn lhld_effect(state: StateView, low_data: u8, high_data: u8) -> StateView {
    let address = word(low_data, high_data);
    state.with_register(Register::L, state.memory_at(address)).with_register(
        Register::H,
        state.memory_at(next_address(address)),
    )
}

/// SHLD: the byte at the given address takes L and the byte after it takes H.
pub open spec fn shld_effect(state: StateView, low_data: u8, high_data: u8) -> StateView {
    let address = word(low_data, high_data);
    state.with_memory_at(address, state.register(Register::L)).with_memory_at(
        next_address(address),
        state.register(Register::H),
    )
}

/// XCHG: HL and DE trade values.
pub open spec fn xchg_effect(state: StateView) -> StateView {
    state.with_register(Register::H, state.register(Register::D)).with_register(
        Register::D,
        state.register(Register::H),
    ).with_register(Register::L, state.register(Register::E)).with_register(
        Register::E,
        state.register(Register::L),
    )
}

pub fn mov_instruction(state: &mut State, from_register: Register, to_register: Register)
    ensures
        final(state)@ == mvi_effect(old(state)@, to_register, old(state)@.register(from_register)),
        final(state).ports == old(state).ports,
{
    let from_register_value = state.registers.get(from_register);
    mvi_instruction(state, to_register, from_register_value);
}

pub fn mov_from_mem_instruction(state: &mut State, register: Register)
    ensures
        final(state)@ == mvi_effect(
            old(state)@,
            register,
            old(state)@.memory_at(old(state)@.register_pair(RegisterPair::HL)),
        ),
        final(state).ports == old(state).ports,
{
    let memory_address = state.full_rp_value(RegisterPair::HL);
    let data = state.memory[memory_address as usize];
    mvi_instruction(state, register, data);
}

pub fn mov_to_mem_instruction(state: &mut State, register: Register)
    ensures
        final(state)@ == mvi_mem_effect(old(state)@, old(state)@.register(register)),
        final(state).ports == old(state).ports,
{
    let data = state.registers.get(register);
    mvi_mem_instruction(state, data);
}

pub fn mvi_instruction(state: &mut State, register: Register, data: u8)
    ensures
        final(state)@ == mvi_effect(old(state)@, register, data),
        final(state).ports == old(state).ports,
{
    state.registers.set(register, data);
}

pub fn mvi_mem_instruction(state: &mut State, data: u8)
    ensures
        final(state)@ == mvi_mem_effect(old(state)@, data),
        final(state).ports == old(state).ports,
{
    let memory_address = state.full_rp_value(RegisterPair::HL);
    state.memory[memory_address as usize] = data;
}

pub fn lxi_instruction(state: &mut State, register_pair: RegisterPair, low_data: u8, high_data: u8)
    ensures
        final(state)@ == old(state)@.with_register_pair(register_pair, word(low_data, high_data)),
        final(state).ports == old(state).ports,
{
    state.set_low_high_rp_value(register_pair, low_data, high_data);
}

pub fn lda_instruction(state: &mut State, low_data: u8, high_data: u8)
    ensures
        final(state)@ == lda_effect(old(state)@, low_data, high_data),
        final(state).ports == old(state).ports,
{
    let memory_address = bit_operations::concat_low_high_bytes(low_data, high_data);
    let memory_location_value = state.memory[memory_address as usize];
    state.registers.a = memory_location_value;
}

pub fn sta_instruction(state: &mut State, low_data: u8, high_data: u8)
    ensures
        final(state)@ == sta_effect(old(state)@, low_data, high_data),
        final(state).ports == old(state).ports,
{
    let memory_address = bit_operations::concat_low_high_bytes(low_data, high_data);
    let accumulator_value = state.registers.a;
    state.memory[memory_address as usize] = accumulator_value;
}

pub fn lhld_instruction(state: &mut State, low_data: u8, high_data: u8)
    ensures
        final(state)@ == lhld_effect(old(state)@, low_data, high_data),
        final(state).ports == old(state).ports,
{
    let first_memory_address = bit_operations::concat_low_high_bytes(low_data, high_data);
    let second_memory_address = first_memory_address.wrapping_add(1);
    let first_memory_value = state.memory[first_memory_address as usize];
    let second_memory_value = state.memory[second_memory_address as usize];
    state.registers.l = first_memory_value;
    state.registers.h = second_memory_value;
}

pub fn shld_instruction(state: &mut State, low_data: u8, high_data: u8)
    ensures
        final(state)@ == shld_effect(old(state)@, low_data, high_data),
        final(state).ports == old(state).ports,
{
    let first_memory_address = bit_operations::concat_low_high_bytes(low_data, high_data);
    let second_memory_address = first_memory_address.wrapping_add(1);
    let h_register_value = state.registers.h;
    let l_register_value = state.registers.l;
    state.memory[first_memory_address as usize] = l_register_value;
    state.memory[second_memory_address as usize] = h_register_value;
}

/// LDAX: the accumulator takes the byte at the address in BC or DE.
pub fn ldax_instruction(state: &mut State, register_pair: RegisterPair)
    requires
        register_pair is BC || register_pair is DE,
    ensures
        final(state)@ == mvi_effect(
            old(state)@,
            Register::A,
            old(state)@.memory_at(old(state)@.register_pair(register_pair)),
        ),
        final(state).ports == old(state).ports,
{
    let memory_address = state.full_rp_value(register_pair);
    let value = state.memory[memory_address as usize];
    state.registers.a = value;
}

/// STAX: the byte at the address in BC or DE takes the accumulator.
pub fn stax_instruction(state: &mut State, register_pair: RegisterPair)
    requires
        register_pair is BC || register_pair is DE,
    ensures
        final(state)@ == old(state)@.with_memory_at(
            old(state)@.register_pair(register_pair),
            old(state)@.register(Register::A),
        ),
        final(state).ports == old(state).ports,
{
    let value = state.registers.a;
    let memory_address = state.full_rp_value(register_pair);
    state.memory[memory_address as usize] = value;
}

pub fn xchg_instruction(state: &mut State)
    ensures
        final(state)@ == xchg_effect(old(state)@),
        final(state).ports == old(state).ports,
{
    state.exchange_register_values(Register::D, Register::H);
    state.exchange_register_values(Register::E, Register::L);
}

/// XCHG twice leaves the state as it was.
pub proof fn lemma_xchg_twice_is_identity(state: StateView)
    ensures
        xchg_effect(xchg_effect(state)) == state,
{
}

/// What LHLD reads back at an address is what SHLD wrote there.
pub proof fn lemma_lhld_reads_what_shld_wrote(state: StateView, low_data: u8, high_data: u8)
    requires
        state.is_well_formed(),
    ensures
        lhld_effect(shld_effect(state, low_data, high_data), low_data, high_data).registers
            == state.registers,
{
    let address = word(low_data, high_data);
    assert(address != next_address(address));
}

/// What LDA reads back at an address is what STA wrote there.
pub proof fn lemma_lda_reads_what_sta_wrote(state: StateView, low_data: u8, high_data: u8)
    requires
        state.is_well_formed(),
    ensures
        lda_effect(sta_effect(state, low_data, high_data), low_data, high_data).registers
            == state.registers,
{
}

} // verus!
