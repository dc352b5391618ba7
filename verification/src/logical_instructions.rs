use vstd::prelude::*;

use crate::bit_operations;
use crate::{ConditionFlag, Register, RegisterPair, State, StateView};

verus! {

/// ANA, XRA, ORA and their immediate and memory forms: the accumulator
/// takes the given result; zero, sign and parity follow it; carry and
/// auxiliary carry are cleared.
pub open spec fn logical_effect(state: StateView, result: u8) -> StateView {
    state.with_register(Register::A, result).with_result_flags(result).with_flag(
        ConditionFlag::Carry,
        false,
    ).with_flag(ConditionFlag::AuxiliaryCarry, false)
}

/// ANI: bitwise and of the accumulator and the data byte.
pub open spec fn ani_effect(state: StateView, data: u8) -> StateView {
    logical_effect(state, state.register(Register::A) & data)
}

/// XRI: bitwise exclusive or of the accumulator and the data byte.
pub open spec fn xri_effect(state: StateView, data: u8) -> StateView {
    logical_effect(state, state.register(Register::A) ^ data)
}

/// ORI: bitwise or of the accumulator and the data byte.
pub open spec fn ori_effect(state: StateView, data: u8) -> StateView {
    logical_effect(state, state.register(Register::A) | data)
}

/// CPI: the flags of the subtraction of the data byte from the accumulator,
/// which keeps its value; the carry tells whether the data byte is greater;
/// the auxiliary carry is kept.
pub open spec fn cpi_effect(state: StateView, data: u8) -> StateView {
    let accumulator = state.register(Register::A);
    let result = ((accumulator - data + 256) % 256) as u8;
    state.with_result_flags(result).with_flag(ConditionFlag::Carry, accumulator < data)
}

/// RLC: the accumulator rotates left; bit 7 goes to bit 0 and to the carry.
pub open spec fn rlc_effect(state: StateView) -> StateView {
    let accumulator = state.register(Register::A);
    state.with_register(Register::A, ((accumulator * 2) % 256 + accumulator / 128) as u8).with_flag(
        ConditionFlag::Carry,
        accumulator >= 128,
    )
}

/// RRC: the accumulator rotates right; bit 0 goes to bit 7 and to the carry.
pub open spec fn rrc_effect(state: StateView) -> StateView {
    let accumulator = state.register(Register::A);
    state.with_register(Register::A, (accumulator / 2 + (accumulator % 2) * 128) as u8).with_flag(
        ConditionFlag::Carry,
        accumulator % 2 == 1,
    )
}

/// RAL: the accumulator rotates left through the carry.
pub open spec fn ral_effect(state: StateView) -> StateView {
    let accumulator = state.register(Register::A);
    let carry_in: int = if state.flag(ConditionFlag::Carry) {
        1
    } else {
        0
    };
    state.with_register(Register::A, ((accumulator * 2) % 256 + carry_in) as u8).with_flag(
        ConditionFlag::Carry,
        accumulator >= 128,
    )
}

/// RAR: the accumulator rotates right through the carry.
pub open spec fn rar_effect(state: StateView) -> StateView {
    let accumulator = state.register(Register::A);
    let carry_in: int = if state.flag(ConditionFlag::Carry) {
        128
    } else {
        0
    };
    state.with_register(Register::A, (accumulator / 2 + carry_in) as u8).with_flag(
        ConditionFlag::Carry,
        accumulator % 2 == 1,
    )
}

/// CMA: the accumulator takes its complement.
pub open spec fn cma_effect(state: StateView) -> StateView {
    state.with_register(Register::A, (255 - state.register(Register::A)) as u8)
}

pub fn ana_instruction(state: &mut State, source_register: Register)
    ensures
        final(state)@ == ani_effect(old(state)@, old(state)@.register(source_register)),
        final(state).ports == old(state).ports,
{
    let source_register_value = state.registers.get(source_register);
    ani_instruction(state, source_register_value);
}

pub fn ana_mem_instruction(state: &mut State)
    ensures
        final(state)@ == ani_effect(
            old(state)@,
            old(state)@.memory_at(old(state)@.register_pair(RegisterPair::HL)),
        ),
        final(state).ports == old(state).ports,
{
    let memory_address = state.full_rp_value(RegisterPair::HL);
    let memory_value = state.memory[memory_address as usize];
    ani_instruction(state, memory_value)
}

pub fn ani_instruction(state: &mut State, data: u8)
    ensures
        final(state)@ == ani_effect(old(state)@, data),
        final(state).ports == old(state).ports,
{
    let and_values = |value: u8, target_value: u8| -> (result: u8)
        ensures
            result == value & target_value,
        { value & target_value };
    state.set_register_by_function_with_value(Register::A, data, and_values);
    proof {
        let accumulator = old(state)@.register(Register::A);
        assert(data & accumulator == accumulator & data) by (bit_vector);
    }
    state.set_condition_flags_from_register_value(Register::A);
    state.condition_flags.carry = false;
    state.condition_flags.auxiliary_carry = false;
}

pub fn xra_instruction(state: &mut State, source_register: Register)
    ensures
        final(state)@ == xri_effect(old(state)@, old(state)@.register(source_register)),
        final(state).ports == old(state).ports,
{
    let source_register_value = state.registers.get(source_register);
    xri_instruction(state, source_register_value);
}

pub fn xra_mem_instruction(state: &mut State)
    ensures
        final(state)@ == xri_effect(
            old(state)@,
            old(state)@.memory_at(old(state)@.register_pair(RegisterPair::HL)),
        ),
        final(state).ports == old(state).ports,
{
    let memory_address = state.full_rp_value(RegisterPair::HL);
    let memory_value = state.memory[memory_address as usize];
    xri_instruction(state, memory_value)
}

pub fn xri_instruction(state: &mut State, data: u8)
    ensures
        final(state)@ == xri_effect(old(state)@, data),
        final(state).ports == old(state).ports,
{
    let xor_values = |value: u8, target_value: u8| -> (result: u8)
        ensures
            result == value ^ target_value,
        { value ^ target_value };
    state.set_register_by_function_with_value(Register::A, data, xor_values);
    proof {
        let accumulator = old(state)@.register(Register::A);
        assert(data ^ accumulator == accumulator ^ data) by (bit_vector);
    }
    state.set_condition_flags_from_register_value(Register::A);
    state.condition_flags.carry = false;
    state.condition_flags.auxiliary_carry = false;
}

pub fn ora_instruction(state: &mut State, source_register: Register)
    ensures
        final(state)@ == ori_effect(old(state)@, old(state)@.register(source_register)),
        final(state).ports == old(state).ports,
{
    let source_register_value = state.registers.get(source_register);
    ori_instruction(state, source_register_value);
}

pub fn ora_mem_instruction(state: &mut State)
    ensures
        final(state)@ == ori_effect(
            old(state)@,
            old(state)@.memory_at(old(state)@.register_pair(RegisterPair::HL)),
        ),
        final(state).ports == old(state).ports,
{
    let memory_address = state.full_rp_value(RegisterPair::HL);
    let memory_value = state.memory[memory_address as usize];
    ori_instruction(state, memory_value)
}

pub fn ori_instruction(state: &mut State, data: u8)
    ensures
        final(state)@ == ori_effect(old(state)@, data),
        final(state).ports == old(state).ports,
{
    let or_values = |value: u8, target_value: u8| -> (result: u8)
        ensures
            result == value | target_value,
        { value | target_value };
    state.set_register_by_function_with_value(Register::A, data, or_values);
    proof {
        let accumulator = old(state)@.register(Register::A);
        assert(data | accumulator == accumulator | data) by (bit_vector);
    }
    state.set_condition_flags_from_register_value(Register::A);
    state.condition_flags.carry = false;
    state.condition_flags.auxiliary_carry = false;
}

pub fn cmp_instruction(state: &mut State, register: Register)
    ensures
        final(state)@ == cpi_effect(old(state)@, old(state)@.register(register)),
        final(state).ports == old(state).ports,
{
    let register_value = state.registers.get(register);
    cpi_instruction(state, register_value);
}

pub fn cmp_mem_instruction(state: &mut State)
    ensures
        final(state)@ == cpi_effect(
            old(state)@,
            old(state)@.memory_at(old(state)@.register_pair(RegisterPair::HL)),
        ),
        final(state).ports == old(state).ports,
{
    let memory_address = state.full_rp_value(RegisterPair::HL);
    let memory_value = state.memory_value_at(memory_address);
    cpi_instruction(state, memory_value);
}

pub fn cpi_instruction(state: &mut State, data: u8)
    ensures
        final(state)@ == cpi_effect(old(state)@, data),
        final(state).ports == old(state).ports,
{
    let accumulator_value = state.registers.a;
    let result = accumulator_value.wrapping_sub(data);
    state.set_condition_flags_from_result(result);
    state.condition_flags.carry = accumulator_value < data;
}

/// The byte rotated left by one bit.
fn rotate_left_once(value: u8) -> (rotated: u8)
    ensures
        rotated == ((value * 2) % 256 + value / 128) as u8,
{
    let rotated: u8 = (value << 1u8) | (value >> 7u8);
    assert(rotated == ((value * 2) % 256 + value / 128) as u8) by (bit_vector)
        requires
            rotated == (value << 1u8) | (value >> 7u8),
    ;
    rotated
}

/// The byte rotated right by one bit.
fn rotate_right_once(value: u8) -> (rotated: u8)
    ensures
        rotated == (value / 2 + (value % 2) * 128) as u8,
{
    let rotated: u8 = (value >> 1u8) | (value << 7u8);
    assert(rotated == (value / 2 + (value % 2) * 128) as u8) by (bit_vector)
        requires
            rotated == (value >> 1u8) | (value << 7u8),
    ;
    rotated
}

pub fn rlc_instruction(state: &mut State)
    ensures
        final(state)@ == rlc_effect(old(state)@),
        final(state).ports == old(state).ports,
{
    let accumulator_value = state.registers.a;
    state.registers.a = rotate_left_once(accumulator_value);
    state.condition_flags.carry = bit_operations::is_bit_set(accumulator_value, 7);
    assert(bit_operations::bit_of(accumulator_value, 7) == (accumulator_value >= 128)) by (bit_vector);
}

pub fn rrc_instruction(state: &mut State)
    ensures
        final(state)@ == rrc_effect(old(state)@),
        final(state).ports == old(state).ports,
{
    let accumulator_value = state.registers.a;
    state.registers.a = rotate_right_once(accumulator_value);
    state.condition_flags.carry = bit_operations::is_bit_set(accumulator_value, 0);
    assert(bit_operations::bit_of(accumulator_value, 0) == (accumulator_value % 2 == 1)) by (bit_vector);
}

pub fn ral_instruction(state: &mut State)
    ensures
        final(state)@ == ral_effect(old(state)@),
        final(state).ports == old(state).ports,
{
    let accumulator_value = state.registers.a;
    let previous_carry = state.condition_flags.carry;
    let mut result = rotate_left_once(accumulator_value);
    let bit_index: u8 = 0;
    let carry = bit_operations::is_bit_set(result, bit_index);
    let rotated = result;
    bit_operations::set_bit_in_value(&mut result, bit_index, previous_carry);
    assert(carry == (accumulator_value >= 128) && result == ((accumulator_value * 2) % 256 + (
    if previous_carry {
        1u8
    } else {
        0u8
    })) as u8) by (bit_vector)
        requires
            rotated == ((accumulator_value * 2) % 256 + accumulator_value / 128) as u8,
            carry == ((rotated >> 0u8) & 1u8 == 1u8),
            result == (rotated & !(1u8 << 0u8)) | (if previous_carry {
                1u8 << 0u8
            } else {
                0u8
            }),
    ;
    state.registers.a = result;
    state.condition_flags.carry = carry;
}

pub fn rar_instruction(state: &mut State)
    ensures
        final(state)@ == rar_effect(old(state)@),
        final(state).ports == old(state).ports,
{
    let accumulator_value = state.registers.a;
    let previous_carry = state.condition_flags.carry;
    let mut result = rotate_right_once(accumulator_value);
    let bit_index: u8 = 7;
    let carry = bit_operations::is_bit_set(result, bit_index);
    let rotated = result;
    bit_operations::set_bit_in_value(&mut result, bit_index, previous_carry);
    assert(carry == (accumulator_value % 2 == 1) && result == (accumulator_value / 2 + (
    if previous_carry {
        128u8
    } else {
        0u8
    })) as u8) by (bit_vector)
        requires
            rotated == (accumulator_value / 2 + (accumulator_value % 2) * 128) as u8,
            carry == ((rotated >> 7u8) & 1u8 == 1u8),
            result == (rotated & !(1u8 << 7u8)) | (if previous_carry {
                1u8 << 7u8
            } else {
                0u8
            }),
    ;
    state.registers.a = result;
    state.condition_flags.carry = carry;
}

pub fn cma_instruction(state: &mut State)
    ensures
        final(state)@ == cma_effect(old(state)@),
        final(state).ports == old(state).ports,
{
    let accumulator_value = state.registers.a;
    let complement = !accumulator_value;
    assert(complement == 255 - accumulator_value) by (bit_vector)
        requires
            complement == !accumulator_value,
    ;
    state.registers.a = complement;
}

pub fn cmc_instruction(state: &mut State)
    ensures
        final(state)@ == old(state)@.with_flag(
            ConditionFlag::Carry,
            !old(state)@.flag(ConditionFlag::Carry),
        ),
        final(state).ports == old(state).ports,
{
    state.condition_flags.carry = !state.condition_flags.carry;
}

pub fn stc_instruction(state: &mut State)
    ensures
        final(state)@ == old(state)@.with_flag(ConditionFlag::Carry, true),
        final(state).ports == old(state).ports,
{
    state.condition_flags.carry = true;
}

/// RRC undoes RLC, and RLC undoes RRC.
pub proof fn lemma_rotations_undo_each_other(state: StateView)
    ensures
        rrc_effect(rlc_effect(state)).register(Register::A) == state.register(Register::A),
        rlc_effect(rrc_effect(state)).register(Register::A) == state.register(Register::A),
{
    let a = state.register(Register::A);
    let left = ((a * 2) % 256 + a / 128) as u8;
    let right = (a / 2 + (a % 2) * 128) as u8;
    assert(rlc_effect(state).register(Register::A) == left);
    assert(rrc_effect(state).register(Register::A) == right);
    if a < 128 {
        assert(left == a * 2);
        assert(right == a / 2 + (a % 2) * 128);
    } else {
        assert(left == a * 2 - 255);
        assert(right == a / 2 + (a % 2) * 128);
    }
}

/// RAR undoes RAL, the carry included, and RAL undoes RAR.
pub proof fn lemma_rotations_through_carry_undo_each_other(state: StateView)
    ensures
        rar_effect(ral_effect(state)) == state,
        ral_effect(rar_effect(state)) == state,
{
}

/// CMA twice leaves the state as it was.
pub proof fn lemma_cma_twice_is_identity(state: StateView)
    ensures
        cma_effect(cma_effect(state)) == state,
{
}

/// XRA of the accumulator with itself clears it and sets zero and parity.
pub proof fn lemma_xor_with_itself_clears_accumulator(state: StateView)
    ensures
        xri_effect(state, state.register(Register::A)).register(Register::A) == 0,
        xri_effect(state, state.register(Register::A)).flag(ConditionFlag::Zero),
{
    let accumulator = state.register(Register::A);
    assert(accumulator ^ accumulator == 0) by (bit_vector);
}

/// CMP sets zero exactly when the operand equals the accumulator, and
/// carry exactly when it is greater; the accumulator keeps its value.
pub proof fn lemma_compare_orders_operands(state: StateView, data: u8)
    ensures
        cpi_effect(state, data).flag(ConditionFlag::Zero) == (data == state.register(Register::A)),
        cpi_effect(state, data).flag(ConditionFlag::Carry) == (data > state.register(Register::A)),
        cpi_effect(state, data).registers == state.registers,
{
}

} // verus!
