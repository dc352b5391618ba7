use vstd::prelude::*;

use crate::bit_operations;
use crate::{ConditionFlag, Register, RegisterPair, State, StateView};

verus! {

/// ADD, ADI, ADC, ACI: the accumulator takes the sum of itself, the data byte
/// and the carry in, modulo 256; zero, sign and parity follow the result; the
/// carry tells whether the sum passed 255 and the auxiliary carry whether
/// the low nibbles (with the carry in) passed 15.
pub open spec fn add_effect(state: StateView, data: u8, carry_in: bool) -> StateView {
    let accumulator = state.register(Register::A);
    let carry: int = if carry_in {
        1
    } else {
        0
    };
    let sum = accumulator + data + carry;
    let result = (sum % 256) as u8;
    state.with_register(Register::A, result).with_result_flags(result).with_flag(
        ConditionFlag::Carry,
        sum > 255,
    ).with_flag(ConditionFlag::AuxiliaryCarry, accumulator % 16 + data % 16 + carry > 15)
}

/// SUB, SUI, SBB, SBI: the accumulator takes itself minus the data byte and
/// the borrow in, modulo 256; zero, sign and parity follow the result; the
/// carry tells whether a borrow was needed; the auxiliary carry is set when
/// the low nibble needed no borrow, as the 8080 reports it.
pub open spec fn subtract_effect(state: StateView, data: u8, borrow_in: bool) -> StateView {
    let accumulator = state.register(Register::A);
    let borrow: int = if borrow_in {
        1
    } else {
        0
    };
    let difference = accumulator - data - borrow;
    let result = ((difference + 256) % 256) as u8;
    state.with_register(Register::A, result).with_result_flags(result).with_flag(
        ConditionFlag::Carry,
        difference < 0,
    ).with_flag(ConditionFlag::AuxiliaryCarry, accumulator % 16 >= data % 16 + borrow)
}

/// INR: the register goes up by one, wrapping; the carry is kept.
pub open spec fn inr_effect(state: StateView, register: Register) -> StateView {
    let value = state.register(register);
    let result = ((value + 1) % 256) as u8;
    state.with_register(register, result).with_result_flags(result).with_flag(
        ConditionFlag::AuxiliaryCarry,
        value % 16 == 15,
    )
}

/// DCR: the register goes down by one, wrapping; the carry is kept.
pub open spec fn dcr_effect(state: StateView, register: Register) -> StateView {
    let value = state.register(register);
    let result = ((value + 255) % 256) as u8;
    state.with_register(register, result).with_result_flags(result).with_flag(
        ConditionFlag::AuxiliaryCarry,
        value % 16 != 0,
    )
}

/// INR M: the byte at the address in HL goes up by one, wrapping.
pub open spec fn inr_mem_effect(state: StateView) -> StateView {
    let address = state.register_pair(RegisterPair::HL);
    let value = state.memory_at(address);
    let result = ((value + 1) % 256) as u8;
    state.with_memory_at(address, result).with_result_flags(result).with_flag(
        ConditionFlag::AuxiliaryCarry,
        value % 16 == 15,
    )
}

/// DCR M: the byte at the address in HL goes down by one, wrapping.
pub open spec fn dcr_mem_effect(state: StateView) -> StateView {
    let address = state.register_pair(RegisterPair::HL);
    let value = state.memory_at(address);
    let result = ((value + 255) % 256) as u8;
    state.with_memory_at(address, result).with_result_flags(result).with_flag(
        ConditionFlag::AuxiliaryCarry,
        value % 16 != 0,
    )
}

/// INX: the register pair goes up by one, wrapping; no flag changes.
pub open spec fn inx_effect(state: StateView, register_pair: RegisterPair) -> StateView {
    state.with_register_pair(
        register_pair,
        ((state.register_pair(register_pair) + 1) % 65536) as u16,
    )
}

/// DCX: the register pair goes down by one, wrapping; no flag changes.
pub open spec fn dcx_effect(state: StateView, register_pair: RegisterPair) -> StateView {
    state.with_register_pair(
        register_pair,
        ((state.register_pair(register_pair) + 65535) % 65536) as u16,
    )
}

/// DAD: HL takes HL plus the register pair, modulo 65536; the carry tells
/// whether the sum passed 65535.
pub open spec fn dad_effect(state: StateView, register_pair: RegisterPair) -> StateView {
    let sum = state.register_pair(RegisterPair::HL) + state.register_pair(register_pair);
    state.with_register_pair(RegisterPair::HL, (sum % 65536) as u16).with_flag(
        ConditionFlag::Carry,
        sum > 65535,
    )
}

/// DAA: 6 is added to the accumulator when its low nibble is above 9 or the
/// auxiliary carry is set; then 0x60 is added when the high nibble is above
/// 9, the carry is set, or the first addition carried. The carry is set
/// exactly when the second addition happens (it is never cleared by a set
/// carry), and the auxiliary carry when the first addition carried out of
/// the low nibble.
pub open spec fn daa_effect(state: StateView) -> StateView {
    let accumulator = state.register(Register::A);
    let adjusts_low = accumulator % 16 > 9 || state.flag(ConditionFlag::AuxiliaryCarry);
    let after_low: int = if adjusts_low {
        (accumulator + 6) % 256
    } else {
        accumulator as int
    };
    let low_carry = adjusts_low && accumulator + 6 > 255;
    let adjusts_high = after_low / 16 > 9 || state.flag(ConditionFlag::Carry) || low_carry;
    let result = (if adjusts_high {
        (after_low + 0x60) % 256
    } else {
        after_low
    }) as u8;
    state.with_register(Register::A, result).with_result_flags(result).with_flag(
        ConditionFlag::Carry,
        adjusts_high,
    ).with_flag(ConditionFlag::AuxiliaryCarry, adjusts_low && accumulator % 16 + 6 > 15)
}

pub fn add_instruction(state: &mut State, source_register: Register)
    ensures
        final(state)@ == add_effect(old(state)@, old(state)@.register(source_register), false),
        final(state).ports == old(state).ports,
{
    let source_register_value = state.registers.get(source_register);
    adi_instruction(state, source_register_value);
}

pub fn add_mem_instruction(state: &mut State)
    ensures
        final(state)@ == add_effect(
            old(state)@,
            old(state)@.memory_at(old(state)@.register_pair(RegisterPair::HL)),
            false,
        ),
        final(state).ports == old(state).ports,
{
    let memory_address = state.full_rp_value(RegisterPair::HL);
    let memory_value = state.memory[memory_address as usize];
    adi_instruction(state, memory_value);
}

pub fn adi_instruction(state: &mut State, data: u8)
    ensures
        final(state)@ == add_effect(old(state)@, data, false),
        final(state).ports == old(state).ports,
{
    let (carry, auxiliary_carry) = state.increase_register(Register::A, data);
    state.set_condition_flags_from_register_value(Register::A);
    state.condition_flags.carry = carry;
    state.condition_flags.auxiliary_carry = auxiliary_carry;
}

pub fn adc_instruction(state: &mut State, source_register: Register)
    ensures
        final(state)@ == add_effect(
            old(state)@,
            old(state)@.register(source_register),
            old(state)@.flag(ConditionFlag::Carry),
        ),
        final(state).ports == old(state).ports,
{
    let source_register_value = state.registers.get(source_register);
    aci_instruction(state, source_register_value);
}

pub fn adc_mem_instruction(state: &mut State)
    ensures
        final(state)@ == add_effect(
            old(state)@,
            old(state)@.memory_at(old(state)@.register_pair(RegisterPair::HL)),
            old(state)@.flag(ConditionFlag::Carry),
        ),
        final(state).ports == old(state).ports,
{
    let memory_address = state.full_rp_value(RegisterPair::HL);
    let memory_value = state.memory[memory_address as usize];
    aci_instruction(state, memory_value);
}

pub fn aci_instruction(state: &mut State, data: u8)
    ensures
        final(state)@ == add_effect(old(state)@, data, old(state)@.flag(ConditionFlag::Carry)),
        final(state).ports == old(state).ports,
{
    let accumulator = state.registers.a;
    let carry_value: u8 = if state.condition_flags.carry {
        1
    } else {
        0
    };
    let (main_carry, main_auxiliary_carry) = state.increase_register(Register::A, data);
    let partial = state.registers.a;
    let (carry_from_carry, auxiliary_carry_from_carry) = state.increase_register(
        Register::A,
        carry_value,
    );
    proof {
        assert(partial % 16 == (accumulator % 16 + data % 16) % 16);
    }
    state.set_condition_flags_from_register_value(Register::A);
    state.condition_flags.carry = main_carry || carry_from_carry;
    state.condition_flags.auxiliary_carry = main_auxiliary_carry || auxiliary_carry_from_carry;
}

pub fn sub_instruction(state: &mut State, source_register: Register)
    ensures
        final(state)@ == subtract_effect(old(state)@, old(state)@.register(source_register), false),
        final(state).ports == old(state).ports,
{
    let source_register_value = state.registers.get(source_register);
    sui_instruction(state, source_register_value);
}

pub fn sub_mem_instruction(state: &mut State)
    ensures
        final(state)@ == subtract_effect(
            old(state)@,
            old(state)@.memory_at(old(state)@.register_pair(RegisterPair::HL)),
            false,
        ),
        final(state).ports == old(state).ports,
{
    let memory_address = state.full_rp_value(RegisterPair::HL);
    let memory_value = state.memory[memory_address as usize];
    sui_instruction(state, memory_value);
}

pub fn sui_instruction(state: &mut State, data: u8)
    ensures
        final(state)@ == subtract_effect(old(state)@, data, false),
        final(state).ports == old(state).ports,
{
    let (borrow, auxiliary_borrow) = state.decrease_register(Register::A, data);
    state.set_condition_flags_from_register_value(Register::A);
    state.condition_flags.carry = borrow;
    state.condition_flags.auxiliary_carry = auxiliary_borrow;
}

pub fn sbb_instruction(state: &mut State, source_register: Register)
    ensures
        final(state)@ == subtract_effect(
            old(state)@,
            old(state)@.register(source_register),
            old(state)@.flag(ConditionFlag::Carry),
        ),
        final(state).ports == old(state).ports,
{
    let source_register_value = state.registers.get(source_register);
    sbi_instruction(state, source_register_value);
}

pub fn sbb_mem_instruction(state: &mut State)
    ensures
        final(state)@ == subtract_effect(
            old(state)@,
            old(state)@.memory_at(old(state)@.register_pair(RegisterPair::HL)),
            old(state)@.flag(ConditionFlag::Carry),
        ),
        final(state).ports == old(state).ports,
{
    let memory_address = state.full_rp_value(RegisterPair::HL);
    let memory_value = state.memory[memory_address as usize];
    sbi_instruction(state, memory_value);
}

pub fn sbi_instruction(state: &mut State, data: u8)
    ensures
        final(state)@ == subtract_effect(old(state)@, data, old(state)@.flag(ConditionFlag::Carry)),
        final(state).ports == old(state).ports,
{
    let accumulator = state.registers.a;
    let carry_value: u8 = if state.condition_flags.carry {
        1
    } else {
        0
    };
    let (main_borrow, main_auxiliary_borrow) = state.decrease_register(Register::A, data);
    let partial = state.registers.a;
    let (borrow_from_borrow, auxiliary_borrow_from_borrow) = state.decrease_register(
        Register::A,
        carry_value,
    );
    proof {
        if accumulator % 16 >= data % 16 {
            assert(partial % 16 == accumulator % 16 - data % 16);
        }
    }
    state.set_condition_flags_from_register_value(Register::A);
    state.condition_flags.carry = main_borrow || borrow_from_borrow;
    // The auxiliary carry stands for "no borrow" here, so the two halves combine with `and`.
    state.condition_flags.auxiliary_carry = main_auxiliary_borrow && auxiliary_borrow_from_borrow;
}

pub fn inr_instruction(state: &mut State, register: Register)
    ensures
        final(state)@ == inr_effect(old(state)@, register),
        final(state).ports == old(state).ports,
{
    let (_, auxiliary_carry) = state.increase_register(register, 1);
    state.set_condition_flags_from_register_value(register);
    state.condition_flags.auxiliary_carry = auxiliary_carry;
}

pub fn inr_mem_instruction(state: &mut State)
    ensures
        final(state)@ == inr_mem_effect(old(state)@),
        final(state).ports == old(state).ports,
{
    let memory_address = state.full_rp_value(RegisterPair::HL);
    let memory_value = state.memory[memory_address as usize];
    let new_memory_value = memory_value.wrapping_add(1);
    state.memory[memory_address as usize] = new_memory_value;
    state.set_condition_flags_from_result(new_memory_value);
    state.condition_flags.auxiliary_carry = bit_operations::calculate_auxiliary_carry(
        memory_value,
        1,
        false,
    );
}

pub fn dcr_instruction(state: &mut State, register: Register)
    ensures
        final(state)@ == dcr_effect(old(state)@, register),
        final(state).ports == old(state).ports,
{
    let (_, auxiliary_borrow) = state.decrease_register(register, 1);
    state.set_condition_flags_from_register_value(register);
    state.condition_flags.auxiliary_carry = auxiliary_borrow;
}

pub fn dcr_mem_instruction(state: &mut State)
    ensures
        final(state)@ == dcr_mem_effect(old(state)@),
        final(state).ports == old(state).ports,
{
    let memory_address = state.full_rp_value(RegisterPair::HL);
    let memory_value = state.memory[memory_address as usize];
    let new_memory_value = memory_value.wrapping_sub(1);
    state.memory[memory_address as usize] = new_memory_value;
    state.set_condition_flags_from_result(new_memory_value);
    state.condition_flags.auxiliary_carry = bit_operations::calculate_auxiliary_carry(
        memory_value,
        1,
        true,
    );
}

pub fn inx_instruction(state: &mut State, register_pair: RegisterPair)
    ensures
        final(state)@ == inx_effect(old(state)@, register_pair),
        final(state).ports == old(state).ports,
{
    let mut value = state.full_rp_value(register_pair);
    value = value.wrapping_add(1);
    state.set_full_rp_value(register_pair, value);
}

pub fn dcx_instruction(state: &mut State, register_pair: RegisterPair)
    ensures
        final(state)@ == dcx_effect(old(state)@, register_pair),
        final(state).ports == old(state).ports,
{
    let mut value = state.full_rp_value(register_pair);
    value = value.wrapping_sub(1);
    state.set_full_rp_value(register_pair, value);
}

pub fn dad_instruction(state: &mut State, register_pair: RegisterPair)
    ensures
        final(state)@ == dad_effect(old(state)@, register_pair),
        final(state).ports == old(state).ports,
{
    let hl_value = state.full_rp_value(RegisterPair::HL);
    let register_pair_value = state.full_rp_value(register_pair);
    let hl_value_after_addition = hl_value.wrapping_add(register_pair_value);
    let carry = hl_value_after_addition < hl_value;
    state.set_full_rp_value(RegisterPair::HL, hl_value_after_addition);
    state.condition_flags.carry = carry;
}

#[verifier::rlimit(30)]
pub fn daa_instruction(state: &mut State)
    ensures
        final(state)@ == daa_effect(old(state)@),
        final(state).ports == old(state).ports,
{
    let mut result = state.registers.a;
    let mut carry = false;
    let mut auxiliary_carry = false;
    let lower_nibble = result & 0b0000_1111;
    proof {
        assert(lower_nibble == result % 16) by (bit_vector)
            requires
                lower_nibble == result & 0b0000_1111u8,
        ;
    }
    if lower_nibble > 9 || state.condition_flags.auxiliary_carry {
        let lower_addition: u8 = 6;
        let result_from_op = result.wrapping_add(lower_addition);
        let carry_from_op = result_from_op < result;
        carry = carry_from_op;
        auxiliary_carry = auxiliary_carry || bit_operations::calculate_auxiliary_carry(
            result,
            lower_addition,
            false,
        );
        result = result_from_op;
    }
    let higher_nibble = result >> 4u8;
    proof {
        assert(higher_nibble == result / 16) by (bit_vector)
            requires
                higher_nibble == result >> 4u8,
        ;
    }
    // The high nibble is adjusted even when the low adjustment carried, which
    // would otherwise leave the high nibble no longer above 9.
    if higher_nibble > 9 || state.condition_flags.carry || carry {
        let higher_addition: u8 = 6 << 4u8;
        assert(higher_addition == 0x60) by (bit_vector)
            requires
                higher_addition == 6u8 << 4u8,
        ;
        let result_from_op = result.wrapping_add(higher_addition);
        // A set carry is never cleared, even when the result needs no carry.
        carry = true;
        auxiliary_carry = auxiliary_carry || bit_operations::calculate_auxiliary_carry(
            result,
            higher_addition,
            false,
        );
        result = result_from_op;
    }
    state.registers.a = result;
    state.set_condition_flags_from_result(result);
    state.condition_flags.carry = carry;
    state.condition_flags.auxiliary_carry = auxiliary_carry;
}

/// DAA never clears a carry that was set, and leaves a valid packed BCD
/// byte (both nibbles at most 9, no carries) as it was.
pub proof fn lemma_daa_keeps_carry_and_valid_bcd(state: StateView)
    ensures
        state.flag(ConditionFlag::Carry) ==> daa_effect(state).flag(ConditionFlag::Carry),
        state.register(Register::A) % 16 <= 9 && state.register(Register::A) / 16 <= 9
            && !state.flag(ConditionFlag::Carry) && !state.flag(ConditionFlag::AuxiliaryCarry)
            ==> daa_effect(state).register(Register::A) == state.register(Register::A),
{
}

/// ACI with the carry clear adds as ADI does.
pub proof fn lemma_add_with_clear_carry_is_plain_add(state: StateView, data: u8)
    requires
        !state.flag(ConditionFlag::Carry),
    ensures
        add_effect(state, data, state.flag(ConditionFlag::Carry)) == add_effect(state, data, false),
{
}

/// SUB of the accumulator from itself clears it, sets zero and parity, and
/// clears the carry.
pub proof fn lemma_subtracting_accumulator_from_itself_zeroes_it(state: StateView)
    ensures
        subtract_effect(state, state.register(Register::A), false).register(Register::A) == 0,
        subtract_effect(state, state.register(Register::A), false).flag(ConditionFlag::Zero),
        !subtract_effect(state, state.register(Register::A), false).flag(ConditionFlag::Carry),
{
}

/// INX followed by DCX on the same register pair restores it.
pub proof fn lemma_dcx_undoes_inx(state: StateView, register_pair: RegisterPair)
    ensures
        dcx_effect(inx_effect(state, register_pair), register_pair) == state,
{
    crate::lemma_register_pair_write_then_read(state, register_pair, ((state.register_pair(register_pair) + 1) % 65536) as u16);
    crate::lemma_register_pair_write_of_read(state, register_pair);
    crate::lemma_register_pair_overwrite(state, register_pair, ((state.register_pair(register_pair) + 1) % 65536) as u16, state.register_pair(register_pair));
}

/// Adding a value and then subtracting it restores the accumulator.
pub proof fn lemma_sub_undoes_add(state: StateView, data: u8)
    ensures
        subtract_effect(add_effect(state, data, false), data, false).register(Register::A)
            == state.register(Register::A),
{
}

} // verus!
