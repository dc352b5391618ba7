use vstd::prelude::*;

use crate::arithmetic_instructions::{
    self as arithmetic, add_effect, subtract_effect, inr_effect, dcr_effect, inr_mem_effect,
    dcr_mem_effect, inx_effect, dcx_effect, dad_effect, daa_effect,
};
use crate::bit_operations::word;
use crate::branch_instructions::{
    self as branch, is_branch_condition, jmp_effect, call_effect, ret_effect,
};
use crate::disassembler::decoded_operation;
use crate::logical_instructions::{
    self as logical, ani_effect, xri_effect, ori_effect, cpi_effect, rlc_effect, rrc_effect,
    ral_effect, rar_effect, cma_effect,
};
use crate::stack_instructions::{
    self as stack, push_effect, pop_effect, push_psw_effect, pop_psw_effect, xthl_effect,
};
use crate::transfer_instructions::{
    self as transfer, mvi_effect, mvi_mem_effect, lda_effect, sta_effect, lhld_effect,
    shld_effect, xchg_effect,
};
use crate::{ConditionFlag, Operation, Ports, Register, RegisterPair, State, StateView};

verus! {

/// Whether the instruction set defines the operation: branch conditions test
/// zero, carry, parity or sign; reset indices are below 8; PUSH and POP name
/// BC, DE or HL; LDAX and STAX name BC or DE.
pub open spec fn is_runnable(operation: Operation) -> bool {
    match operation {
        Operation::Jcond(condition) => is_branch_condition(condition),
        Operation::Ccond(condition) => is_branch_condition(condition),
        Operation::Rcond(condition) => is_branch_condition(condition),
        Operation::Rst(reset_index) => reset_index < 8,
        Operation::Push(register_pair) => register_pair != RegisterPair::SP,
        Operation::Pop(register_pair) => register_pair != RegisterPair::SP,
        Operation::Ldax(register_pair) => register_pair is BC || register_pair is DE,
        Operation::Stax(register_pair) => register_pair is BC || register_pair is DE,
        _ => true,
    }
}

/// Whether the data bytes given match what the operation needs: the first
/// is present exactly when it needs one or two, the second exactly when it
/// needs two.
pub open spec fn has_data_bytes(
    operation: Operation,
    additional_byte_1: Option<u8>,
    additional_byte_2: Option<u8>,
) -> bool {
    &&& (additional_byte_1 is Some <==> operation.data_byte_count() >= 1)
    &&& (additional_byte_2 is Some <==> operation.data_byte_count() == 2)
}

pub open spec fn byte_or_zero(byte: Option<u8>) -> u8 {
    match byte {
        Some(value) => value,
        None => 0,
    }
}

/// What an operation does to the state, given its data bytes and, for IN,
/// the byte that the input port gave. OUT leaves the state as it is: what it
/// changes is in the ports.
pub open spec fn operation_effect(
    state: StateView,
    operation: Operation,
    low_data: u8,
    high_data: u8,
    input: u8,
) -> StateView {
    match operation {
        Operation::Mov(source, destination) => mvi_effect(
            state,
            destination,
            state.register(source),
        ),
        Operation::MovToMem(register) => mvi_mem_effect(state, state.register(register)),
        Operation::MovFromMem(register) => mvi_effect(
            state,
            register,
            state.memory_at(state.register_pair(RegisterPair::HL)),
        ),
        Operation::Mvi(register) => mvi_effect(state, register, low_data),
        Operation::MviMem => mvi_mem_effect(state, low_data),
        Operation::Lxi(register_pair) => state.with_register_pair(
            register_pair,
            word(low_data, high_data),
        ),
        Operation::Lda => lda_effect(state, low_data, high_data),
        Operation::Sta => sta_effect(state, low_data, high_data),
        Operation::Lhld => lhld_effect(state, low_data, high_data),
        Operation::Shld => shld_effect(state, low_data, high_data),
        Operation::Ldax(register_pair) => mvi_effect(
            state,
            Register::A,
            state.memory_at(state.register_pair(register_pair)),
        ),
        Operation::Stax(register_pair) => state.with_memory_at(
            state.register_pair(register_pair),
            state.register(Register::A),
        ),
        Operation::Xchg => xchg_effect(state),
        Operation::Add(register) => add_effect(state, state.register(register), false),
        Operation::AddMem => add_effect(state, memory_operand(state), false),
        Operation::Adi => add_effect(state, low_data, false),
        Operation::Adc(register) => add_effect(
            state,
            state.register(register),
            state.flag(ConditionFlag::Carry),
        ),
        Operation::AdcMem => add_effect(
            state,
            memory_operand(state),
            state.flag(ConditionFlag::Carry),
        ),
        Operation::Aci => add_effect(state, low_data, state.flag(ConditionFlag::Carry)),
        Operation::Sub(register) => subtract_effect(state, state.register(register), false),
        Operation::SubMem => subtract_effect(state, memory_operand(state), false),
        Operation::Sui => subtract_effect(state, low_data, false),
        Operation::Sbb(register) => subtract_effect(
            state,
            state.register(register),
            state.flag(ConditionFlag::Carry),
        ),
        Operation::SbbMem => subtract_effect(
            state,
            memory_operand(state),
            state.flag(ConditionFlag::Carry),
        ),
        Operation::Sbi => subtract_effect(state, low_data, state.flag(ConditionFlag::Carry)),
        Operation::Inr(register) => inr_effect(state, register),
        Operation::InrMem => inr_mem_effect(state),
        Operation::Dcr(register) => dcr_effect(state, register),
        Operation::DcrMem => dcr_mem_effect(state),
        Operation::Inx(register_pair) => inx_effect(state, register_pair),
        Operation::Dcx(register_pair) => dcx_effect(state, register_pair),
        Operation::Dad(register_pair) => dad_effect(state, register_pair),
        Operation::Daa => daa_effect(state),
        Operation::Ana(register) => ani_effect(state, state.register(register)),
        Operation::AnaMem => ani_effect(state, memory_operand(state)),
        Operation::Ani => ani_effect(state, low_data),
        Operation::Xra(register) => xri_effect(state, state.register(register)),
        Operation::XraMem => xri_effect(state, memory_operand(state)),
        Operation::Xri => xri_effect(state, low_data),
        Operation::Ora(register) => ori_effect(state, state.register(register)),
        Operation::OraMem => ori_effect(state, memory_operand(state)),
        Operation::Ori => ori_effect(state, low_data),
        Operation::Cmp(register) => cpi_effect(state, state.register(register)),
        Operation::CmpMem => cpi_effect(state, memory_operand(state)),
        Operation::Cpi => cpi_effect(state, low_data),
        Operation::Rlc => rlc_effect(state),
        Operation::Rrc => rrc_effect(state),
        Operation::Ral => ral_effect(state),
        Operation::Rar => rar_effect(state),
        Operation::Cma => cma_effect(state),
        Operation::Cmc => state.with_flag(
            ConditionFlag::Carry,
            !state.flag(ConditionFlag::Carry),
        ),
        Operation::Stc => state.with_flag(ConditionFlag::Carry, true),
        Operation::Jmp => jmp_effect(state, low_data, high_data),
        Operation::Jcond(condition) => if state.is_condition_true(condition) {
            jmp_effect(state, low_data, high_data)
        } else {
            state
        },
        Operation::Call => call_effect(state, low_data, high_data),
        Operation::Ccond(condition) => if state.is_condition_true(condition) {
            call_effect(state, low_data, high_data)
        } else {
            state
        },
        Operation::Ret => ret_effect(state),
        Operation::Rcond(condition) => if state.is_condition_true(condition) {
            ret_effect(state)
        } else {
            state
        },
        Operation::Rst(reset_index) => call_effect(state, (reset_index * 8) as u8, 0),
        Operation::Pchl => StateView {
            program_counter: state.register_pair(RegisterPair::HL),
            ..state
        },
        Operation::Push(register_pair) => push_effect(state, register_pair),
        Operation::Pop(register_pair) => pop_effect(state, register_pair),
        Operation::PushPsw => push_psw_effect(state),
        Operation::PopPsw => pop_psw_effect(state),
        Operation::Xthl => xthl_effect(state),
        Operation::Sphl => StateView {
            stack_pointer: state.register_pair(RegisterPair::HL),
            ..state
        },
        Operation::In => state.with_register(Register::A, input),
        Operation::Out => state,
        Operation::Ei => StateView { are_interrupts_enabled: true, ..state },
        Operation::Di => StateView { are_interrupts_enabled: false, ..state },
        Operation::Hlt => StateView { is_halted: true, ..state },
        Operation::Nop => state,
    }
}

/// The byte at the address in HL.
pub open spec fn memory_operand(state: StateView) -> u8 {
    state.memory_at(state.register_pair(RegisterPair::HL))
}

/// Runs an operation whose op code and data bytes have already been read.
/// For IN the accumulator takes what the input port returns; for OUT the
/// output port gets the accumulator.
pub fn run_operation(
    operation: &Operation,
    state: &mut State,
    additional_byte_1: Option<u8>,
    additional_byte_2: Option<u8>,
)
    requires
        is_runnable(*operation),
        has_data_bytes(*operation, additional_byte_1, additional_byte_2),
    ensures
        final(state)@ == operation_effect(
            old(state)@,
            *operation,
            byte_or_zero(additional_byte_1),
            byte_or_zero(additional_byte_2),
            final(state)@.register(Register::A),
        ),
        *operation == Operation::In ==> final(state)@.register(Register::A) == old(
            state,
        ).ports.in_value(byte_or_zero(additional_byte_1)),
        *operation == Operation::In ==> (old(state).ports.static_value(byte_or_zero(additional_byte_1)) matches Some(
            static_value,
        ) ==> final(state)@.register(Register::A) == static_value),
        *operation != Operation::Out ==> final(state).ports == old(state).ports,
        *operation == Operation::Out ==> {
            &&& forall|in_port: u8|
                #[trigger] final(state).ports.in_value(in_port) == old(state).ports.in_value_after_write(
                    byte_or_zero(additional_byte_1),
                    old(state)@.register(Register::A),
                    in_port,
                )
            &&& forall|in_port: u8|
                #[trigger] final(state).ports.static_value(in_port) == old(state).ports.static_value_after_write(
                    byte_or_zero(additional_byte_1),
                    old(state)@.register(Register::A),
                    in_port,
                )
        },
{
    let low_data: u8 = match additional_byte_1 {
        Some(byte) => byte,
        None => 0,
    };
    let high_data: u8 = match additional_byte_2 {
        Some(byte) => byte,
        None => 0,
    };
    match operation {
        Operation::Mov(..) | Operation::MovToMem(..) | Operation::MovFromMem(..) | Operation::Mvi(..) | Operation::MviMem | Operation::Lxi(..) | Operation::Lda | Operation::Sta | Operation::Lhld | Operation::Shld | Operation::Ldax(..) | Operation::Stax(..) | Operation::Xchg => run_transfer_operation(operation, state, low_data, high_data),
        Operation::Add(..) | Operation::AddMem | Operation::Adi | Operation::Adc(..) | Operation::AdcMem | Operation::Aci | Operation::Sub(..) | Operation::SubMem | Operation::Sui | Operation::Sbb(..) | Operation::SbbMem | Operation::Sbi | Operation::Inr(..) | Operation::InrMem | Operation::Dcr(..) | Operation::DcrMem | Operation::Inx(..) | Operation::Dcx(..) | Operation::Dad(..) | Operation::Daa => run_arithmetic_operation(operation, state, low_data, high_data),
        Operation::Ana(..) | Operation::AnaMem | Operation::Ani | Operation::Xra(..) | Operation::XraMem | Operation::Xri | Operation::Ora(..) | Operation::OraMem | Operation::Ori | Operation::Cmp(..) | Operation::CmpMem | Operation::Cpi | Operation::Rlc | Operation::Rrc | Operation::Ral | Operation::Rar | Operation::Cma | Operation::Cmc | Operation::Stc => run_logical_operation(operation, state, low_data, high_data),
        Operation::Jmp | Operation::Jcond(..) | Operation::Call | Operation::Ccond(..) | Operation::Ret | Operation::Rcond(..) | Operation::Rst(..) | Operation::Pchl => run_branch_operation(operation, state, low_data, high_data),
        Operation::Push(..) | Operation::Pop(..) | Operation::PushPsw | Operation::PopPsw | Operation::Xthl | Operation::Sphl | Operation::In | Operation::Out | Operation::Ei | Operation::Di | Operation::Hlt | Operation::Nop => run_stack_and_io_operation(operation, state, low_data, high_data),
    }
}

/// Whether the operation is one that `run_transfer_operation` runs.
pub open spec fn is_transfer_operation(operation: Operation) -> bool {
    matches!(operation, Operation::Mov(..) | Operation::MovToMem(..) | Operation::MovFromMem(..) | Operation::Mvi(..) | Operation::MviMem | Operation::Lxi(..) | Operation::Lda | Operation::Sta | Operation::Lhld | Operation::Shld | Operation::Ldax(..) | Operation::Stax(..) | Operation::Xchg)
}

#[verifier::rlimit(50)]
fn run_transfer_operation(operation: &Operation, state: &mut State, low_data: u8, high_data: u8)
    requires
        is_runnable(*operation),
        is_transfer_operation(*operation),
    ensures
        final(state)@ == operation_effect(
            old(state)@,
            *operation,
            low_data,
            high_data,
            final(state)@.register(Register::A),
        ),
        final(state).ports == old(state).ports,
{
    match operation {
        Operation::Mov(source_register, destination_register) => {
            transfer::mov_instruction(state, *source_register, *destination_register);
        },
        Operation::MovToMem(register) => {
            transfer::mov_to_mem_instruction(state, *register);
        },
        Operation::MovFromMem(register) => {
            transfer::mov_from_mem_instruction(state, *register);
        },
        Operation::Mvi(register) => {
            transfer::mvi_instruction(state, *register, low_data);
        },
        Operation::MviMem => transfer::mvi_mem_instruction(state, low_data),
        Operation::Lxi(register_pair) => {
            transfer::lxi_instruction(state, *register_pair, low_data, high_data);
        },
        Operation::Lda => transfer::lda_instruction(state, low_data, high_data),
        Operation::Sta => transfer::sta_instruction(state, low_data, high_data),
        Operation::Lhld => transfer::lhld_instruction(state, low_data, high_data),
        Operation::Shld => transfer::shld_instruction(state, low_data, high_data),
        Operation::Ldax(register_pair) => {
            transfer::ldax_instruction(state, *register_pair);
        },
        Operation::Stax(register_pair) => {
            transfer::stax_instruction(state, *register_pair);
        },
        Operation::Xchg => transfer::xchg_instruction(state),
        _ => {
            proof {
                assert(false);
            }
        },
    };
}

/// Whether the operation is one that `run_arithmetic_operation` runs.
pub open spec fn is_arithmetic_operation(operation: Operation) -> bool {
    matches!(operation, Operation::Add(..) | Operation::AddMem | Operation::Adi | Operation::Adc(..) | Operation::AdcMem | Operation::Aci | Operation::Sub(..) | Operation::SubMem | Operation::Sui | Operation::Sbb(..) | Operation::SbbMem | Operation::Sbi | Operation::Inr(..) | Operation::InrMem | Operation::Dcr(..) | Operation::DcrMem | Operation::Inx(..) | Operation::Dcx(..) | Operation::Dad(..) | Operation::Daa)
}

#[verifier::rlimit(50)]
fn run_arithmetic_operation(operation: &Operation, state: &mut State, low_data: u8, high_data: u8)
    requires
        is_runnable(*operation),
        is_arithmetic_operation(*operation),
    ensures
        final(state)@ == operation_effect(
            old(state)@,
            *operation,
            low_data,
            high_data,
            final(state)@.register(Register::A),
        ),
        final(state).ports == old(state).ports,
{
    match operation {
        Operation::Add(register) => arithmetic::add_instruction(state, *register),
        Operation::AddMem => arithmetic::add_mem_instruction(state),
        Operation::Adi => arithmetic::adi_instruction(state, low_data),
        Operation::Adc(register) => arithmetic::adc_instruction(state, *register),
        Operation::AdcMem => arithmetic::adc_mem_instruction(state),
        Operation::Aci => arithmetic::aci_instruction(state, low_data),
        Operation::Sub(register) => arithmetic::sub_instruction(state, *register),
        Operation::SubMem => arithmetic::sub_mem_instruction(state),
        Operation::Sui => arithmetic::sui_instruction(state, low_data),
        Operation::Sbb(register) => arithmetic::sbb_instruction(state, *register),
        Operation::SbbMem => arithmetic::sbb_mem_instruction(state),
        Operation::Sbi => arithmetic::sbi_instruction(state, low_data),
        Operation::Inr(register) => arithmetic::inr_instruction(state, *register),
        Operation::InrMem => arithmetic::inr_mem_instruction(state),
        Operation::Dcr(register) => arithmetic::dcr_instruction(state, *register),
        Operation::DcrMem => arithmetic::dcr_mem_instruction(state),
        Operation::Inx(register_pair) => {
            arithmetic::inx_instruction(state, *register_pair);
        },
        Operation::Dcx(register_pair) => {
            arithmetic::dcx_instruction(state, *register_pair);
        },
        Operation::Dad(register_pair) => {
            arithmetic::dad_instruction(state, *register_pair);
        },
        Operation::Daa => arithmetic::daa_instruction(state),
        _ => {
            proof {
                assert(false);
            }
        },
    };
}

/// Whether the operation is one that `run_logical_operation` runs.
pub open spec fn is_logical_operation(operation: Operation) -> bool {
    matches!(operation, Operation::Ana(..) | Operation::AnaMem | Operation::Ani | Operation::Xra(..) | Operation::XraMem | Operation::Xri | Operation::Ora(..) | Operation::OraMem | Operation::Ori | Operation::Cmp(..) | Operation::CmpMem | Operation::Cpi | Operation::Rlc | Operation::Rrc | Operation::Ral | Operation::Rar | Operation::Cma | Operation::Cmc | Operation::Stc)
}

#[verifier::rlimit(50)]
fn run_logical_operation(operation: &Operation, state: &mut State, low_data: u8, high_data: u8)
    requires
        is_runnable(*operation),
        is_logical_operation(*operation),
    ensures
        final(state)@ == operation_effect(
            old(state)@,
            *operation,
            low_data,
            high_data,
            final(state)@.register(Register::A),
        ),
        final(state).ports == old(state).ports,
{
    match operation {
        Operation::Ana(register) => logical::ana_instruction(state, *register),
        Operation::AnaMem => logical::ana_mem_instruction(state),
        Operation::Ani => logical::ani_instruction(state, low_data),
        Operation::Xra(register) => logical::xra_instruction(state, *register),
        Operation::XraMem => logical::xra_mem_instruction(state),
        Operation::Xri => logical::xri_instruction(state, low_data),
        Operation::Ora(register) => logical::ora_instruction(state, *register),
        Operation::OraMem => logical::ora_mem_instruction(state),
        Operation::Ori => logical::ori_instruction(state, low_data),
        Operation::Cmp(register) => logical::cmp_instruction(state, *register),
        Operation::CmpMem => logical::cmp_mem_instruction(state),
        Operation::Cpi => logical::cpi_instruction(state, low_data),
        Operation::Rlc => logical::rlc_instruction(state),
        Operation::Rrc => logical::rrc_instruction(state),
        Operation::Ral => logical::ral_instruction(state),
        Operation::Rar => logical::rar_instruction(state),
        Operation::Cma => logical::cma_instruction(state),
        Operation::Cmc => logical::cmc_instruction(state),
        Operation::Stc => logical::stc_instruction(state),
        _ => {
            proof {
                assert(false);
            }
        },
    };
}

/// Whether the operation is one that `run_branch_operation` runs.
pub open spec fn is_branch_operation(operation: Operation) -> bool {
    matches!(operation, Operation::Jmp | Operation::Jcond(..) | Operation::Call | Operation::Ccond(..) | Operation::Ret | Operation::Rcond(..) | Operation::Rst(..) | Operation::Pchl)
}

#[verifier::rlimit(50)]
fn run_branch_operation(operation: &Operation, state: &mut State, low_data: u8, high_data: u8)
    requires
        is_runnable(*operation),
        is_branch_operation(*operation),
    ensures
        final(state)@ == operation_effect(
            old(state)@,
            *operation,
            low_data,
            high_data,
            final(state)@.register(Register::A),
        ),
        final(state).ports == old(state).ports,
{
    match operation {
        Operation::Jmp => branch::jmp_instruction(state, low_data, high_data),
        Operation::Jcond(condition) => {
            branch::jcond_instruction(state, low_data, high_data, *condition);
        },
        Operation::Call => branch::call_instruction(state, low_data, high_data),
        Operation::Ccond(condition) => {
            branch::ccond_instruction(state, low_data, high_data, *condition);
        },
        Operation::Ret => branch::ret_instruction(state),
        Operation::Rcond(condition) => branch::rcond_instruction(state, *condition),
        Operation::Rst(reset_index) => branch::rst_instruction(state, *reset_index),
        Operation::Pchl => branch::pchl_instruction(state),
        _ => {
            proof {
                assert(false);
            }
        },
    };
}

/// Whether the operation is one that `run_stack_and_io_operation` runs.
pub open spec fn is_stack_and_io_operation(operation: Operation) -> bool {
    matches!(operation, Operation::Push(..) | Operation::Pop(..) | Operation::PushPsw | Operation::PopPsw | Operation::Xthl | Operation::Sphl | Operation::In | Operation::Out | Operation::Ei | Operation::Di | Operation::Hlt | Operation::Nop)
}

#[verifier::rlimit(50)]
fn run_stack_and_io_operation(operation: &Operation, state: &mut State, low_data: u8, high_data: u8)
    requires
        is_runnable(*operation),
        is_stack_and_io_operation(*operation),
    ensures
        final(state)@ == operation_effect(
            old(state)@,
            *operation,
            low_data,
            high_data,
            final(state)@.register(Register::A),
        ),
        *operation == Operation::In ==> final(state)@.register(Register::A) == old(
            state,
        ).ports.in_value(low_data),
        *operation == Operation::In ==> (old(state).ports.static_value(low_data) matches Some(
            static_value,
        ) ==> final(state)@.register(Register::A) == static_value),
        *operation != Operation::Out ==> final(state).ports == old(state).ports,
        *operation == Operation::Out ==> {
            &&& forall|in_port: u8|
                #[trigger] final(state).ports.in_value(in_port) == old(state).ports.in_value_after_write(
                    low_data,
                    old(state)@.register(Register::A),
                    in_port,
                )
            &&& forall|in_port: u8|
                #[trigger] final(state).ports.static_value(in_port) == old(state).ports.static_value_after_write(
                    low_data,
                    old(state)@.register(Register::A),
                    in_port,
                )
        },
{
    match operation {
        Operation::Push(register_pair) => {
            stack::push_instruction(state, *register_pair);
        },
        Operation::Pop(register_pair) => stack::pop_instruction(state, *register_pair),
        Operation::PushPsw => stack::push_psw_instruction(state),
        Operation::PopPsw => stack::pop_psw_instruction(state),
        Operation::Xthl => stack::xthl_instruction(state),
        Operation::Sphl => stack::sphl_instruction(state),
        Operation::In | Operation::Out => {
            let access = port_access(operation, state, low_data);
            match access {
                PortAccess::Read { port_number } => {
                    let input = state.ports.read_in_port(port_number);
                    in_instruction(state, input);
                },
                PortAccess::Write { port_number, value } => {
                    state.ports.write_out_port(port_number, value);
                },
                PortAccess::NoAccess => {
                    proof {
                        assert(false);
                    }
                },
            }
        },
        Operation::Ei => stack::ei_instruction(state),
        Operation::Di => stack::di_instruction(state),
        Operation::Hlt => stack::hlt_instruction(state),
        Operation::Nop => (),

        _ => {
            proof {
                assert(false);
            }
        },
    };
}

/// What an operation hands to the ports.
#[derive(Copy, Clone, PartialEq, Eq, Structural, Debug)]
pub enum PortAccess {
    /// Read the input port with this number.
    Read { port_number: u8 },
    /// Write the value to the output port with this number.
    Write { port_number: u8, value: u8 },
    /// Leave the ports alone.
    NoAccess,
}

/// IN reads the input port that its data byte names; OUT writes the
/// accumulator to the output port that its data byte names; no other
/// operation reaches the ports.
pub open spec fn port_access_of(state: StateView, operation: Operation, low_data: u8) -> PortAccess {
    match operation {
        Operation::In => PortAccess::Read { port_number: low_data },
        Operation::Out => PortAccess::Write {
            port_number: low_data,
            value: state.register(Register::A),
        },
        _ => PortAccess::NoAccess,
    }
}

/// The port access of an operation whose data byte is `low_data`.
pub fn port_access(operation: &Operation, state: &State, low_data: u8) -> (access: PortAccess)
    ensures
        access == port_access_of(state@, *operation, low_data),
{
    match operation {
        Operation::In => PortAccess::Read { port_number: low_data },
        Operation::Out => PortAccess::Write { port_number: low_data, value: state.registers.a },
        _ => PortAccess::NoAccess,
    }
}

/// IN, once the input port has given its byte: the accumulator takes it.
pub fn in_instruction(state: &mut State, input: u8)
    ensures
        final(state)@ == operation_effect(old(state)@, Operation::In, 0, 0, input),
        final(state).ports == old(state).ports,
{
    state.registers.a = input;
}

/// The whole step of the processor for one operation: the program counter
/// moves past the op code and its data bytes, which are read from memory
/// behind the op code, the operation runs, and the states it takes are
/// counted.
pub open spec fn step_effect(state: StateView, operation: Operation, input: u8) -> StateView {
    let data_bytes = operation.data_byte_count();
    let fetched = StateView {
        program_counter: (state.program_counter + 1 + data_bytes) as u16,
        ..state
    };
    let low_data = if data_bytes >= 1 {
        state.memory_at((state.program_counter + 1) as u16)
    } else {
        0
    };
    let high_data = if data_bytes == 2 {
        state.memory_at((state.program_counter + 2) as u16)
    } else {
        0
    };
    let ran = operation_effect(fetched, operation, low_data, high_data, input);
    StateView {
        cpu_total_state_count: ran.cpu_total_state_count + operation.state_count(ran) as nat,
        ..ran
    }
}

/// Whether a step of the operation keeps the program counter and the state
/// count within their types: the program counter would otherwise pass 0xFFFF
/// while the op code and its data bytes are read.
pub open spec fn can_step(state: StateView, operation: Operation) -> bool {
    &&& is_runnable(operation)
    &&& state.program_counter + 1 + operation.data_byte_count() <= 0xFFFF
    &&& state.cpu_total_state_count + operation.state_count(state) <= usize::MAX
}

/// Every operation that the decoder gives is one that the instruction set defines.
pub proof fn lemma_decoded_operations_are_runnable(op_code: u8)
    requires
        decoded_operation(op_code) is Some,
    ensures
        is_runnable(decoded_operation(op_code).unwrap()),
{
}

/// Whether the operation may load the program counter: jumps, calls,
/// returns, RST and PCHL.
pub open spec fn transfers_control(operation: Operation) -> bool {
    matches!(operation, Operation::Jmp | Operation::Jcond(..) | Operation::Call | Operation::Ccond(..) | Operation::Ret | Operation::Rcond(..) | Operation::Rst(..) | Operation::Pchl)
}

/// An operation that does not transfer control leaves the program counter as it is.
pub proof fn lemma_operation_keeps_program_counter(
    state: StateView,
    operation: Operation,
    low_data: u8,
    high_data: u8,
    input: u8,
)
    requires
        !transfers_control(operation),
    ensures
        operation_effect(state, operation, low_data, high_data, input).program_counter
            == state.program_counter,
{
    if is_transfer_operation(operation) {
    } else if is_arithmetic_operation(operation) {
    } else if is_logical_operation(operation) {
    } else {
    }
}

/// A step of an operation that does not transfer control leaves the program
/// counter just past the op code and its data bytes; every step adds the
/// operation's states to the count.
pub proof fn lemma_step_moves_past_the_instruction(
    state: StateView,
    operation: Operation,
    input: u8,
)
    requires
        !transfers_control(operation),
        state.program_counter + 1 + operation.data_byte_count() <= 0xFFFF,
    ensures
        step_effect(state, operation, input).program_counter == state.program_counter + 1
            + operation.data_byte_count(),
        step_effect(state, operation, input).cpu_total_state_count == state.cpu_total_state_count
            + operation.state_count(step_effect(state, operation, input)),
{
    let data_bytes = operation.data_byte_count();
    let fetched = StateView {
        program_counter: (state.program_counter + 1 + data_bytes) as u16,
        ..state
    };
    let low_data = if data_bytes >= 1 {
        state.memory_at((state.program_counter + 1) as u16)
    } else {
        0
    };
    let high_data = if data_bytes == 2 {
        state.memory_at((state.program_counter + 2) as u16)
    } else {
        0
    };
    lemma_operation_keeps_program_counter(fetched, operation, low_data, high_data, input);
}

/// Decodes the op code at the program counter and runs it.
pub fn run_next_operation(state: &mut State)
    requires
        decoded_operation(old(state)@.memory_at(old(state).program_counter)) is Some,
        can_step(
            old(state)@,
            decoded_operation(old(state)@.memory_at(old(state).program_counter)).unwrap(),
        ),
    ensures
        final(state)@ == step_effect(
            old(state)@,
            decoded_operation(old(state)@.memory_at(old(state).program_counter)).unwrap(),
            final(state)@.register(Register::A),
        ),
        decoded_operation(old(state)@.memory_at(old(state).program_counter)).unwrap()
            == Operation::In ==> final(state)@.register(Register::A) == old(state).ports.in_value(
            old(state)@.memory_at((old(state).program_counter + 1) as u16),
        ),
        decoded_operation(old(state)@.memory_at(old(state).program_counter)).unwrap()
            == Operation::In ==> (old(state).ports.static_value(
            old(state)@.memory_at((old(state).program_counter + 1) as u16),
        ) matches Some(static_value) ==> final(state)@.register(Register::A) == static_value),
        decoded_operation(old(state)@.memory_at(old(state).program_counter)).unwrap()
            != Operation::Out ==> final(state).ports == old(state).ports,
        decoded_operation(old(state)@.memory_at(old(state).program_counter)).unwrap()
            == Operation::Out ==> {
            &&& forall|in_port: u8|
                #[trigger] final(state).ports.in_value(in_port) == old(state).ports.in_value_after_write(
                    old(state)@.memory_at((old(state).program_counter + 1) as u16),
                    old(state)@.register(Register::A),
                    in_port,
                )
            &&& forall|in_port: u8|
                #[trigger] final(state).ports.static_value(in_port) == old(state).ports.static_value_after_write(
                    old(state)@.memory_at((old(state).program_counter + 1) as u16),
                    old(state)@.register(Register::A),
                    in_port,
                )
        },
{
    let memory_value = state.memory_value_at_pc();
    let operation = crate::disassembler::disassemble_op_code(memory_value);
    state.run_operation(&operation);
}

} // verus!

verus! {

/// The length in bytes of the instruction that an op code starts, as the
/// 8080 defines it: three for the instructions with an address or a 16-bit
/// datum (LXI, SHLD, LHLD, STA, LDA, JMP, the conditional jumps, CALL and
/// the conditional calls), two for those with an 8-bit datum (MVI, the
/// arithmetic and logical immediates, OUT and IN), one for all others.
pub open spec fn instruction_length(op_code: u8) -> nat {
    if (op_code < 0x40 && op_code % 16 == 1) || op_code == 0x22 || op_code == 0x2A || op_code
        == 0x32 || op_code == 0x3A || op_code == 0xC3 || op_code == 0xCD || (op_code >= 0xC0
        && op_code % 8 == 2) || (op_code >= 0xC0 && op_code % 8 == 4) {
        3
    } else if (op_code < 0x40 && op_code % 8 == 6) || (op_code >= 0xC0 && op_code % 8 == 6)
        || op_code == 0xD3 || op_code == 0xDB {
        2
    } else {
        1
    }
}

/// Every op code that the decoder accepts is followed by as many data bytes
/// as its instruction is long, less the op code itself.
#[verifier::rlimit(100)]
pub proof fn lemma_data_bytes_follow_the_instruction_length(op_code: u8)
    requires
        decoded_operation(op_code) is Some,
    ensures
        decoded_operation(op_code).unwrap().data_byte_count() + 1 == instruction_length(op_code),
{
    // Each op code is checked on its own value.
    match op_code {
        0u8 => {}, 1u8 => {}, 2u8 => {}, 3u8 => {}, 4u8 => {}, 5u8 => {}, 6u8 => {}, 7u8 => {},
        8u8 => {}, 9u8 => {}, 10u8 => {}, 11u8 => {}, 12u8 => {}, 13u8 => {}, 14u8 => {}, 15u8 => {},
        16u8 => {}, 17u8 => {}, 18u8 => {}, 19u8 => {}, 20u8 => {}, 21u8 => {}, 22u8 => {}, 23u8 => {},
        24u8 => {}, 25u8 => {}, 26u8 => {}, 27u8 => {}, 28u8 => {}, 29u8 => {}, 30u8 => {}, 31u8 => {},
        32u8 => {}, 33u8 => {}, 34u8 => {}, 35u8 => {}, 36u8 => {}, 37u8 => {}, 38u8 => {}, 39u8 => {},
        40u8 => {}, 41u8 => {}, 42u8 => {}, 43u8 => {}, 44u8 => {}, 45u8 => {}, 46u8 => {}, 47u8 => {},
        48u8 => {}, 49u8 => {}, 50u8 => {}, 51u8 => {}, 52u8 => {}, 53u8 => {}, 54u8 => {}, 55u8 => {},
        56u8 => {}, 57u8 => {}, 58u8 => {}, 59u8 => {}, 60u8 => {}, 61u8 => {}, 62u8 => {}, 63u8 => {},
        64u8 => {}, 65u8 => {}, 66u8 => {}, 67u8 => {}, 68u8 => {}, 69u8 => {}, 70u8 => {}, 71u8 => {},
        72u8 => {}, 73u8 => {}, 74u8 => {}, 75u8 => {}, 76u8 => {}, 77u8 => {}, 78u8 => {}, 79u8 => {},
        80u8 => {}, 81u8 => {}, 82u8 => {}, 83u8 => {}, 84u8 => {}, 85u8 => {}, 86u8 => {}, 87u8 => {},
        88u8 => {}, 89u8 => {}, 90u8 => {}, 91u8 => {}, 92u8 => {}, 93u8 => {}, 94u8 => {}, 95u8 => {},
        96u8 => {}, 97u8 => {}, 98u8 => {}, 99u8 => {}, 100u8 => {}, 101u8 => {}, 102u8 => {}, 103u8 => {},
        104u8 => {}, 105u8 => {}, 106u8 => {}, 107u8 => {}, 108u8 => {}, 109u8 => {}, 110u8 => {}, 111u8 => {},
        112u8 => {}, 113u8 => {}, 114u8 => {}, 115u8 => {}, 116u8 => {}, 117u8 => {}, 118u8 => {}, 119u8 => {},
        120u8 => {}, 121u8 => {}, 122u8 => {}, 123u8 => {}, 124u8 => {}, 125u8 => {}, 126u8 => {}, 127u8 => {},
        128u8 => {}, 129u8 => {}, 130u8 => {}, 131u8 => {}, 132u8 => {}, 133u8 => {}, 134u8 => {}, 135u8 => {},
        136u8 => {}, 137u8 => {}, 138u8 => {}, 139u8 => {}, 140u8 => {}, 141u8 => {}, 142u8 => {}, 143u8 => {},
        144u8 => {}, 145u8 => {}, 146u8 => {}, 147u8 => {}, 148u8 => {}, 149u8 => {}, 150u8 => {}, 151u8 => {},
        152u8 => {}, 153u8 => {}, 154u8 => {}, 155u8 => {}, 156u8 => {}, 157u8 => {}, 158u8 => {}, 159u8 => {},
        160u8 => {}, 161u8 => {}, 162u8 => {}, 163u8 => {}, 164u8 => {}, 165u8 => {}, 166u8 => {}, 167u8 => {},
        168u8 => {}, 169u8 => {}, 170u8 => {}, 171u8 => {}, 172u8 => {}, 173u8 => {}, 174u8 => {}, 175u8 => {},
        176u8 => {}, 177u8 => {}, 178u8 => {}, 179u8 => {}, 180u8 => {}, 181u8 => {}, 182u8 => {}, 183u8 => {},
        184u8 => {}, 185u8 => {}, 186u8 => {}, 187u8 => {}, 188u8 => {}, 189u8 => {}, 190u8 => {}, 191u8 => {},
        192u8 => {}, 193u8 => {}, 194u8 => {}, 195u8 => {}, 196u8 => {}, 197u8 => {}, 198u8 => {}, 199u8 => {},
        200u8 => {}, 201u8 => {}, 202u8 => {}, 203u8 => {}, 204u8 => {}, 205u8 => {}, 206u8 => {}, 207u8 => {},
        208u8 => {}, 209u8 => {}, 210u8 => {}, 211u8 => {}, 212u8 => {}, 213u8 => {}, 214u8 => {}, 215u8 => {},
        216u8 => {}, 217u8 => {}, 218u8 => {}, 219u8 => {}, 220u8 => {}, 221u8 => {}, 222u8 => {}, 223u8 => {},
        224u8 => {}, 225u8 => {}, 226u8 => {}, 227u8 => {}, 228u8 => {}, 229u8 => {}, 230u8 => {}, 231u8 => {},
        232u8 => {}, 233u8 => {}, 234u8 => {}, 235u8 => {}, 236u8 => {}, 237u8 => {}, 238u8 => {}, 239u8 => {},
        240u8 => {}, 241u8 => {}, 242u8 => {}, 243u8 => {}, 244u8 => {}, 245u8 => {}, 246u8 => {}, 247u8 => {},
        248u8 => {}, 249u8 => {}, 250u8 => {}, 251u8 => {}, 252u8 => {}, 253u8 => {}, 254u8 => {}, 255u8 => {},
    }
}

} // verus!

verus! {

/// The immediate arithmetic and logical operations work on the byte that
/// follows their op code, and a step moves the program counter past both:
/// ADI adds it to the accumulator, SUI subtracts it, ANI, XRI and ORI take
/// the bitwise and, exclusive or and or with it, and CPI compares the
/// accumulator with it, leaving the accumulator as it was.
pub proof fn lemma_immediate_operations_use_the_next_byte(state: StateView, input: u8)
    requires
        state.is_well_formed(),
        state.program_counter + 2 <= 0xFFFF,
    ensures
        ({
            let a = state.register(Register::A);
            let d = state.memory_at((state.program_counter + 1) as u16);
            let next = (state.program_counter + 2) as u16;
            &&& step_effect(state, Operation::Adi, input).program_counter == next
            &&& step_effect(state, Operation::Adi, input).register(Register::A) == (a + d) % 256
            &&& step_effect(state, Operation::Adi, input).flag(ConditionFlag::Carry) == (a + d > 255)
            &&& step_effect(state, Operation::Sui, input).program_counter == next
            &&& step_effect(state, Operation::Sui, input).register(Register::A) == (a - d + 256) % 256
            &&& step_effect(state, Operation::Sui, input).flag(ConditionFlag::Carry) == (a < d)
            &&& step_effect(state, Operation::Ani, input).program_counter == next
            &&& step_effect(state, Operation::Ani, input).register(Register::A) == a & d
            &&& step_effect(state, Operation::Xri, input).program_counter == next
            &&& step_effect(state, Operation::Xri, input).register(Register::A) == a ^ d
            &&& step_effect(state, Operation::Ori, input).program_counter == next
            &&& step_effect(state, Operation::Ori, input).register(Register::A) == a | d
            &&& step_effect(state, Operation::Cpi, input).program_counter == next
            &&& step_effect(state, Operation::Cpi, input).register(Register::A) == a
            &&& step_effect(state, Operation::Cpi, input).flag(ConditionFlag::Zero) == (a == d)
            &&& step_effect(state, Operation::Cpi, input).flag(ConditionFlag::Carry) == (a < d)
        }),
{
}

/// The arithmetic and logical operations on a register or on the byte at
/// HL combine that operand with the accumulator: ADD adds it, SUB
/// subtracts it, ANA, XRA and ORA take the bitwise and, exclusive or and or
/// with it, and CMP compares the accumulator with it, leaving the
/// accumulator as it was. So ORA A and ANA A leave the accumulator as it
/// was, and XRA A and SUB A clear it.
pub proof fn lemma_accumulator_operations_combine_their_operand(
    state: StateView,
    register: Register,
    low_data: u8,
    high_data: u8,
    input: u8,
)
    ensures
        ({
            let a = state.register(Register::A);
            let v = state.register(register);
            let m = memory_operand(state);
            let effect = |operation: Operation|
                operation_effect(state, operation, low_data, high_data, input);
            &&& effect(Operation::Add(register)).register(Register::A) == (a + v) % 256
            &&& effect(Operation::Add(register)).flag(ConditionFlag::Carry) == (a + v > 255)
            &&& effect(Operation::Sub(register)).register(Register::A) == (a - v + 256) % 256
            &&& effect(Operation::Sub(register)).flag(ConditionFlag::Carry) == (a < v)
            &&& effect(Operation::Ana(register)).register(Register::A) == a & v
            &&& effect(Operation::Xra(register)).register(Register::A) == a ^ v
            &&& effect(Operation::Ora(register)).register(Register::A) == a | v
            &&& !effect(Operation::Ora(register)).flag(ConditionFlag::Carry)
            &&& effect(Operation::Cmp(register)).register(Register::A) == a
            &&& effect(Operation::Cmp(register)).flag(ConditionFlag::Zero) == (a == v)
            &&& effect(Operation::Cmp(register)).flag(ConditionFlag::Carry) == (a < v)
            &&& effect(Operation::AddMem).register(Register::A) == (a + m) % 256
            &&& effect(Operation::SubMem).register(Register::A) == (a - m + 256) % 256
            &&& effect(Operation::AnaMem).register(Register::A) == a & m
            &&& effect(Operation::XraMem).register(Register::A) == a ^ m
            &&& effect(Operation::OraMem).register(Register::A) == a | m
            &&& effect(Operation::CmpMem).register(Register::A) == a
            &&& effect(Operation::CmpMem).flag(ConditionFlag::Zero) == (a == m)
            &&& effect(Operation::Ora(Register::A)).register(Register::A) == a
            &&& effect(Operation::Ana(Register::A)).register(Register::A) == a
            &&& effect(Operation::Xra(Register::A)).register(Register::A) == 0
            &&& effect(Operation::Sub(Register::A)).register(Register::A) == 0
        }),
{
    let a = state.register(Register::A);
    assert(a | a == a && a & a == a && a ^ a == 0) by (bit_vector);
}

/// ADC and SBB add and subtract a register and the carry, ACI and SBI the
/// data byte and the carry; INR and DCR count a register up and down,
/// wrapping, and keep the carry.
pub proof fn lemma_carry_operations_and_counters(
    state: StateView,
    register: Register,
    low_data: u8,
    high_data: u8,
    input: u8,
)
    ensures
        ({
            let a = state.register(Register::A);
            let v = state.register(register);
            let c: int = if state.flag(ConditionFlag::Carry) {
                1
            } else {
                0
            };
            let effect = |operation: Operation|
                operation_effect(state, operation, low_data, high_data, input);
            &&& effect(Operation::Adc(register)).register(Register::A) == (a + v + c) % 256
            &&& effect(Operation::Adc(register)).flag(ConditionFlag::Carry) == (a + v + c > 255)
            &&& effect(Operation::Sbb(register)).register(Register::A) == (a - v - c + 256) % 256
            &&& effect(Operation::Sbb(register)).flag(ConditionFlag::Carry) == (a < v + c)
            &&& effect(Operation::Aci).register(Register::A) == (a + low_data + c) % 256
            &&& effect(Operation::Sbi).register(Register::A) == (a - low_data - c + 256) % 256
            &&& effect(Operation::Inr(register)).register(register) == (v + 1) % 256
            &&& effect(Operation::Inr(register)).flag(ConditionFlag::Carry) == state.flag(
                ConditionFlag::Carry,
            )
            &&& effect(Operation::Dcr(register)).register(register) == (v + 255) % 256
            &&& effect(Operation::Dcr(register)).flag(ConditionFlag::Carry) == state.flag(
                ConditionFlag::Carry,
            )
        }),
{
}

} // verus!
