//! An Intel 8080 emulator core: the processor state, the decoder, and the
//! instruction set, each instruction with a contract over an abstract model
//! of the machine.
use vstd::prelude::*;

pub mod arithmetic_instructions;
pub mod bit_operations;
pub mod branch_instructions;
pub mod disassembler;
pub mod logical_instructions;
pub mod machine;
pub mod runner;
pub mod stack_instructions;
pub mod transfer_instructions;
pub mod video;

use crate::bit_operations::{
    bit_of, has_even_parity, word, low_byte_of, high_byte_of, auxiliary_carry_of,
};

verus! {

broadcast use vstd::array::group_array_axioms;

/// Number of addressable bytes.
pub const MEMORY_SIZE: usize = 65536;

#[derive(Copy, Clone, PartialEq, Eq, Structural, Hash, Debug)]
pub enum Register {
    A,
    B,
    C,
    D,
    E,
    H,
    L,
}

#[derive(Copy, Clone, PartialEq, Eq, Structural, Hash, Debug)]
pub enum RegisterPair {
    BC,
    DE,
    HL,
    SP,
}

impl RegisterPair {
    /// The assembler name of the register pair.
    pub fn name(&self) -> (name: &'static str)
        ensures
            name@ == match *self {
                RegisterPair::BC => "BC"@,
                RegisterPair::DE => "DE"@,
                RegisterPair::HL => "HL"@,
                RegisterPair::SP => "SP"@,
            },
    {
        match self {
            RegisterPair::BC => "BC",
            RegisterPair::DE => "DE",
            RegisterPair::HL => "HL",
            RegisterPair::SP => "SP",
        }
    }
}

#[derive(Copy, Clone, PartialEq, Eq, Structural, Hash, Debug)]
pub enum ConditionFlag {
    Zero,
    Sign,
    Parity,
    Carry,
    AuxiliaryCarry,
}

/// A branch condition: the flag to test and the value it must have.
pub type Condition = (ConditionFlag, bool);

/// The seven 8-bit registers.
#[derive(Copy, Clone, PartialEq, Eq, Structural, Debug)]
pub struct RegisterState {
    pub a: u8,
    pub b: u8,
    pub c: u8,
    pub d: u8,
    pub e: u8,
    pub h: u8,
    pub l: u8,
}

impl RegisterState {
    pub open spec fn value(self, register: Register) -> u8 {
        match register {
            Register::A => self.a,
            Register::B => self.b,
            Register::C => self.c,
            Register::D => self.d,
            Register::E => self.e,
            Register::H => self.h,
            Register::L => self.l,
        }
    }

    pub open spec fn with_value(self, register: Register, value: u8) -> RegisterState {
        match register {
            Register::A => RegisterState { a: value, ..self },
            Register::B => RegisterState { b: value, ..self },
            Register::C => RegisterState { c: value, ..self },
            Register::D => RegisterState { d: value, ..self },
            Register::E => RegisterState { e: value, ..self },
            Register::H => RegisterState { h: value, ..self },
            Register::L => RegisterState { l: value, ..self },
        }
    }

    pub open spec fn zeroed() -> RegisterState {
        RegisterState { a: 0, b: 0, c: 0, d: 0, e: 0, h: 0, l: 0 }
    }

    /// All registers hold zero.
    pub fn new() -> (registers: RegisterState)
        ensures
            registers == RegisterState::zeroed(),
    {
        RegisterState { a: 0, b: 0, c: 0, d: 0, e: 0, h: 0, l: 0 }
    }

    pub fn get(&self, register: Register) -> (value: u8)
        ensures
            value == self.value(register),
    {
        match register {
            Register::A => self.a,
            Register::B => self.b,
            Register::C => self.c,
            Register::D => self.d,
            Register::E => self.e,
            Register::H => self.h,
            Register::L => self.l,
        }
    }

    pub fn set(&mut self, register: Register, value: u8)
        ensures
            *final(self) == old(self).with_value(register, value),
    {
        match register {
            Register::A => self.a = value,
            Register::B => self.b = value,
            Register::C => self.c = value,
            Register::D => self.d = value,
            Register::E => self.e = value,
            Register::H => self.h = value,
            Register::L => self.l = value,
        }
    }
}

/// The five condition flags.
#[derive(Copy, Clone, PartialEq, Eq, Structural, Debug)]
pub struct ConditionFlags {
    pub zero: bool,
    pub sign: bool,
    pub parity: bool,
    pub carry: bool,
    pub auxiliary_carry: bool,
}

impl ConditionFlags {
    pub open spec fn value(self, flag: ConditionFlag) -> bool {
        match flag {
            ConditionFlag::Zero => self.zero,
            ConditionFlag::Sign => self.sign,
            ConditionFlag::Parity => self.parity,
            ConditionFlag::Carry => self.carry,
            ConditionFlag::AuxiliaryCarry => self.auxiliary_carry,
        }
    }

    pub open spec fn with_value(self, flag: ConditionFlag, value: bool) -> ConditionFlags {
        match flag {
            ConditionFlag::Zero => ConditionFlags { zero: value, ..self },
            ConditionFlag::Sign => ConditionFlags { sign: value, ..self },
            ConditionFlag::Parity => ConditionFlags { parity: value, ..self },
            ConditionFlag::Carry => ConditionFlags { carry: value, ..self },
            ConditionFlag::AuxiliaryCarry => ConditionFlags { auxiliary_carry: value, ..self },
        }
    }

    pub open spec fn cleared() -> ConditionFlags {
        ConditionFlags {
            zero: false,
            sign: false,
            parity: false,
            carry: false,
            auxiliary_carry: false,
        }
    }

    /// The flags as the 8080 stores them in a byte: carry in bit 0, parity in
    /// bit 2, auxiliary carry in bit 4, zero in bit 6, sign in bit 7, bit 1
    /// always set and bits 3 and 5 always clear.
    pub open spec fn as_byte(self) -> u8 {
        0x02u8 | (if self.carry {
            0x01u8
        } else {
            0u8
        }) | (if self.parity {
            0x04u8
        } else {
            0u8
        }) | (if self.auxiliary_carry {
            0x10u8
        } else {
            0u8
        }) | (if self.zero {
            0x40u8
        } else {
            0u8
        }) | (if self.sign {
            0x80u8
        } else {
            0u8
        })
    }

    /// The flags that a byte in the layout of `as_byte` holds.
    pub open spec fn from_byte(byte: u8) -> ConditionFlags {
        ConditionFlags {
            zero: bit_of(byte, 6),
            sign: bit_of(byte, 7),
            parity: bit_of(byte, 2),
            carry: bit_of(byte, 0),
            auxiliary_carry: bit_of(byte, 4),
        }
    }

    /// All flags clear.
    pub fn new() -> (flags: ConditionFlags)
        ensures
            flags == ConditionFlags::cleared(),
    {
        ConditionFlags {
            zero: false,
            sign: false,
            parity: false,
            carry: false,
            auxiliary_carry: false,
        }
    }

    pub fn get(&self, flag: ConditionFlag) -> (value: bool)
        ensures
            value == self.value(flag),
    {
        match flag {
            ConditionFlag::Zero => self.zero,
            ConditionFlag::Sign => self.sign,
            ConditionFlag::Parity => self.parity,
            ConditionFlag::Carry => self.carry,
            ConditionFlag::AuxiliaryCarry => self.auxiliary_carry,
        }
    }

    pub fn set(&mut self, flag: ConditionFlag, value: bool)
        ensures
            *final(self) == old(self).with_value(flag, value),
    {
        match flag {
            ConditionFlag::Zero => self.zero = value,
            ConditionFlag::Sign => self.sign = value,
            ConditionFlag::Parity => self.parity = value,
            ConditionFlag::Carry => self.carry = value,
            ConditionFlag::AuxiliaryCarry => self.auxiliary_carry = value,
        }
    }
}

/// The input and output ports that the IN and OUT instructions reach. What a
/// port returns, and what writing to one does, belongs to the machine around
/// the processor. An implementation is described by a model: the byte that
/// reading each input port gives in its present state, the static value of
/// each input port that has one (a value that the machine sets and the port
/// then returns, such as the state of the player controls), and how a write
/// to an output port changes both. The methods' contracts relate them to
/// the model; `DefaultPorts` is proved to keep them, and an implementation
/// outside this library is taken to keep them without proof.
pub trait Ports {
    /// The byte that reading input port `port_number` gives now.
    spec fn in_value(&self, port_number: u8) -> u8;

    /// The static value of input port `port_number`, where it has one.
    spec fn static_value(&self, port_number: u8) -> Option<u8>;

    /// Reads an input port: reading depends on the port number and on the
    /// ports' present state alone, and a port with a static value reads as
    /// that value.
    fn read_in_port(&self, port_number: u8) -> (value: u8)
        ensures
            value == self.in_value(port_number),
            self.static_value(port_number) matches Some(static_value) ==> value == static_value,
    ;

    /// The byte that reading input port `in_port` gives after `value` has
    /// been written to output port `out_port`.
    spec fn in_value_after_write(&self, out_port: u8, value: u8, in_port: u8) -> u8;

    /// The static value of input port `in_port` after `value` has been
    /// written to output port `out_port`.
    spec fn static_value_after_write(&self, out_port: u8, value: u8, in_port: u8) -> Option<u8>;

    /// Writes an output port: what the input ports give afterwards depends on
    /// the ports' state before, the port number and the value alone.
    fn write_out_port(&mut self, port_number: u8, value: u8)
        ensures
            forall|in_port: u8|
                #[trigger] final(self).in_value(in_port) == old(self).in_value_after_write(
                    port_number,
                    value,
                    in_port,
                ),
            forall|in_port: u8|
                #[trigger] final(self).static_value(in_port) == old(
                    self,
                ).static_value_after_write(port_number, value, in_port),
    ;

    /// The static value of an input port, where it has one.
    fn in_port_static_value(&self, port_number: u8) -> (value: Option<u8>)
        ensures
            value == self.static_value(port_number),
    ;

    /// Sets the static value of an input port that has one; a port without
    /// one keeps having none, and every other port keeps its static value.
    fn set_in_port_static_value(&mut self, port_number: u8, value: u8)
        ensures
            final(self).static_value(port_number) == if old(self).static_value(
                port_number,
            ) is Some {
                Some(value)
            } else {
                None
            },
            forall|other: u8|
                other != port_number ==> #[trigger] final(self).static_value(other) == old(
                    self,
                ).static_value(other),
    ;
}

/// Ports that read as zero, have no static values and ignore writes.
pub struct DefaultPorts;

impl Ports for DefaultPorts {
    open spec fn in_value(&self, port_number: u8) -> u8 {
        0
    }

    open spec fn static_value(&self, port_number: u8) -> Option<u8> {
        None
    }

    open spec fn in_value_after_write(&self, out_port: u8, value: u8, in_port: u8) -> u8 {
        0
    }

    open spec fn static_value_after_write(&self, out_port: u8, value: u8, in_port: u8) -> Option<u8> {
        None
    }

    fn read_in_port(&self, port_number: u8) -> (value: u8) {
        0
    }

    fn write_out_port(&mut self, port_number: u8, value: u8) {
    }

    fn in_port_static_value(&self, port_number: u8) -> (value: Option<u8>) {
        None
    }

    fn set_in_port_static_value(&mut self, port_number: u8, value: u8) {
    }
}

/// The abstract processor state: everything but the ports.
pub ghost struct StateView {
    pub registers: RegisterState,
    pub condition_flags: ConditionFlags,
    pub program_counter: u16,
    pub stack_pointer: u16,
    pub memory: Seq<u8>,
    pub are_interrupts_enabled: bool,
    pub is_halted: bool,
    pub cpu_total_state_count: nat,
}

impl StateView {
    /// The state of a freshly reset processor.
    pub open spec fn initial() -> StateView {
        StateView {
            registers: RegisterState::zeroed(),
            condition_flags: ConditionFlags::cleared(),
            program_counter: 0,
            stack_pointer: 0,
            memory: Seq::new(MEMORY_SIZE as nat, |i: int| 0u8),
            are_interrupts_enabled: false,
            is_halted: false,
            cpu_total_state_count: 0,
        }
    }

    pub open spec fn is_well_formed(self) -> bool {
        self.memory.len() == MEMORY_SIZE
    }

    pub open spec fn register(self, register: Register) -> u8 {
        self.registers.value(register)
    }

    pub open spec fn with_register(self, register: Register, value: u8) -> StateView {
        StateView { registers: self.registers.with_value(register, value), ..self }
    }

    pub open spec fn flag(self, flag: ConditionFlag) -> bool {
        self.condition_flags.value(flag)
    }

    pub open spec fn with_flag(self, flag: ConditionFlag, value: bool) -> StateView {
        StateView { condition_flags: self.condition_flags.with_value(flag, value), ..self }
    }

    pub open spec fn memory_at(self, address: u16) -> u8 {
        self.memory[address as int]
    }

    pub open spec fn with_memory_at(self, address: u16, value: u8) -> StateView {
        StateView { memory: self.memory.update(address as int, value), ..self }
    }

    /// The 16-bit value of a register pair: the first register holds the high byte.
    pub open spec fn register_pair(self, register_pair: RegisterPair) -> u16 {
        match register_pair {
            RegisterPair::BC => word(self.registers.c, self.registers.b),
            RegisterPair::DE => word(self.registers.e, self.registers.d),
            RegisterPair::HL => word(self.registers.l, self.registers.h),
            RegisterPair::SP => self.stack_pointer,
        }
    }

    pub open spec fn with_register_pair(self, register_pair: RegisterPair, value: u16) -> StateView {
        match register_pair {
            RegisterPair::BC => self.with_register(Register::C, low_byte_of(value)).with_register(
                Register::B,
                high_byte_of(value),
            ),
            RegisterPair::DE => self.with_register(Register::E, low_byte_of(value)).with_register(
                Register::D,
                high_byte_of(value),
            ),
            RegisterPair::HL => self.with_register(Register::L, low_byte_of(value)).with_register(
                Register::H,
                high_byte_of(value),
            ),
            RegisterPair::SP => StateView { stack_pointer: value, ..self },
        }
    }

    /// Zero, sign and parity set from a result byte; the other flags kept.
    pub open spec fn with_result_flags(self, result: u8) -> StateView {
        StateView {
            condition_flags: ConditionFlags {
                zero: result == 0,
                sign: bit_of(result, 7),
                parity: has_even_parity(result),
                ..self.condition_flags
            },
            ..self
        }
    }

    pub open spec fn is_condition_true(self, condition: Condition) -> bool {
        self.flag(condition.0) == condition.1
    }
}

/// The processor: registers, flags, program counter, stack pointer, memory,
/// interrupt and halt state, the ports, and the number of states run so far.
pub struct State {
    pub registers: RegisterState,
    pub condition_flags: ConditionFlags,
    pub program_counter: u16,
    pub stack_pointer: u16,
    pub memory: [u8; 65536],
    pub are_interrupts_enabled: bool,
    pub is_halted: bool,
    pub ports: Box<dyn Ports>,
    pub cpu_total_state_count: usize,
}

impl View for State {
    type V = StateView;

    open spec fn view(&self) -> StateView {
        StateView {
            registers: self.registers,
            condition_flags: self.condition_flags,
            program_counter: self.program_counter,
            stack_pointer: self.stack_pointer,
            memory: self.memory@,
            are_interrupts_enabled: self.are_interrupts_enabled,
            is_halted: self.is_halted,
            cpu_total_state_count: self.cpu_total_state_count as nat,
        }
    }
}

impl Default for State {
    fn default() -> (state: State)
        ensures
            state@ == StateView::initial(),
            forall|port_number: u8| #[trigger] state.ports.in_value(port_number) == 0,
            forall|port_number: u8| #[trigger] state.ports.static_value(port_number) is None,
    {
        StateBuilder::default().build()
    }
}

impl State {
    /// Copies the given bytes to the start of memory.
    pub fn load_memory(&mut self, contiguous_memory_bytes: &[u8])
        requires
            contiguous_memory_bytes@.len() <= MEMORY_SIZE,
        ensures
            final(self)@ == (StateView {
                memory: contiguous_memory_bytes@ + old(self)@.memory.subrange(
                    contiguous_memory_bytes@.len() as int,
                    MEMORY_SIZE as int,
                ),
                ..old(self)@
            }),
            final(self).ports == old(self).ports,
    {
        let length = contiguous_memory_bytes.len();
        let mut memory_address: usize = 0;
        assert(self@.memory =~= contiguous_memory_bytes@.subrange(0, 0) + old(self)@.memory.subrange(
            0,
            MEMORY_SIZE as int,
        ));
        while memory_address < length
            invariant
                length == contiguous_memory_bytes@.len(),
                length <= MEMORY_SIZE,
                memory_address <= length,
                self.ports == old(self).ports,
                self@ == (StateView {
                    memory: contiguous_memory_bytes@.subrange(0, memory_address as int)
                        + old(self)@.memory.subrange(memory_address as int, MEMORY_SIZE as int),
                    ..old(self)@
                }),
            decreases length - memory_address,
        {
            let memory_value = contiguous_memory_bytes[memory_address];
            self.memory[memory_address] = memory_value;
            memory_address = memory_address + 1;
            assert(self@.memory =~= contiguous_memory_bytes@.subrange(0, memory_address as int)
                + old(self)@.memory.subrange(memory_address as int, MEMORY_SIZE as int));
        }
        assert(contiguous_memory_bytes@.subrange(0, length as int) =~= contiguous_memory_bytes@);
    }

    pub fn memory_value_at_pc(&self) -> (value: u8)
        ensures
            value == self@.memory_at(self.program_counter),
    {
        self.memory[self.program_counter as usize]
    }

    pub fn memory_value_at(&self, memory_address: u16) -> (value: u8)
        ensures
            value == self@.memory_at(memory_address),
    {
        self.memory[memory_address as usize]
    }

    pub fn set_memory_value_at(&mut self, memory_address: u16, value: u8)
        ensures
            final(self)@ == old(self)@.with_memory_at(memory_address, value),
            final(self).ports == old(self).ports,
    {
        self.memory[memory_address as usize] = value;
    }

    /// Adds to a register, wrapping; returns the carry and the auxiliary carry.
    pub fn increase_register(&mut self, register: Register, relative_value: u8) -> (carries: (
        bool,
        bool,
    ))
        ensures
            final(self)@ == old(self)@.with_register(
                register,
                ((old(self)@.register(register) + relative_value) % 256) as u8,
            ),
            carries.0 == (old(self)@.register(register) + relative_value > 255),
            carries.1 == auxiliary_carry_of(old(self)@.register(register), relative_value, false),
            final(self).ports == old(self).ports,
    {
        let register_value = self.registers.get(register);
        let result = register_value.wrapping_add(relative_value);
        let carry = result < register_value;
        let auxiliary_carry = bit_operations::calculate_auxiliary_carry(
            register_value,
            relative_value,
            false,
        );
        self.registers.set(register, result);
        (carry, auxiliary_carry)
    }

    /// Subtracts from a register, wrapping; returns the borrow and the
    /// auxiliary carry as the 8080 reports it for a subtraction.
    pub fn decrease_register(&mut self, register: Register, relative_value: u8) -> (borrows: (
        bool,
        bool,
    ))
        ensures
            final(self)@ == old(self)@.with_register(
                register,
                ((old(self)@.register(register) - relative_value + 256) % 256) as u8,
            ),
            borrows.0 == (old(self)@.register(register) < relative_value),
            borrows.1 == auxiliary_carry_of(old(self)@.register(register), relative_value, true),
            final(self).ports == old(self).ports,
    {
        let register_value = self.registers.get(register);
        let result = register_value.wrapping_sub(relative_value);
        let borrow = register_value < relative_value;
        let auxiliary_borrow = bit_operations::calculate_auxiliary_carry(
            register_value,
            relative_value,
            true,
        );
        self.registers.set(register, result);
        (borrow, auxiliary_borrow)
    }

    /// Sets a register to `f(value, current value of the register)`.
    pub fn set_register_by_function_with_value<F>(
        &mut self,
        target_register: Register,
        value: u8,
        f: F,
    ) where F: FnOnce(u8, u8) -> u8
        requires
            call_requires(f, (value, old(self)@.register(target_register))),
        ensures
            call_ensures(
                f,
                (value, old(self)@.register(target_register)),
                final(self)@.register(target_register),
            ),
            final(self)@ == old(self)@.with_register(
                target_register,
                final(self)@.register(target_register),
            ),
            final(self).ports == old(self).ports,
    {
        let target_register_value = self.registers.get(target_register);
        let result = f(value, target_register_value);
        self.registers.set(target_register, result);
    }

    pub fn exchange_register_values(&mut self, register1: Register, register2: Register)
        ensures
            final(self)@ == old(self)@.with_register(
                register2,
                old(self)@.register(register1),
            ).with_register(register1, old(self)@.register(register2)),
            final(self).ports == old(self).ports,
    {
        let register1_value = self.registers.get(register1);
        let register2_value = self.registers.get(register2);
        self.registers.set(register2, register1_value);
        self.registers.set(register1, register2_value);
    }

    /// Sets zero, sign and parity from a result byte.
    pub fn set_condition_flags_from_result(&mut self, result: u8)
        ensures
            final(self)@ == old(self)@.with_result_flags(result),
            final(self).ports == old(self).ports,
    {
        self.condition_flags.zero = result == 0;
        self.condition_flags.sign = bit_operations::is_bit_set(result, 7);
        self.condition_flags.parity = bit_operations::get_parity(result);
    }

    pub fn set_condition_flags_from_register_value(&mut self, register: Register)
        ensures
            final(self)@ == old(self)@.with_result_flags(old(self)@.register(register)),
            final(self).ports == old(self).ports,
    {
        let register_value = self.registers.get(register);
        self.set_condition_flags_from_result(register_value);
    }

    /// The flags packed into a byte, as PUSH PSW stores them.
    pub fn condition_flag_byte(&self) -> (byte: u8)
        ensures
            byte == self.condition_flags.as_byte(),
    {
        let flags = self.condition_flags;
        let mut condition_flag_byte: u8 = 0b0000_0010;
        bit_operations::set_bit_in_value(&mut condition_flag_byte, 0, flags.carry);
        let b0 = condition_flag_byte;
        bit_operations::set_bit_in_value(&mut condition_flag_byte, 2, flags.parity);
        let b1 = condition_flag_byte;
        bit_operations::set_bit_in_value(&mut condition_flag_byte, 4, flags.auxiliary_carry);
        let b2 = condition_flag_byte;
        bit_operations::set_bit_in_value(&mut condition_flag_byte, 6, flags.zero);
        let b3 = condition_flag_byte;
        bit_operations::set_bit_in_value(&mut condition_flag_byte, 7, flags.sign);
        let b4 = condition_flag_byte;
        let c = flags.carry;
        let p = flags.parity;
        let ac = flags.auxiliary_carry;
        let z = flags.zero;
        let s = flags.sign;
        assert(b4 == 0x02u8 | (if c { 0x01u8 } else { 0u8 }) | (if p { 0x04u8 } else { 0u8 }) | (if ac { 0x10u8 } else { 0u8 }) | (if z { 0x40u8 } else { 0u8 }) | (if s { 0x80u8 } else { 0u8 })) by (bit_vector)
            requires
                b0 == (0b0000_0010u8 & !(1u8 << 0u8)) | (if c { 1u8 << 0u8 } else { 0u8 }),
                b1 == (b0 & !(1u8 << 2u8)) | (if p { 1u8 << 2u8 } else { 0u8 }),
                b2 == (b1 & !(1u8 << 4u8)) | (if ac { 1u8 << 4u8 } else { 0u8 }),
                b3 == (b2 & !(1u8 << 6u8)) | (if z { 1u8 << 6u8 } else { 0u8 }),
                b4 == (b3 & !(1u8 << 7u8)) | (if s { 1u8 << 7u8 } else { 0u8 }),
        ;
        condition_flag_byte
    }

    /// Loads the flags from the byte at the given memory address, as POP PSW does.
    pub fn set_condition_flag_byte(&mut self, memory_address: u16)
        ensures
            final(self)@ == (StateView {
                condition_flags: ConditionFlags::from_byte(old(self)@.memory_at(memory_address)),
                ..old(self)@
            }),
            final(self).ports == old(self).ports,
    {
        let condition_flag_byte = self.memory[memory_address as usize];
        self.condition_flags.carry = bit_operations::is_bit_set(condition_flag_byte, 0);
        self.condition_flags.parity = bit_operations::is_bit_set(condition_flag_byte, 2);
        self.condition_flags.auxiliary_carry = bit_operations::is_bit_set(condition_flag_byte, 4);
        self.condition_flags.zero = bit_operations::is_bit_set(condition_flag_byte, 6);
        self.condition_flags.sign = bit_operations::is_bit_set(condition_flag_byte, 7);
    }

    pub fn is_condition_true(&self, condition: Condition) -> (is_true: bool)
        ensures
            is_true == self@.is_condition_true(condition),
    {
        self.condition_flags.get(condition.0) == condition.1
    }

    /// The low and the high byte of a register pair.
    pub fn low_high_rp_value(&self, register_pair: RegisterPair) -> (bytes: (u8, u8))
        ensures
            bytes.0 == low_byte_of(self@.register_pair(register_pair)),
            bytes.1 == high_byte_of(self@.register_pair(register_pair)),
    {
        match register_pair {
            RegisterPair::BC => (self.registers.c, self.registers.b),
            RegisterPair::DE => (self.registers.e, self.registers.d),
            RegisterPair::HL => (self.registers.l, self.registers.h),
            RegisterPair::SP => {
                let (low_value, high_value) = bit_operations::split_to_low_high_bytes(
                    self.stack_pointer,
                );
                (low_value, high_value)
            },
        }
    }

    pub fn full_rp_value(&self, register_pair: RegisterPair) -> (value: u16)
        ensures
            value == self@.register_pair(register_pair),
    {
        if let RegisterPair::SP = register_pair {
            return self.stack_pointer;
        }
        let (low_value, high_value) = self.low_high_rp_value(register_pair);
        bit_operations::concat_low_high_bytes(low_value, high_value)
    }

    pub fn set_low_high_rp_value(&mut self, register_pair: RegisterPair, low_value: u8, high_value: u8)
        ensures
            final(self)@ == old(self)@.with_register_pair(register_pair, word(low_value, high_value)),
            final(self).ports == old(self).ports,
    {
        match register_pair {
            RegisterPair::BC => {
                self.registers.c = low_value;
                self.registers.b = high_value;
            },
            RegisterPair::DE => {
                self.registers.e = low_value;
                self.registers.d = high_value;
            },
            RegisterPair::HL => {
                self.registers.l = low_value;
                self.registers.h = high_value;
            },
            RegisterPair::SP => {
                self.stack_pointer = bit_operations::concat_low_high_bytes(low_value, high_value);
            },
        };
    }

    pub fn set_full_rp_value(&mut self, register_pair: RegisterPair, value: u16)
        ensures
            final(self)@ == old(self)@.with_register_pair(register_pair, value),
            final(self).ports == old(self).ports,
    {
        if let RegisterPair::SP = register_pair {
            self.stack_pointer = value;
        }
        let (low_value, high_value) = bit_operations::split_to_low_high_bytes(value);
        self.set_low_high_rp_value(register_pair, low_value, high_value);
    }

    pub fn cpu_total_state_count(&self) -> (count: usize)
        ensures
            count == self@.cpu_total_state_count,
    {
        self.cpu_total_state_count
    }

    /// Runs one operation: moves the program counter past its op code and
    /// data bytes, reading the data bytes from memory, runs it, and counts
    /// the states it takes.
    pub fn run_operation(&mut self, operation: &Operation)
        requires
            runner::can_step(old(self)@, *operation),
        ensures
            final(self)@ == runner::step_effect(
                old(self)@,
                *operation,
                final(self)@.register(Register::A),
            ),
            *operation == Operation::In ==> final(self)@.register(Register::A) == old(
                self,
            ).ports.in_value(old(self)@.memory_at((old(self).program_counter + 1) as u16)),
            *operation == Operation::In ==> (old(self).ports.static_value(
                old(self)@.memory_at((old(self).program_counter + 1) as u16),
            ) matches Some(static_value) ==> final(self)@.register(Register::A) == static_value),
            *operation != Operation::Out ==> final(self).ports == old(self).ports,
            *operation == Operation::Out ==> {
                &&& forall|in_port: u8|
                    #[trigger] final(self).ports.in_value(in_port) == old(self).ports.in_value_after_write(
                        old(self)@.memory_at((old(self).program_counter + 1) as u16),
                        old(self)@.register(Register::A),
                        in_port,
                    )
                &&& forall|in_port: u8|
                    #[trigger] final(self).ports.static_value(in_port) == old(self).ports.static_value_after_write(
                        old(self)@.memory_at((old(self).program_counter + 1) as u16),
                        old(self)@.register(Register::A),
                        in_port,
                    )
            },
    {
        self.program_counter = self.program_counter + 1;
        let mut additional_byte_1 = None;
        let mut additional_byte_2 = None;
        let instruction_data_type = operation.additional_data_required();
        if let InstructionDataType::Single | InstructionDataType::LowHigh = instruction_data_type {
            additional_byte_1 = Some(self.memory_value_at_pc());
            self.program_counter = self.program_counter + 1;
        }
        if let InstructionDataType::LowHigh = instruction_data_type {
            additional_byte_2 = Some(self.memory_value_at_pc());
            self.program_counter = self.program_counter + 1;
        }
        runner::run_operation(operation, self, additional_byte_1, additional_byte_2);
        let states = operation.machine_states(self);
        self.cpu_total_state_count = self.cpu_total_state_count + states as usize;
    }
}


/// Register values applied in order: a later value for a register wins.
pub open spec fn registers_with_values(
    registers: RegisterState,
    values: Seq<(Register, u8)>,
) -> RegisterState
    decreases values.len(),
{
    if values.len() == 0 {
        registers
    } else {
        registers_with_values(registers, values.drop_last()).with_value(
            values.last().0,
            values.last().1,
        )
    }
}

/// Flag values applied in order: a later value for a flag wins.
pub open spec fn flags_with_values(
    flags: ConditionFlags,
    values: Seq<(ConditionFlag, bool)>,
) -> ConditionFlags
    decreases values.len(),
{
    if values.len() == 0 {
        flags
    } else {
        flags_with_values(flags, values.drop_last()).with_value(values.last().0, values.last().1)
    }
}

/// Memory values applied in order: a later value for an address wins.
pub open spec fn memory_with_values(memory: Seq<u8>, values: Seq<(u16, u8)>) -> Seq<u8>
    decreases values.len(),
{
    if values.len() == 0 {
        memory
    } else {
        memory_with_values(memory, values.drop_last()).update(
            values.last().0 as int,
            values.last().1,
        )
    }
}

pub open spec fn seq_or_empty<T>(values: Option<Seq<T>>) -> Seq<T> {
    match values {
        Some(values) => values,
        None => Seq::empty(),
    }
}

/// What a builder has been given: each setting is absent until set.
pub ghost struct StateBuilderView {
    pub register_values: Option<Seq<(Register, u8)>>,
    pub condition_flag_values: Option<Seq<(ConditionFlag, bool)>>,
    pub program_counter: Option<u16>,
    pub stack_pointer: Option<u16>,
    pub memory_values: Option<Seq<(u16, u8)>>,
    pub are_interrupts_enabled: Option<bool>,
    pub is_halted: Option<bool>,
}

impl StateBuilderView {
    pub open spec fn empty() -> StateBuilderView {
        StateBuilderView {
            register_values: None,
            condition_flag_values: None,
            program_counter: None,
            stack_pointer: None,
            memory_values: None,
            are_interrupts_enabled: None,
            is_halted: None,
        }
    }

    /// The state that `build` makes: every setting that was not given keeps
    /// the value of a reset processor, and the state count is zero.
    pub open spec fn built(self) -> StateView {
        let initial = StateView::initial();
        StateView {
            registers: registers_with_values(initial.registers, seq_or_empty(self.register_values)),
            condition_flags: flags_with_values(
                initial.condition_flags,
                seq_or_empty(self.condition_flag_values),
            ),
            program_counter: match self.program_counter {
                Some(value) => value,
                None => 0,
            },
            stack_pointer: match self.stack_pointer {
                Some(value) => value,
                None => 0,
            },
            memory: memory_with_values(initial.memory, seq_or_empty(self.memory_values)),
            are_interrupts_enabled: match self.are_interrupts_enabled {
                Some(value) => value,
                None => false,
            },
            is_halted: match self.is_halted {
                Some(value) => value,
                None => false,
            },
            cpu_total_state_count: 0,
        }
    }
}

/// Builds a `State` from the settings it is given.
pub struct StateBuilder {
    register_values: Option<Vec<(Register, u8)>>,
    condition_flag_values: Option<Vec<(ConditionFlag, bool)>>,
    program_counter: Option<u16>,
    stack_pointer: Option<u16>,
    memory_values: Option<Vec<(u16, u8)>>,
    are_interrupts_enabled: Option<bool>,
    is_halted: Option<bool>,
}

impl View for StateBuilder {
    type V = StateBuilderView;

    closed spec fn view(&self) -> StateBuilderView {
        StateBuilderView {
            register_values: match self.register_values {
                Some(values) => Some(values@),
                None => None,
            },
            condition_flag_values: match self.condition_flag_values {
                Some(values) => Some(values@),
                None => None,
            },
            program_counter: self.program_counter,
            stack_pointer: self.stack_pointer,
            memory_values: match self.memory_values {
                Some(values) => Some(values@),
                None => None,
            },
            are_interrupts_enabled: self.are_interrupts_enabled,
            is_halted: self.is_halted,
        }
    }
}

impl Default for StateBuilder {
    fn default() -> (builder: StateBuilder)
        ensures
            builder@ == StateBuilderView::empty(),
    {
        StateBuilder {
            register_values: None,
            condition_flag_values: None,
            program_counter: None,
            stack_pointer: None,
            memory_values: None,
            are_interrupts_enabled: None,
            is_halted: None,
        }
    }
}

impl StateBuilder {
    pub fn register_values(&mut self, register_values: Vec<(Register, u8)>) -> (new: &mut Self)
        ensures
            new@ == (StateBuilderView { register_values: Some(register_values@), ..old(self)@ }),
            *final(self) == *final(new),
    {
        let new = self;
        new.register_values = Some(register_values);
        new
    }

    pub fn condition_flag_values(
        &mut self,
        condition_flag_values: Vec<(ConditionFlag, bool)>,
    ) -> (new: &mut Self)
        ensures
            new@ == (StateBuilderView {
                condition_flag_values: Some(condition_flag_values@),
                ..old(self)@
            }),
            *final(self) == *final(new),
    {
        let new = self;
        new.condition_flag_values = Some(condition_flag_values);
        new
    }

    pub fn program_counter(&mut self, program_counter: u16) -> (new: &mut Self)
        ensures
            new@ == (StateBuilderView { program_counter: Some(program_counter), ..old(self)@ }),
            *final(self) == *final(new),
    {
        let new = self;
        new.program_counter = Some(program_counter);
        new
    }

    pub fn stack_pointer(&mut self, stack_pointer: u16) -> (new: &mut Self)
        ensures
            new@ == (StateBuilderView { stack_pointer: Some(stack_pointer), ..old(self)@ }),
            *final(self) == *final(new),
    {
        let new = self;
        new.stack_pointer = Some(stack_pointer);
        new
    }

    pub fn memory_values(&mut self, memory_values: Vec<(u16, u8)>) -> (new: &mut Self)
        ensures
            new@ == (StateBuilderView { memory_values: Some(memory_values@), ..old(self)@ }),
            *final(self) == *final(new),
    {
        let new = self;
        new.memory_values = Some(memory_values);
        new
    }

    pub fn interrupts_enabled(&mut self, are_interrupts_enabled: bool) -> (new: &mut Self)
        ensures
            new@ == (StateBuilderView {
                are_interrupts_enabled: Some(are_interrupts_enabled),
                ..old(self)@
            }),
            *final(self) == *final(new),
    {
        let new = self;
        new.are_interrupts_enabled = Some(are_interrupts_enabled);
        new
    }

    pub fn halted(&mut self, is_halted: bool) -> (new: &mut Self)
        ensures
            new@ == (StateBuilderView { is_halted: Some(is_halted), ..old(self)@ }),
            *final(self) == *final(new),
    {
        let new = self;
        new.is_halted = Some(is_halted);
        new
    }

    pub fn build(&self) -> (state: State)
        ensures
            state@ == self@.built(),
            forall|port_number: u8| #[trigger] state.ports.in_value(port_number) == 0,
            forall|port_number: u8| #[trigger] state.ports.static_value(port_number) is None,
    {
        let mut registers = RegisterState::new();
        let mut condition_flags = ConditionFlags::new();
        let mut memory = [0u8; 65536];
        let ghost initial = StateView::initial();
        assert(memory@ =~= initial.memory);

        if let Some(rvs) = &self.register_values {
            let mut index: usize = 0;
            while index < rvs.len()
                invariant
                    index <= rvs@.len(),
                    registers == registers_with_values(initial.registers, rvs@.take(index as int)),
                decreases rvs@.len() - index,
            {
                let (register, value) = rvs[index];
                registers.set(register, value);
                assert(rvs@.take(index + 1).drop_last() =~= rvs@.take(index as int));
                index = index + 1;
            }
            assert(rvs@.take(rvs@.len() as int) =~= rvs@);
        }

        if let Some(cfvs) = &self.condition_flag_values {
            let mut index: usize = 0;
            while index < cfvs.len()
                invariant
                    index <= cfvs@.len(),
                    condition_flags == flags_with_values(
                        initial.condition_flags,
                        cfvs@.take(index as int),
                    ),
                decreases cfvs@.len() - index,
            {
                let (condition_flag, value) = cfvs[index];
                condition_flags.set(condition_flag, value);
                assert(cfvs@.take(index + 1).drop_last() =~= cfvs@.take(index as int));
                index = index + 1;
            }
            assert(cfvs@.take(cfvs@.len() as int) =~= cfvs@);
        }

        if let Some(mvs) = &self.memory_values {
            let mut index: usize = 0;
            while index < mvs.len()
                invariant
                    index <= mvs@.len(),
                    memory@ == memory_with_values(initial.memory, mvs@.take(index as int)),
                decreases mvs@.len() - index,
            {
                let (memory_address, value) = mvs[index];
                memory[memory_address as usize] = value;
                assert(mvs@.take(index + 1).drop_last() =~= mvs@.take(index as int));
                index = index + 1;
            }
            assert(mvs@.take(mvs@.len() as int) =~= mvs@);
        }

        State {
            registers,
            condition_flags,
            program_counter: match self.program_counter {
                Some(value) => value,
                None => 0x0000,
            },
            stack_pointer: match self.stack_pointer {
                Some(value) => value,
                None => 0x0000,
            },
            memory,
            are_interrupts_enabled: match self.are_interrupts_enabled {
                Some(value) => value,
                None => false,
            },
            is_halted: match self.is_halted {
                Some(value) => value,
                None => false,
            },
            ports: Box::new(DefaultPorts),
            cpu_total_state_count: 0,
        }
    }
}


/// Setting one register leaves the others as they were.
proof fn lemma_register_with_value(registers: RegisterState, register: Register, value: u8)
    ensures
        forall|other: Register|
            #[trigger] registers.with_value(register, value).value(other) == if other == register {
                value
            } else {
                registers.value(other)
            },
{
}

/// Setting one flag leaves the others as they were.
proof fn lemma_flag_with_value(flags: ConditionFlags, flag: ConditionFlag, value: bool)
    ensures
        forall|other: ConditionFlag|
            #[trigger] flags.with_value(flag, value).value(other) == if other == flag {
                value
            } else {
                flags.value(other)
            },
{
}

/// With no register listed twice, as in a map from registers to values,
/// each listed register holds its value and every other register keeps its
/// value.
pub proof fn lemma_registers_with_distinct_values(registers: RegisterState, values: Seq<(Register, u8)>)
    requires
        forall|i: int, j: int| 0 <= i < j < values.len() ==> values[i].0 != values[j].0,
    ensures
        forall|i: int|
            0 <= i < values.len() ==> #[trigger] registers_with_values(registers, values).value(
                values[i].0,
            ) == values[i].1,
        forall|register: Register|
            (forall|i: int| 0 <= i < values.len() ==> values[i].0 != register) ==> #[trigger] registers_with_values(
                registers,
                values,
            ).value(register) == registers.value(register),
    decreases values.len(),
{
    if values.len() > 0 {
        lemma_registers_with_distinct_values(registers, values.drop_last());
        lemma_register_with_value(
            registers_with_values(registers, values.drop_last()),
            values.last().0,
            values.last().1,
        );
        assert forall|register: Register|
            (forall|i: int| 0 <= i < values.len() ==> values[i].0 != register) implies #[trigger] registers_with_values(
                registers,
                values,
            ).value(register) == registers.value(register) by {
            assert forall|i: int| 0 <= i < values.drop_last().len() implies values.drop_last()[i].0 != register by {
                assert(values[i].0 != register);
            }
        }
        assert forall|i: int| 0 <= i < values.len() implies #[trigger] registers_with_values(
            registers,
            values,
        ).value(values[i].0) == values[i].1 by {
            if i < values.len() - 1 {
                assert(values.drop_last()[i] == values[i]);
            }
        }
    }
}

/// With no flag listed twice, as in a map from flags to values, each listed
/// flag holds its value and every other flag keeps its value.
pub proof fn lemma_flags_with_distinct_values(flags: ConditionFlags, values: Seq<(ConditionFlag, bool)>)
    requires
        forall|i: int, j: int| 0 <= i < j < values.len() ==> values[i].0 != values[j].0,
    ensures
        forall|i: int|
            0 <= i < values.len() ==> #[trigger] flags_with_values(flags, values).value(values[i].0)
                == values[i].1,
        forall|flag: ConditionFlag|
            (forall|i: int| 0 <= i < values.len() ==> values[i].0 != flag) ==> #[trigger] flags_with_values(
                flags,
                values,
            ).value(flag) == flags.value(flag),
    decreases values.len(),
{
    if values.len() > 0 {
        lemma_flags_with_distinct_values(flags, values.drop_last());
        lemma_flag_with_value(
            flags_with_values(flags, values.drop_last()),
            values.last().0,
            values.last().1,
        );
        assert forall|flag: ConditionFlag|
            (forall|i: int| 0 <= i < values.len() ==> values[i].0 != flag) implies #[trigger] flags_with_values(
                flags,
                values,
            ).value(flag) == flags.value(flag) by {
            assert forall|i: int| 0 <= i < values.drop_last().len() implies values.drop_last()[i].0 != flag by {
                assert(values[i].0 != flag);
            }
        }
        assert forall|i: int| 0 <= i < values.len() implies #[trigger] flags_with_values(
            flags,
            values,
        ).value(values[i].0) == values[i].1 by {
            if i < values.len() - 1 {
                assert(values.drop_last()[i] == values[i]);
            }
        }
    }
}

/// With no address listed twice, as in a map from addresses to bytes, each
/// listed address holds its byte and every other address keeps its byte.
pub proof fn lemma_memory_with_distinct_values(memory: Seq<u8>, values: Seq<(u16, u8)>)
    requires
        memory.len() == MEMORY_SIZE,
        forall|i: int, j: int| 0 <= i < j < values.len() ==> values[i].0 != values[j].0,
    ensures
        memory_with_values(memory, values).len() == MEMORY_SIZE,
        forall|i: int|
            0 <= i < values.len() ==> #[trigger] memory_with_values(memory, values)[values[i].0 as int]
                == values[i].1,
        forall|address: u16|
            (forall|i: int| 0 <= i < values.len() ==> values[i].0 != address) ==> #[trigger] memory_with_values(
                memory,
                values,
            )[address as int] == memory[address as int],
    decreases values.len(),
{
    if values.len() > 0 {
        lemma_memory_with_distinct_values(memory, values.drop_last());
        assert forall|address: u16|
            (forall|i: int| 0 <= i < values.len() ==> values[i].0 != address) implies #[trigger] memory_with_values(
                memory,
                values,
            )[address as int] == memory[address as int] by {
            assert forall|i: int| 0 <= i < values.drop_last().len() implies values.drop_last()[i].0 != address by {
                assert(values[i].0 != address);
            }
            assert(values.last().0 != address);
        }
        assert forall|i: int| 0 <= i < values.len() implies #[trigger] memory_with_values(
            memory,
            values,
        )[values[i].0 as int] == values[i].1 by {
            if i < values.len() - 1 {
                assert(values.drop_last()[i] == values[i]);
                assert(values[i].0 != values.last().0);
            }
        }
    }
}

/// Reading a register pair gives back what was last written to it.
pub proof fn lemma_register_pair_write_then_read(state: StateView, register_pair: RegisterPair, value: u16)
    ensures
        state.with_register_pair(register_pair, value).register_pair(register_pair) == value,
{
}

/// Writing a register pair with its own value changes nothing.
pub proof fn lemma_register_pair_write_of_read(state: StateView, register_pair: RegisterPair)
    ensures
        state.with_register_pair(register_pair, state.register_pair(register_pair)) == state,
{
}

/// A second write to a register pair hides the first.
pub proof fn lemma_register_pair_overwrite(
    state: StateView,
    register_pair: RegisterPair,
    first: u16,
    second: u16,
)
    ensures
        state.with_register_pair(register_pair, first).with_register_pair(register_pair, second)
            == state.with_register_pair(register_pair, second),
{
}

/// Writing one register pair leaves every other register pair as it was.
pub proof fn lemma_register_pair_write_keeps_others(
    state: StateView,
    written: RegisterPair,
    other: RegisterPair,
    value: u16,
)
    requires
        written != other,
    ensures
        state.with_register_pair(written, value).register_pair(other) == state.register_pair(other),
{
}

/// The flags byte that PUSH PSW stores gives back every flag when POP PSW
/// loads it.
pub proof fn lemma_flags_byte_round_trip(flags: ConditionFlags)
    ensures
        ConditionFlags::from_byte(flags.as_byte()) == flags,
{
    let c = flags.carry;
    let p = flags.parity;
    let ac = flags.auxiliary_carry;
    let z = flags.zero;
    let s = flags.sign;
    let byte = flags.as_byte();
    assert(bit_of(byte, 0) == c && bit_of(byte, 2) == p && bit_of(byte, 4) == ac && bit_of(byte, 6) == z && bit_of(byte, 7) == s) by (bit_vector)
        requires
            byte == 0x02u8 | (if c { 0x01u8 } else { 0u8 }) | (if p { 0x04u8 } else { 0u8 }) | (if ac { 0x10u8 } else { 0u8 }) | (if z { 0x40u8 } else { 0u8 }) | (if s { 0x80u8 } else { 0u8 }),
    ;
}

/// How many bytes of data follow an operation's op code: none, one, or a
/// low and a high byte.
#[derive(Copy, Clone, PartialEq, Eq, Structural, Debug)]
pub enum InstructionDataType {
    NoData,
    Single,
    LowHigh,
}

/// A decoded 8080 instruction. Register operands of `Mov` are the source
/// and then the destination.
#[derive(Copy, Clone, Debug, Eq, PartialEq)]
pub enum Operation {
    Mov(Register, Register),
    MovFromMem(Register),
    MovToMem(Register),
    Mvi(Register),
    MviMem,
    Lxi(RegisterPair),
    Lda,
    Sta,
    Lhld,
    Shld,
    Ldax(RegisterPair),
    Stax(RegisterPair),
    Xchg,
    Add(Register),
    AddMem,
    Adi,
    Adc(Register),
    AdcMem,
    Aci,
    Sub(Register),
    SubMem,
    Sui,
    Sbb(Register),
    SbbMem,
    Sbi,
    Inr(Register),
    InrMem,
    Dcr(Register),
    DcrMem,
    Inx(RegisterPair),
    Dcx(RegisterPair),
    Dad(RegisterPair),
    Daa,
    Ana(Register),
    AnaMem,
    Ani,
    Xra(Register),
    XraMem,
    Xri,
    Ora(Register),
    OraMem,
    Ori,
    Cmp(Register),
    CmpMem,
    Cpi,
    Rlc,
    Rrc,
    Ral,
    Rar,
    Cma,
    Cmc,
    Stc,
    Jmp,
    Jcond(Condition),
    Call,
    Ccond(Condition),
    Ret,
    Rcond(Condition),
    Rst(u8),
    Pchl,
    Push(RegisterPair),
    PushPsw,
    Pop(RegisterPair),
    PopPsw,
    Xthl,
    Sphl,
    In,
    Out,
    Ei,
    Di,
    Hlt,
    Nop,
}

impl Operation {
    /// The data bytes that follow the op code.
    pub open spec fn data_type(self) -> InstructionDataType {
        match self {
                Operation::Mvi(_) => InstructionDataType::Single,
                Operation::MviMem => InstructionDataType::Single,
                Operation::Lxi(_) => InstructionDataType::LowHigh,
                Operation::Lda => InstructionDataType::LowHigh,
                Operation::Sta => InstructionDataType::LowHigh,
                Operation::Lhld => InstructionDataType::LowHigh,
                Operation::Shld => InstructionDataType::LowHigh,
                Operation::Adi => InstructionDataType::Single,
                Operation::Aci => InstructionDataType::Single,
                Operation::Sui => InstructionDataType::Single,
                Operation::Sbi => InstructionDataType::Single,
                Operation::Ani => InstructionDataType::Single,
                Operation::Xri => InstructionDataType::Single,
                Operation::Ori => InstructionDataType::Single,
                Operation::Cpi => InstructionDataType::Single,
                Operation::Jmp => InstructionDataType::LowHigh,
                Operation::Jcond(_) => InstructionDataType::LowHigh,
                Operation::Call => InstructionDataType::LowHigh,
                Operation::Ccond(_) => InstructionDataType::LowHigh,
                Operation::In => InstructionDataType::Single,
                Operation::Out => InstructionDataType::Single,
                _ => InstructionDataType::NoData,
            }
    }

    /// The number of data bytes that follow the op code.
    pub open spec fn data_byte_count(self) -> nat {
        match self.data_type() {
            InstructionDataType::NoData => 0,
            InstructionDataType::Single => 1,
            InstructionDataType::LowHigh => 2,
        }
    }

    /// The machine cycles that the operation takes in the given state.
    pub open spec fn cycle_count(self, state: StateView) -> u8 {
        match self {
                Operation::Mov(_, _) => 1,
                Operation::MovFromMem(_) | Operation::MovToMem(_) => 2,
                Operation::Mvi(_) => 2,
                Operation::MviMem => 3,
                Operation::Lxi(_) => 3,
                Operation::Lda | Operation::Sta => 4,
                Operation::Lhld | Operation::Shld => 5,
                Operation::Ldax(_) | Operation::Stax(_) => 2,
                Operation::Xchg => 1,
                Operation::Add(_) | Operation::Adc(_) | Operation::Sub(_) | Operation::Sbb(_) => 1,
                Operation::AddMem | Operation::AdcMem | Operation::SubMem | Operation::SbbMem => 2,
                Operation::Adi | Operation::Aci | Operation::Sui | Operation::Sbi => 2,
                Operation::Inr(_) | Operation::Dcr(_) => 1,
                Operation::InrMem | Operation::DcrMem => 2,
                Operation::Inx(_) | Operation::Dcx(_) => 1,
                Operation::Dad(_) => 3,
                Operation::Daa => 1,
                Operation::Ana(_) | Operation::Xra(_) | Operation::Ora(_) => 1,
                Operation::AnaMem | Operation::XraMem | Operation::OraMem => 2,
                Operation::Ani | Operation::Xri | Operation::Ori => 2,
                Operation::Cmp(_) => 1,
                Operation::CmpMem => 2,
                Operation::Cpi => 2,
                Operation::Rlc | Operation::Ral | Operation::Rrc | Operation::Rar => 1,
                Operation::Cma | Operation::Cmc => 1,
                Operation::Stc => 1,
                Operation::Jmp | Operation::Jcond(_) => 3,
                Operation::Call => 5,
                Operation::Ccond(condition) => {
                    if state.is_condition_true(condition) {
                        5
                    } else {
                        3
                    }
                }
                Operation::Ret => 3,
                Operation::Rcond(condition) => {
                    if state.is_condition_true(condition) {
                        3
                    } else {
                        1
                    }
                }
                Operation::Rst(_) => 3,
                Operation::Pchl => 1,
                Operation::Push(_) | Operation::PushPsw => 3,
                Operation::Pop(_) | Operation::PopPsw => 3,
                Operation::Xthl => 5,
                Operation::Sphl => 1,
                Operation::In | Operation::Out => 3,
                Operation::Ei | Operation::Di => 1,
                Operation::Hlt => 1,
                Operation::Nop => 1,
            }
    }

    /// The states (clock periods) that the operation takes in the given state.
    pub open spec fn state_count(self, state: StateView) -> u8 {
        match self {
                Operation::Mov(_, _) => 5,
                Operation::MovFromMem(_) | Operation::MovToMem(_) => 7,
                Operation::Mvi(_) => 7,
                Operation::MviMem => 10,
                Operation::Lxi(_) => 10,
                Operation::Lda | Operation::Sta => 13,
                Operation::Lhld | Operation::Shld => 16,
                Operation::Ldax(_) | Operation::Stax(_) => 7,
                Operation::Xchg => 4,
                Operation::Add(_) | Operation::Adc(_) | Operation::Sub(_) | Operation::Sbb(_) => 4,
                Operation::AddMem | Operation::AdcMem | Operation::SubMem | Operation::SbbMem => 7,
                Operation::Adi | Operation::Aci | Operation::Sui | Operation::Sbi => 7,
                Operation::Inr(_) | Operation::Dcr(_) => 5,
                Operation::InrMem | Operation::DcrMem => 10,
                Operation::Inx(_) | Operation::Dcx(_) => 5,
                Operation::Dad(_) => 10,
                Operation::Daa => 4,
                Operation::Ana(_) | Operation::Xra(_) | Operation::Ora(_) => 4,
                Operation::AnaMem | Operation::XraMem | Operation::OraMem => 7,
                Operation::Ani | Operation::Xri | Operation::Ori => 7,
                Operation::Cmp(_) => 4,
                Operation::CmpMem => 7,
                Operation::Cpi => 7,
                Operation::Rlc | Operation::Ral | Operation::Rrc | Operation::Rar => 4,
                Operation::Cma | Operation::Cmc => 4,
                Operation::Stc => 4,
                Operation::Jmp | Operation::Jcond(_) => 10,
                Operation::Call => 17,
                Operation::Ccond(condition) => {
                    if state.is_condition_true(condition) {
                        17
                    } else {
                        11
                    }
                }
                Operation::Ret => 10,
                Operation::Rcond(condition) => {
                    if state.is_condition_true(condition) {
                        11
                    } else {
                        5
                    }
                }
                Operation::Rst(_) => 11,
                Operation::Pchl => 5,
                Operation::Push(_) | Operation::PushPsw => 11,
                Operation::Pop(_) | Operation::PopPsw => 10,
                Operation::Xthl => 18,
                Operation::Sphl => 5,
                Operation::In | Operation::Out => 10,
                Operation::Ei | Operation::Di => 4,
                Operation::Hlt => 7,
                Operation::Nop => 4,
            }
    }

    pub fn additional_data_required(&self) -> (data_type: InstructionDataType)
        ensures
            data_type == self.data_type(),
    {
        match self {
                Operation::Mvi(_) => InstructionDataType::Single,
                Operation::MviMem => InstructionDataType::Single,
                Operation::Lxi(_) => InstructionDataType::LowHigh,
                Operation::Lda => InstructionDataType::LowHigh,
                Operation::Sta => InstructionDataType::LowHigh,
                Operation::Lhld => InstructionDataType::LowHigh,
                Operation::Shld => InstructionDataType::LowHigh,
                Operation::Adi => InstructionDataType::Single,
                Operation::Aci => InstructionDataType::Single,
                Operation::Sui => InstructionDataType::Single,
                Operation::Sbi => InstructionDataType::Single,
                Operation::Ani => InstructionDataType::Single,
                Operation::Xri => InstructionDataType::Single,
                Operation::Ori => InstructionDataType::Single,
                Operation::Cpi => InstructionDataType::Single,
                Operation::Jmp => InstructionDataType::LowHigh,
                Operation::Jcond(_) => InstructionDataType::LowHigh,
                Operation::Call => InstructionDataType::LowHigh,
                Operation::Ccond(_) => InstructionDataType::LowHigh,
                Operation::In => InstructionDataType::Single,
                Operation::Out => InstructionDataType::Single,
                _ => InstructionDataType::NoData,
            }
    }

    pub fn machine_cycles(&self, state: &State) -> (cycles: u8)
        ensures
            cycles == self.cycle_count(state@),
    {
        match self {
                Operation::Mov(_, _) => 1,
                Operation::MovFromMem(_) | Operation::MovToMem(_) => 2,
                Operation::Mvi(_) => 2,
                Operation::MviMem => 3,
                Operation::Lxi(_) => 3,
                Operation::Lda | Operation::Sta => 4,
                Operation::Lhld | Operation::Shld => 5,
                Operation::Ldax(_) | Operation::Stax(_) => 2,
                Operation::Xchg => 1,
                Operation::Add(_) | Operation::Adc(_) | Operation::Sub(_) | Operation::Sbb(_) => 1,
                Operation::AddMem | Operation::AdcMem | Operation::SubMem | Operation::SbbMem => 2,
                Operation::Adi | Operation::Aci | Operation::Sui | Operation::Sbi => 2,
                Operation::Inr(_) | Operation::Dcr(_) => 1,
                Operation::InrMem | Operation::DcrMem => 2,
                Operation::Inx(_) | Operation::Dcx(_) => 1,
                Operation::Dad(_) => 3,
                Operation::Daa => 1,
                Operation::Ana(_) | Operation::Xra(_) | Operation::Ora(_) => 1,
                Operation::AnaMem | Operation::XraMem | Operation::OraMem => 2,
                Operation::Ani | Operation::Xri | Operation::Ori => 2,
                Operation::Cmp(_) => 1,
                Operation::CmpMem => 2,
                Operation::Cpi => 2,
                Operation::Rlc | Operation::Ral | Operation::Rrc | Operation::Rar => 1,
                Operation::Cma | Operation::Cmc => 1,
                Operation::Stc => 1,
                Operation::Jmp | Operation::Jcond(_) => 3,
                Operation::Call => 5,
                Operation::Ccond(condition) => {
                    if state.is_condition_true(*condition) {
                        5
                    } else {
                        3
                    }
                }
                Operation::Ret => 3,
                Operation::Rcond(condition) => {
                    if state.is_condition_true(*condition) {
                        3
                    } else {
                        1
                    }
                }
                Operation::Rst(_) => 3,
                Operation::Pchl => 1,
                Operation::Push(_) | Operation::PushPsw => 3,
                Operation::Pop(_) | Operation::PopPsw => 3,
                Operation::Xthl => 5,
                Operation::Sphl => 1,
                Operation::In | Operation::Out => 3,
                Operation::Ei | Operation::Di => 1,
                Operation::Hlt => 1,
                Operation::Nop => 1,
            }
    }

    /// A state is the 8080 manual's smallest unit of processing activity: one
    /// clock period.
    pub fn machine_states(&self, state: &State) -> (states: u8)
        ensures
            states == self.state_count(state@),
    {
        match self {
                Operation::Mov(_, _) => 5,
                Operation::MovFromMem(_) | Operation::MovToMem(_) => 7,
                Operation::Mvi(_) => 7,
                Operation::MviMem => 10,
                Operation::Lxi(_) => 10,
                Operation::Lda | Operation::Sta => 13,
                Operation::Lhld | Operation::Shld => 16,
                Operation::Ldax(_) | Operation::Stax(_) => 7,
                Operation::Xchg => 4,
                Operation::Add(_) | Operation::Adc(_) | Operation::Sub(_) | Operation::Sbb(_) => 4,
                Operation::AddMem | Operation::AdcMem | Operation::SubMem | Operation::SbbMem => 7,
                Operation::Adi | Operation::Aci | Operation::Sui | Operation::Sbi => 7,
                Operation::Inr(_) | Operation::Dcr(_) => 5,
                Operation::InrMem | Operation::DcrMem => 10,
                Operation::Inx(_) | Operation::Dcx(_) => 5,
                Operation::Dad(_) => 10,
                Operation::Daa => 4,
                Operation::Ana(_) | Operation::Xra(_) | Operation::Ora(_) => 4,
                Operation::AnaMem | Operation::XraMem | Operation::OraMem => 7,
                Operation::Ani | Operation::Xri | Operation::Ori => 7,
                Operation::Cmp(_) => 4,
                Operation::CmpMem => 7,
                Operation::Cpi => 7,
                Operation::Rlc | Operation::Ral | Operation::Rrc | Operation::Rar => 4,
                Operation::Cma | Operation::Cmc => 4,
                Operation::Stc => 4,
                Operation::Jmp | Operation::Jcond(_) => 10,
                Operation::Call => 17,
                Operation::Ccond(condition) => {
                    if state.is_condition_true(*condition) {
                        17
                    } else {
                        11
                    }
                }
                Operation::Ret => 10,
                Operation::Rcond(condition) => {
                    if state.is_condition_true(*condition) {
                        11
                    } else {
                        5
                    }
                }
                Operation::Rst(_) => 11,
                Operation::Pchl => 5,
                Operation::Push(_) | Operation::PushPsw => 11,
                Operation::Pop(_) | Operation::PopPsw => 10,
                Operation::Xthl => 18,
                Operation::Sphl => 5,
                Operation::In | Operation::Out => 10,
                Operation::Ei | Operation::Di => 4,
                Operation::Hlt => 7,
                Operation::Nop => 4,
            }
    }
}

} // verus!
