use emu_8080::arithmetic_instructions::{
    adc_instruction, aci_instruction, adi_instruction, daa_instruction, dad_instruction,
    dcx_instruction, inx_instruction, sbi_instruction, sui_instruction,
};
use emu_8080::bit_operations::{
    calculate_auxiliary_carry, concat_low_high_bytes, get_parity, is_bit_set, reverse_byte,
    set_bit_in_value, split_to_low_high_bytes,
};
use emu_8080::branch_instructions::{call_instruction, ret_instruction, rst_instruction};
use emu_8080::disassembler::{disassemble_op_code, is_op_code_supported};
use emu_8080::logical_instructions::{
    cma_instruction, cpi_instruction, ral_instruction, rar_instruction, rlc_instruction,
    rrc_instruction, xra_instruction,
};
use emu_8080::machine::{
    advance_screen_line, apply_boot_hill_inputs, apply_space_invaders_inputs,
    generate_video_interrupts_if_needed,
    get_shifted_value, raise_interrupt, set_flags_in_port_value, set_in_port_from_flags,
    shift_new_value_into_data, static_port_value_with_flags,
    sound_for_bit, sounds_to_play, BootHillInputs, InputPortUpdate, BootHillMachine, BootHillPorts, Key,
    SoundName, SpaceInvadersDipSwitches, SpaceInvadersInputs, SpaceInvadersMachine,
    SpaceInvadersPorts,
};
use emu_8080::runner::{in_instruction, port_access, run_next_operation, run_operation, PortAccess};
use emu_8080::stack_instructions::{
    hlt_instruction, pop_instruction, pop_psw_instruction, push_instruction,
    push_psw_instruction, xthl_instruction,
};
use emu_8080::transfer_instructions::{
    lda_instruction, lhld_instruction, shld_instruction, sta_instruction, xchg_instruction,
};
use emu_8080::video::{get_screen_dimensions, get_screen_pixel_data};
use emu_8080::{
    ConditionFlag, ConditionFlags, DefaultPorts, InstructionDataType, Operation, Ports, Register,
    RegisterPair, State, StateBuilder,
};

#[test]
fn is_bit_set_reads_each_bit() {
    assert!(is_bit_set(0b1000_0001, 0));
    assert!(!is_bit_set(0b1000_0001, 1));
    assert!(is_bit_set(0b1000_0001, 7));
}

#[test]
fn set_bit_in_value_sets_and_clears_one_bit() {
    let mut value = 0b1010_1010;
    set_bit_in_value(&mut value, 0, true);
    assert_eq!(value, 0b1010_1011);
    set_bit_in_value(&mut value, 7, false);
    assert_eq!(value, 0b0010_1011);
    set_bit_in_value(&mut value, 3, true);
    assert_eq!(value, 0b0010_1011);
}

#[test]
fn get_parity_is_true_for_an_even_number_of_set_bits() {
    assert!(get_parity(0));
    assert!(!get_parity(0b0000_0111));
    assert!(get_parity(0xFF));
    assert!(get_parity(0b1000_0001));
    assert!(!get_parity(0b1000_0000));
}

#[test]
fn concat_and_split_are_inverse() {
    assert_eq!(concat_low_high_bytes(0x34, 0x12), 0x1234);
    assert_eq!(split_to_low_high_bytes(0xBEEF), (0xEF, 0xBE));
    let (low, high) = split_to_low_high_bytes(0xA55A);
    assert_eq!(concat_low_high_bytes(low, high), 0xA55A);
}

#[test]
fn auxiliary_carry_of_addition_and_subtraction() {
    assert!(calculate_auxiliary_carry(0x0F, 0x01, false));
    assert!(!calculate_auxiliary_carry(0x0E, 0x01, false));
    assert!(!calculate_auxiliary_carry(0x10, 0x01, true));
    assert!(calculate_auxiliary_carry(0x11, 0x01, true));
}

#[test]
fn reverse_byte_reverses_and_is_an_involution() {
    assert_eq!(reverse_byte(0b0000_0001), 0b1000_0000);
    assert_eq!(reverse_byte(0b1101_0010), 0b0100_1011);
    assert_eq!(reverse_byte(reverse_byte(0b1011_0001)), 0b1011_0001);
}

#[test]
fn decoder_defines_all_but_twelve_op_codes() {
    let mut supported = 0;
    for op_code in 0..=255u8 {
        if is_op_code_supported(op_code) {
            supported += 1;
            let _ = disassemble_op_code(op_code);
        }
    }
    assert_eq!(supported, 244);
    for op_code in [0x08u8, 0x10, 0x18, 0x20, 0x28, 0x30, 0x38, 0xCB, 0xD9, 0xDD, 0xED, 0xFD] {
        assert!(!is_op_code_supported(op_code));
    }
}

#[test]
fn operation_tables_give_data_bytes_and_timing() {
    let state = State::default();
    assert_eq!(Operation::Lxi(RegisterPair::HL).additional_data_required(), InstructionDataType::LowHigh);
    assert_eq!(Operation::Mvi(Register::B).additional_data_required(), InstructionDataType::Single);
    assert_eq!(Operation::Nop.additional_data_required(), InstructionDataType::NoData);
    assert_eq!(Operation::Xthl.machine_states(&state), 18);
    assert_eq!(Operation::Xthl.machine_cycles(&state), 5);
    assert_eq!(Operation::Ccond((ConditionFlag::Zero, true)).machine_states(&state), 11);
    assert_eq!(Operation::Ccond((ConditionFlag::Zero, false)).machine_states(&state), 17);
    assert_eq!(Operation::Rcond((ConditionFlag::Carry, false)).machine_cycles(&state), 3);
}

#[test]
fn register_pair_name_is_its_assembler_name() {
    assert_eq!(RegisterPair::BC.name(), "BC");
    assert_eq!(RegisterPair::SP.name(), "SP");
}

#[test]
fn register_pair_reads_back_what_was_written() {
    let mut state = State::default();
    for register_pair in [RegisterPair::BC, RegisterPair::DE, RegisterPair::HL, RegisterPair::SP] {
        state.set_full_rp_value(register_pair, 0x1234);
        assert_eq!(state.full_rp_value(register_pair), 0x1234);
        assert_eq!(state.low_high_rp_value(register_pair), (0x34, 0x12));
    }
    state.set_low_high_rp_value(RegisterPair::DE, 0xCD, 0xAB);
    assert_eq!(state.registers.d, 0xAB);
    assert_eq!(state.registers.e, 0xCD);
    assert_eq!(state.full_rp_value(RegisterPair::HL), 0x1234);
}

#[test]
fn condition_flag_byte_has_the_8080_layout() {
    let state = StateBuilder::default()
        .condition_flag_values(vec![
            (ConditionFlag::Carry, true),
            (ConditionFlag::Zero, true),
            (ConditionFlag::Sign, true),
        ])
        .build();
    assert_eq!(state.condition_flag_byte(), 0b1100_0011);
    assert_eq!(State::default().condition_flag_byte(), 0b0000_0010);
}

#[test]
fn set_condition_flag_byte_reads_the_flags_from_memory() {
    let mut state = StateBuilder::default().memory_values(vec![(0x2000, 0b0001_0100)]).build();
    state.set_condition_flag_byte(0x2000);
    assert!(state.condition_flags.parity);
    assert!(state.condition_flags.auxiliary_carry);
    assert!(!state.condition_flags.carry);
    assert!(!state.condition_flags.zero);
    assert!(!state.condition_flags.sign);
}

#[test]
fn push_psw_then_pop_psw_restores_accumulator_and_flags() {
    let mut state = StateBuilder::default()
        .register_values(vec![(Register::A, 0x5A)])
        .condition_flag_values(vec![
            (ConditionFlag::Parity, true),
            (ConditionFlag::AuxiliaryCarry, true),
            (ConditionFlag::Sign, true),
        ])
        .stack_pointer(0x3000)
        .build();
    push_psw_instruction(&mut state);
    assert_eq!(state.stack_pointer, 0x2FFE);
    assert_eq!(state.memory[0x2FFF], 0x5A);
    assert_eq!(state.memory[0x2FFE], 0b1001_0110);
    state.registers.a = 0;
    state.condition_flags = ConditionFlags::new();
    pop_psw_instruction(&mut state);
    assert_eq!(state.stack_pointer, 0x3000);
    assert_eq!(state.registers.a, 0x5A);
    assert!(state.condition_flags.parity && state.condition_flags.auxiliary_carry);
    assert!(state.condition_flags.sign && !state.condition_flags.zero && !state.condition_flags.carry);
}

#[test]
fn pop_after_push_restores_register_pair_and_stack_pointer() {
    let mut state = StateBuilder::default()
        .register_values(vec![(Register::H, 0x12), (Register::L, 0x34)])
        .stack_pointer(0x0001)
        .build();
    push_instruction(&mut state, RegisterPair::HL);
    assert_eq!(state.stack_pointer, 0xFFFF);
    state.set_full_rp_value(RegisterPair::HL, 0);
    pop_instruction(&mut state, RegisterPair::HL);
    assert_eq!(state.full_rp_value(RegisterPair::HL), 0x1234);
    assert_eq!(state.stack_pointer, 0x0001);
}

#[test]
fn ret_after_call_returns_to_the_calling_address() {
    let mut state = StateBuilder::default().program_counter(0x1234).stack_pointer(0x4000).build();
    call_instruction(&mut state, 0x00, 0x80);
    assert_eq!(state.program_counter, 0x8000);
    ret_instruction(&mut state);
    assert_eq!(state.program_counter, 0x1234);
    assert_eq!(state.stack_pointer, 0x4000);
}

#[test]
fn rst_calls_eight_times_the_reset_index() {
    let mut state = StateBuilder::default().program_counter(0x0102).stack_pointer(0x4000).build();
    rst_instruction(&mut state, 7);
    assert_eq!(state.program_counter, 0x0038);
    assert_eq!(state.memory[0x3FFF], 0x01);
    assert_eq!(state.memory[0x3FFE], 0x02);
}

#[test]
fn xthl_twice_changes_nothing() {
    let mut state = StateBuilder::default()
        .register_values(vec![(Register::H, 0x0B), (Register::L, 0x3C)])
        .stack_pointer(0x10AD)
        .memory_values(vec![(0x10AD, 0xF0), (0x10AE, 0x0D)])
        .build();
    xthl_instruction(&mut state);
    assert_eq!(state.full_rp_value(RegisterPair::HL), 0x0DF0);
    assert_eq!(state.memory[0x10AD], 0x3C);
    assert_eq!(state.memory[0x10AE], 0x0B);
    xthl_instruction(&mut state);
    assert_eq!(state.full_rp_value(RegisterPair::HL), 0x0B3C);
    assert_eq!(state.memory[0x10AD], 0xF0);
    assert_eq!(state.memory[0x10AE], 0x0D);
}

#[test]
fn xchg_twice_changes_nothing() {
    let mut state = StateBuilder::default()
        .register_values(vec![(Register::D, 1), (Register::E, 2), (Register::H, 3), (Register::L, 4)])
        .build();
    xchg_instruction(&mut state);
    assert_eq!(state.full_rp_value(RegisterPair::DE), 0x0304);
    assert_eq!(state.full_rp_value(RegisterPair::HL), 0x0102);
    xchg_instruction(&mut state);
    assert_eq!(state.full_rp_value(RegisterPair::DE), 0x0102);
    assert_eq!(state.full_rp_value(RegisterPair::HL), 0x0304);
}

#[test]
fn lhld_reads_back_what_shld_wrote_across_the_top_of_memory() {
    let mut state = StateBuilder::default()
        .register_values(vec![(Register::H, 0xAB), (Register::L, 0xCD)])
        .build();
    shld_instruction(&mut state, 0xFF, 0xFF);
    assert_eq!(state.memory[0xFFFF], 0xCD);
    assert_eq!(state.memory[0x0000], 0xAB);
    state.set_full_rp_value(RegisterPair::HL, 0);
    lhld_instruction(&mut state, 0xFF, 0xFF);
    assert_eq!(state.full_rp_value(RegisterPair::HL), 0xABCD);
}

#[test]
fn lda_reads_back_what_sta_wrote() {
    let mut state = StateBuilder::default().register_values(vec![(Register::A, 0x77)]).build();
    sta_instruction(&mut state, 0x00, 0x90);
    state.registers.a = 0;
    lda_instruction(&mut state, 0x00, 0x90);
    assert_eq!(state.registers.a, 0x77);
}

#[test]
fn aci_with_carry_clear_adds_as_adi_does() {
    let mut with_adi = StateBuilder::default().register_values(vec![(Register::A, 0x3A)]).build();
    let mut with_aci = StateBuilder::default().register_values(vec![(Register::A, 0x3A)]).build();
    adi_instruction(&mut with_adi, 0xC9);
    aci_instruction(&mut with_aci, 0xC9);
    assert_eq!(with_adi.registers, with_aci.registers);
    assert_eq!(with_adi.condition_flags, with_aci.condition_flags);
    assert_eq!(with_adi.registers.a, 0x03);
    assert!(with_adi.condition_flags.carry);
    assert!(with_adi.condition_flags.auxiliary_carry);
}

#[test]
fn adc_adds_the_carry_in_to_the_low_nibble() {
    let mut state = StateBuilder::default()
        .register_values(vec![(Register::A, 0x0E), (Register::C, 0x01)])
        .condition_flag_values(vec![(ConditionFlag::Carry, true)])
        .build();
    adc_instruction(&mut state, Register::C);
    assert_eq!(state.registers.a, 0x10);
    assert!(state.condition_flags.auxiliary_carry);
    assert!(!state.condition_flags.carry);
}

#[test]
fn sbi_with_borrow_reports_the_borrow_and_auxiliary_carry() {
    let mut state = StateBuilder::default()
        .register_values(vec![(Register::A, 0x10)])
        .condition_flag_values(vec![(ConditionFlag::Carry, true)])
        .build();
    sbi_instruction(&mut state, 0x0F);
    assert_eq!(state.registers.a, 0x00);
    assert!(state.condition_flags.zero);
    assert!(!state.condition_flags.carry);
    assert!(!state.condition_flags.auxiliary_carry);
}

#[test]
fn sub_undoes_add_for_the_accumulator() {
    let mut state = StateBuilder::default().register_values(vec![(Register::A, 0xF0)]).build();
    adi_instruction(&mut state, 0x35);
    sui_instruction(&mut state, 0x35);
    assert_eq!(state.registers.a, 0xF0);
}

#[test]
fn daa_adjusts_both_nibbles() {
    let mut state = StateBuilder::default().register_values(vec![(Register::A, 0x9B)]).build();
    daa_instruction(&mut state);
    assert_eq!(state.registers.a, 0x01);
    assert!(state.condition_flags.carry);
    assert!(state.condition_flags.auxiliary_carry);
}

#[test]
fn daa_after_adding_bcd_digits_gives_bcd() {
    let mut state = StateBuilder::default().register_values(vec![(Register::A, 0x38)]).build();
    adi_instruction(&mut state, 0x45);
    daa_instruction(&mut state);
    assert_eq!(state.registers.a, 0x83);
    assert!(!state.condition_flags.carry);
}

#[test]
fn dad_sets_carry_when_overflowing() {
    let mut state = StateBuilder::default()
        .register_values(vec![(Register::H, 0xF0), (Register::L, 0x00), (Register::B, 0x20)])
        .build();
    dad_instruction(&mut state, RegisterPair::BC);
    assert_eq!(state.full_rp_value(RegisterPair::HL), 0x1000);
    assert!(state.condition_flags.carry);
}

#[test]
fn dcx_undoes_inx_across_the_wrap() {
    let mut state = StateBuilder::default().stack_pointer(0xFFFF).build();
    inx_instruction(&mut state, RegisterPair::SP);
    assert_eq!(state.stack_pointer, 0x0000);
    dcx_instruction(&mut state, RegisterPair::SP);
    assert_eq!(state.stack_pointer, 0xFFFF);
}

#[test]
fn rotations_undo_each_other() {
    let mut state = StateBuilder::default().register_values(vec![(Register::A, 0b1001_0110)]).build();
    rlc_instruction(&mut state);
    rrc_instruction(&mut state);
    assert_eq!(state.registers.a, 0b1001_0110);
    ral_instruction(&mut state);
    assert!(state.condition_flags.carry);
    rar_instruction(&mut state);
    assert_eq!(state.registers.a, 0b1001_0110);
    assert!(state.condition_flags.carry);
}

#[test]
fn cma_twice_and_xra_with_itself() {
    let mut state = StateBuilder::default().register_values(vec![(Register::A, 0x5C)]).build();
    cma_instruction(&mut state);
    assert_eq!(state.registers.a, 0xA3);
    cma_instruction(&mut state);
    assert_eq!(state.registers.a, 0x5C);
    xra_instruction(&mut state, Register::A);
    assert_eq!(state.registers.a, 0);
    assert!(state.condition_flags.zero);
}

#[test]
fn cpi_keeps_the_accumulator_and_the_auxiliary_carry() {
    let mut state = StateBuilder::default()
        .register_values(vec![(Register::A, 0x40)])
        .condition_flag_values(vec![(ConditionFlag::AuxiliaryCarry, true)])
        .build();
    cpi_instruction(&mut state, 0x41);
    assert_eq!(state.registers.a, 0x40);
    assert!(state.condition_flags.carry);
    assert!(state.condition_flags.auxiliary_carry);
    assert!(!state.condition_flags.zero);
}

#[test]
fn hlt_halts() {
    let mut state = State::default();
    hlt_instruction(&mut state);
    assert!(state.is_halted);
}

#[test]
fn builder_applies_later_values_last() {
    let state = StateBuilder::default()
        .register_values(vec![(Register::B, 1), (Register::B, 2)])
        .memory_values(vec![(0x0010, 5), (0x0010, 6)])
        .program_counter(0x0100)
        .interrupts_enabled(true)
        .halted(true)
        .build();
    assert_eq!(state.registers.b, 2);
    assert_eq!(state.memory[0x0010], 6);
    assert_eq!(state.program_counter, 0x0100);
    assert!(state.are_interrupts_enabled);
    assert!(state.is_halted);
    assert_eq!(state.cpu_total_state_count(), 0);
}

#[test]
fn load_memory_copies_to_the_start_of_memory() {
    let mut state = StateBuilder::default().memory_values(vec![(0x0003, 9)]).build();
    state.load_memory(&[1, 2]);
    assert_eq!(state.memory[0], 1);
    assert_eq!(state.memory[1], 2);
    assert_eq!(state.memory[3], 9);
}

#[test]
fn run_next_operation_fetches_data_and_counts_states() {
    let mut state = State::default();
    state.load_memory(&[0x3E, 0x42, 0xCD, 0x00, 0x10, 0x00]);
    state.memory[0x1000] = 0xC9;
    state.stack_pointer = 0x2000;
    run_next_operation(&mut state);
    assert_eq!(state.registers.a, 0x42);
    assert_eq!(state.program_counter, 2);
    assert_eq!(state.cpu_total_state_count(), 7);
    run_next_operation(&mut state);
    assert_eq!(state.program_counter, 0x1000);
    assert_eq!(state.stack_pointer, 0x1FFE);
    assert_eq!(state.cpu_total_state_count(), 24);
    run_next_operation(&mut state);
    assert_eq!(state.program_counter, 5);
    assert_eq!(state.stack_pointer, 0x2000);
    assert_eq!(state.cpu_total_state_count(), 34);
}

#[test]
fn run_operation_uses_the_given_data_bytes() {
    let mut state = State::default();
    run_operation(&Operation::Lxi(RegisterPair::SP), &mut state, Some(0xCD), Some(0xAB));
    assert_eq!(state.stack_pointer, 0xABCD);
    run_operation(&Operation::Mvi(Register::E), &mut state, Some(0x11), None);
    assert_eq!(state.registers.e, 0x11);
    run_operation(&Operation::Nop, &mut state, None, None);
    assert_eq!(state.program_counter, 0);
}

struct ConstantPorts {
    written: Vec<(u8, u8)>,
}

impl Ports for ConstantPorts {
    fn in_value(&self, port_number: u8) -> u8 {
        self.read_in_port(port_number)
    }
    fn static_value(&self, port_number: u8) -> Option<u8> {
        self.in_port_static_value(port_number)
    }
    fn in_value_after_write(&self, _out_port: u8, _value: u8, in_port: u8) -> u8 {
        self.read_in_port(in_port)
    }
    fn static_value_after_write(&self, _out_port: u8, _value: u8, in_port: u8) -> Option<u8> {
        self.in_port_static_value(in_port)
    }
    fn read_in_port(&self, port_number: u8) -> u8 {
        port_number + 100
    }
    fn write_out_port(&mut self, port_number: u8, value: u8) {
        self.written.push((port_number, value));
    }
    fn in_port_static_value(&self, _port_number: u8) -> Option<u8> {
        None
    }
    fn set_in_port_static_value(&mut self, _port_number: u8, _value: u8) {}
}

#[test]
fn in_and_out_reach_the_ports() {
    let mut state = State::default();
    state.ports = Box::new(ConstantPorts { written: Vec::new() });
    run_operation(&Operation::In, &mut state, Some(7), None);
    assert_eq!(state.registers.a, 107);
    run_operation(&Operation::Out, &mut state, Some(3), None);
    let mut direct = State::default();
    in_instruction(&mut direct, 9);
    assert_eq!(direct.registers.a, 9);
    assert_eq!(DefaultPorts.read_in_port(4), 0);
}

#[test]
fn shift_register_reads_the_selected_eight_bits() {
    let data = shift_new_value_into_data(0x0000, 0xAB);
    assert_eq!(data, 0xAB00);
    let data = shift_new_value_into_data(data, 0xCD);
    assert_eq!(data, 0xCDAB);
    assert_eq!(get_shifted_value(data, 0), 0xCD);
    assert_eq!(get_shifted_value(data, 4), 0xDA);
    assert_eq!(get_shifted_value(data, 7), 0xD5);
}

#[test]
fn space_invaders_ports_shift_and_report_new_sounds() {
    let mut ports = SpaceInvadersPorts::new();
    assert_eq!(ports.read_in_port(0), 0b0000_1110);
    assert_eq!(ports.read_in_port(1), 0b0000_1000);
    ports.write_out_port(4, 0x12);
    ports.write_out_port(4, 0x34);
    ports.write_out_port(2, 0b1111_1010);
    assert_eq!(ports.shift_amount, 2);
    assert_eq!(ports.read_in_port(3), 0xD0);
    let sounds = ports.write_out_port(3, 0b0000_0011);
    assert_eq!(sounds, vec![SoundName::UfoFly, SoundName::Shoot]);
    let sounds = ports.write_out_port(3, 0b0000_0110);
    assert_eq!(sounds, vec![SoundName::PlayerKilled]);
    let sounds = ports.write_out_port(5, 0b0001_0000);
    assert_eq!(sounds, vec![SoundName::UfoKilled]);
    assert_eq!(sounds_to_play(3, 0b1111_1111, 0b1111_1111), Vec::new());
    assert_eq!(sound_for_bit(5, 5), None);
    assert_eq!(ports.in_port_static_value(3), None);
    ports.set_in_port_static_value(2, 0x55);
    assert_eq!(ports.read_in_port(2), 0x55);
}

#[test]
fn boot_hill_ports_can_reverse_the_shifted_value() {
    let mut ports = BootHillPorts::new();
    ports.write_out_port(2, 0b0000_0001);
    ports.write_out_port(1, 0b0000_1000);
    assert!(ports.shift_reverse);
    assert_eq!(ports.read_in_port(3), 0b1000_0000);
    ports.write_out_port(1, 0b0000_0000);
    assert_eq!(ports.read_in_port(3), 0b0000_0001);
    ports.write_out_port(4, 0x77);
    assert_eq!(ports.watchdog, 0x77);
}

#[test]
fn inputs_set_the_input_port_bits() {
    let mut inputs = SpaceInvadersInputs::new();
    inputs.set_input_from_key(Key::Space, true);
    inputs.set_input_from_key(Key::RShift, true);
    inputs.set_input_from_key(Key::Up, true);
    let mut ports = SpaceInvadersPorts::new();
    apply_space_invaders_inputs(&mut ports, &inputs, &SpaceInvadersDipSwitches::new());
    assert_eq!(ports.in_port_0, 0b0001_1110);
    assert_eq!(ports.in_port_1, 0b0001_1001);
    assert_eq!(ports.in_port_2, 0b0001_0000);
    inputs.set_input_from_key(Key::Space, false);
    apply_space_invaders_inputs(&mut ports, &inputs, &SpaceInvadersDipSwitches::new());
    assert_eq!(ports.in_port_0, 0b0000_1110);

    let mut boot_hill_inputs = BootHillInputs::new();
    boot_hill_inputs.set_input_from_key(Key::Tab, true);
    boot_hill_inputs.set_input_from_key(Key::Return, true);
    let mut boot_hill_ports = BootHillPorts::new();
    apply_boot_hill_inputs(&mut boot_hill_ports, &boot_hill_inputs);
    assert_eq!(boot_hill_ports.in_port_0, 0b1000_0000);
    assert_eq!(boot_hill_ports.in_port_2, 0b0010_0000);
    assert_eq!(set_flags_in_port_value(0xFF, &[(0, false), (0, true), (7, false)]), 0x7F);
}

#[test]
fn machines_report_ports_without_static_values() {
    let mut machine = SpaceInvadersMachine::with_ports(Box::new(DefaultPorts));
    machine.set_input_from_key(Key::Left, true);
    assert!(machine.inputs.p1_left && machine.inputs.p2_left);
    assert_eq!(machine.set_ports_based_on_inputs(), (no_static_value(), no_static_value(), no_static_value()));
    let mut boot_hill = BootHillMachine::with_ports(Box::new(DefaultPorts));
    boot_hill.set_input_from_key(Key::W, true);
    assert!(boot_hill.inputs.p2_up);
    assert_eq!(boot_hill.set_ports_based_on_inputs(), (no_static_value(), no_static_value(), no_static_value()));
}

#[test]
fn interrupts_are_taken_only_when_enabled() {
    let mut state = StateBuilder::default().program_counter(0x0123).stack_pointer(0x2400).build();
    raise_interrupt(&mut state, 1);
    assert_eq!(state.program_counter, 0x0123);
    state.are_interrupts_enabled = true;
    generate_video_interrupts_if_needed(&mut state, 50, 224);
    assert_eq!(state.program_counter, 0x0123);
    generate_video_interrupts_if_needed(&mut state, 96, 224);
    assert_eq!(state.program_counter, 0x0008);
    generate_video_interrupts_if_needed(&mut state, 224, 224);
    assert_eq!(state.program_counter, 0x0010);
    assert_eq!(state.stack_pointer, 0x23FC);
}

#[test]
fn screen_dimensions_swap_for_quarter_turns() {
    assert_eq!(get_screen_dimensions(0), (256, 224));
    assert_eq!(get_screen_dimensions(90), (224, 256));
    assert_eq!(get_screen_dimensions(180), (256, 224));
    assert_eq!(get_screen_dimensions(450), (224, 256));
}

#[test]
fn screen_pixel_data_draws_lit_pixels_where_the_orientation_puts_them() {
    let mut state = State::default();
    state.memory[0x2400] = 0b0000_0010;
    state.memory[0x2400 + 223 * 32 + 31] = 0b1000_0000;
    let white = |_x: u32, _y: u32| (255u8, 255u8, 255u8);
    let frame = get_screen_pixel_data(&state, 0, &white);
    assert_eq!(&frame[3..6], &[255, 255, 255]);
    assert_eq!(&frame[0..3], &[0, 0, 0]);
    let last = (223 * 256 + 255) * 3;
    assert_eq!(&frame[last..last + 3], &[255, 255, 255]);
    assert_eq!(frame.iter().filter(|component| **component != 0).count(), 6);

    let turned = get_screen_pixel_data(&state, 90, &|x: u32, y: u32| (x as u8, y as u8, 1u8));
    let first = (1 * 224 + 223) * 3;
    assert_eq!(&turned[first..first + 3], &[223, 1, 1]);
    let other = (255 * 224 + 0) * 3;
    assert_eq!(&turned[other..other + 3], &[0, 255, 1]);
}

#[test]
fn daa_keeps_a_set_carry_and_valid_bcd() {
    let mut state = StateBuilder::default()
        .register_values(vec![(Register::A, 0x12)])
        .condition_flag_values(vec![(ConditionFlag::Carry, true)])
        .build();
    daa_instruction(&mut state);
    assert_eq!(state.registers.a, 0x72);
    assert!(state.condition_flags.carry);
    let mut valid = StateBuilder::default().register_values(vec![(Register::A, 0x59)]).build();
    daa_instruction(&mut valid);
    assert_eq!(valid.registers.a, 0x59);
    assert!(!valid.condition_flags.carry);
}

#[test]
fn step_moves_past_instructions_that_do_not_jump() {
    let mut state = State::default();
    state.load_memory(&[0x00, 0x06, 0x01, 0x21, 0x34, 0x12, 0x76]);
    run_next_operation(&mut state);
    assert_eq!(state.program_counter, 1);
    run_next_operation(&mut state);
    assert_eq!(state.program_counter, 3);
    run_next_operation(&mut state);
    assert_eq!(state.program_counter, 6);
    assert_eq!(state.full_rp_value(RegisterPair::HL), 0x1234);
    run_next_operation(&mut state);
    assert_eq!(state.program_counter, 7);
    assert!(state.is_halted);
    assert_eq!(state.cpu_total_state_count(), 4 + 7 + 10 + 7);
}

fn update(static_value: u8, new_value: u8) -> InputPortUpdate {
    InputPortUpdate { static_value: Some(static_value), new_value: Some(new_value) }
}

fn no_static_value() -> InputPortUpdate {
    InputPortUpdate { static_value: None, new_value: None }
}

struct StaticPorts {
    static_values: [u8; 3],
}

impl Ports for StaticPorts {
    fn in_value(&self, port_number: u8) -> u8 {
        self.read_in_port(port_number)
    }
    fn static_value(&self, port_number: u8) -> Option<u8> {
        self.in_port_static_value(port_number)
    }
    fn in_value_after_write(&self, _out_port: u8, _value: u8, in_port: u8) -> u8 {
        self.read_in_port(in_port)
    }
    fn static_value_after_write(&self, _out_port: u8, _value: u8, in_port: u8) -> Option<u8> {
        self.in_port_static_value(in_port)
    }
    fn read_in_port(&self, port_number: u8) -> u8 {
        self.static_values[port_number as usize]
    }

    fn write_out_port(&mut self, _port_number: u8, _value: u8) {}

    fn in_port_static_value(&self, port_number: u8) -> Option<u8> {
        if port_number <= 2 {
            Some(self.static_values[port_number as usize])
        } else {
            None
        }
    }

    fn set_in_port_static_value(&mut self, port_number: u8, value: u8) {
        if port_number <= 2 {
            self.static_values[port_number as usize] = value;
        }
    }
}

#[test]
fn machines_set_the_input_bits_of_ports_with_static_values() {
    let mut machine = SpaceInvadersMachine::with_ports(Box::new(StaticPorts {
        static_values: [0b0000_1110, 0b0000_1000, 0b0000_0000],
    }));
    machine.set_input_from_key(Key::Left, true);
    machine.set_input_from_key(Key::RShift, true);
    machine.dip_switches.coin_info_off = true;
    assert_eq!(
        machine.set_ports_based_on_inputs(),
        (
            update(0b0000_1110, 0b0010_1110),
            update(0b0000_1000, 0b0010_1001),
            update(0b0000_0000, 0b1010_0000)
        )
    );
    assert_eq!(machine.state.ports.read_in_port(0), 0b0010_1110);
    assert_eq!(machine.state.ports.read_in_port(1), 0b0010_1001);
    assert_eq!(machine.state.ports.read_in_port(2), 0b1010_0000);

    let mut boot_hill = BootHillMachine::with_ports(Box::new(StaticPorts {
        static_values: [0xFF, 0x00, 0x00],
    }));
    boot_hill.set_input_from_key(Key::Up, true);
    boot_hill.set_input_from_key(Key::Return, true);
    assert_eq!(
        boot_hill.set_ports_based_on_inputs(),
        (update(0xFF, 0b0111_0000), update(0x00, 0b0000_0001), update(0x00, 0b0010_0000))
    );
}

#[test]
fn static_port_values_take_the_flags() {
    assert_eq!(static_port_value_with_flags(Some(0x0F), &[(0, false), (7, true)]), Some(0x8E));
    assert_eq!(static_port_value_with_flags(None, &[(0, true)]), None);
    let mut ports: Box<dyn Ports> = Box::new(StaticPorts { static_values: [0, 0, 0] });
    assert_eq!(set_in_port_from_flags(&mut ports, 1, &[(3, true)]), update(0, 0b0000_1000));
    assert_eq!(ports.read_in_port(1), 0b0000_1000);
    assert_eq!(ports.read_in_port(0), 0);
    assert_eq!(set_in_port_from_flags(&mut ports, 5, &[(3, true)]), no_static_value());
}

struct RecordingPorts {
    writes: std::rc::Rc<std::cell::RefCell<Vec<(u8, u8)>>>,
}

impl Ports for RecordingPorts {
    fn in_value(&self, port_number: u8) -> u8 {
        self.read_in_port(port_number)
    }
    fn static_value(&self, port_number: u8) -> Option<u8> {
        self.in_port_static_value(port_number)
    }
    fn in_value_after_write(&self, _out_port: u8, _value: u8, in_port: u8) -> u8 {
        self.read_in_port(in_port)
    }
    fn static_value_after_write(&self, _out_port: u8, _value: u8, in_port: u8) -> Option<u8> {
        self.in_port_static_value(in_port)
    }
    fn read_in_port(&self, port_number: u8) -> u8 {
        port_number + 0x10
    }

    fn write_out_port(&mut self, port_number: u8, value: u8) {
        self.writes.borrow_mut().push((port_number, value));
    }

    fn in_port_static_value(&self, _port_number: u8) -> Option<u8> {
        None
    }

    fn set_in_port_static_value(&mut self, _port_number: u8, _value: u8) {}
}

#[test]
fn in_and_out_reach_the_ports_their_data_byte_names() {
    let writes = std::rc::Rc::new(std::cell::RefCell::new(Vec::new()));
    let mut state = StateBuilder::default()
        .register_values(vec![(Register::A, 0x42)])
        .memory_values(vec![(0x0000, 0xD3), (0x0001, 0x05), (0x0002, 0xDB), (0x0003, 0x03)])
        .build();
    state.ports = Box::new(RecordingPorts { writes: writes.clone() });
    assert_eq!(
        port_access(&Operation::Out, &state, 0x05),
        PortAccess::Write { port_number: 0x05, value: 0x42 }
    );
    assert_eq!(port_access(&Operation::In, &state, 0x03), PortAccess::Read { port_number: 0x03 });
    assert_eq!(port_access(&Operation::Nop, &state, 0x03), PortAccess::NoAccess);
    run_next_operation(&mut state);
    assert_eq!(*writes.borrow(), vec![(0x05, 0x42)]);
    assert_eq!(state.program_counter, 0x0002);
    run_next_operation(&mut state);
    assert_eq!(state.registers.a, 0x13);
    assert_eq!(state.program_counter, 0x0004);
    assert_eq!(*writes.borrow(), vec![(0x05, 0x42)]);
}

#[test]
fn built_states_have_ports_that_read_zero() {
    let mut state = StateBuilder::default().build();
    assert_eq!(state.ports.read_in_port(0), 0);
    assert_eq!(state.ports.read_in_port(3), 0);
    state.ports.write_out_port(3, 0xFF);
    assert_eq!(state.ports.read_in_port(3), 0);
    assert_eq!(state.ports.in_port_static_value(1), None);
}

#[test]
fn sounds_start_only_on_rising_edges() {
    assert_eq!(sounds_to_play(3, 0b0000_0000, 0b0000_0011), vec![SoundName::UfoFly, SoundName::Shoot]);
    assert_eq!(sounds_to_play(3, 0b0000_0010, 0b0000_0011), vec![SoundName::UfoFly]);
    assert_eq!(sounds_to_play(3, 0b0000_0011, 0b0000_0011), vec![]);
    assert_eq!(sounds_to_play(3, 0b0000_0000, 0b1111_0000), vec![]);
    assert_eq!(sounds_to_play(5, 0b0000_0000, 0b0001_0001), vec![SoundName::InvaderMovement1, SoundName::UfoKilled]);
    let mut ports = SpaceInvadersPorts::new();
    assert_eq!(ports.write_out_port(3, 0b0000_0100), vec![SoundName::PlayerKilled]);
    assert_eq!(ports.out_port_3, 0b0000_0100);
    assert_eq!(ports.write_out_port(3, 0b0000_0100), vec![]);
}

#[test]
fn parity_of_an_exclusive_or_follows_the_parities() {
    for a in [0u8, 0b0000_0001, 0b0000_0011, 0b1010_1010, 0b0111_0000, 0xFF] {
        for b in [0u8, 0b0000_0001, 0b1000_0000, 0b0101_0101, 0b0000_0111, 0xFF] {
            assert_eq!(get_parity(a ^ b), get_parity(a) == get_parity(b));
        }
        assert_eq!(get_parity(!a), get_parity(a));
    }
}

#[test]
fn builder_sets_each_listed_value_when_no_key_repeats() {
    let state = StateBuilder::default()
        .register_values(vec![(Register::B, 1), (Register::L, 2)])
        .condition_flag_values(vec![(ConditionFlag::Sign, true), (ConditionFlag::Carry, true)])
        .memory_values(vec![(0x1234, 0xAB), (0x0000, 0xCD)])
        .build();
    assert_eq!((state.registers.b, state.registers.l, state.registers.a), (1, 2, 0));
    assert!(state.condition_flags.sign && state.condition_flags.carry && !state.condition_flags.zero);
    assert_eq!((state.memory[0x1234], state.memory[0x0000], state.memory[0x0001]), (0xAB, 0xCD, 0));
}
