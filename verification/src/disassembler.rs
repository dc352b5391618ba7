use vstd::prelude::*;

use crate::{Condition, ConditionFlag, Operation, Register, RegisterPair};

verus! {

/// The register that a three-bit field names; the code 6 names memory at HL
/// and gives `None`.
pub open spec fn register_of_code(code: int) -> Option<Register> {
    if code == 0 {
        Some(Register::B)
    } else if code == 1 {
        Some(Register::C)
    } else if code == 2 {
        Some(Register::D)
    } else if code == 3 {
        Some(Register::E)
    } else if code == 4 {
        Some(Register::H)
    } else if code == 5 {
        Some(Register::L)
    } else if code == 7 {
        Some(Register::A)
    } else {
        None
    }
}

/// The register pair that a two-bit field names.
pub open spec fn register_pair_of_code(code: int) -> RegisterPair {
    if code == 0 {
        RegisterPair::BC
    } else if code == 1 {
        RegisterPair::DE
    } else if code == 2 {
        RegisterPair::HL
    } else {
        RegisterPair::SP
    }
}

/// The branch condition that a three-bit field names: NZ, Z, NC, C, PO, PE, P, M.
pub open spec fn condition_of_code(code: int) -> Condition {
    let flag = if code / 2 == 0 {
        ConditionFlag::Zero
    } else if code / 2 == 1 {
        ConditionFlag::Carry
    } else if code / 2 == 2 {
        ConditionFlag::Parity
    } else {
        ConditionFlag::Sign
    };
    (flag, code % 2 == 1)
}

/// The arithmetic or logical operation of group 2 and of the immediate
/// forms: ADD, ADC, SUB, SBB, ANA, XRA, ORA, CMP, with a register operand,
/// the memory operand (`operand` is 6), or immediate data (`operand` is -1).
pub open spec fn alu_operation(code: int, operand: int) -> Operation {
    let register = register_of_code(operand);
    if operand == -1 {
        if code == 0 { Operation::Adi }
        else if code == 1 { Operation::Aci }
        else if code == 2 { Operation::Sui }
        else if code == 3 { Operation::Sbi }
        else if code == 4 { Operation::Ani }
        else if code == 5 { Operation::Xri }
        else if code == 6 { Operation::Ori }
        else { Operation::Cpi }
    } else if register is None {
        if code == 0 { Operation::AddMem }
        else if code == 1 { Operation::AdcMem }
        else if code == 2 { Operation::SubMem }
        else if code == 3 { Operation::SbbMem }
        else if code == 4 { Operation::AnaMem }
        else if code == 5 { Operation::XraMem }
        else if code == 6 { Operation::OraMem }
        else { Operation::CmpMem }
    } else {
        let r = register.unwrap();
        if code == 0 { Operation::Add(r) }
        else if code == 1 { Operation::Adc(r) }
        else if code == 2 { Operation::Sub(r) }
        else if code == 3 { Operation::Sbb(r) }
        else if code == 4 { Operation::Ana(r) }
        else if code == 5 { Operation::Xra(r) }
        else if code == 6 { Operation::Ora(r) }
        else { Operation::Cmp(r) }
    }
}

/// The instruction that an op code encodes, read from its fields: the group
/// in bits 7-6, the destination or operation in bits 5-3 (a register pair in
/// bits 5-4 and a selector in bit 3), and the source or variant in bits 2-0.
/// `None` for the twelve op codes that the 8080 does not define.
pub open spec fn decoded_operation(op_code: u8) -> Option<Operation> {
    let group = op_code as int / 64;
    let y = (op_code as int / 8) % 8;
    let z = op_code as int % 8;
    let pair = register_pair_of_code(y / 2);
    let selector = y % 2;
    if group == 1 {
        if y == 6 && z == 6 {
            Some(Operation::Hlt)
        } else if y == 6 {
            Some(Operation::MovToMem(register_of_code(z).unwrap()))
        } else if z == 6 {
            Some(Operation::MovFromMem(register_of_code(y).unwrap()))
        } else {
            Some(Operation::Mov(register_of_code(z).unwrap(), register_of_code(y).unwrap()))
        }
    } else if group == 2 {
        Some(alu_operation(y, z))
    } else if group == 0 {
        if z == 0 {
            if y == 0 { Some(Operation::Nop) } else { None }
        } else if z == 1 {
            if selector == 0 { Some(Operation::Lxi(pair)) } else { Some(Operation::Dad(pair)) }
        } else if z == 2 {
            if y == 0 { Some(Operation::Stax(RegisterPair::BC)) }
            else if y == 1 { Some(Operation::Ldax(RegisterPair::BC)) }
            else if y == 2 { Some(Operation::Stax(RegisterPair::DE)) }
            else if y == 3 { Some(Operation::Ldax(RegisterPair::DE)) }
            else if y == 4 { Some(Operation::Shld) }
            else if y == 5 { Some(Operation::Lhld) }
            else if y == 6 { Some(Operation::Sta) }
            else { Some(Operation::Lda) }
        } else if z == 3 {
            if selector == 0 { Some(Operation::Inx(pair)) } else { Some(Operation::Dcx(pair)) }
        } else if z == 4 {
            if y == 6 { Some(Operation::InrMem) } else { Some(Operation::Inr(register_of_code(y).unwrap())) }
        } else if z == 5 {
            if y == 6 { Some(Operation::DcrMem) } else { Some(Operation::Dcr(register_of_code(y).unwrap())) }
        } else if z == 6 {
            if y == 6 { Some(Operation::MviMem) } else { Some(Operation::Mvi(register_of_code(y).unwrap())) }
        } else {
            if y == 0 { Some(Operation::Rlc) }
            else if y == 1 { Some(Operation::Rrc) }
            else if y == 2 { Some(Operation::Ral) }
            else if y == 3 { Some(Operation::Rar) }
            else if y == 4 { Some(Operation::Daa) }
            else if y == 5 { Some(Operation::Cma) }
            else if y == 6 { Some(Operation::Stc) }
            else { Some(Operation::Cmc) }
        }
    } else {
        if z == 0 {
            Some(Operation::Rcond(condition_of_code(y)))
        } else if z == 1 {
            if selector == 0 {
                if y == 6 { Some(Operation::PopPsw) } else { Some(Operation::Pop(pair)) }
            } else if y == 1 {
                Some(Operation::Ret)
            } else if y == 5 {
                Some(Operation::Pchl)
            } else if y == 7 {
                Some(Operation::Sphl)
            } else {
                None
            }
        } else if z == 2 {
            Some(Operation::Jcond(condition_of_code(y)))
        } else if z == 3 {
            if y == 0 { Some(Operation::Jmp) }
            else if y == 2 { Some(Operation::Out) }
            else if y == 3 { Some(Operation::In) }
            else if y == 4 { Some(Operation::Xthl) }
            else if y == 5 { Some(Operation::Xchg) }
            else if y == 6 { Some(Operation::Di) }
            else if y == 7 { Some(Operation::Ei) }
            else { None }
        } else if z == 4 {
            Some(Operation::Ccond(condition_of_code(y)))
        } else if z == 5 {
            if selector == 0 {
                if y == 6 { Some(Operation::PushPsw) } else { Some(Operation::Push(pair)) }
            } else if y == 1 {
                Some(Operation::Call)
            } else {
                None
            }
        } else if z == 6 {
            Some(alu_operation(y, -1))
        } else {
            Some(Operation::Rst(y as u8))
        }
    }
}

/// Decodes an op code. The twelve op codes that the 8080 leaves undefined
/// are outside its domain.
#[verifier::rlimit(100)]
#[allow(clippy::unusual_byte_groupings)]
pub fn disassemble_op_code(op_code: u8) -> (operation: Operation)
    requires
        decoded_operation(op_code) is Some,
    ensures
        decoded_operation(op_code) == Some(operation),
{
    match op_code {
        0b01_000_000 => Operation::Mov(Register::B, Register::B),
        0b01_000_001 => Operation::Mov(Register::C, Register::B),
        0b01_000_010 => Operation::Mov(Register::D, Register::B),
        0b01_000_011 => Operation::Mov(Register::E, Register::B),
        0b01_000_100 => Operation::Mov(Register::H, Register::B),
        0b01_000_101 => Operation::Mov(Register::L, Register::B),
        0b01_000_111 => Operation::Mov(Register::A, Register::B),
        0b01_001_000 => Operation::Mov(Register::B, Register::C),
        0b01_001_001 => Operation::Mov(Register::C, Register::C),
        0b01_001_010 => Operation::Mov(Register::D, Register::C),
        0b01_001_011 => Operation::Mov(Register::E, Register::C),
        0b01_001_100 => Operation::Mov(Register::H, Register::C),
        0b01_001_101 => Operation::Mov(Register::L, Register::C),
        0b01_001_111 => Operation::Mov(Register::A, Register::C),
        0b01_010_000 => Operation::Mov(Register::B, Register::D),
        0b01_010_001 => Operation::Mov(Register::C, Register::D),
        0b01_010_010 => Operation::Mov(Register::D, Register::D),
        0b01_010_011 => Operation::Mov(Register::E, Register::D),
        0b01_010_100 => Operation::Mov(Register::H, Register::D),
        0b01_010_101 => Operation::Mov(Register::L, Register::D),
        0b01_010_111 => Operation::Mov(Register::A, Register::D),
        0b01_011_000 => Operation::Mov(Register::B, Register::E),
        0b01_011_001 => Operation::Mov(Register::C, Register::E),
        0b01_011_010 => Operation::Mov(Register::D, Register::E),
        0b01_011_011 => Operation::Mov(Register::E, Register::E),
        0b01_011_100 => Operation::Mov(Register::H, Register::E),
        0b01_011_101 => Operation::Mov(Register::L, Register::E),
        0b01_011_111 => Operation::Mov(Register::A, Register::E),
        0b01_100_000 => Operation::Mov(Register::B, Register::H),
        0b01_100_001 => Operation::Mov(Register::C, Register::H),
        0b01_100_010 => Operation::Mov(Register::D, Register::H),
        0b01_100_011 => Operation::Mov(Register::E, Register::H),
        0b01_100_100 => Operation::Mov(Register::H, Register::H),
        0b01_100_101 => Operation::Mov(Register::L, Register::H),
        0b01_100_111 => Operation::Mov(Register::A, Register::H),
        0b01_101_000 => Operation::Mov(Register::B, Register::L),
        0b01_101_001 => Operation::Mov(Register::C, Register::L),
        0b01_101_010 => Operation::Mov(Register::D, Register::L),
        0b01_101_011 => Operation::Mov(Register::E, Register::L),
        0b01_101_100 => Operation::Mov(Register::H, Register::L),
        0b01_101_101 => Operation::Mov(Register::L, Register::L),
        0b01_101_111 => Operation::Mov(Register::A, Register::L),
        0b01_111_000 => Operation::Mov(Register::B, Register::A),
        0b01_111_001 => Operation::Mov(Register::C, Register::A),
        0b01_111_010 => Operation::Mov(Register::D, Register::A),
        0b01_111_011 => Operation::Mov(Register::E, Register::A),
        0b01_111_100 => Operation::Mov(Register::H, Register::A),
        0b01_111_101 => Operation::Mov(Register::L, Register::A),
        0b01_111_111 => Operation::Mov(Register::A, Register::A),
        0b01_000_110 => Operation::MovFromMem(Register::B),
        0b01_001_110 => Operation::MovFromMem(Register::C),
        0b01_010_110 => Operation::MovFromMem(Register::D),
        0b01_011_110 => Operation::MovFromMem(Register::E),
        0b01_100_110 => Operation::MovFromMem(Register::H),
        0b01_101_110 => Operation::MovFromMem(Register::L),
        0b01_111_110 => Operation::MovFromMem(Register::A),
        0b01_110_000 => Operation::MovToMem(Register::B),
        0b01_110_001 => Operation::MovToMem(Register::C),
        0b01_110_010 => Operation::MovToMem(Register::D),
        0b01_110_011 => Operation::MovToMem(Register::E),
        0b01_110_100 => Operation::MovToMem(Register::H),
        0b01_110_101 => Operation::MovToMem(Register::L),
        0b01_110_111 => Operation::MovToMem(Register::A),
        0b00_000_110 => Operation::Mvi(Register::B),
        0b00_001_110 => Operation::Mvi(Register::C),
        0b00_010_110 => Operation::Mvi(Register::D),
        0b00_011_110 => Operation::Mvi(Register::E),
        0b00_100_110 => Operation::Mvi(Register::H),
        0b00_101_110 => Operation::Mvi(Register::L),
        0b00_111_110 => Operation::Mvi(Register::A),
        0b00_110_110 => Operation::MviMem,
        0b00_000_001 => Operation::Lxi(RegisterPair::BC),
        0b00_010_001 => Operation::Lxi(RegisterPair::DE),
        0b00_100_001 => Operation::Lxi(RegisterPair::HL),
        0b00_110_001 => Operation::Lxi(RegisterPair::SP),
        0b00_111_010 => Operation::Lda,
        0b00_110_010 => Operation::Sta,
        0b00_101_010 => Operation::Lhld,
        0b00_100_010 => Operation::Shld,
        0b00_001_010 => Operation::Ldax(RegisterPair::BC),
        0b00_011_010 => Operation::Ldax(RegisterPair::DE),
        0b00_000_010 => Operation::Stax(RegisterPair::BC),
        0b00_010_010 => Operation::Stax(RegisterPair::DE),
        0b11_101_011 => Operation::Xchg,
        0b10_000_000 => Operation::Add(Register::B),
        0b10_000_001 => Operation::Add(Register::C),
        0b10_000_010 => Operation::Add(Register::D),
        0b10_000_011 => Operation::Add(Register::E),
        0b10_000_100 => Operation::Add(Register::H),
        0b10_000_101 => Operation::Add(Register::L),
        0b10_000_111 => Operation::Add(Register::A),
        0b10_000_110 => Operation::AddMem,
        0b11_000_110 => Operation::Adi,
        0b10_001_000 => Operation::Adc(Register::B),
        0b10_001_001 => Operation::Adc(Register::C),
        0b10_001_010 => Operation::Adc(Register::D),
        0b10_001_011 => Operation::Adc(Register::E),
        0b10_001_100 => Operation::Adc(Register::H),
        0b10_001_101 => Operation::Adc(Register::L),
        0b10_001_111 => Operation::Adc(Register::A),
        0b10_001_110 => Operation::AdcMem,
        0b11_001_110 => Operation::Aci,
        0b10_010_000 => Operation::Sub(Register::B),
        0b10_010_001 => Operation::Sub(Register::C),
        0b10_010_010 => Operation::Sub(Register::D),
        0b10_010_011 => Operation::Sub(Register::E),
        0b10_010_100 => Operation::Sub(Register::H),
        0b10_010_101 => Operation::Sub(Register::L),
        0b10_010_111 => Operation::Sub(Register::A),
        0b10_010_110 => Operation::SubMem,
        0b11_010_110 => Operation::Sui,
        0b10_011_000 => Operation::Sbb(Register::B),
        0b10_011_001 => Operation::Sbb(Register::C),
        0b10_011_010 => Operation::Sbb(Register::D),
        0b10_011_011 => Operation::Sbb(Register::E),
        0b10_011_100 => Operation::Sbb(Register::H),
        0b10_011_101 => Operation::Sbb(Register::L),
        0b10_011_111 => Operation::Sbb(Register::A),
        0b10_011_110 => Operation::SbbMem,
        0b11_011_110 => Operation::Sbi,
        0b00_000_100 => Operation::Inr(Register::B),
        0b00_001_100 => Operation::Inr(Register::C),
        0b00_010_100 => Operation::Inr(Register::D),
        0b00_011_100 => Operation::Inr(Register::E),
        0b00_100_100 => Operation::Inr(Register::H),
        0b00_101_100 => Operation::Inr(Register::L),
        0b00_111_100 => Operation::Inr(Register::A),
        0b00_110_100 => Operation::InrMem,
        0b00_000_101 => Operation::Dcr(Register::B),
        0b00_001_101 => Operation::Dcr(Register::C),
        0b00_010_101 => Operation::Dcr(Register::D),
        0b00_011_101 => Operation::Dcr(Register::E),
        0b00_100_101 => Operation::Dcr(Register::H),
        0b00_101_101 => Operation::Dcr(Register::L),
        0b00_111_101 => Operation::Dcr(Register::A),
        0b00_110_101 => Operation::DcrMem,
        0b00_000_011 => Operation::Inx(RegisterPair::BC),
        0b00_010_011 => Operation::Inx(RegisterPair::DE),
        0b00_100_011 => Operation::Inx(RegisterPair::HL),
        0b00_110_011 => Operation::Inx(RegisterPair::SP),
        0b00_001_011 => Operation::Dcx(RegisterPair::BC),
        0b00_011_011 => Operation::Dcx(RegisterPair::DE),
        0b00_101_011 => Operation::Dcx(RegisterPair::HL),
        0b00_111_011 => Operation::Dcx(RegisterPair::SP),
        0b00_001_001 => Operation::Dad(RegisterPair::BC),
        0b00_011_001 => Operation::Dad(RegisterPair::DE),
        0b00_101_001 => Operation::Dad(RegisterPair::HL),
        0b00_111_001 => Operation::Dad(RegisterPair::SP),
        0b00_100_111 => Operation::Daa,
        0b10_100_000 => Operation::Ana(Register::B),
        0b10_100_001 => Operation::Ana(Register::C),
        0b10_100_010 => Operation::Ana(Register::D),
        0b10_100_011 => Operation::Ana(Register::E),
        0b10_100_100 => Operation::Ana(Register::H),
        0b10_100_101 => Operation::Ana(Register::L),
        0b10_100_111 => Operation::Ana(Register::A),
        0b10_100_110 => Operation::AnaMem,
        0b11_100_110 => Operation::Ani,
        0b10_101_000 => Operation::Xra(Register::B),
        0b10_101_001 => Operation::Xra(Register::C),
        0b10_101_010 => Operation::Xra(Register::D),
        0b10_101_011 => Operation::Xra(Register::E),
        0b10_101_100 => Operation::Xra(Register::H),
        0b10_101_101 => Operation::Xra(Register::L),
        0b10_101_111 => Operation::Xra(Register::A),
        0b10_101_110 => Operation::XraMem,
        0b11_101_110 => Operation::Xri,
        0b10_110_000 => Operation::Ora(Register::B),
        0b10_110_001 => Operation::Ora(Register::C),
        0b10_110_010 => Operation::Ora(Register::D),
        0b10_110_011 => Operation::Ora(Register::E),
        0b10_110_100 => Operation::Ora(Register::H),
        0b10_110_101 => Operation::Ora(Register::L),
        0b10_110_111 => Operation::Ora(Register::A),
        0b10_110_110 => Operation::OraMem,
        0b11_110_110 => Operation::Ori,
        0b10_111_000 => Operation::Cmp(Register::B),
        0b10_111_001 => Operation::Cmp(Register::C),
        0b10_111_010 => Operation::Cmp(Register::D),
        0b10_111_011 => Operation::Cmp(Register::E),
        0b10_111_100 => Operation::Cmp(Register::H),
        0b10_111_101 => Operation::Cmp(Register::L),
        0b10_111_111 => Operation::Cmp(Register::A),
        0b10_111_110 => Operation::CmpMem,
        0b11_111_110 => Operation::Cpi,
        0b00_000_111 => Operation::Rlc,
        0b00_001_111 => Operation::Rrc,
        0b00_010_111 => Operation::Ral,
        0b00_011_111 => Operation::Rar,
        0b00_101_111 => Operation::Cma,
        0b00_111_111 => Operation::Cmc,
        0b00_110_111 => Operation::Stc,
        0b11_000_011 => Operation::Jmp,
        0b11_000_010 => Operation::Jcond((ConditionFlag::Zero, false)),
        0b11_001_010 => Operation::Jcond((ConditionFlag::Zero, true)),
        0b11_010_010 => Operation::Jcond((ConditionFlag::Carry, false)),
        0b11_011_010 => Operation::Jcond((ConditionFlag::Carry, true)),
        0b11_100_010 => Operation::Jcond((ConditionFlag::Parity, false)),
        0b11_101_010 => Operation::Jcond((ConditionFlag::Parity, true)),
        0b11_110_010 => Operation::Jcond((ConditionFlag::Sign, false)),
        0b11_111_010 => Operation::Jcond((ConditionFlag::Sign, true)),
        0b11_001_101 => Operation::Call,
        0b11_000_100 => Operation::Ccond((ConditionFlag::Zero, false)),
        0b11_001_100 => Operation::Ccond((ConditionFlag::Zero, true)),
        0b11_010_100 => Operation::Ccond((ConditionFlag::Carry, false)),
        0b11_011_100 => Operation::Ccond((ConditionFlag::Carry, true)),
        0b11_100_100 => Operation::Ccond((ConditionFlag::Parity, false)),
        0b11_101_100 => Operation::Ccond((ConditionFlag::Parity, true)),
        0b11_110_100 => Operation::Ccond((ConditionFlag::Sign, false)),
        0b11_111_100 => Operation::Ccond((ConditionFlag::Sign, true)),
        0b11_001_001 => Operation::Ret,
        0b11_000_000 => Operation::Rcond((ConditionFlag::Zero, false)),
        0b11_001_000 => Operation::Rcond((ConditionFlag::Zero, true)),
        0b11_010_000 => Operation::Rcond((ConditionFlag::Carry, false)),
        0b11_011_000 => Operation::Rcond((ConditionFlag::Carry, true)),
        0b11_100_000 => Operation::Rcond((ConditionFlag::Parity, false)),
        0b11_101_000 => Operation::Rcond((ConditionFlag::Parity, true)),
        0b11_110_000 => Operation::Rcond((ConditionFlag::Sign, false)),
        0b11_111_000 => Operation::Rcond((ConditionFlag::Sign, true)),
        0b11_000_111 => Operation::Rst(0),
        0b11_001_111 => Operation::Rst(1),
        0b11_010_111 => Operation::Rst(2),
        0b11_011_111 => Operation::Rst(3),
        0b11_100_111 => Operation::Rst(4),
        0b11_101_111 => Operation::Rst(5),
        0b11_110_111 => Operation::Rst(6),
        0b11_111_111 => Operation::Rst(7),
        0b11_101_001 => Operation::Pchl,
        0b11_000_101 => Operation::Push(RegisterPair::BC),
        0b11_010_101 => Operation::Push(RegisterPair::DE),
        0b11_100_101 => Operation::Push(RegisterPair::HL),
        0b11_110_101 => Operation::PushPsw,
        0b11_000_001 => Operation::Pop(RegisterPair::BC),
        0b11_010_001 => Operation::Pop(RegisterPair::DE),
        0b11_100_001 => Operation::Pop(RegisterPair::HL),
        0b11_110_001 => Operation::PopPsw,
        0b11_100_011 => Operation::Xthl,
        0b11_111_001 => Operation::Sphl,
        0b11_011_011 => Operation::In,
        0b11_010_011 => Operation::Out,
        0b11_111_011 => Operation::Ei,
        0b11_110_011 => Operation::Di,
        0b01_110_110 => Operation::Hlt,
        0b00_000_000 => Operation::Nop,
        _ => {
            proof {
                assert(false);
            }
            Operation::Nop
        },
    }
}

/// Whether an op code is one that the 8080 defines.
pub fn is_op_code_supported(op_code: u8) -> (is_supported: bool)
    ensures
        is_supported == decoded_operation(op_code) is Some,
{
    let group = op_code / 64;
    let y = (op_code / 8) % 8;
    let z = op_code % 8;
    if group == 0 {
        z != 0 || y == 0
    } else if group == 3 {
        !((z == 1 && (y == 3)) || (z == 3 && y == 1) || (z == 5 && (y == 3 || y == 5 || y == 7)))
    } else {
        true
    }
}

} // verus!
