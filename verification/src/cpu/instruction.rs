use vstd::prelude::*;

use super::registers::{Reg16, Reg8};

verus! {

/// Branch conditions.
#[derive(Debug, Clone, Copy, PartialEq, Eq, Structural)]
pub enum Cond {
    NotZero,
    Zero,
    NotCarry,
    Carry,
    /// Unconditional.
    Always,
}

/// An eight-bit operand: a register, or the byte that HL points to.
#[derive(Debug, Clone, Copy, PartialEq, Eq, Structural)]
pub enum Operand8 {
    Reg(Reg8),
    HlInd,
}

/// The instruction set of the Game Boy CPU (after the gbz80 reference).
#[derive(Debug, Clone, Copy)]
pub enum Instruction {
    // loads
    /// LD r8, r8 (destination first)
    Ld(Reg8, Reg8),
    /// LD r8, n8
    LdImm(Reg8),
    /// LD r16, n16
    Ld16Imm(Reg16),
    /// LD [HL], r8
    LdHlInd(Reg8),
    /// LD [HL], n8
    LdHlIndImm,
    /// LD r8, [HL]
    LdRegHlInd(Reg8),
    /// LD [r16], A
    LdReg16IndA(Reg16),
    /// LD [n16], A
    LdImmIndA,
    /// LDH [n8], A: writes to 0xFF00 + n8
    LdhImm8IndA,
    /// LDH [C], A
    LdhCIndA,
    /// LD A, [r16]
    LdAReg16Ind(Reg16),
    /// LD A, [n16]
    LdAImm16Ind,
    /// LDH A, [n8]: reads from 0xFF00 + n8
    LdhAImm8Ind,
    /// LDH A, [C]
    LdhACInd,
    /// LD [HL+], A
    LdHliA,
    /// LD [HL-], A
    LdHldA,
    /// LD A, [HL+]
    LdAhli,
    /// LD A, [HL-]
    LdAHld,
    // eight-bit arithmetic
    Adc(Operand8),
    AdcImm,
    Add(Operand8),
    AddImm,
    Cp(Operand8),
    CpImm,
    Dec(Operand8),
    Inc(Operand8),
    Sbc(Operand8),
    SbcImm,
    Sub(Operand8),
    SubImm,
    // sixteen-bit arithmetic
    /// ADD HL, r16
    Add16(Reg16),
    Dec16(Reg16),
    Inc16(Reg16),
    // bitwise logic
    And(Operand8),
    AndImm,
    Cpl,
    Or(Operand8),
    OrImm,
    Xor(Operand8),
    XorImm,
    // single bits: the bit number comes first
    Bit(u8, Operand8),
    Res(u8, Operand8),
    SetBit(u8, Operand8),
    // shifts and rotations
    Rl(Operand8),
    RlA,
    Rlc(Operand8),
    RlcA,
    Rr(Operand8),
    RrA,
    Rrc(Operand8),
    RrcA,
    Sla(Operand8),
    Sra(Operand8),
    Srl(Operand8),
    Swap(Operand8),
    // jumps and subroutines
    Call(Cond),
    JpHl,
    Jp(Cond),
    Jr(Cond),
    Ret(Cond),
    Reti,
    /// RST with its target address
    Rst(u8),
    // carry flag
    Ccf,
    Scf,
    // stack
    /// ADD SP, e8
    AddSpImm,
    /// LD [n16], SP
    LdImm16Sp,
    /// LD HL, SP+e8
    LdHlSpImm,
    /// LD SP, HL
    LdSpHl,
    Pop(Reg16),
    Push(Reg16),
    // interrupts
    Di,
    Ei,
    Halt,
    // miscellaneous
    Daa,
    Nop,
    Stop,
    /// The 0xCB prefix: the next byte selects an instruction of the
    /// extended table.
    PrefixCb,
}

/// The eight-bit operand that a three-bit register field selects:
/// B, C, D, E, H, L, [HL], A.
pub open spec fn operand_field(z: int) -> Operand8 {
    if z == 0 {
        Operand8::Reg(Reg8::B)
    } else if z == 1 {
        Operand8::Reg(Reg8::C)
    } else if z == 2 {
        Operand8::Reg(Reg8::D)
    } else if z == 3 {
        Operand8::Reg(Reg8::E)
    } else if z == 4 {
        Operand8::Reg(Reg8::H)
    } else if z == 5 {
        Operand8::Reg(Reg8::L)
    } else if z == 6 {
        Operand8::HlInd
    } else {
        Operand8::Reg(Reg8::A)
    }
}

/// The register that a three-bit register field selects (field 6, [HL], excluded).
pub open spec fn reg_field(z: int) -> Reg8 {
    match operand_field(z) {
        Operand8::Reg(r) => r,
        Operand8::HlInd => Reg8::A,
    }
}

/// The register pair of a two-bit field in loads and sixteen-bit arithmetic.
pub open spec fn pair_field(p: int) -> Reg16 {
    if p == 0 {
        Reg16::BC
    } else if p == 1 {
        Reg16::DE
    } else if p == 2 {
        Reg16::HL
    } else {
        Reg16::SP
    }
}

/// The register pair of a two-bit field in PUSH and POP.
pub open spec fn stack_pair_field(p: int) -> Reg16 {
    if p == 3 {
        Reg16::AF
    } else {
        pair_field(p)
    }
}

/// The condition of a two-bit field.
pub open spec fn cond_field(y: int) -> Cond {
    if y == 0 {
        Cond::NotZero
    } else if y == 1 {
        Cond::Zero
    } else if y == 2 {
        Cond::NotCarry
    } else {
        Cond::Carry
    }
}

/// The arithmetic or logic operation of a three-bit field, on an operand.
pub open spec fn alu_field(y: int, o: Operand8) -> Instruction {
    if y == 0 {
        Instruction::Add(o)
    } else if y == 1 {
        Instruction::Adc(o)
    } else if y == 2 {
        Instruction::Sub(o)
    } else if y == 3 {
        Instruction::Sbc(o)
    } else if y == 4 {
        Instruction::And(o)
    } else if y == 5 {
        Instruction::Xor(o)
    } else if y == 6 {
        Instruction::Or(o)
    } else {
        Instruction::Cp(o)
    }
}

/// The arithmetic or logic operation of a three-bit field, on an immediate byte.
pub open spec fn alu_imm_field(y: int) -> Instruction {
    if y == 0 {
        Instruction::AddImm
    } else if y == 1 {
        Instruction::AdcImm
    } else if y == 2 {
        Instruction::SubImm
    } else if y == 3 {
        Instruction::SbcImm
    } else if y == 4 {
        Instruction::AndImm
    } else if y == 5 {
        Instruction::XorImm
    } else if y == 6 {
        Instruction::OrImm
    } else {
        Instruction::CpImm
    }
}

/// Opcodes 0x00 to 0x3F, by their fields y (bits 5-3) and z (bits 2-0).
pub open spec fn decode_block0(y: int, z: int) -> Instruction {
    let p = y / 2;
    let q = y % 2;
    if z == 0 {
        if y == 0 {
            Instruction::Nop
        } else if y == 1 {
            Instruction::LdImm16Sp
        } else if y == 2 {
            Instruction::Stop
        } else if y == 3 {
            Instruction::Jr(Cond::Always)
        } else {
            Instruction::Jr(cond_field(y - 4))
        }
    } else if z == 1 {
        if q == 0 {
            Instruction::Ld16Imm(pair_field(p))
        } else {
            Instruction::Add16(pair_field(p))
        }
    } else if z == 2 {
        if q == 0 {
            if p < 2 {
                Instruction::LdReg16IndA(pair_field(p))
            } else if p == 2 {
                Instruction::LdHliA
            } else {
                Instruction::LdHldA
            }
        } else {
            if p < 2 {
                Instruction::LdAReg16Ind(pair_field(p))
            } else if p == 2 {
                Instruction::LdAhli
            } else {
                Instruction::LdAHld
            }
        }
    } else if z == 3 {
        if q == 0 {
            Instruction::Inc16(pair_field(p))
        } else {
            Instruction::Dec16(pair_field(p))
        }
    } else if z == 4 {
        Instruction::Inc(operand_field(y))
    } else if z == 5 {
        Instruction::Dec(operand_field(y))
    } else if z == 6 {
        if y == 6 {
            Instruction::LdHlIndImm
        } else {
            Instruction::LdImm(reg_field(y))
        }
    } else {
        if y == 0 {
            Instruction::RlcA
        } else if y == 1 {
            Instruction::RrcA
        } else if y == 2 {
            Instruction::RlA
        } else if y == 3 {
            Instruction::RrA
        } else if y == 4 {
            Instruction::Daa
        } else if y == 5 {
            Instruction::Cpl
        } else if y == 6 {
            Instruction::Scf
        } else {
            Instruction::Ccf
        }
    }
}

/// Opcodes 0x40 to 0x7F: register-to-register loads, with HALT in place of LD [HL], [HL].
pub open spec fn decode_block1(y: int, z: int) -> Instruction {
    if y == 6 && z == 6 {
        Instruction::Halt
    } else if z == 6 {
        Instruction::LdRegHlInd(reg_field(y))
    } else if y == 6 {
        Instruction::LdHlInd(reg_field(z))
    } else {
        Instruction::Ld(reg_field(y), reg_field(z))
    }
}

/// Opcodes 0xC0 to 0xFF. The opcodes that the CPU does not define decode
/// as STOP.
pub open spec fn decode_block3(y: int, z: int) -> Instruction {
    let p = y / 2;
    let q = y % 2;
    if z == 0 {
        if y < 4 {
            Instruction::Ret(cond_field(y))
        } else if y == 4 {
            Instruction::LdhImm8IndA
        } else if y == 5 {
            Instruction::AddSpImm
        } else if y == 6 {
            Instruction::LdhAImm8Ind
        } else {
            Instruction::LdHlSpImm
        }
    } else if z == 1 {
        if q == 0 {
            Instruction::Pop(stack_pair_field(p))
        } else if p == 0 {
            Instruction::Ret(Cond::Always)
        } else if p == 1 {
            Instruction::Reti
        } else if p == 2 {
            Instruction::JpHl
        } else {
            Instruction::LdSpHl
        }
    } else if z == 2 {
        if y < 4 {
            Instruction::Jp(cond_field(y))
        } else if y == 4 {
            Instruction::LdhCIndA
        } else if y == 5 {
            Instruction::LdImmIndA
        } else if y == 6 {
            Instruction::LdhACInd
        } else {
            Instruction::LdAImm16Ind
        }
    } else if z == 3 {
        if y == 0 {
            Instruction::Jp(Cond::Always)
        } else if y == 1 {
            Instruction::PrefixCb
        } else if y == 6 {
            Instruction::Di
        } else if y == 7 {
            Instruction::Ei
        } else {
            Instruction::Stop
        }
    } else if z == 4 {
        if y < 4 {
            Instruction::Call(cond_field(y))
        } else {
            Instruction::Stop
        }
    } else if z == 5 {
        if q == 0 {
            Instruction::Push(stack_pair_field(p))
        } else if p == 0 {
            Instruction::Call(Cond::Always)
        } else {
            Instruction::Stop
        }
    } else if z == 6 {
        alu_imm_field(y)
    } else {
        Instruction::Rst((y * 8) as u8)
    }
}

/// The instruction of an unprefixed opcode, by its fields x (bits 7-6),
/// y (bits 5-3) and z (bits 2-0).
pub open spec fn decode_spec(opcode: u8) -> Instruction {
    let x = opcode / 64;
    let y = (opcode / 8) % 8;
    let z = opcode % 8;
    if x == 0 {
        decode_block0(y as int, z as int)
    } else if x == 1 {
        decode_block1(y as int, z as int)
    } else if x == 2 {
        alu_field(y as int, operand_field(z as int))
    } else {
        decode_block3(y as int, z as int)
    }
}

/// The instruction of a byte that follows the 0xCB prefix: x selects
/// rotate/shift (with y naming which), BIT, RES or SET (with y the bit);
/// z selects the operand.
pub open spec fn decode_cb_spec(opcode: u8) -> Instruction {
    let x = opcode / 64;
    let y = (opcode / 8) % 8;
    let o = operand_field((opcode % 8) as int);
    if x == 0 {
        if y == 0 {
            Instruction::Rlc(o)
        } else if y == 1 {
            Instruction::Rrc(o)
        } else if y == 2 {
            Instruction::Rl(o)
        } else if y == 3 {
            Instruction::Rr(o)
        } else if y == 4 {
            Instruction::Sla(o)
        } else if y == 5 {
            Instruction::Sra(o)
        } else if y == 6 {
            Instruction::Swap(o)
        } else {
            Instruction::Srl(o)
        }
    } else if x == 1 {
        Instruction::Bit(y as u8, o)
    } else if x == 2 {
        Instruction::Res(y as u8, o)
    } else {
        Instruction::SetBit(y as u8, o)
    }
}

/// Instructions that need nothing but the CPU itself: no bus access and no
/// machine cycle beyond the fetch of their opcode.
pub open spec fn single_cycle_spec(instr: Instruction) -> bool {
    match instr {
        Instruction::Ld(_, _) => true,
        Instruction::Add(Operand8::Reg(_)) => true,
        Instruction::Adc(Operand8::Reg(_)) => true,
        Instruction::Sub(Operand8::Reg(_)) => true,
        Instruction::Sbc(Operand8::Reg(_)) => true,
        Instruction::And(Operand8::Reg(_)) => true,
        Instruction::Xor(Operand8::Reg(_)) => true,
        Instruction::Or(Operand8::Reg(_)) => true,
        Instruction::Cp(Operand8::Reg(_)) => true,
        Instruction::Inc(Operand8::Reg(_)) => true,
        Instruction::Dec(Operand8::Reg(_)) => true,
        Instruction::Cpl => true,
        Instruction::Ccf => true,
        Instruction::Scf => true,
        Instruction::Daa => true,
        Instruction::RlcA => true,
        Instruction::RrcA => true,
        Instruction::RlA => true,
        Instruction::RrA => true,
        Instruction::JpHl => true,
        Instruction::Nop => true,
        Instruction::Di => true,
        Instruction::Ei => true,
        Instruction::Halt => true,
        Instruction::Stop => true,
        _ => false,
    }
}

impl Instruction {
    /// Decodes an unprefixed opcode. Every byte decodes.
    #[verifier::rlimit(100)]
    pub fn from_byte(opcode: u8) -> (r: Self)
        ensures
            r == decode_spec(opcode),
    {
        match opcode {
            0x00 => Instruction::Nop,
            0x01 => Instruction::Ld16Imm(Reg16::BC),
            0x02 => Instruction::LdReg16IndA(Reg16::BC),
            0x03 => Instruction::Inc16(Reg16::BC),
            0x04 => Instruction::Inc(Operand8::Reg(Reg8::B)),
            0x05 => Instruction::Dec(Operand8::Reg(Reg8::B)),
            0x06 => Instruction::LdImm(Reg8::B),
            0x07 => Instruction::RlcA,
            0x08 => Instruction::LdImm16Sp,
            0x09 => Instruction::Add16(Reg16::BC),
            0x0A => Instruction::LdAReg16Ind(Reg16::BC),
            0x0B => Instruction::Dec16(Reg16::BC),
            0x0C => Instruction::Inc(Operand8::Reg(Reg8::C)),
            0x0D => Instruction::Dec(Operand8::Reg(Reg8::C)),
            0x0E => Instruction::LdImm(Reg8::C),
            0x0F => Instruction::RrcA,
            0x10 => Instruction::Stop,
            0x11 => Instruction::Ld16Imm(Reg16::DE),
            0x12 => Instruction::LdReg16IndA(Reg16::DE),
            0x13 => Instruction::Inc16(Reg16::DE),
            0x14 => Instruction::Inc(Operand8::Reg(Reg8::D)),
            0x15 => Instruction::Dec(Operand8::Reg(Reg8::D)),
            0x16 => Instruction::LdImm(Reg8::D),
            0x17 => Instruction::RlA,
            0x18 => Instruction::Jr(Cond::Always),
            0x19 => Instruction::Add16(Reg16::DE),
            0x1A => Instruction::LdAReg16Ind(Reg16::DE),
            0x1B => Instruction::Dec16(Reg16::DE),
            0x1C => Instruction::Inc(Operand8::Reg(Reg8::E)),
            0x1D => Instruction::Dec(Operand8::Reg(Reg8::E)),
            0x1E => Instruction::LdImm(Reg8::E),
            0x1F => Instruction::RrA,
            0x20 => Instruction::Jr(Cond::NotZero),
            0x21 => Instruction::Ld16Imm(Reg16::HL),
            0x22 => Instruction::LdHliA,
            0x23 => Instruction::Inc16(Reg16::HL),
            0x24 => Instruction::Inc(Operand8::Reg(Reg8::H)),
            0x25 => Instruction::Dec(Operand8::Reg(Reg8::H)),
            0x26 => Instruction::LdImm(Reg8::H),
            0x27 => Instruction::Daa,
            0x28 => Instruction::Jr(Cond::Zero),
            0x29 => Instruction::Add16(Reg16::HL),
            0x2A => Instruction::LdAhli,
            0x2B => Instruction::Dec16(Reg16::HL),
            0x2C => Instruction::Inc(Operand8::Reg(Reg8::L)),
            0x2D => Instruction::Dec(Operand8::Reg(Reg8::L)),
            0x2E => Instruction::LdImm(Reg8::L),
            0x2F => Instruction::Cpl,
            0x30 => Instruction::Jr(Cond::NotCarry),
            0x31 => Instruction::Ld16Imm(Reg16::SP),
            0x32 => Instruction::LdHldA,
            0x33 => Instruction::Inc16(Reg16::SP),
            0x34 => Instruction::Inc(Operand8::HlInd),
            0x35 => Instruction::Dec(Operand8::HlInd),
            0x36 => Instruction::LdHlIndImm,
            0x37 => Instruction::Scf,
            0x38 => Instruction::Jr(Cond::Carry),
            0x39 => Instruction::Add16(Reg16::SP),
            0x3A => Instruction::LdAHld,
            0x3B => Instruction::Dec16(Reg16::SP),
            0x3C => Instruction::Inc(Operand8::Reg(Reg8::A)),
            0x3D => Instruction::Dec(Operand8::Reg(Reg8::A)),
            0x3E => Instruction::LdImm(Reg8::A),
            0x3F => Instruction::Ccf,
            0x40 => Instruction::Ld(Reg8::B, Reg8::B),
            0x41 => Instruction::Ld(Reg8::B, Reg8::C),
            0x42 => Instruction::Ld(Reg8::B, Reg8::D),
            0x43 => Instruction::Ld(Reg8::B, Reg8::E),
            0x44 => Instruction::Ld(Reg8::B, Reg8::H),
            0x45 => Instruction::Ld(Reg8::B, Reg8::L),
            0x46 => Instruction::LdRegHlInd(Reg8::B),
            0x47 => Instruction::Ld(Reg8::B, Reg8::A),
            0x48 => Instruction::Ld(Reg8::C, Reg8::B),
            0x49 => Instruction::Ld(Reg8::C, Reg8::C),
            0x4A => Instruction::Ld(Reg8::C, Reg8::D),
            0x4B => Instruction::Ld(Reg8::C, Reg8::E),
            0x4C => Instruction::Ld(Reg8::C, Reg8::H),
            0x4D => Instruction::Ld(Reg8::C, Reg8::L),
            0x4E => Instruction::LdRegHlInd(Reg8::C),
            0x4F => Instruction::Ld(Reg8::C, Reg8::A),
            0x50 => Instruction::Ld(Reg8::D, Reg8::B),
            0x51 => Instruction::Ld(Reg8::D, Reg8::C),
            0x52 => Instruction::Ld(Reg8::D, Reg8::D),
            0x53 => Instruction::Ld(Reg8::D, Reg8::E),
            0x54 => Instruction::Ld(Reg8::D, Reg8::H),
            0x55 => Instruction::Ld(Reg8::D, Reg8::L),
            0x56 => Instruction::LdRegHlInd(Reg8::D),
            0x57 => Instruction::Ld(Reg8::D, Reg8::A),
            0x58 => Instruction::Ld(Reg8::E, Reg8::B),
            0x59 => Instruction::Ld(Reg8::E, Reg8::C),
            0x5A => Instruction::Ld(Reg8::E, Reg8::D),
            0x5B => Instruction::Ld(Reg8::E, Reg8::E),
            0x5C => Instruction::Ld(Reg8::E, Reg8::H),
            0x5D => Instruction::Ld(Reg8::E, Reg8::L),
            0x5E => Instruction::LdRegHlInd(Reg8::E),
            0x5F => Instruction::Ld(Reg8::E, Reg8::A),
            0x60 => Instruction::Ld(Reg8::H, Reg8::B),
            0x61 => Instruction::Ld(Reg8::H, Reg8::C),
            0x62 => Instruction::Ld(Reg8::H, Reg8::D),
            0x63 => Instruction::Ld(Reg8::H, Reg8::E),
            0x64 => Instruction::Ld(Reg8::H, Reg8::H),
            0x65 => Instruction::Ld(Reg8::H, Reg8::L),
            0x66 => Instruction::LdRegHlInd(Reg8::H),
            0x67 => Instruction::Ld(Reg8::H, Reg8::A),
            0x68 => Instruction::Ld(Reg8::L, Reg8::B),
            0x69 => Instruction::Ld(Reg8::L, Reg8::C),
            0x6A => Instruction::Ld(Reg8::L, Reg8::D),
            0x6B => Instruction::Ld(Reg8::L, Reg8::E),
            0x6C => Instruction::Ld(Reg8::L, Reg8::H),
            0x6D => Instruction::Ld(Reg8::L, Reg8::L),
            0x6E => Instruction::LdRegHlInd(Reg8::L),
            0x6F => Instruction::Ld(Reg8::L, Reg8::A),
            0x70 => Instruction::LdHlInd(Reg8::B),
            0x71 => Instruction::LdHlInd(Reg8::C),
            0x72 => Instruction::LdHlInd(Reg8::D),
            0x73 => Instruction::LdHlInd(Reg8::E),
            0x74 => Instruction::LdHlInd(Reg8::H),
            0x75 => Instruction::LdHlInd(Reg8::L),
            0x76 => Instruction::Halt,
            0x77 => Instruction::LdHlInd(Reg8::A),
            0x78 => Instruction::Ld(Reg8::A, Reg8::B),
            0x79 => Instruction::Ld(Reg8::A, Reg8::C),
            0x7A => Instruction::Ld(Reg8::A, Reg8::D),
            0x7B => Instruction::Ld(Reg8::A, Reg8::E),
            0x7C => Instruction::Ld(Reg8::A, Reg8::H),
            0x7D => Instruction::Ld(Reg8::A, Reg8::L),
            0x7E => Instruction::LdRegHlInd(Reg8::A),
            0x7F => Instruction::Ld(Reg8::A, Reg8::A),
            0x80 => Instruction::Add(Operand8::Reg(Reg8::B)),
            0x81 => Instruction::Add(Operand8::Reg(Reg8::C)),
            0x82 => Instruction::Add(Operand8::Reg(Reg8::D)),
            0x83 => Instruction::Add(Operand8::Reg(Reg8::E)),
            0x84 => Instruction::Add(Operand8::Reg(Reg8::H)),
            0x85 => Instruction::Add(Operand8::Reg(Reg8::L)),
            0x86 => Instruction::Add(Operand8::HlInd),
            0x87 => Instruction::Add(Operand8::Reg(Reg8::A)),
            0x88 => Instruction::Adc(Operand8::Reg(Reg8::B)),
            0x89 => Instruction::Adc(Operand8::Reg(Reg8::C)),
            0x8A => Instruction::Adc(Operand8::Reg(Reg8::D)),
            0x8B => Instruction::Adc(Operand8::Reg(Reg8::E)),
            0x8C => Instruction::Adc(Operand8::Reg(Reg8::H)),
            0x8D => Instruction::Adc(Operand8::Reg(Reg8::L)),
            0x8E => Instruction::Adc(Operand8::HlInd),
            0x8F => Instruction::Adc(Operand8::Reg(Reg8::A)),
            0x90 => Instruction::Sub(Operand8::Reg(Reg8::B)),
            0x91 => Instruction::Sub(Operand8::Reg(Reg8::C)),
            0x92 => Instruction::Sub(Operand8::Reg(Reg8::D)),
            0x93 => Instruction::Sub(Operand8::Reg(Reg8::E)),
            0x94 => Instruction::Sub(Operand8::Reg(Reg8::H)),
            0x95 => Instruction::Sub(Operand8::Reg(Reg8::L)),
            0x96 => Instruction::Sub(Operand8::HlInd),
            0x97 => Instruction::Sub(Operand8::Reg(Reg8::A)),
            0x98 => Instruction::Sbc(Operand8::Reg(Reg8::B)),
            0x99 => Instruction::Sbc(Operand8::Reg(Reg8::C)),
            0x9A => Instruction::Sbc(Operand8::Reg(Reg8::D)),
            0x9B => Instruction::Sbc(Operand8::Reg(Reg8::E)),
            0x9C => Instruction::Sbc(Operand8::Reg(Reg8::H)),
            0x9D => Instruction::Sbc(Operand8::Reg(Reg8::L)),
            0x9E => Instruction::Sbc(Operand8::HlInd),
            0x9F => Instruction::Sbc(Operand8::Reg(Reg8::A)),
            0xA0 => Instruction::And(Operand8::Reg(Reg8::B)),
            0xA1 => Instruction::And(Operand8::Reg(Reg8::C)),
            0xA2 => Instruction::And(Operand8::Reg(Reg8::D)),
            0xA3 => Instruction::And(Operand8::Reg(Reg8::E)),
            0xA4 => Instruction::And(Operand8::Reg(Reg8::H)),
            0xA5 => Instruction::And(Operand8::Reg(Reg8::L)),
            0xA6 => Instruction::And(Operand8::HlInd),
            0xA7 => Instruction::And(Operand8::Reg(Reg8::A)),
            0xA8 => Instruction::Xor(Operand8::Reg(Reg8::B)),
            0xA9 => Instruction::Xor(Operand8::Reg(Reg8::C)),
            0xAA => Instruction::Xor(Operand8::Reg(Reg8::D)),
            0xAB => Instruction::Xor(Operand8::Reg(Reg8::E)),
            0xAC => Instruction::Xor(Operand8::Reg(Reg8::H)),
            0xAD => Instruction::Xor(Operand8::Reg(Reg8::L)),
            0xAE => Instruction::Xor(Operand8::HlInd),
            0xAF => Instruction::Xor(Operand8::Reg(Reg8::A)),
            0xB0 => Instruction::Or(Operand8::Reg(Reg8::B)),
            0xB1 => Instruction::Or(Operand8::Reg(Reg8::C)),
            0xB2 => Instruction::Or(Operand8::Reg(Reg8::D)),
            0xB3 => Instruction::Or(Operand8::Reg(Reg8::E)),
            0xB4 => Instruction::Or(Operand8::Reg(Reg8::H)),
            0xB5 => Instruction::Or(Operand8::Reg(Reg8::L)),
            0xB6 => Instruction::Or(Operand8::HlInd),
            0xB7 => Instruction::Or(Operand8::Reg(Reg8::A)),
            0xB8 => Instruction::Cp(Operand8::Reg(Reg8::B)),
            0xB9 => Instruction::Cp(Operand8::Reg(Reg8::C)),
            0xBA => Instruction::Cp(Operand8::Reg(Reg8::D)),
            0xBB => Instruction::Cp(Operand8::Reg(Reg8::E)),
            0xBC => Instruction::Cp(Operand8::Reg(Reg8::H)),
            0xBD => Instruction::Cp(Operand8::Reg(Reg8::L)),
            0xBE => Instruction::Cp(Operand8::HlInd),
            0xBF => Instruction::Cp(Operand8::Reg(Reg8::A)),
            0xC0 => Instruction::Ret(Cond::NotZero),
            0xC1 => Instruction::Pop(Reg16::BC),
            0xC2 => Instruction::Jp(Cond::NotZero),
            0xC3 => Instruction::Jp(Cond::Always),
            0xC4 => Instruction::Call(Cond::NotZero),
            0xC5 => Instruction::Push(Reg16::BC),
            0xC6 => Instruction::AddImm,
            0xC7 => Instruction::Rst(0x00),
            0xC8 => Instruction::Ret(Cond::Zero),
            0xC9 => Instruction::Ret(Cond::Always),
            0xCA => Instruction::Jp(Cond::Zero),
            0xCB => Instruction::PrefixCb,
            0xCC => Instruction::Call(Cond::Zero),
            0xCD => Instruction::Call(Cond::Always),
            0xCE => Instruction::AdcImm,
            0xCF => Instruction::Rst(0x08),
            0xD0 => Instruction::Ret(Cond::NotCarry),
            0xD1 => Instruction::Pop(Reg16::DE),
            0xD2 => Instruction::Jp(Cond::NotCarry),
            0xD3 => Instruction::Stop,
            0xD4 => Instruction::Call(Cond::NotCarry),
            0xD5 => Instruction::Push(Reg16::DE),
            0xD6 => Instruction::SubImm,
            0xD7 => Instruction::Rst(0x10),
            0xD8 => Instruction::Ret(Cond::Carry),
            0xD9 => Instruction::Reti,
            0xDA => Instruction::Jp(Cond::Carry),
            0xDB => Instruction::Stop,
            0xDC => Instruction::Call(Cond::Carry),
            0xDD => Instruction::Stop,
            0xDE => Instruction::SbcImm,
            0xDF => Instruction::Rst(0x18),
            0xE0 => Instruction::LdhImm8IndA,
            0xE1 => Instruction::Pop(Reg16::HL),
            0xE2 => Instruction::LdhCIndA,
            0xE3 => Instruction::Stop,
            0xE4 => Instruction::Stop,
            0xE5 => Instruction::Push(Reg16::HL),
            0xE6 => Instruction::AndImm,
            0xE7 => Instruction::Rst(0x20),
            0xE8 => Instruction::AddSpImm,
            0xE9 => Instruction::JpHl,
            0xEA => Instruction::LdImmIndA,
            0xEB => Instruction::Stop,
            0xEC => Instruction::Stop,
            0xED => Instruction::Stop,
            0xEE => Instruction::XorImm,
            0xEF => Instruction::Rst(0x28),
            0xF0 => Instruction::LdhAImm8Ind,
            0xF1 => Instruction::Pop(Reg16::AF),
            0xF2 => Instruction::LdhACInd,
            0xF3 => Instruction::Di,
            0xF4 => Instruction::Stop,
            0xF5 => Instruction::Push(Reg16::AF),
            0xF6 => Instruction::OrImm,
            0xF7 => Instruction::Rst(0x30),
            0xF8 => Instruction::LdHlSpImm,
            0xF9 => Instruction::LdSpHl,
            0xFA => Instruction::LdAImm16Ind,
            0xFB => Instruction::Ei,
            0xFC => Instruction::Stop,
            0xFD => Instruction::Stop,
            0xFE => Instruction::CpImm,
            0xFF => Instruction::Rst(0x38),
        }
    }

    /// Decodes the byte that follows the 0xCB prefix. Every byte decodes.
    #[verifier::rlimit(100)]
    pub fn from_cb_byte(opcode: u8) -> (r: Self)
        ensures
            r == decode_cb_spec(opcode),
    {
        match opcode {
            0x00 => Instruction::Rlc(Operand8::Reg(Reg8::B)),
            0x01 => Instruction::Rlc(Operand8::Reg(Reg8::C)),
            0x02 => Instruction::Rlc(Operand8::Reg(Reg8::D)),
            0x03 => Instruction::Rlc(Operand8::Reg(Reg8::E)),
            0x04 => Instruction::Rlc(Operand8::Reg(Reg8::H)),
            0x05 => Instruction::Rlc(Operand8::Reg(Reg8::L)),
            0x06 => Instruction::Rlc(Operand8::HlInd),
            0x07 => Instruction::Rlc(Operand8::Reg(Reg8::A)),
            0x08 => Instruction::Rrc(Operand8::Reg(Reg8::B)),
            0x09 => Instruction::Rrc(Operand8::Reg(Reg8::C)),
            0x0A => Instruction::Rrc(Operand8::Reg(Reg8::D)),
            0x0B => Instruction::Rrc(Operand8::Reg(Reg8::E)),
            0x0C => Instruction::Rrc(Operand8::Reg(Reg8::H)),
            0x0D => Instruction::Rrc(Operand8::Reg(Reg8::L)),
            0x0E => Instruction::Rrc(Operand8::HlInd),
            0x0F => Instruction::Rrc(Operand8::Reg(Reg8::A)),
            0x10 => Instruction::Rl(Operand8::Reg(Reg8::B)),
            0x11 => Instruction::Rl(Operand8::Reg(Reg8::C)),
            0x12 => Instruction::Rl(Operand8::Reg(Reg8::D)),
            0x13 => Instruction::Rl(Operand8::Reg(Reg8::E)),
            0x14 => Instruction::Rl(Operand8::Reg(Reg8::H)),
            0x15 => Instruction::Rl(Operand8::Reg(Reg8::L)),
            0x16 => Instruction::Rl(Operand8::HlInd),
            0x17 => Instruction::Rl(Operand8::Reg(Reg8::A)),
            0x18 => Instruction::Rr(Operand8::Reg(Reg8::B)),
            0x19 => Instruction::Rr(Operand8::Reg(Reg8::C)),
            0x1A => Instruction::Rr(Operand8::Reg(Reg8::D)),
            0x1B => Instruction::Rr(Operand8::Reg(Reg8::E)),
            0x1C => Instruction::Rr(Operand8::Reg(Reg8::H)),
            0x1D => Instruction::Rr(Operand8::Reg(Reg8::L)),
            0x1E => Instruction::Rr(Operand8::HlInd),
            0x1F => Instruction::Rr(Operand8::Reg(Reg8::A)),
            0x20 => Instruction::Sla(Operand8::Reg(Reg8::B)),
            0x21 => Instruction::Sla(Operand8::Reg(Reg8::C)),
            0x22 => Instruction::Sla(Operand8::Reg(Reg8::D)),
            0x23 => Instruction::Sla(Operand8::Reg(Reg8::E)),
            0x24 => Instruction::Sla(Operand8::Reg(Reg8::H)),
            0x25 => Instruction::Sla(Operand8::Reg(Reg8::L)),
            0x26 => Instruction::Sla(Operand8::HlInd),
            0x27 => Instruction::Sla(Operand8::Reg(Reg8::A)),
            0x28 => Instruction::Sra(Operand8::Reg(Reg8::B)),
            0x29 => Instruction::Sra(Operand8::Reg(Reg8::C)),
            0x2A => Instruction::Sra(Operand8::Reg(Reg8::D)),
            0x2B => Instruction::Sra(Operand8::Reg(Reg8::E)),
            0x2C => Instruction::Sra(Operand8::Reg(Reg8::H)),
            0x2D => Instruction::Sra(Operand8::Reg(Reg8::L)),
            0x2E => Instruction::Sra(Operand8::HlInd),
            0x2F => Instruction::Sra(Operand8::Reg(Reg8::A)),
            0x30 => Instruction::Swap(Operand8::Reg(Reg8::B)),
            0x31 => Instruction::Swap(Operand8::Reg(Reg8::C)),
            0x32 => Instruction::Swap(Operand8::Reg(Reg8::D)),
            0x33 => Instruction::Swap(Operand8::Reg(Reg8::E)),
            0x34 => Instruction::Swap(Operand8::Reg(Reg8::H)),
            0x35 => Instruction::Swap(Operand8::Reg(Reg8::L)),
            0x36 => Instruction::Swap(Operand8::HlInd),
            0x37 => Instruction::Swap(Operand8::Reg(Reg8::A)),
            0x38 => Instruction::Srl(Operand8::Reg(Reg8::B)),
            0x39 => Instruction::Srl(Operand8::Reg(Reg8::C)),
            0x3A => Instruction::Srl(Operand8::Reg(Reg8::D)),
            0x3B => Instruction::Srl(Operand8::Reg(Reg8::E)),
            0x3C => Instruction::Srl(Operand8::Reg(Reg8::H)),
            0x3D => Instruction::Srl(Operand8::Reg(Reg8::L)),
            0x3E => Instruction::Srl(Operand8::HlInd),
            0x3F => Instruction::Srl(Operand8::Reg(Reg8::A)),
            0x40 => Instruction::Bit(0, Operand8::Reg(Reg8::B)),
            0x41 => Instruction::Bit(0, Operand8::Reg(Reg8::C)),
            0x42 => Instruction::Bit(0, Operand8::Reg(Reg8::D)),
            0x43 => Instruction::Bit(0, Operand8::Reg(Reg8::E)),
            0x44 => Instruction::Bit(0, Operand8::Reg(Reg8::H)),
            0x45 => Instruction::Bit(0, Operand8::Reg(Reg8::L)),
            0x46 => Instruction::Bit(0, Operand8::HlInd),
            0x47 => Instruction::Bit(0, Operand8::Reg(Reg8::A)),
            0x48 => Instruction::Bit(1, Operand8::Reg(Reg8::B)),
            0x49 => Instruction::Bit(1, Operand8::Reg(Reg8::C)),
            0x4A => Instruction::Bit(1, Operand8::Reg(Reg8::D)),
            0x4B => Instruction::Bit(1, Operand8::Reg(Reg8::E)),
            0x4C => Instruction::Bit(1, Operand8::Reg(Reg8::H)),
            0x4D => Instruction::Bit(1, Operand8::Reg(Reg8::L)),
            0x4E => Instruction::Bit(1, Operand8::HlInd),
            0x4F => Instruction::Bit(1, Operand8::Reg(Reg8::A)),
            0x50 => Instruction::Bit(2, Operand8::Reg(Reg8::B)),
            0x51 => Instruction::Bit(2, Operand8::Reg(Reg8::C)),
            0x52 => Instruction::Bit(2, Operand8::Reg(Reg8::D)),
            0x53 => Instruction::Bit(2, Operand8::Reg(Reg8::E)),
            0x54 => Instruction::Bit(2, Operand8::Reg(Reg8::H)),
            0x55 => Instruction::Bit(2, Operand8::Reg(Reg8::L)),
            0x56 => Instruction::Bit(2, Operand8::HlInd),
            0x57 => Instruction::Bit(2, Operand8::Reg(Reg8::A)),
            0x58 => Instruction::Bit(3, Operand8::Reg(Reg8::B)),
            0x59 => Instruction::Bit(3, Operand8::Reg(Reg8::C)),
            0x5A => Instruction::Bit(3, Operand8::Reg(Reg8::D)),
            0x5B => Instruction::Bit(3, Operand8::Reg(Reg8::E)),
            0x5C => Instruction::Bit(3, Operand8::Reg(Reg8::H)),
            0x5D => Instruction::Bit(3, Operand8::Reg(Reg8::L)),
            0x5E => Instruction::Bit(3, Operand8::HlInd),
            0x5F => Instruction::Bit(3, Operand8::Reg(Reg8::A)),
            0x60 => Instruction::Bit(4, Operand8::Reg(Reg8::B)),
            0x61 => Instruction::Bit(4, Operand8::Reg(Reg8::C)),
            0x62 => Instruction::Bit(4, Operand8::Reg(Reg8::D)),
            0x63 => Instruction::Bit(4, Operand8::Reg(Reg8::E)),
            0x64 => Instruction::Bit(4, Operand8::Reg(Reg8::H)),
            0x65 => Instruction::Bit(4, Operand8::Reg(Reg8::L)),
            0x66 => Instruction::Bit(4, Operand8::HlInd),
            0x67 => Instruction::Bit(4, Operand8::Reg(Reg8::A)),
            0x68 => Instruction::Bit(5, Operand8::Reg(Reg8::B)),
            0x69 => Instruction::Bit(5, Operand8::Reg(Reg8::C)),
            0x6A => Instruction::Bit(5, Operand8::Reg(Reg8::D)),
            0x6B => Instruction::Bit(5, Operand8::Reg(Reg8::E)),
            0x6C => Instruction::Bit(5, Operand8::Reg(Reg8::H)),
            0x6D => Instruction::Bit(5, Operand8::Reg(Reg8::L)),
            0x6E => Instruction::Bit(5, Operand8::HlInd),
            0x6F => Instruction::Bit(5, Operand8::Reg(Reg8::A)),
            0x70 => Instruction::Bit(6, Operand8::Reg(Reg8::B)),
            0x71 => Instruction::Bit(6, Operand8::Reg(Reg8::C)),
            0x72 => Instruction::Bit(6, Operand8::Reg(Reg8::D)),
            0x73 => Instruction::Bit(6, Operand8::Reg(Reg8::E)),
            0x74 => Instruction::Bit(6, Operand8::Reg(Reg8::H)),
            0x75 => Instruction::Bit(6, Operand8::Reg(Reg8::L)),
            0x76 => Instruction::Bit(6, Operand8::HlInd),
            0x77 => Instruction::Bit(6, Operand8::Reg(Reg8::A)),
            0x78 => Instruction::Bit(7, Operand8::Reg(Reg8::B)),
            0x79 => Instruction::Bit(7, Operand8::Reg(Reg8::C)),
            0x7A => Instruction::Bit(7, Operand8::Reg(Reg8::D)),
            0x7B => Instruction::Bit(7, Operand8::Reg(Reg8::E)),
            0x7C => Instruction::Bit(7, Operand8::Reg(Reg8::H)),
            0x7D => Instruction::Bit(7, Operand8::Reg(Reg8::L)),
            0x7E => Instruction::Bit(7, Operand8::HlInd),
            0x7F => Instruction::Bit(7, Operand8::Reg(Reg8::A)),
            0x80 => Instruction::Res(0, Operand8::Reg(Reg8::B)),
            0x81 => Instruction::Res(0, Operand8::Reg(Reg8::C)),
            0x82 => Instruction::Res(0, Operand8::Reg(Reg8::D)),
            0x83 => Instruction::Res(0, Operand8::Reg(Reg8::E)),
            0x84 => Instruction::Res(0, Operand8::Reg(Reg8::H)),
            0x85 => Instruction::Res(0, Operand8::Reg(Reg8::L)),
            0x86 => Instruction::Res(0, Operand8::HlInd),
            0x87 => Instruction::Res(0, Operand8::Reg(Reg8::A)),
            0x88 => Instruction::Res(1, Operand8::Reg(Reg8::B)),
            0x89 => Instruction::Res(1, Operand8::Reg(Reg8::C)),
            0x8A => Instruction::Res(1, Operand8::Reg(Reg8::D)),
            0x8B => Instruction::Res(1, Operand8::Reg(Reg8::E)),
            0x8C => Instruction::Res(1, Operand8::Reg(Reg8::H)),
            0x8D => Instruction::Res(1, Operand8::Reg(Reg8::L)),
            0x8E => Instruction::Res(1, Operand8::HlInd),
            0x8F => Instruction::Res(1, Operand8::Reg(Reg8::A)),
            0x90 => Instruction::Res(2, Operand8::Reg(Reg8::B)),
            0x91 => Instruction::Res(2, Operand8::Reg(Reg8::C)),
            0x92 => Instruction::Res(2, Operand8::Reg(Reg8::D)),
            0x93 => Instruction::Res(2, Operand8::Reg(Reg8::E)),
            0x94 => Instruction::Res(2, Operand8::Reg(Reg8::H)),
            0x95 => Instruction::Res(2, Operand8::Reg(Reg8::L)),
            0x96 => Instruction::Res(2, Operand8::HlInd),
            0x97 => Instruction::Res(2, Operand8::Reg(Reg8::A)),
            0x98 => Instruction::Res(3, Operand8::Reg(Reg8::B)),
            0x99 => Instruction::Res(3, Operand8::Reg(Reg8::C)),
            0x9A => Instruction::Res(3, Operand8::Reg(Reg8::D)),
            0x9B => Instruction::Res(3, Operand8::Reg(Reg8::E)),
            0x9C => Instruction::Res(3, Operand8::Reg(Reg8::H)),
            0x9D => Instruction::Res(3, Operand8::Reg(Reg8::L)),
            0x9E => Instruction::Res(3, Operand8::HlInd),
            0x9F => Instruction::Res(3, Operand8::Reg(Reg8::A)),
            0xA0 => Instruction::Res(4, Operand8::Reg(Reg8::B)),
            0xA1 => Instruction::Res(4, Operand8::Reg(Reg8::C)),
            0xA2 => Instruction::Res(4, Operand8::Reg(Reg8::D)),
            0xA3 => Instruction::Res(4, Operand8::Reg(Reg8::E)),
            0xA4 => Instruction::Res(4, Operand8::Reg(Reg8::H)),
            0xA5 => Instruction::Res(4, Operand8::Reg(Reg8::L)),
            0xA6 => Instruction::Res(4, Operand8::HlInd),
            0xA7 => Instruction::Res(4, Operand8::Reg(Reg8::A)),
            0xA8 => Instruction::Res(5, Operand8::Reg(Reg8::B)),
            0xA9 => Instruction::Res(5, Operand8::Reg(Reg8::C)),
            0xAA => Instruction::Res(5, Operand8::Reg(Reg8::D)),
            0xAB => Instruction::Res(5, Operand8::Reg(Reg8::E)),
            0xAC => Instruction::Res(5, Operand8::Reg(Reg8::H)),
            0xAD => Instruction::Res(5, Operand8::Reg(Reg8::L)),
            0xAE => Instruction::Res(5, Operand8::HlInd),
            0xAF => Instruction::Res(5, Operand8::Reg(Reg8::A)),
            0xB0 => Instruction::Res(6, Operand8::Reg(Reg8::B)),
            0xB1 => Instruction::Res(6, Operand8::Reg(Reg8::C)),
            0xB2 => Instruction::Res(6, Operand8::Reg(Reg8::D)),
            0xB3 => Instruction::Res(6, Operand8::Reg(Reg8::E)),
            0xB4 => Instruction::Res(6, Operand8::Reg(Reg8::H)),
            0xB5 => Instruction::Res(6, Operand8::Reg(Reg8::L)),
            0xB6 => Instruction::Res(6, Operand8::HlInd),
            0xB7 => Instruction::Res(6, Operand8::Reg(Reg8::A)),
            0xB8 => Instruction::Res(7, Operand8::Reg(Reg8::B)),
            0xB9 => Instruction::Res(7, Operand8::Reg(Reg8::C)),
            0xBA => Instruction::Res(7, Operand8::Reg(Reg8::D)),
            0xBB => Instruction::Res(7, Operand8::Reg(Reg8::E)),
            0xBC => Instruction::Res(7, Operand8::Reg(Reg8::H)),
            0xBD => Instruction::Res(7, Operand8::Reg(Reg8::L)),
            0xBE => Instruction::Res(7, Operand8::HlInd),
            0xBF => Instruction::Res(7, Operand8::Reg(Reg8::A)),
            0xC0 => Instruction::SetBit(0, Operand8::Reg(Reg8::B)),
            0xC1 => Instruction::SetBit(0, Operand8::Reg(Reg8::C)),
            0xC2 => Instruction::SetBit(0, Operand8::Reg(Reg8::D)),
            0xC3 => Instruction::SetBit(0, Operand8::Reg(Reg8::E)),
            0xC4 => Instruction::SetBit(0, Operand8::Reg(Reg8::H)),
            0xC5 => Instruction::SetBit(0, Operand8::Reg(Reg8::L)),
            0xC6 => Instruction::SetBit(0, Operand8::HlInd),
            0xC7 => Instruction::SetBit(0, Operand8::Reg(Reg8::A)),
            0xC8 => Instruction::SetBit(1, Operand8::Reg(Reg8::B)),
            0xC9 => Instruction::SetBit(1, Operand8::Reg(Reg8::C)),
            0xCA => Instruction::SetBit(1, Operand8::Reg(Reg8::D)),
            0xCB => Instruction::SetBit(1, Operand8::Reg(Reg8::E)),
            0xCC => Instruction::SetBit(1, Operand8::Reg(Reg8::H)),
            0xCD => Instruction::SetBit(1, Operand8::Reg(Reg8::L)),
            0xCE => Instruction::SetBit(1, Operand8::HlInd),
            0xCF => Instruction::SetBit(1, Operand8::Reg(Reg8::A)),
            0xD0 => Instruction::SetBit(2, Operand8::Reg(Reg8::B)),
            0xD1 => Instruction::SetBit(2, Operand8::Reg(Reg8::C)),
            0xD2 => Instruction::SetBit(2, Operand8::Reg(Reg8::D)),
            0xD3 => Instruction::SetBit(2, Operand8::Reg(Reg8::E)),
            0xD4 => Instruction::SetBit(2, Operand8::Reg(Reg8::H)),
            0xD5 => Instruction::SetBit(2, Operand8::Reg(Reg8::L)),
            0xD6 => Instruction::SetBit(2, Operand8::HlInd),
            0xD7 => Instruction::SetBit(2, Operand8::Reg(Reg8::A)),
            0xD8 => Instruction::SetBit(3, Operand8::Reg(Reg8::B)),
            0xD9 => Instruction::SetBit(3, Operand8::Reg(Reg8::C)),
            0xDA => Instruction::SetBit(3, Operand8::Reg(Reg8::D)),
            0xDB => Instruction::SetBit(3, Operand8::Reg(Reg8::E)),
            0xDC => Instruction::SetBit(3, Operand8::Reg(Reg8::H)),
            0xDD => Instruction::SetBit(3, Operand8::Reg(Reg8::L)),
            0xDE => Instruction::SetBit(3, Operand8::HlInd),
            0xDF => Instruction::SetBit(3, Operand8::Reg(Reg8::A)),
            0xE0 => Instruction::SetBit(4, Operand8::Reg(Reg8::B)),
            0xE1 => Instruction::SetBit(4, Operand8::Reg(Reg8::C)),
            0xE2 => Instruction::SetBit(4, Operand8::Reg(Reg8::D)),
            0xE3 => Instruction::SetBit(4, Operand8::Reg(Reg8::E)),
            0xE4 => Instruction::SetBit(4, Operand8::Reg(Reg8::H)),
            0xE5 => Instruction::SetBit(4, Operand8::Reg(Reg8::L)),
            0xE6 => Instruction::SetBit(4, Operand8::HlInd),
            0xE7 => Instruction::SetBit(4, Operand8::Reg(Reg8::A)),
            0xE8 => Instruction::SetBit(5, Operand8::Reg(Reg8::B)),
            0xE9 => Instruction::SetBit(5, Operand8::Reg(Reg8::C)),
            0xEA => Instruction::SetBit(5, Operand8::Reg(Reg8::D)),
            0xEB => Instruction::SetBit(5, Operand8::Reg(Reg8::E)),
            0xEC => Instruction::SetBit(5, Operand8::Reg(Reg8::H)),
            0xED => Instruction::SetBit(5, Operand8::Reg(Reg8::L)),
            0xEE => Instruction::SetBit(5, Operand8::HlInd),
            0xEF => Instruction::SetBit(5, Operand8::Reg(Reg8::A)),
            0xF0 => Instruction::SetBit(6, Operand8::Reg(Reg8::B)),
            0xF1 => Instruction::SetBit(6, Operand8::Reg(Reg8::C)),
            0xF2 => Instruction::SetBit(6, Operand8::Reg(Reg8::D)),
            0xF3 => Instruction::SetBit(6, Operand8::Reg(Reg8::E)),
            0xF4 => Instruction::SetBit(6, Operand8::Reg(Reg8::H)),
            0xF5 => Instruction::SetBit(6, Operand8::Reg(Reg8::L)),
            0xF6 => Instruction::SetBit(6, Operand8::HlInd),
            0xF7 => Instruction::SetBit(6, Operand8::Reg(Reg8::A)),
            0xF8 => Instruction::SetBit(7, Operand8::Reg(Reg8::B)),
            0xF9 => Instruction::SetBit(7, Operand8::Reg(Reg8::C)),
            0xFA => Instruction::SetBit(7, Operand8::Reg(Reg8::D)),
            0xFB => Instruction::SetBit(7, Operand8::Reg(Reg8::E)),
            0xFC => Instruction::SetBit(7, Operand8::Reg(Reg8::H)),
            0xFD => Instruction::SetBit(7, Operand8::Reg(Reg8::L)),
            0xFE => Instruction::SetBit(7, Operand8::HlInd),
            0xFF => Instruction::SetBit(7, Operand8::Reg(Reg8::A)),
        }
    }

    /// Whether the instruction completes within the machine cycle that
    /// fetched its opcode.
    pub fn is_single_cycle(&self) -> (r: bool)
        ensures
            r == single_cycle_spec(*self),
    {
        match self {
            Instruction::Ld(_, _) => true,
            Instruction::Add(Operand8::Reg(_)) | Instruction::Adc(Operand8::Reg(_))
            | Instruction::Sub(Operand8::Reg(_)) | Instruction::Sbc(Operand8::Reg(_))
            | Instruction::And(Operand8::Reg(_)) | Instruction::Xor(Operand8::Reg(_))
            | Instruction::Or(Operand8::Reg(_)) | Instruction::Cp(Operand8::Reg(_)) => true,
            Instruction::Inc(Operand8::Reg(_)) | Instruction::Dec(Operand8::Reg(_)) => true,
            Instruction::Cpl | Instruction::Ccf | Instruction::Scf | Instruction::Daa => true,
            Instruction::RlcA | Instruction::RrcA | Instruction::RlA | Instruction::RrA => true,
            Instruction::JpHl => true,
            Instruction::Nop | Instruction::Di | Instruction::Ei | Instruction::Halt
            | Instruction::Stop => true,
            _ => false,
        }
    }
}

} // verus!
