use gameboy::cpu::{Cond, Instruction, Operand8, Reg16, Reg8};

#[test]
fn decodes_loads() {
    assert!(matches!(Instruction::from_byte(0x47), Instruction::Ld(Reg8::B, Reg8::A)));
    assert!(matches!(Instruction::from_byte(0x3E), Instruction::LdImm(Reg8::A)));
    assert!(matches!(Instruction::from_byte(0x21), Instruction::Ld16Imm(Reg16::HL)));
    assert!(matches!(Instruction::from_byte(0x31), Instruction::Ld16Imm(Reg16::SP)));
    assert!(matches!(Instruction::from_byte(0x70), Instruction::LdHlInd(Reg8::B)));
    assert!(matches!(Instruction::from_byte(0x7E), Instruction::LdRegHlInd(Reg8::A)));
    assert!(matches!(Instruction::from_byte(0x36), Instruction::LdHlIndImm));
    assert!(matches!(Instruction::from_byte(0x22), Instruction::LdHliA));
    assert!(matches!(Instruction::from_byte(0x32), Instruction::LdHldA));
    assert!(matches!(Instruction::from_byte(0x2A), Instruction::LdAhli));
    assert!(matches!(Instruction::from_byte(0x3A), Instruction::LdAHld));
    assert!(matches!(Instruction::from_byte(0x12), Instruction::LdReg16IndA(Reg16::DE)));
    assert!(matches!(Instruction::from_byte(0xE0), Instruction::LdhImm8IndA));
    assert!(matches!(Instruction::from_byte(0xF0), Instruction::LdhAImm8Ind));
    assert!(matches!(Instruction::from_byte(0xE2), Instruction::LdhCIndA));
    assert!(matches!(Instruction::from_byte(0xF2), Instruction::LdhACInd));
    assert!(matches!(Instruction::from_byte(0xEA), Instruction::LdImmIndA));
    assert!(matches!(Instruction::from_byte(0xFA), Instruction::LdAImm16Ind));
    assert!(matches!(Instruction::from_byte(0x08), Instruction::LdImm16Sp));
    assert!(matches!(Instruction::from_byte(0xF8), Instruction::LdHlSpImm));
    assert!(matches!(Instruction::from_byte(0xF9), Instruction::LdSpHl));
}

#[test]
fn decodes_arithmetic() {
    assert!(matches!(Instruction::from_byte(0x80), Instruction::Add(Operand8::Reg(Reg8::B))));
    assert!(matches!(Instruction::from_byte(0x86), Instruction::Add(Operand8::HlInd)));
    assert!(matches!(Instruction::from_byte(0x8F), Instruction::Adc(Operand8::Reg(Reg8::A))));
    assert!(matches!(Instruction::from_byte(0x96), Instruction::Sub(Operand8::HlInd)));
    assert!(matches!(Instruction::from_byte(0xAF), Instruction::Xor(Operand8::Reg(Reg8::A))));
    assert!(matches!(Instruction::from_byte(0xBE), Instruction::Cp(Operand8::HlInd)));
    assert!(matches!(Instruction::from_byte(0xC6), Instruction::AddImm));
    assert!(matches!(Instruction::from_byte(0xDE), Instruction::SbcImm));
    assert!(matches!(Instruction::from_byte(0xFE), Instruction::CpImm));
    assert!(matches!(Instruction::from_byte(0x34), Instruction::Inc(Operand8::HlInd)));
    assert!(matches!(Instruction::from_byte(0x35), Instruction::Dec(Operand8::HlInd)));
    assert!(matches!(Instruction::from_byte(0x23), Instruction::Inc16(Reg16::HL)));
    assert!(matches!(Instruction::from_byte(0x3C), Instruction::Inc(Operand8::Reg(Reg8::A))));
    assert!(matches!(Instruction::from_byte(0x05), Instruction::Dec(Operand8::Reg(Reg8::B))));
    assert!(matches!(Instruction::from_byte(0x09), Instruction::Add16(Reg16::BC)));
    assert!(matches!(Instruction::from_byte(0x33), Instruction::Inc16(Reg16::SP)));
    assert!(matches!(Instruction::from_byte(0x2B), Instruction::Dec16(Reg16::HL)));
    assert!(matches!(Instruction::from_byte(0xE8), Instruction::AddSpImm));
}

#[test]
fn decodes_control_flow() {
    assert!(matches!(Instruction::from_byte(0x18), Instruction::Jr(Cond::Always)));
    assert!(matches!(Instruction::from_byte(0x20), Instruction::Jr(Cond::NotZero)));
    assert!(matches!(Instruction::from_byte(0x38), Instruction::Jr(Cond::Carry)));
    assert!(matches!(Instruction::from_byte(0xC3), Instruction::Jp(Cond::Always)));
    assert!(matches!(Instruction::from_byte(0xCA), Instruction::Jp(Cond::Zero)));
    assert!(matches!(Instruction::from_byte(0xE9), Instruction::JpHl));
    assert!(matches!(Instruction::from_byte(0xCD), Instruction::Call(Cond::Always)));
    assert!(matches!(Instruction::from_byte(0xD4), Instruction::Call(Cond::NotCarry)));
    assert!(matches!(Instruction::from_byte(0xC9), Instruction::Ret(Cond::Always)));
    assert!(matches!(Instruction::from_byte(0xD9), Instruction::Reti));
    assert!(matches!(Instruction::from_byte(0xC7), Instruction::Rst(0x00)));
    assert!(matches!(Instruction::from_byte(0xFF), Instruction::Rst(0x38)));
    assert!(matches!(Instruction::from_byte(0xF5), Instruction::Push(Reg16::AF)));
    assert!(matches!(Instruction::from_byte(0xC1), Instruction::Pop(Reg16::BC)));
}

#[test]
fn decodes_miscellaneous() {
    assert!(matches!(Instruction::from_byte(0x00), Instruction::Nop));
    assert!(matches!(Instruction::from_byte(0x10), Instruction::Stop));
    assert!(matches!(Instruction::from_byte(0x76), Instruction::Halt));
    assert!(matches!(Instruction::from_byte(0xCB), Instruction::PrefixCb));
    assert!(matches!(Instruction::from_byte(0xF3), Instruction::Di));
    assert!(matches!(Instruction::from_byte(0xFB), Instruction::Ei));
    assert!(matches!(Instruction::from_byte(0x27), Instruction::Daa));
    assert!(matches!(Instruction::from_byte(0x2F), Instruction::Cpl));
    assert!(matches!(Instruction::from_byte(0x37), Instruction::Scf));
    assert!(matches!(Instruction::from_byte(0x3F), Instruction::Ccf));
    assert!(matches!(Instruction::from_byte(0x07), Instruction::RlcA));
    assert!(matches!(Instruction::from_byte(0x1F), Instruction::RrA));
}

#[test]
fn undefined_opcodes_decode_as_stop() {
    for op in [0xD3u8, 0xDB, 0xDD, 0xE3, 0xE4, 0xEB, 0xEC, 0xED, 0xF4, 0xFC, 0xFD] {
        assert!(matches!(Instruction::from_byte(op), Instruction::Stop), "opcode {:#04X}", op);
    }
}

#[test]
fn decodes_extended_table() {
    assert!(matches!(Instruction::from_cb_byte(0x00), Instruction::Rlc(Operand8::Reg(Reg8::B))));
    assert!(matches!(Instruction::from_cb_byte(0x0E), Instruction::Rrc(Operand8::HlInd)));
    assert!(matches!(Instruction::from_cb_byte(0x11), Instruction::Rl(Operand8::Reg(Reg8::C))));
    assert!(matches!(Instruction::from_cb_byte(0x1F), Instruction::Rr(Operand8::Reg(Reg8::A))));
    assert!(matches!(Instruction::from_cb_byte(0x27), Instruction::Sla(Operand8::Reg(Reg8::A))));
    assert!(matches!(Instruction::from_cb_byte(0x2E), Instruction::Sra(Operand8::HlInd)));
    assert!(matches!(Instruction::from_cb_byte(0x37), Instruction::Swap(Operand8::Reg(Reg8::A))));
    assert!(matches!(Instruction::from_cb_byte(0x3F), Instruction::Srl(Operand8::Reg(Reg8::A))));
    assert!(matches!(Instruction::from_cb_byte(0x7C), Instruction::Bit(7, Operand8::Reg(Reg8::H))));
    assert!(matches!(Instruction::from_cb_byte(0x46), Instruction::Bit(0, Operand8::HlInd)));
    assert!(matches!(Instruction::from_cb_byte(0x98), Instruction::Res(3, Operand8::Reg(Reg8::B))));
    assert!(matches!(Instruction::from_cb_byte(0xC6), Instruction::SetBit(0, Operand8::HlInd)));
    assert!(matches!(Instruction::from_cb_byte(0xFF), Instruction::SetBit(7, Operand8::Reg(Reg8::A))));
}

#[test]
fn single_cycle_instructions() {
    assert!(Instruction::from_byte(0x47).is_single_cycle());
    assert!(Instruction::from_byte(0x80).is_single_cycle());
    assert!(Instruction::from_byte(0x3C).is_single_cycle());
    assert!(Instruction::from_byte(0x07).is_single_cycle());
    assert!(Instruction::from_byte(0x00).is_single_cycle());
    assert!(!Instruction::from_byte(0xE2).is_single_cycle());
    assert!(Instruction::from_byte(0xE9).is_single_cycle());
    assert!(!Instruction::from_byte(0x86).is_single_cycle());
    assert!(!Instruction::from_byte(0x3E).is_single_cycle());
    assert!(!Instruction::from_byte(0x34).is_single_cycle());
    assert!(!Instruction::from_byte(0x03).is_single_cycle());
    assert!(!Instruction::from_byte(0xCB).is_single_cycle());
}
