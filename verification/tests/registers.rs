use gameboy::cpu::{Flag, Reg16, Reg8, Regs};

#[test]
fn new_registers_are_zero() {
    let r = Regs::new();
    assert_eq!(r.a, 0);
    assert_eq!(r.f, 0);
    assert_eq!(r.PC(), 0);
    assert_eq!(r.read16(Reg16::SP), 0);
    assert_eq!(r.read16(Reg16::HL), 0);
}

#[test]
fn write8_then_read8() {
    let mut r = Regs::new();
    r.write8(Reg8::B, 0x12);
    r.write8(Reg8::L, 0x34);
    assert_eq!(r.read8(Reg8::B), 0x12);
    assert_eq!(r.read8(Reg8::L), 0x34);
    assert_eq!(r.read8(Reg8::C), 0);
    assert_eq!(r.b, 0x12);
}

#[test]
fn pairs_combine_high_and_low() {
    let mut r = Regs::new();
    r.write8(Reg8::H, 0xC1);
    r.write8(Reg8::L, 0x02);
    assert_eq!(r.read16(Reg16::HL), 0xC102);
    r.write16(Reg16::DE, 0xBEEF);
    assert_eq!(r.read8(Reg8::D), 0xBE);
    assert_eq!(r.read8(Reg8::E), 0xEF);
    assert_eq!(r.read16(Reg16::DE), 0xBEEF);
}

#[test]
fn af_drops_low_nibble_of_f() {
    let mut r = Regs::new();
    r.write16(Reg16::AF, 0x12FF);
    assert_eq!(r.a, 0x12);
    assert_eq!(r.f, 0xF0);
    assert_eq!(r.read16(Reg16::AF), 0x12F0);
}

#[test]
fn stack_pointer_and_program_counter() {
    let mut r = Regs::new();
    r.write16(Reg16::SP, 0xFFFE);
    assert_eq!(r.read16(Reg16::SP), 0xFFFE);
    r.s_PC(0x0150);
    assert_eq!(r.PC(), 0x0150);
    assert_eq!(r.read16(Reg16::PC), 0x0150);
}

#[test]
fn set_and_get_flag() {
    let mut r = Regs::new();
    r.set_flag(Flag::Z, true);
    assert!(r.get_flag(Flag::Z));
    assert!(!r.get_flag(Flag::C));
    assert_eq!(r.f, 0x80);
    r.set_flag(Flag::C, true);
    r.set_flag(Flag::Z, false);
    assert_eq!(r.f, 0x10);
}

#[test]
fn update_flags_sets_all_four_and_keeps_low_nibble() {
    let mut r = Regs::new();
    r.f = 0x0F;
    r.update_flags(true, false, true, false);
    assert_eq!(r.f, 0xAF);
    assert!(r.get_flag(Flag::Z));
    assert!(!r.get_flag(Flag::N));
    assert!(r.get_flag(Flag::H));
    assert!(!r.get_flag(Flag::C));
}
