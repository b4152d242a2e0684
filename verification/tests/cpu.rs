use gameboy::bus::Bus;
use gameboy::cpu::{CpuState, Flag, GameBoyCPU, Instruction, Reg16, Reg8};
use gameboy::mmu::Cartridge;

fn machine(program: &[u8]) -> (GameBoyCPU, Bus) {
    let mut data = vec![0u8; 0x8000];
    data[..program.len()].copy_from_slice(program);
    data[0x0147] = 0x00;
    (GameBoyCPU::new(), Bus::new(Cartridge::new(data)))
}

fn run(program: &[u8], ticks: usize) -> (GameBoyCPU, Bus) {
    let (mut cpu, mut bus) = machine(program);
    for _ in 0..ticks {
        cpu.tick(&mut bus);
    }
    (cpu, bus)
}

#[test]
fn new_cpu_fetches_first() {
    let cpu = GameBoyCPU::new();
    assert!(matches!(cpu.state, CpuState::FetchOpCode));
    assert_eq!(cpu.regs().PC(), 0);
    assert_eq!(cpu.regs().a, 0);
}

#[test]
fn load_immediate_takes_two_cycles() {
    let (mut cpu, mut bus) = machine(&[0x3E, 0x12]);
    cpu.tick(&mut bus);
    assert!(matches!(cpu.state, CpuState::Executing { instr: Instruction::LdImm(Reg8::A), step: 0 }));
    assert_eq!(cpu.regs().PC(), 1);
    cpu.tick(&mut bus);
    assert!(matches!(cpu.state, CpuState::FetchOpCode));
    assert_eq!(cpu.regs().a, 0x12);
    assert_eq!(cpu.regs().PC(), 2);
}

#[test]
fn register_load_and_add() {
    // LD A,0x12; LD B,A; ADD A,B
    let (cpu, _) = run(&[0x3E, 0x12, 0x47, 0x80], 4);
    assert_eq!(cpu.regs().b, 0x12);
    assert_eq!(cpu.regs().a, 0x24);
    assert_eq!(cpu.regs().f, 0x00);
    assert_eq!(cpu.regs().PC(), 4);
}

#[test]
fn add_sets_half_carry_and_carry() {
    // LD A,0x8F; ADD A,0x81
    let (cpu, _) = run(&[0x3E, 0x8F, 0xC6, 0x81], 4);
    assert_eq!(cpu.regs().a, 0x10);
    assert!(!cpu.regs().get_flag(Flag::Z));
    assert!(!cpu.regs().get_flag(Flag::N));
    assert!(cpu.regs().get_flag(Flag::H));
    assert!(cpu.regs().get_flag(Flag::C));
}

#[test]
fn add_to_zero_sets_z() {
    // LD A,0xFF; ADD A,0x01
    let (cpu, _) = run(&[0x3E, 0xFF, 0xC6, 0x01], 4);
    assert_eq!(cpu.regs().a, 0x00);
    assert_eq!(cpu.regs().f, 0xB0);
}

#[test]
fn adc_adds_the_carry() {
    // LD A,0xFF; ADD A,0x01 (carry out); LD A,0x10; ADC A,0x01
    let (cpu, _) = run(&[0x3E, 0xFF, 0xC6, 0x01, 0x3E, 0x10, 0xCE, 0x01], 8);
    assert_eq!(cpu.regs().a, 0x12);
    assert!(!cpu.regs().get_flag(Flag::C));
}

#[test]
fn cp_leaves_a_and_sets_sub_flags() {
    // LD A,0x10; CP 0x10
    let (cpu, _) = run(&[0x3E, 0x10, 0xFE, 0x10], 4);
    assert_eq!(cpu.regs().a, 0x10);
    assert_eq!(cpu.regs().f, 0xC0);
    // LD A,0x10; SUB 0x10 gives the same flags and stores 0
    let (cpu, _) = run(&[0x3E, 0x10, 0xD6, 0x10], 4);
    assert_eq!(cpu.regs().a, 0x00);
    assert_eq!(cpu.regs().f, 0xC0);
}

#[test]
fn sub_borrows() {
    // LD A,0x10; SUB 0x11
    let (cpu, _) = run(&[0x3E, 0x10, 0xD6, 0x11], 4);
    assert_eq!(cpu.regs().a, 0xFF);
    assert_eq!(cpu.regs().f, 0x70);
}

#[test]
fn sbc_subtracts_the_carry() {
    // LD A,0x00; SUB 0x01 (borrow, A=0xFF); SBC A,0x0F
    let (cpu, _) = run(&[0x3E, 0x00, 0xD6, 0x01, 0xDE, 0x0F], 6);
    assert_eq!(cpu.regs().a, 0xEF);
    assert!(cpu.regs().get_flag(Flag::N));
    assert!(cpu.regs().get_flag(Flag::H));
    assert!(!cpu.regs().get_flag(Flag::C));
}

#[test]
fn logic_operations() {
    // LD A,0xF0; AND 0x3C -> 0x30, H set
    let (cpu, _) = run(&[0x3E, 0xF0, 0xE6, 0x3C], 4);
    assert_eq!(cpu.regs().a, 0x30);
    assert_eq!(cpu.regs().f, 0x20);
    // LD A,0xF0; OR 0x0F
    let (cpu, _) = run(&[0x3E, 0xF0, 0xF6, 0x0F], 4);
    assert_eq!(cpu.regs().a, 0xFF);
    assert_eq!(cpu.regs().f, 0x00);
    // LD A,0x5A; XOR A
    let (cpu, _) = run(&[0x3E, 0x5A, 0xAF], 3);
    assert_eq!(cpu.regs().a, 0x00);
    assert_eq!(cpu.regs().f, 0x80);
}

#[test]
fn inc_then_dec_restores_value() {
    // LD B,0xFF; INC B; DEC B
    let (mut cpu, mut bus) = machine(&[0x06, 0xFF, 0x04, 0x05]);
    cpu.tick(&mut bus);
    cpu.tick(&mut bus);
    cpu.tick(&mut bus);
    assert_eq!(cpu.regs().b, 0x00);
    assert_eq!(cpu.regs().f, 0xA0);
    cpu.tick(&mut bus);
    assert_eq!(cpu.regs().b, 0xFF);
    assert_eq!(cpu.regs().f, 0x60);
}

#[test]
fn rotations_of_a_undo_each_other() {
    // LD A,0x85; RLCA; RRCA
    let (mut cpu, mut bus) = machine(&[0x3E, 0x85, 0x07, 0x0F]);
    cpu.tick(&mut bus);
    cpu.tick(&mut bus);
    cpu.tick(&mut bus);
    assert_eq!(cpu.regs().a, 0x0B);
    assert_eq!(cpu.regs().f, 0x10);
    cpu.tick(&mut bus);
    assert_eq!(cpu.regs().a, 0x85);
    assert_eq!(cpu.regs().f, 0x10);
}

#[test]
fn rotations_through_carry() {
    // LD A,0x80; RLA (A=0x00, C=1); RLA (A=0x01, C=0); RRA (A=0x00, C=1); RRA (A=0x80, C=0)
    let (cpu, _) = run(&[0x3E, 0x80, 0x17], 3);
    assert_eq!(cpu.regs().a, 0x00);
    assert_eq!(cpu.regs().f, 0x10);
    let (cpu, _) = run(&[0x3E, 0x80, 0x17, 0x17], 4);
    assert_eq!(cpu.regs().a, 0x01);
    assert_eq!(cpu.regs().f, 0x00);
    let (cpu, _) = run(&[0x3E, 0x80, 0x17, 0x17, 0x1F, 0x1F], 6);
    assert_eq!(cpu.regs().a, 0x80);
    assert_eq!(cpu.regs().f, 0x00);
}

#[test]
fn extended_rotation_sets_z() {
    // LD B,0x80; RL B -> 0x00 with Z and C
    let (cpu, _) = run(&[0x06, 0x80, 0xCB, 0x10], 4);
    assert_eq!(cpu.regs().b, 0x00);
    assert_eq!(cpu.regs().f, 0x90);
    // LD C,0x01; RRC C -> 0x80, C
    let (cpu, _) = run(&[0x0E, 0x01, 0xCB, 0x09], 4);
    assert_eq!(cpu.regs().c, 0x80);
    assert_eq!(cpu.regs().f, 0x10);
}

#[test]
fn set_res_and_bit() {
    // LD B,0; SET 3,B; BIT 3,B
    let (cpu, _) = run(&[0x06, 0x00, 0xCB, 0xD8, 0xCB, 0x58], 6);
    assert_eq!(cpu.regs().b, 0x08);
    assert!(!cpu.regs().get_flag(Flag::Z));
    assert!(cpu.regs().get_flag(Flag::H));
    // ...; RES 3,B; BIT 3,B
    let (cpu, _) = run(&[0x06, 0x00, 0xCB, 0xD8, 0xCB, 0x98, 0xCB, 0x58], 8);
    assert_eq!(cpu.regs().b, 0x00);
    assert!(cpu.regs().get_flag(Flag::Z));
}

#[test]
fn cb_prefix_state() {
    let (mut cpu, mut bus) = machine(&[0xCB, 0x46]);
    cpu.tick(&mut bus);
    assert!(matches!(cpu.state, CpuState::FetchCbOpCode));
    cpu.tick(&mut bus);
    assert!(matches!(cpu.state, CpuState::Executing { instr: Instruction::Bit(0, _), step: 0 }));
    cpu.tick(&mut bus);
    assert!(matches!(cpu.state, CpuState::FetchOpCode));
    assert_eq!(cpu.regs().PC(), 2);
}

#[test]
fn memory_loads_through_hl() {
    // LD HL,0xC000; LD A,0x42; LD (HL+),A; LD (HL),0x99; LD A,(HL-); LD B,(HL)
    let program = [0x21, 0x00, 0xC0, 0x3E, 0x42, 0x22, 0x36, 0x99, 0x3A, 0x46];
    let (cpu, bus) = run(&program, 3 + 2 + 2 + 3 + 2 + 2);
    assert_eq!(bus.read(0xC000), 0x42);
    assert_eq!(bus.read(0xC001), 0x99);
    assert_eq!(cpu.regs().a, 0x99);
    assert_eq!(cpu.regs().b, 0x42);
    assert_eq!(cpu.regs().read16(Reg16::HL), 0xC000);
}

#[test]
fn memory_loads_through_hl_other_direction() {
    // LD HL,0xC001; LD A,0x24; LD (HL-),A; LD (HL),0x11; LD A,(HL+); LD B,(HL)
    let program = [0x21, 0x01, 0xC0, 0x3E, 0x24, 0x32, 0x36, 0x11, 0x2A, 0x46];
    let (cpu, bus) = run(&program, 3 + 2 + 2 + 3 + 2 + 2);
    assert_eq!(bus.read(0xC001), 0x24);
    assert_eq!(bus.read(0xC000), 0x11);
    assert_eq!(cpu.regs().a, 0x11);
    assert_eq!(cpu.regs().b, 0x24);
    assert_eq!(cpu.regs().read16(Reg16::HL), 0xC001);
}

#[test]
fn memory_increment_and_bits() {
    // LD HL,0xC010; LD (HL),0x0F; INC (HL); SET 7,(HL); RES 4,(HL)
    let program = [0x21, 0x10, 0xC0, 0x36, 0x0F, 0x34, 0xCB, 0xFE, 0xCB, 0xA6];
    let (cpu, bus) = run(&program, 3 + 3 + 3 + 4 + 4);
    assert_eq!(bus.read(0xC010), 0x80);
    assert!(cpu.regs().get_flag(Flag::H));
    assert!(!cpu.regs().get_flag(Flag::Z));
    // DEC (HL) from 0x01
    let program = [0x21, 0x10, 0xC0, 0x36, 0x01, 0x35];
    let (cpu, bus) = run(&program, 3 + 3 + 3);
    assert_eq!(bus.read(0xC010), 0x00);
    assert!(cpu.regs().get_flag(Flag::Z));
    assert!(cpu.regs().get_flag(Flag::N));
    assert_eq!(cpu.regs().read16(Reg16::HL), 0xC010);
}

#[test]
fn absolute_loads() {
    // LD A,0x77; LD (0xC100),A; LD A,0x00; LD A,(0xC100)
    let program = [0x3E, 0x77, 0xEA, 0x00, 0xC1, 0x3E, 0x00, 0xFA, 0x00, 0xC1];
    let (cpu, bus) = run(&program, 2 + 4 + 2 + 4);
    assert_eq!(bus.read(0xC100), 0x77);
    assert_eq!(cpu.regs().a, 0x77);
    assert_eq!(cpu.regs().PC(), 10);
}

#[test]
fn register_pair_indirect_loads() {
    // LD DE,0xC200; LD A,0x31; LD (DE),A; LD A,0; LD A,(DE)
    let program = [0x11, 0x00, 0xC2, 0x3E, 0x31, 0x12, 0x3E, 0x00, 0x1A];
    let (cpu, bus) = run(&program, 3 + 2 + 2 + 2 + 2);
    assert_eq!(bus.read(0xC200), 0x31);
    assert_eq!(cpu.regs().a, 0x31);
}

#[test]
fn high_page_loads_drive_the_serial_port() {
    // LD A,'H'; LDH (0x01),A; LD A,0x81; LDH (0x02),A; LDH A,(0x02)
    let program = [0x3E, b'H', 0xE0, 0x01, 0x3E, 0x81, 0xE0, 0x02, 0xF0, 0x02];
    let (cpu, mut bus) = run(&program, 2 + 3 + 2 + 3 + 3);
    assert_eq!(bus.take_serial_output(), b"H".to_vec());
    assert_eq!(cpu.regs().a, 0x00);
}

#[test]
fn c_indexed_high_page_loads() {
    // LD C,0x0F; LD A,0x04; LDH (C),A; LD A,0; LDH A,(C)
    let program = [0x0E, 0x0F, 0x3E, 0x04, 0xE2, 0x3E, 0x00, 0xF2];
    let (cpu, bus) = run(&program, 2 + 2 + 2 + 2 + 2);
    assert_eq!(bus.read(0xFF0F), 0x04);
    assert_eq!(cpu.regs().a, 0x04);
    assert_eq!(cpu.regs().c, 0x0F);
    assert_eq!(cpu.regs().PC(), 8);
}

#[test]
fn sixteen_bit_arithmetic() {
    // LD HL,0x0FFF; LD BC,0x0001; ADD HL,BC
    let (cpu, _) = run(&[0x21, 0xFF, 0x0F, 0x01, 0x01, 0x00, 0x09], 3 + 3 + 2);
    assert_eq!(cpu.regs().read16(Reg16::HL), 0x1000);
    assert_eq!(cpu.regs().f, 0x20);
    // LD HL,0xFFFF; INC HL
    let (cpu, _) = run(&[0x21, 0xFF, 0xFF, 0x23], 3 + 2);
    assert_eq!(cpu.regs().read16(Reg16::HL), 0x0000);
    // LD SP,0x0000; DEC SP
    let (cpu, _) = run(&[0x31, 0x00, 0x00, 0x3B], 3 + 2);
    assert_eq!(cpu.regs().read16(Reg16::SP), 0xFFFF);
    // LD HL,0x8000; ADD HL,HL: carry out of bit 15
    let (cpu, _) = run(&[0x21, 0x00, 0x80, 0x29], 3 + 2);
    assert_eq!(cpu.regs().read16(Reg16::HL), 0x0000);
    assert_eq!(cpu.regs().f, 0x10);
}

#[test]
fn complement_a() {
    // LD A,0x35; CPL
    let (cpu, _) = run(&[0x3E, 0x35, 0x2F], 3);
    assert_eq!(cpu.regs().a, 0xCA);
    assert_eq!(cpu.regs().f, 0x60);
}

#[test]
fn halted_cpu_does_nothing() {
    let (mut cpu, mut bus) = machine(&[0x3E, 0x12]);
    cpu.state = CpuState::Halted;
    cpu.tick(&mut bus);
    cpu.tick(&mut bus);
    assert!(matches!(cpu.state, CpuState::Halted));
    assert_eq!(cpu.regs().PC(), 0);
    assert_eq!(cpu.regs().a, 0);
}
