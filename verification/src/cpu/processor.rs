use vstd::prelude::*;

use super::instruction::{Instruction, Operand8};
use super::registers::{zero_regs, Flag, Reg16, Reg8, Regs};
use super::semantics::{
    add_spec, and_spec, bit_is_set, cp_spec, dec_value, exec_pre, exec_spec, fetched, high_page,
    inc_value, operand_value, or_spec, sub_spec, tick_pre, tick_spec, wrap_dec, wrap_inc, xor_spec,
    CpuState, CpuView,
};
use crate::bus::Bus;

verus! {

/// The result of INC or DEC on a byte: the new byte and the four flags.
struct IncResult {
    res: u8,
    flags: (bool, bool, bool, bool),
}

/// The Game Boy CPU, advanced one machine cycle (four clock cycles) at a time.
pub struct GameBoyCPU {
    pub state: CpuState,
    regs: Regs,
    temp_val: u16,
}

impl View for GameBoyCPU {
    type V = CpuView;

    closed spec fn view(&self) -> CpuView {
        CpuView { state: self.state, regs: self.regs@, temp_val: self.temp_val }
    }
}

proof fn lemma_nibble(v: u8)
    ensures
        v & 0xF == v % 16,
{
    assert(v & 0xF == v % 16) by (bit_vector);
}

proof fn lemma_high_page(low: u8)
    ensures
        0xFF00u16 | (low as u16) == high_page(low),
        (low as u16) | 0xFF00u16 == high_page(low),
{
    assert(0xFF00u16 | (low as u16) == (0xFF00 + low) as u16) by (bit_vector);
    assert((low as u16) | 0xFF00u16 == (0xFF00 + low) as u16) by (bit_vector);
}

proof fn lemma_rotations(v: u8, cb: u8)
    requires
        cb <= 1,
    ensures
        (v << 1u8) | (cb) == ((v * 2) % 256 + cb) as u8,
        (v >> 1u8) | (cb << 7u8) == (v / 2 + cb * 128) as u8,
        (v & 0x80u8 != 0) == (v >= 128),
        ((v & 1u8) == 1) == (v % 2 == 1),
{
    assert((v << 1u8) | (cb) == ((v * 2) % 256 + cb) as u8) by (bit_vector)
        requires
            cb <= 1,
    ;
    assert((v >> 1u8) | (cb << 7u8) == (v / 2 + cb * 128) as u8) by (bit_vector)
        requires
            cb <= 1,
    ;
    assert((v & 0x80u8 != 0) == (v >= 128)) by (bit_vector);
    assert(((v & 1u8) == 1) == (v % 2 == 1)) by (bit_vector);
}

proof fn lemma_bit_test(v: u8, n: u8)
    requires
        n < 8,
    ensures
        !((v & (1u8 << n)) == (1u8 << n)) == !bit_is_set(v, n),
        ((v & (1u8 << n)) == 0) == !bit_is_set(v, n),
{
    assert(!((v & (1u8 << n)) == (1u8 << n)) == ((v & (1u8 << n)) == 0)) by (bit_vector)
        requires
            n < 8,
    ;
}

proof fn lemma_word(low: u16, high: u16)
    requires
        high < 256,
    ensures
        (high << 8u16) | low == super::semantics::with_high(low, high as u8),
{
    assert((high << 8u16) | low == low | (((high as u8) as u16) << 8u16)) by (bit_vector)
        requires
            high < 256,
    ;
}

/// The eight-bit arithmetic and logic instructions.
spec fn is_alu(instr: Instruction) -> bool {
    match instr {
        Instruction::Adc(_) | Instruction::AdcImm | Instruction::Add(_) | Instruction::AddImm
        | Instruction::Cp(_) | Instruction::CpImm | Instruction::Sbc(_) | Instruction::SbcImm
        | Instruction::Sub(_) | Instruction::SubImm | Instruction::And(_)
        | Instruction::AndImm | Instruction::Or(_) | Instruction::OrImm | Instruction::Xor(_)
        | Instruction::XorImm => true,
        _ => false,
    }
}

/// The load instructions.
spec fn is_load(instr: Instruction) -> bool {
    match instr {
        Instruction::Ld(_, _) | Instruction::LdImm(_) | Instruction::Ld16Imm(_)
        | Instruction::LdHlInd(_) | Instruction::LdHlIndImm | Instruction::LdRegHlInd(_)
        | Instruction::LdReg16IndA(_) | Instruction::LdImmIndA | Instruction::LdhImm8IndA
        | Instruction::LdhCIndA | Instruction::LdAReg16Ind(_) | Instruction::LdAImm16Ind
        | Instruction::LdhAImm8Ind | Instruction::LdhACInd | Instruction::LdHliA
        | Instruction::LdHldA | Instruction::LdAhli | Instruction::LdAHld => true,
        _ => false,
    }
}

impl GameBoyCPU {
    /// A CPU at power-on: all registers zero, about to fetch an opcode.
    pub fn new() -> (r: Self)
        ensures
            r@ == (CpuView { state: CpuState::FetchOpCode, regs: zero_regs(), temp_val: 0 }),
    {
        Self { regs: Regs::new(), state: CpuState::FetchOpCode, temp_val: 0 }
    }

    /// The register file.
    pub fn regs(&self) -> (r: &Regs)
        ensures
            r@ == self@.regs,
    {
        &self.regs
    }

    /// Reads the byte at the program counter and moves past it: one machine cycle.
    fn fetch_advance_pc(&mut self, bus: &Bus) -> (r: u8)
        ensures
            r == fetched(old(self)@, bus@),
            final(self)@ == old(self)@.advance_pc(),
    {
        let pc = self.regs.read16(Reg16::PC);
        let val = bus.read(pc);
        self.regs.s_PC(pc.wrapping_add(1));
        val
    }

    /// The value of an eight-bit operand: a register, or the byte that HL points to.
    fn read_operand(&self, o: Operand8, bus: &Bus) -> (r: u8)
        ensures
            r == operand_value(self@, bus@, o),
    {
        match o {
            Operand8::Reg(reg8) => self.regs.read8(reg8),
            Operand8::HlInd => {
                let target_addr = self.regs.read16(Reg16::HL);
                bus.read(target_addr)
            },
        }
    }

    fn alu_add(&mut self, val: u8, use_carry: bool)
        ensures
            final(self)@ == old(self)@.with_regs(add_spec(old(self)@.regs, val, use_carry)),
    {
        let a = self.regs.read8(Reg8::A) as u16;
        let val16 = val as u16;
        let carry: u16 = if use_carry && self.regs.get_flag(Flag::C) {
            1
        } else {
            0
        };
        let result = a + val16 + carry;
        proof {
            lemma_nibble(a as u8);
            lemma_nibble(val);
            assert((a & 0xF) == a % 16) by (bit_vector);
            assert((val16 & 0xF) == val16 % 16) by (bit_vector);
            assert(result & 0xFF == result % 256) by (bit_vector);
        }
        let z = (result & 0xFF) == 0;
        let n = false;
        let h = ((a & 0xF) + (val16 & 0xF) + carry) > 0x0F;
        let c = result > 0xFF;

        self.regs.write8(Reg8::A, (result & 0xFF) as u8);
        self.regs.update_flags(z, n, h, c);
    }

    fn alu_sub(&mut self, val: u8, use_carry: bool)
        ensures
            final(self)@ == old(self)@.with_regs(sub_spec(old(self)@.regs, val, use_carry)),
    {
        let a = self.regs.read8(Reg8::A);
        let carry: u8 = if use_carry && self.regs.get_flag(Flag::C) {
            1
        } else {
            0
        };
        let result = a.wrapping_sub(val).wrapping_sub(carry);
        proof {
            lemma_nibble(a);
            lemma_nibble(val);
        }
        let z = result == 0;
        let n = true;
        // A - val - carry borrows exactly when A < val + carry
        let h = (a & 0x0F) < (val & 0x0F) + carry;
        let c = (a as u16) < (val as u16) + (carry as u16);

        self.regs.write8(Reg8::A, result);
        self.regs.update_flags(z, n, h, c);
    }

    fn alu_cp(&mut self, val: u8)
        ensures
            final(self)@ == old(self)@.with_regs(cp_spec(old(self)@.regs, val)),
    {
        // SUB without storing the result in A
        let a = self.regs.read8(Reg8::A);
        let result = a.wrapping_sub(val);
        proof {
            lemma_nibble(a);
            lemma_nibble(val);
        }
        let z = result == 0;
        let n = true;
        let h = (a & 0x0F) < (val & 0x0F);
        let c = a < val;

        self.regs.update_flags(z, n, h, c);
    }

    fn alu_and(&mut self, val: u8)
        ensures
            final(self)@ == old(self)@.with_regs(and_spec(old(self)@.regs, val)),
    {
        let result = self.regs.read8(Reg8::A) & val;
        self.regs.write8(Reg8::A, result);
        // AND always sets H
        self.regs.update_flags(result == 0, false, true, false);
    }

    fn alu_or(&mut self, val: u8)
        ensures
            final(self)@ == old(self)@.with_regs(or_spec(old(self)@.regs, val)),
    {
        let result = self.regs.read8(Reg8::A) | val;
        self.regs.write8(Reg8::A, result);
        self.regs.update_flags(result == 0, false, false, false);
    }

    fn alu_xor(&mut self, val: u8)
        ensures
            final(self)@ == old(self)@.with_regs(xor_spec(old(self)@.regs, val)),
    {
        let result = self.regs.read8(Reg8::A) ^ val;
        self.regs.write8(Reg8::A, result);
        self.regs.update_flags(result == 0, false, false, false);
    }

    fn inc8(&mut self, val: u8) -> (r: IncResult)
        ensures
            *final(self) == *old(self),
            r.res == inc_value(val),
            r.flags == (inc_value(val) == 0, false, val % 16 == 15, old(self)@.regs.flag(Flag::C)),
    {
        let result = val.wrapping_add(1);
        proof {
            lemma_nibble(val);
        }
        let z = result == 0;
        let n = false;
        let h = (val & 0xF) + 1 > 0x0F;
        let c = self.regs.get_flag(Flag::C);  // C is kept

        return IncResult { res: result, flags: (z, n, h, c) };
    }

    fn dec8(&mut self, val: u8) -> (r: IncResult)
        ensures
            *final(self) == *old(self),
            r.res == dec_value(val),
            r.flags == (dec_value(val) == 0, true, val % 16 == 0, old(self)@.regs.flag(Flag::C)),
    {
        let result = val.wrapping_sub(1);
        proof {
            lemma_nibble(val);
        }
        let z = result == 0;
        let n = true;
        // the low nibble borrows only when it is 0
        let h = (val & 0xF) < 1;
        let c = self.regs.get_flag(Flag::C);  // C is kept

        return IncResult { res: result, flags: (z, n, h, c) };
    }

    /// Loads into registers from registers, immediates and the byte at HL.
    #[verifier::rlimit(100)]
    fn exec_load_reg(&mut self, instr: Instruction, step: u8, bus: &mut Bus)
        requires
            instr is Ld || instr is LdImm || instr is Ld16Imm || instr is LdRegHlInd,
            exec_pre(old(self)@, old(bus)@, instr, step),
        ensures
            (final(self)@, final(bus)@) == exec_spec(old(self)@, old(bus)@, instr, step),
    {
        match instr {
            Instruction::Ld(dest, src) => {
                let val = self.regs.read8(src);
                self.regs.write8(dest, val);
                self.state = CpuState::FetchOpCode;
            },
            Instruction::LdImm(reg8) => {
                let n8 = self.fetch_advance_pc(bus);
                // a register write needs no machine cycle of its own
                self.regs.write8(reg8, n8);
                self.state = CpuState::FetchOpCode;
            },
            Instruction::Ld16Imm(reg16) => {
                if step == 0 {
                    self.temp_val = self.fetch_advance_pc(bus) as u16;
                    self.state = CpuState::Executing { instr: instr, step: 1 };
                } else {
                    let low = self.temp_val as u16;
                    let high = self.fetch_advance_pc(bus) as u16;
                    let n16 = (high << 8) | low;
                    proof {
                        lemma_word(low, high);
                    }
                    self.regs.write16(reg16, n16);
                    self.state = CpuState::FetchOpCode;
                }
            },
            Instruction::LdRegHlInd(reg8) => {
                // the byte that HL points to, into r8
                let addr = self.regs.read16(Reg16::HL);
                let val = bus.read(addr);
                self.regs.write8(reg8, val);
                self.state = CpuState::FetchOpCode;
            },
            _ => {},
        }
    }

    /// Loads to the byte at HL.
    #[verifier::rlimit(100)]
    fn exec_load_hl(&mut self, instr: Instruction, step: u8, bus: &mut Bus)
        requires
            instr is LdHlInd || instr is LdHlIndImm,
            exec_pre(old(self)@, old(bus)@, instr, step),
        ensures
            (final(self)@, final(bus)@) == exec_spec(old(self)@, old(bus)@, instr, step),
    {
        match instr {
            Instruction::LdHlInd(reg8) => {
                let dest_addr = self.regs.read16(Reg16::HL);
                let data = self.regs.read8(reg8);
                bus.write(dest_addr, data);
                self.state = CpuState::FetchOpCode;
            },
            Instruction::LdHlIndImm => {
                if step == 0 {
                    let n8 = self.fetch_advance_pc(bus);
                    self.temp_val = n8 as u16;
                    self.state = CpuState::Executing { instr, step: 1 };
                } else {
                    let dest_addr = self.regs.read16(Reg16::HL);
                    bus.write(dest_addr, self.temp_val as u8);
                    self.state = CpuState::FetchOpCode;
                }
            },
            _ => {},
        }
    }

    /// Loads between A and the byte at HL that then step HL.
    #[verifier::rlimit(100)]
    fn exec_load_hl_step(&mut self, instr: Instruction, step: u8, bus: &mut Bus)
        requires
            instr is LdHliA || instr is LdHldA || instr is LdAhli || instr is LdAHld,
            exec_pre(old(self)@, old(bus)@, instr, step),
        ensures
            (final(self)@, final(bus)@) == exec_spec(old(self)@, old(bus)@, instr, step),
    {
        match instr {
            Instruction::LdHliA => {
                // A to the byte at HL, then HL up by one
                let val = self.regs.read8(Reg8::A);
                let target_addr = self.regs.read16(Reg16::HL);
                bus.write(target_addr, val);
                let stepped = target_addr.wrapping_add(1);
                assert(stepped == wrap_inc(target_addr));
                self.regs.write16(Reg16::HL, stepped);
                self.state = CpuState::FetchOpCode;
            },
            Instruction::LdHldA => {
                // A to the byte at HL, then HL down by one
                let val = self.regs.read8(Reg8::A);
                let target_addr = self.regs.read16(Reg16::HL);
                bus.write(target_addr, val);
                let stepped = target_addr.wrapping_sub(1);
                assert(stepped == wrap_dec(target_addr));
                self.regs.write16(Reg16::HL, stepped);
                self.state = CpuState::FetchOpCode;
            },
            Instruction::LdAhli => {
                // the byte at HL into A, then HL up by one
                let target_addr = self.regs.read16(Reg16::HL);
                let val = bus.read(target_addr);
                self.regs.write8(Reg8::A, val);
                let stepped = target_addr.wrapping_add(1);
                assert(stepped == wrap_inc(target_addr));
                self.regs.write16(Reg16::HL, stepped);
                self.state = CpuState::FetchOpCode;
            },
            Instruction::LdAHld => {
                // the byte at HL into A, then HL down by one
                let target_addr = self.regs.read16(Reg16::HL);
                let val = bus.read(target_addr);
                self.regs.write8(Reg8::A, val);
                let stepped = target_addr.wrapping_sub(1);
                assert(stepped == wrap_dec(target_addr));
                self.regs.write16(Reg16::HL, stepped);
                self.state = CpuState::FetchOpCode;
            },
            _ => {},
        }
    }

    /// Loads between A and the byte that a register pair or C addresses.
    #[verifier::rlimit(100)]
    fn exec_load_a_indirect(&mut self, instr: Instruction, step: u8, bus: &mut Bus)
        requires
            instr is LdReg16IndA || instr is LdAReg16Ind || instr is LdhCIndA || instr is LdhACInd,
            exec_pre(old(self)@, old(bus)@, instr, step),
        ensures
            (final(self)@, final(bus)@) == exec_spec(old(self)@, old(bus)@, instr, step),
    {
        match instr {
            Instruction::LdReg16IndA(reg16) => {
                let dest_addr = self.regs.read16(reg16);
                let val = self.regs.read8(Reg8::A);
                bus.write(dest_addr, val);
                self.state = CpuState::FetchOpCode;
            },
            Instruction::LdhCIndA => {
                let val = self.regs.read8(Reg8::A);
                let target_addr = self.regs.read8(Reg8::C);
                proof {
                    lemma_high_page(target_addr);
                }
                let target_addr = (0xFF00) | (target_addr as u16);
                bus.write(target_addr, val);
                self.state = CpuState::FetchOpCode;
            },
            Instruction::LdAReg16Ind(reg16) => {
                let addr = self.regs.read16(reg16);
                let val = bus.read(addr);
                self.regs.write8(Reg8::A, val);
                self.state = CpuState::FetchOpCode;
            },
            Instruction::LdhACInd => {
                proof {
                    lemma_high_page(self.regs@.c);
                }
                let addr = 0xFF00 | self.regs.read8(Reg8::C) as u16;
                let val = bus.read(addr);
                self.regs.write8(Reg8::A, val);
                self.state = CpuState::FetchOpCode;
            },
            _ => {},
        }
    }

    /// Loads between A and an address that follows the opcode.
    #[verifier::rlimit(100)]
    fn exec_load_a_immediate(&mut self, instr: Instruction, step: u8, bus: &mut Bus)
        requires
            instr is LdImmIndA || instr is LdAImm16Ind || instr is LdhImm8IndA || instr is LdhAImm8Ind,
            exec_pre(old(self)@, old(bus)@, instr, step),
        ensures
            (final(self)@, final(bus)@) == exec_spec(old(self)@, old(bus)@, instr, step),
    {
        match instr {
            Instruction::LdImmIndA => {
                if step == 0 {
                    // the low byte of the address first
                    let low = self.fetch_advance_pc(bus);
                    self.temp_val = low as u16;
                    self.state = CpuState::Executing { instr, step: 1 };
                } else if step == 1 {
                    let high = self.fetch_advance_pc(bus);
                    self.temp_val |= (high as u16) << 8;
                    self.state = CpuState::Executing { instr, step: 2 };
                } else {
                    // the whole address is in temp_val
                    let val = self.regs.read8(Reg8::A);
                    bus.write(self.temp_val, val);
                    self.state = CpuState::FetchOpCode;
                }
            },
            Instruction::LdhImm8IndA => {
                // the fetched byte addresses the high page 0xFF00-0xFFFF
                if step == 0 {
                    let dest = self.fetch_advance_pc(bus);
                    proof {
                        lemma_high_page(dest);
                    }
                    self.temp_val = 0xFF00 | (dest as u16);
                    self.state = CpuState::Executing { instr, step: 1 };
                } else {
                    let val = self.regs.read8(Reg8::A);
                    bus.write(self.temp_val, val);
                    self.state = CpuState::FetchOpCode;
                }
            },
            Instruction::LdAImm16Ind => {
                if step == 0 {
                    // a sixteen-bit address takes two fetches
                    self.temp_val = self.fetch_advance_pc(bus) as u16;
                    self.state = CpuState::Executing { instr, step: 1 };
                } else if step == 1 {
                    self.temp_val = self.temp_val | (self.fetch_advance_pc(bus) as u16) << 8;
                    self.state = CpuState::Executing { instr, step: 2 };
                } else {
                    let val = bus.read(self.temp_val);
                    self.regs.write8(Reg8::A, val);
                    self.state = CpuState::FetchOpCode;
                }
            },
            Instruction::LdhAImm8Ind => {
                if step == 0 {
                    self.temp_val = self.fetch_advance_pc(bus) as u16;
                    proof {
                        lemma_high_page(self.temp_val as u8);
                    }
                    // the high byte is 0xFF
                    self.temp_val |= 0xFF00;
                    self.state = CpuState::Executing { instr, step: 1 };
                } else {
                    let val = bus.read(self.temp_val);
                    self.regs.write8(Reg8::A, val);
                    self.state = CpuState::FetchOpCode;
                }
            },
            _ => {},
        }
    }


    /// Eight-bit arithmetic and logic: one step, on a register, the byte at
    /// HL or the byte after the opcode.
    #[verifier::rlimit(100)]
    fn exec_alu(&mut self, instr: Instruction, step: u8, bus: &Bus)
        requires
            is_alu(instr),
            exec_pre(old(self)@, bus@, instr, step),
        ensures
            (final(self)@, bus@) == exec_spec(old(self)@, bus@, instr, step),
    {
        match instr {
            Instruction::Adc(operand8) => {
                let val = self.read_operand(operand8, bus);
                self.alu_add(val, true);
                self.state = CpuState::FetchOpCode;
            },
            Instruction::AdcImm => {
                // n8 plus the carry flag, added to A
                let n8 = self.fetch_advance_pc(bus);
                self.alu_add(n8, true);
                self.state = CpuState::FetchOpCode;
            },
            Instruction::Add(operand8) => {
                let val = self.read_operand(operand8, bus);
                self.alu_add(val, false);
                self.state = CpuState::FetchOpCode;
            },
            Instruction::AddImm => {
                let val = self.fetch_advance_pc(bus);
                self.alu_add(val, false);
                self.state = CpuState::FetchOpCode;
            },
            Instruction::Cp(operand8) => {
                let val = self.read_operand(operand8, bus);
                self.alu_cp(val);
                self.state = CpuState::FetchOpCode;
            },
            Instruction::CpImm => {
                let val = self.fetch_advance_pc(bus);
                self.alu_cp(val);
                self.state = CpuState::FetchOpCode;
            },
            Instruction::Sbc(operand8) => {
                let val = self.read_operand(operand8, bus);
                self.alu_sub(val, true);
                self.state = CpuState::FetchOpCode;
            },
            Instruction::SbcImm => {
                let n8 = self.fetch_advance_pc(bus);
                self.alu_sub(n8, true);
                self.state = CpuState::FetchOpCode;
            },
            Instruction::Sub(operand8) => {
                let val = self.read_operand(operand8, bus);
                self.alu_sub(val, false);
                self.state = CpuState::FetchOpCode;
            },
            Instruction::SubImm => {
                let n8 = self.fetch_advance_pc(bus);
                self.alu_sub(n8, false);
                self.state = CpuState::FetchOpCode;
            },
            Instruction::And(operand8) => {
                let val = self.read_operand(operand8, bus);
                self.alu_and(val);
                self.state = CpuState::FetchOpCode;
            },
            Instruction::AndImm => {
                let val = self.fetch_advance_pc(bus);
                self.alu_and(val);
                self.state = CpuState::FetchOpCode;
            },
            Instruction::Or(operand8) => {
                let val = self.read_operand(operand8, bus);
                self.alu_or(val);
                self.state = CpuState::FetchOpCode;
            },
            Instruction::OrImm => {
                let val = self.fetch_advance_pc(bus);
                self.alu_or(val);
                self.state = CpuState::FetchOpCode;
            },
            Instruction::Xor(operand8) => {
                let val = self.read_operand(operand8, bus);
                self.alu_xor(val);
                self.state = CpuState::FetchOpCode;
            },
            Instruction::XorImm => {
                let val = self.fetch_advance_pc(bus);
                self.alu_xor(val);
                self.state = CpuState::FetchOpCode;
            },
            _ => {},
        }
    }

    /// INC and DEC of an eight-bit operand.
    #[verifier::rlimit(100)]
    fn exec_incdec(&mut self, instr: Instruction, step: u8, bus: &mut Bus)
        requires
            instr is Inc || instr is Dec,
            exec_pre(old(self)@, old(bus)@, instr, step),
        ensures
            (final(self)@, final(bus)@) == exec_spec(old(self)@, old(bus)@, instr, step),
    {
        match instr {
            Instruction::Dec(Operand8::Reg(reg8)) => {
                let val = self.regs.read8(reg8);
                let IncResult { res, flags: (z, n, h, c) } = self.dec8(val);
                self.regs.write8(reg8, res);
                self.regs.update_flags(z, n, h, c);
                self.state = CpuState::FetchOpCode;
            },
            Instruction::Dec(Operand8::HlInd) => {
                if step == 0 {
                    // read the byte at HL
                    let target_addr = self.regs.read16(Reg16::HL);
                    self.temp_val = bus.read(target_addr) as u16;
                    self.state = CpuState::Executing { instr, step: 1 };
                } else {
                    // and write it back decremented
                    let target_addr = self.regs.read16(Reg16::HL);
                    let val = self.temp_val;
                    let IncResult { res, flags: (z, n, h, c) } = self.dec8(val as u8);
                    bus.write(target_addr, res);
                    self.regs.update_flags(z, n, h, c);
                    self.state = CpuState::FetchOpCode;
                }
            },
            Instruction::Inc(Operand8::Reg(reg8)) => {
                let val = self.regs.read8(reg8);
                let IncResult { res, flags: (z, n, h, c) } = self.inc8(val);
                self.regs.write8(reg8, res);
                self.regs.update_flags(z, n, h, c);
                self.state = CpuState::FetchOpCode;
            },
            Instruction::Inc(Operand8::HlInd) => {
                if step == 0 {
                    let target_addr = self.regs.read16(Reg16::HL);
                    let val = bus.read(target_addr);
                    self.temp_val = val as u16;
                    self.state = CpuState::Executing { instr, step: 1 };
                } else {
                    let target_addr = self.regs.read16(Reg16::HL);
                    let val = self.temp_val;
                    let IncResult { res, flags: (z, n, h, c) } = self.inc8(val as u8);
                    bus.write(target_addr, res);
                    self.regs.update_flags(z, n, h, c);
                    self.state = CpuState::FetchOpCode;
                }
            },
            _ => {},
        }
    }

    /// ADD HL, r16.
    #[verifier::rlimit(100)]
    fn exec_add16(&mut self, instr: Instruction, step: u8, bus: &Bus)
        requires
            instr is Add16,
            exec_pre(old(self)@, bus@, instr, step),
        ensures
            (final(self)@, bus@) == exec_spec(old(self)@, bus@, instr, step),
    {
        match instr {
            Instruction::Add16(reg16) => {
                // HL + r16 into HL
                let val = self.regs.read16(reg16);
                let hl_val = self.regs.read16(Reg16::HL);
                let res = hl_val.wrapping_add(val);
                assert(res == (hl_val + val) % 0x10000);
                let carry = (hl_val as u32) + (val as u32) > 0xFFFF;
                proof {
                    assert(val & 0xFFF == val % 0x1000) by (bit_vector);
                    assert(hl_val & 0xFFF == hl_val % 0x1000) by (bit_vector);
                }
                let z = self.regs.get_flag(Flag::Z);
                let n = false;
                let h = (val & 0xFFF) + (hl_val & 0xFFF) > 0xFFF;
                let c = carry;
                self.regs.write16(Reg16::HL, res);
                self.regs.update_flags(z, n, h, c);
                self.state = CpuState::FetchOpCode;
            },
            _ => {},
        }
    }

    /// Sixteen-bit increments and decrements.
    #[verifier::rlimit(100)]
    fn exec_wide(&mut self, instr: Instruction, step: u8, bus: &Bus)
        requires
            instr is Inc16 || instr is Dec16,
            exec_pre(old(self)@, bus@, instr, step),
        ensures
            (final(self)@, bus@) == exec_spec(old(self)@, bus@, instr, step),
    {
        match instr {
            Instruction::Dec16(reg16) => {
                let val = self.regs.read16(reg16);
                let res = val.wrapping_sub(1);
                assert(res == wrap_dec(val));
                self.regs.write16(reg16, res);
                self.state = CpuState::FetchOpCode;
            },
            Instruction::Inc16(reg16) => {
                let val = self.regs.read16(reg16);
                let res = val.wrapping_add(1);
                assert(res == wrap_inc(val));
                self.regs.write16(reg16, res);
                self.state = CpuState::FetchOpCode;
            },
            _ => {},
        }
    }

    /// CPL: the complement of A.
    #[verifier::rlimit(100)]
    fn exec_cpl(&mut self, instr: Instruction, step: u8, bus: &Bus)
        requires
            instr is Cpl,
            exec_pre(old(self)@, bus@, instr, step),
        ensures
            (final(self)@, bus@) == exec_spec(old(self)@, bus@, instr, step),
    {
        match instr {
            Instruction::Cpl => {
                // bitwise NOT of A
                let val = self.regs.read8(Reg8::A);
                assert(!val == 255 - val) by (bit_vector);
                self.regs.write8(Reg8::A, !val);
                let z = self.regs.get_flag(Flag::Z);
                let c = self.regs.get_flag(Flag::C);
                self.regs.update_flags(z, true, true, c);
                self.state = CpuState::FetchOpCode;
            },
            _ => {},
        }
    }

    /// BIT, RES and SET.
    #[verifier::rlimit(100)]
    fn exec_bits(&mut self, instr: Instruction, step: u8, bus: &mut Bus)
        requires
            instr is Bit || instr is Res || instr is SetBit,
            exec_pre(old(self)@, old(bus)@, instr, step),
        ensures
            (final(self)@, final(bus)@) == exec_spec(old(self)@, old(bus)@, instr, step),
    {
        match instr {
            Instruction::Bit(bit, Operand8::Reg(reg8)) => {
                // test bit `bit` of r8: Z when it is clear
                let val = self.regs.read8(reg8);
                let mask = (1 as u8) << bit;
                proof {
                    lemma_bit_test(val, bit);
                }
                let z = !((val & mask) == mask);
                let n = false;
                let h = true;
                let c = self.regs.get_flag(Flag::C);  // kept
                self.regs.update_flags(z, n, h, c);
                self.state = CpuState::FetchOpCode;
            },
            Instruction::Bit(bit, Operand8::HlInd) => {
                let target_addr = self.regs.read16(Reg16::HL);
                let val = bus.read(target_addr);
                let mask = (1 as u8) << bit;
                proof {
                    lemma_bit_test(val, bit);
                }
                let z = (val & mask) == 0;
                let n = false;
                let h = true;
                let c = self.regs.get_flag(Flag::C);  // kept
                self.regs.update_flags(z, n, h, c);
                self.state = CpuState::FetchOpCode;
            },
            Instruction::Res(bit, Operand8::Reg(reg8)) => {
                let val = self.regs.read8(reg8);
                let mask = !((1 as u8) << bit);
                let result = val & mask;
                self.regs.write8(reg8, result);
                self.state = CpuState::FetchOpCode;
            },
            Instruction::Res(bit, Operand8::HlInd) => {
                if step == 0 {
                    let target_addr = self.regs.read16(Reg16::HL);
                    let val = bus.read(target_addr);
                    self.temp_val = val as u16;
                    self.state = CpuState::Executing { instr, step: 1 };
                } else {
                    let target_addr = self.regs.read16(Reg16::HL);
                    let val = self.temp_val as u8;
                    let mask = !((1 as u8) << bit);
                    let result = val & mask;
                    bus.write(target_addr, result);
                    self.state = CpuState::FetchOpCode;
                }
            },
            Instruction::SetBit(bit, Operand8::Reg(reg8)) => {
                let val = self.regs.read8(reg8);
                let mask = (1 as u8) << bit;
                let result = val | mask;
                self.regs.write8(reg8, result);
                self.state = CpuState::FetchOpCode;
            },
            Instruction::SetBit(bit, Operand8::HlInd) => {
                if step == 0 {
                    let target_addr = self.regs.read16(Reg16::HL);
                    let val = bus.read(target_addr);
                    self.temp_val = val as u16;
                    self.state = CpuState::Executing { instr, step: 1 };
                } else {
                    let val = self.temp_val as u8;
                    let target_addr = self.regs.read16(Reg16::HL);
                    let mask = (1 as u8) << bit;
                    let result = val | mask;
                    bus.write(target_addr, result);
                    self.state = CpuState::FetchOpCode;
                }
            },
            _ => {},
        }
    }

    /// RLCA, RRCA, RLA and RRA: rotations of A that clear Z.
    #[verifier::rlimit(100)]
    fn exec_rotate_a(&mut self, instr: Instruction, step: u8, bus: &Bus)
        requires
            instr is RlA || instr is RlcA || instr is RrA || instr is RrcA,
            exec_pre(old(self)@, bus@, instr, step),
        ensures
            (final(self)@, bus@) == exec_spec(old(self)@, bus@, instr, step),
    {
        match instr {
            Instruction::RlA => {
                // rotate left through the carry
                let r8 = self.regs.read8(Reg8::A);
                let carry = self.regs.get_flag(Flag::C);
                let carry_bit: u8 = match carry {
                    true => 1,
                    false => 0,
                };
                proof {
                    lemma_rotations(r8, carry_bit);
                }
                let new_carry = r8 & 0x80;
                // the MSB leaves, the carry enters
                let shifted_r8 = ((r8) << 1) | (carry_bit);
                let z = false;
                let n = false;
                let h = false;
                let c = new_carry != 0;
                self.regs.write8(Reg8::A, shifted_r8);
                self.regs.update_flags(z, n, h, c);
                self.state = CpuState::FetchOpCode;
            },
            Instruction::RlcA => {
                let A = self.regs.read8(Reg8::A);
                let msb: u8 = if A & 0x80 != 0 {
                    1
                } else {
                    0
                };
                proof {
                    lemma_rotations(A, msb);
                }
                let rotated_A = (A << 1) | msb;
                let z = false;
                let n = false;
                let h = false;
                let c = msb != 0;
                self.regs.update_flags(z, n, h, c);
                self.regs.write8(Reg8::A, rotated_A);
                self.state = CpuState::FetchOpCode;
            },
            Instruction::RrA => {
                let A = self.regs.read8(Reg8::A);
                let carry = self.regs.get_flag(Flag::C);
                let carry_bit: u8 = if carry {
                    1
                } else {
                    0
                };
                let lsb: u8 = if (A & 1) == 1 {
                    1
                } else {
                    0
                };
                proof {
                    lemma_rotations(A, carry_bit);
                }
                let rotated_A = (A >> 1) | (carry_bit << 7);
                let z = false;
                let n = false;
                let h = false;
                let c = lsb != 0;
                self.regs.write8(Reg8::A, rotated_A);
                self.regs.update_flags(z, n, h, c);
                self.state = CpuState::FetchOpCode;
            },
            Instruction::RrcA => {
                // rotate A right; the carry does not take part
                let A = self.regs.read8(Reg8::A);
                let lsb: u8 = if (A & 1) == 1 {
                    1
                } else {
                    0
                };
                proof {
                    lemma_rotations(A, lsb);
                }
                let rotated_A = (A >> 1) | (lsb << 7);
                let z = false;
                let n = false;
                let h = false;
                let c = lsb != 0;
                self.regs.write8(Reg8::A, rotated_A);
                self.regs.update_flags(z, n, h, c);
                self.state = CpuState::FetchOpCode;
            },
            _ => {},
        }
    }

    /// RL and RLC of a register or the byte at HL.
    #[verifier::rlimit(100)]
    fn exec_rotate_left(&mut self, instr: Instruction, step: u8, bus: &mut Bus)
        requires
            instr is Rl || instr is Rlc,
            exec_pre(old(self)@, old(bus)@, instr, step),
        ensures
            (final(self)@, final(bus)@) == exec_spec(old(self)@, old(bus)@, instr, step),
    {
        match instr {
            Instruction::Rl(Operand8::Reg(reg8)) => {
                // rotate left through the carry, which enters as the rightmost bit
                let r8 = self.regs.read8(reg8);
                let carry = self.regs.get_flag(Flag::C);
                let carry_bit: u8 = match carry {
                    true => 1,
                    false => 0,
                };
                proof {
                    lemma_rotations(r8, carry_bit);
                }
                let new_carry = r8 & 0x80;
                let shifted_r8 = ((r8) << 1) | (carry_bit);
                let z = shifted_r8 == 0;
                let n = false;
                let h = false;
                let c = new_carry != 0;
                self.regs.write8(reg8, shifted_r8);
                self.regs.update_flags(z, n, h, c);
                self.state = CpuState::FetchOpCode;
            },
            Instruction::Rlc(Operand8::Reg(reg8)) => {
                // rotate left; the carry only receives the bit that leaves
                let r8 = self.regs.read8(reg8);
                let msb: u8 = if r8 & 0x80 != 0 {
                    1
                } else {
                    0
                };
                proof {
                    lemma_rotations(r8, msb);
                }
                let shifted_r8 = (r8 << 1) | msb;
                let z = shifted_r8 == 0;
                let n = false;
                let h = false;
                let c = msb != 0;
                self.regs.update_flags(z, n, h, c);
                self.regs.write8(reg8, shifted_r8);
                self.state = CpuState::FetchOpCode
            },
            Instruction::Rl(Operand8::HlInd) => {
                if step == 0 {
                    let target_addr = self.regs.read16(Reg16::HL);
                    let val = bus.read(target_addr);
                    self.temp_val = val as u16;
                    self.state = CpuState::Executing { instr, step: 1 };
                } else {
                    let target_addr = self.regs.read16(Reg16::HL);
                    let val = self.temp_val as u8;
                    let new_carry = val & 0x80;
                    let carry = self.regs.get_flag(Flag::C);
                    let carry_bit: u8 = match carry {
                        true => 1,
                        false => 0,
                    };
                    proof {
                        lemma_rotations(val, carry_bit);
                    }
                    let shifted_val = val << 1 | (carry_bit);
                    let z = shifted_val == 0;
                    let n = false;
                    let h = false;
                    let c = new_carry != 0;
                    bus.write(target_addr, shifted_val);
                    self.regs.update_flags(z, n, h, c);
                    self.state = CpuState::FetchOpCode;
                }
            },
            Instruction::Rlc(Operand8::HlInd) => {
                if step == 0 {
                    let target_addr = self.regs.read16(Reg16::HL);
                    let val = bus.read(target_addr);
                    self.temp_val = val as u16;
                    self.state = CpuState::Executing { instr, step: 1 };
                } else {
                    let target_addr = self.regs.read16(Reg16::HL);
                    let val = self.temp_val as u8;
                    let msb: u8 = if val & 0x80 != 0 {
                        1
                    } else {
                        0
                    };
                    proof {
                        lemma_rotations(val, msb);
                    }
                    let shifted_val = (val << 1) | msb;
                    let z = shifted_val == 0;
                    let n = false;
                    let h = false;
                    let c = msb != 0;
                    self.regs.update_flags(z, n, h, c);
                    bus.write(target_addr, shifted_val);
                    self.state = CpuState::FetchOpCode;
                }
            },
            _ => {},
        }
    }

    /// RR and RRC of a register or the byte at HL.
    #[verifier::rlimit(100)]
    fn exec_rotate_right(&mut self, instr: Instruction, step: u8, bus: &mut Bus)
        requires
            instr is Rr || instr is Rrc,
            exec_pre(old(self)@, old(bus)@, instr, step),
        ensures
            (final(self)@, final(bus)@) == exec_spec(old(self)@, old(bus)@, instr, step),
    {
        match instr {
            Instruction::Rr(Operand8::Reg(reg8)) => {
                // rotate right through the carry, which enters as the leftmost bit
                let r8 = self.regs.read8(reg8);
                let carry = self.regs.get_flag(Flag::C);
                let lsb: u8 = if (r8 & 1) == 1 {
                    1
                } else {
                    0
                };
                let carry_bit: u8 = if carry {
                    1
                } else {
                    0
                };
                proof {
                    lemma_rotations(r8, carry_bit);
                }
                let rotated_r8 = (r8 >> 1) | (carry_bit << 7);
                let z = rotated_r8 == 0;
                let n = false;
                let h = false;
                let c = lsb != 0;
                self.regs.write8(reg8, rotated_r8);
                self.regs.update_flags(z, n, h, c);
                self.state = CpuState::FetchOpCode;
            },
            Instruction::Rrc(Operand8::Reg(reg8)) => {
                // rotate right; the carry only receives the bit that leaves
                let r8 = self.regs.read8(reg8);
                let lsb: u8 = if (r8 & 1) == 1 {
                    1
                } else {
                    0
                };
                proof {
                    lemma_rotations(r8, lsb);
                }
                let rotated_r8 = (r8 >> 1) | (lsb << 7);
                let z = rotated_r8 == 0;
                let n = false;
                let h = false;
                let c = lsb != 0;
                self.regs.update_flags(z, n, h, c);
                self.regs.write8(reg8, rotated_r8);
                self.state = CpuState::FetchOpCode;
            },
            Instruction::Rr(Operand8::HlInd) => {
                if step == 0 {
                    let target_addr = self.regs.read16(Reg16::HL);
                    let val = bus.read(target_addr);
                    self.temp_val = val as u16;
                    self.state = CpuState::Executing { instr, step: 1 };
                } else {
                    let target_addr = self.regs.read16(Reg16::HL);
                    let val = self.temp_val as u8;
                    let carry = self.regs.get_flag(Flag::C);
                    let lsb: u8 = if (val & 1) == 1 {
                        1
                    } else {
                        0
                    };
                    let carry_bit: u8 = if carry {
                        1
                    } else {
                        0
                    };
                    proof {
                        lemma_rotations(val, carry_bit);
                    }
                    let rotated_val = (val >> 1) | (carry_bit << 7);
                    let z = rotated_val == 0;
                    let n = false;
                    let h = false;
                    let c = lsb != 0;
                    bus.write(target_addr, rotated_val);
                    self.regs.update_flags(z, n, h, c);
                    self.state = CpuState::FetchOpCode;
                }
            },
            Instruction::Rrc(Operand8::HlInd) => {
                if step == 0 {
                    let target_addr = self.regs.read16(Reg16::HL);
                    let val = bus.read(target_addr);
                    self.temp_val = val as u16;
                    self.state = CpuState::Executing { instr, step: 1 };
                } else {
                    let target_addr = self.regs.read16(Reg16::HL);
                    let val = self.temp_val as u8;
                    let lsb: u8 = if (val & 1) == 1 {
                        1
                    } else {
                        0
                    };
                    proof {
                        lemma_rotations(val, lsb);
                    }
                    let rotated_val = (val >> 1) | (lsb << 7);
                    let z = rotated_val == 0;
                    let n = false;
                    let h = false;
                    let c = lsb != 0;
                    bus.write(target_addr, rotated_val);
                    self.regs.update_flags(z, n, h, c);
                    self.state = CpuState::FetchOpCode;
                }
            },
            _ => {},
        }
    }

    /// One machine cycle of an instruction: `step` counts the cycles after
    /// the fetch of its opcode.
    #[verifier::rlimit(100)]
    fn execute_step(&mut self, instr: Instruction, step: u8, bus: &mut Bus)
        requires
            exec_pre(old(self)@, old(bus)@, instr, step),
        ensures
            (final(self)@, final(bus)@) == exec_spec(old(self)@, old(bus)@, instr, step),
    {
        match instr {
            Instruction::Ld(_, _) | Instruction::LdImm(_) | Instruction::Ld16Imm(_)
            | Instruction::LdRegHlInd(_) => self.exec_load_reg(instr, step, bus),
            Instruction::LdHlInd(_) | Instruction::LdHlIndImm => self.exec_load_hl(
                instr,
                step,
                bus,
            ),
            Instruction::LdHliA | Instruction::LdHldA | Instruction::LdAhli
            | Instruction::LdAHld => self.exec_load_hl_step(instr, step, bus),
            Instruction::LdReg16IndA(_) | Instruction::LdAReg16Ind(_) | Instruction::LdhCIndA
            | Instruction::LdhACInd => self.exec_load_a_indirect(instr, step, bus),
            Instruction::LdImmIndA | Instruction::LdAImm16Ind | Instruction::LdhImm8IndA
            | Instruction::LdhAImm8Ind => self.exec_load_a_immediate(instr, step, bus),
            Instruction::Adc(_) | Instruction::AdcImm | Instruction::Add(_)
            | Instruction::AddImm | Instruction::Cp(_) | Instruction::CpImm
            | Instruction::Sbc(_) | Instruction::SbcImm | Instruction::Sub(_)
            | Instruction::SubImm | Instruction::And(_) | Instruction::AndImm
            | Instruction::Or(_) | Instruction::OrImm | Instruction::Xor(_)
            | Instruction::XorImm => self.exec_alu(instr, step, bus),
            Instruction::Inc(_) | Instruction::Dec(_) => self.exec_incdec(instr, step, bus),
            Instruction::Add16(_) => self.exec_add16(instr, step, bus),
            Instruction::Inc16(_) | Instruction::Dec16(_) => self.exec_wide(instr, step, bus),
            Instruction::Cpl => self.exec_cpl(instr, step, bus),
            Instruction::Bit(_, _) | Instruction::Res(_, _) | Instruction::SetBit(_, _) => {
                self.exec_bits(instr, step, bus)
            },
            Instruction::RlA | Instruction::RlcA | Instruction::RrA | Instruction::RrcA => {
                self.exec_rotate_a(instr, step, bus)
            },
            Instruction::Rl(_) | Instruction::Rlc(_) => self.exec_rotate_left(instr, step, bus),
            Instruction::Rr(_) | Instruction::Rrc(_) => self.exec_rotate_right(instr, step, bus),
            // SLA, SRA, SRL, SWAP, jumps, calls, returns, RST, CCF, SCF, the
            // stack instructions, DI, EI, HALT, DAA, NOP and STOP are not
            // implemented yet; the precondition rules them out
            _ => {},
        }
    }

    /// Advances the CPU by exactly one machine cycle.
    #[verifier::rlimit(100)]
    pub fn tick(&mut self, bus: &mut Bus)
        requires
            tick_pre(old(self)@, old(bus)@),
        ensures
            (final(self)@, final(bus)@) == tick_spec(old(self)@, old(bus)@),
    {
        match self.state {
            CpuState::FetchOpCode => {
                let opcode = self.fetch_advance_pc(bus);
                let instr = Instruction::from_byte(opcode);

                if matches!(instr, Instruction::PrefixCb) {
                    // an instruction of the extended table follows
                    self.state = CpuState::FetchCbOpCode;
                } else if instr.is_single_cycle() {
                    // needs nothing but the CPU: runs within this cycle
                    self.execute_step(instr, 0, bus);
                    self.state = CpuState::FetchOpCode;
                } else {
                    // the next cycles carry out the instruction
                    self.state = CpuState::Executing { instr, step: 0 };
                }
            },
            CpuState::FetchCbOpCode => {
                // the second fetch of an extended instruction
                let cb_opcode = self.fetch_advance_pc(bus);
                let instr = Instruction::from_cb_byte(cb_opcode);

                match instr {
                    Instruction::Bit(_, Operand8::HlInd) | Instruction::Res(_, Operand8::HlInd)
                    | Instruction::SetBit(_, Operand8::HlInd) | Instruction::Rlc(Operand8::HlInd)
                    | Instruction::Rrc(Operand8::HlInd) | Instruction::Rl(Operand8::HlInd)
                    | Instruction::Rr(Operand8::HlInd) | Instruction::Sla(Operand8::HlInd)
                    | Instruction::Sra(Operand8::HlInd) | Instruction::Srl(Operand8::HlInd)
                    | Instruction::Swap(Operand8::HlInd) => {
                        self.state = CpuState::Executing { instr, step: 0 };
                    },
                    _ => {
                        self.execute_step(instr, 0, bus);
                        self.state = CpuState::FetchOpCode;
                    },
                }
            },
            CpuState::Executing { instr, step } => self.execute_step(instr, step, bus),
            CpuState::Halted => {
                // nothing happens until an interrupt
            },
        }
    }
}

} // verus!
