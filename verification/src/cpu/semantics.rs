use vstd::prelude::*;

use super::instruction::{single_cycle_spec, Instruction, Operand8};
use super::registers::{bit_of, Flag, Reg16, Reg8, RegsView};
use crate::bus::BusView;

verus! {

/// Where the CPU is in its fetch, decode and execute cycle.
pub enum CpuState {
    /// Ready to fetch the next opcode.
    FetchOpCode,
    /// The 0xCB prefix was fetched; the next byte selects the instruction.
    FetchCbOpCode,
    /// Executing an instruction; `step` is the machine cycle within it.
    Executing { instr: Instruction, step: u8 },
    /// Waiting for an interrupt.
    Halted,
}

/// The state of the CPU: its cycle state, its registers and the scratch
/// value that carries data between the machine cycles of an instruction.
pub struct CpuView {
    pub state: CpuState,
    pub regs: RegsView,
    pub temp_val: u16,
}

// ---------------------------------------------------------------------
// Arithmetic and logic on bytes

/// The carry that an add or subtract takes in: the C flag when the
/// operation uses it, else 0.
pub open spec fn carry_in(r: RegsView, use_carry: bool) -> int {
    if use_carry && r.flag(Flag::C) {
        1
    } else {
        0
    }
}

/// ADD / ADC: A + val (+ carry) into A. Z when the byte result is 0, N
/// clear, H on a carry out of bit 3, C on a carry out of bit 7.
pub open spec fn add_spec(r: RegsView, val: u8, use_carry: bool) -> RegsView {
    let cin = carry_in(r, use_carry);
    let sum = r.a + val + cin;
    r.set8(Reg8::A, (sum % 256) as u8).with_flags(
        sum % 256 == 0,
        false,
        r.a % 16 + val % 16 + cin > 15,
        sum > 255,
    )
}

/// SUB / SBC: A - val (- carry) into A, modulo 256. Z when the byte result
/// is 0, N set, H on a borrow from bit 4, C on a borrow.
pub open spec fn sub_spec(r: RegsView, val: u8, use_carry: bool) -> RegsView {
    let cin = carry_in(r, use_carry);
    let diff = r.a - val - cin;
    r.set8(Reg8::A, (diff % 256) as u8).with_flags(
        diff % 256 == 0,
        true,
        r.a % 16 < val % 16 + cin,
        r.a < val + cin,
    )
}

/// CP: the flags of A - val; A is kept.
pub open spec fn cp_spec(r: RegsView, val: u8) -> RegsView {
    r.with_flags(r.a == val, true, r.a % 16 < val % 16, r.a < val)
}

/// AND: A & val into A; H is always set.
pub open spec fn and_spec(r: RegsView, val: u8) -> RegsView {
    r.set8(Reg8::A, r.a & val).with_flags(r.a & val == 0, false, true, false)
}

/// OR: A | val into A.
pub open spec fn or_spec(r: RegsView, val: u8) -> RegsView {
    r.set8(Reg8::A, r.a | val).with_flags(r.a | val == 0, false, false, false)
}

/// XOR: A ^ val into A.
pub open spec fn xor_spec(r: RegsView, val: u8) -> RegsView {
    r.set8(Reg8::A, r.a ^ val).with_flags(r.a ^ val == 0, false, false, false)
}

/// INC on a byte: the value plus one, modulo 256.
pub open spec fn inc_value(v: u8) -> u8 {
    ((v + 1) % 256) as u8
}

/// DEC on a byte: the value minus one, modulo 256.
pub open spec fn dec_value(v: u8) -> u8 {
    ((v + 255) % 256) as u8
}

/// INC: Z on a zero result, N clear, H on a carry out of bit 3, C kept.
pub open spec fn inc_flags(r: RegsView, v: u8) -> RegsView {
    r.with_flags(inc_value(v) == 0, false, v % 16 == 15, r.flag(Flag::C))
}

/// DEC: Z on a zero result, N set, H on a borrow from bit 4, C kept.
pub open spec fn dec_flags(r: RegsView, v: u8) -> RegsView {
    r.with_flags(dec_value(v) == 0, true, v % 16 == 0, r.flag(Flag::C))
}

// ---------------------------------------------------------------------
// Single bits, rotations

/// The mask of bit `n`.
pub open spec fn bit_mask(n: u8) -> u8 {
    1u8 << n
}

/// Whether bit `n` of `v` is set.
pub open spec fn bit_is_set(v: u8, n: u8) -> bool {
    v & bit_mask(n) != 0
}

/// `v` with bit `n` cleared.
pub open spec fn clear_bit(v: u8, n: u8) -> u8 {
    v & !bit_mask(n)
}

/// `v` with bit `n` set.
pub open spec fn set_bit(v: u8, n: u8) -> u8 {
    v | bit_mask(n)
}

/// Rotate left: bit 7 moves to bit 0 (and out as the carry).
pub open spec fn rlc_value(v: u8) -> u8 {
    ((v * 2) % 256 + v / 128) as u8
}

/// Rotate right: bit 0 moves to bit 7 (and out as the carry).
pub open spec fn rrc_value(v: u8) -> u8 {
    (v / 2 + (v % 2) * 128) as u8
}

/// Rotate left through the carry: the carry enters bit 0, bit 7 leaves.
pub open spec fn rl_value(v: u8, carry: bool) -> u8 {
    ((v * 2) % 256 + bit_of(carry)) as u8
}

/// Rotate right through the carry: the carry enters bit 7, bit 0 leaves.
pub open spec fn rr_value(v: u8, carry: bool) -> u8 {
    (v / 2 + bit_of(carry) * 128) as u8
}

/// The bit that leaves a left rotation.
pub open spec fn left_out(v: u8) -> bool {
    v >= 128
}

/// The bit that leaves a right rotation.
pub open spec fn right_out(v: u8) -> bool {
    v % 2 == 1
}

// ---------------------------------------------------------------------
// Pieces of a machine cycle

impl CpuView {
    pub open spec fn hl(self) -> u16 {
        self.regs.get16(Reg16::HL)
    }

    pub open spec fn with_regs(self, regs: RegsView) -> CpuView {
        CpuView { regs, ..self }
    }

    pub open spec fn with_temp(self, temp_val: u16) -> CpuView {
        CpuView { temp_val, ..self }
    }

    pub open spec fn with_state(self, state: CpuState) -> CpuView {
        CpuView { state, ..self }
    }

    /// The instruction is complete: the next cycle fetches an opcode.
    pub open spec fn finish(self) -> CpuView {
        self.with_state(CpuState::FetchOpCode)
    }

    /// The next cycle continues `instr` at `step`.
    pub open spec fn continue_at(self, instr: Instruction, step: u8) -> CpuView {
        self.with_state(CpuState::Executing { instr, step })
    }

    /// The program counter moved past one fetched byte.
    pub open spec fn advance_pc(self) -> CpuView {
        self.with_regs(self.regs.with_pc(((self.regs.pc + 1) % 0x10000) as u16))
    }
}

/// The byte at the program counter.
pub open spec fn fetched(c: CpuView, b: BusView) -> u8 {
    b.read(c.regs.pc)
}

/// The value of an eight-bit operand.
pub open spec fn operand_value(c: CpuView, b: BusView, o: Operand8) -> u8 {
    match o {
        Operand8::Reg(r) => c.regs.get8(r),
        Operand8::HlInd => b.read(c.hl()),
    }
}

/// An address in the high page 0xFF00-0xFFFF.
pub open spec fn high_page(low: u8) -> u16 {
    (0xFF00 + low) as u16
}

/// `lo` with the bits of `hi` placed in its high byte.
pub open spec fn with_high(lo: u16, hi: u8) -> u16 {
    lo | ((hi as u16) << 8u16)
}

/// A sixteen-bit value plus one, wrapping.
pub open spec fn wrap_inc(v: u16) -> u16 {
    ((v + 1) % 0x10000) as u16
}

/// A sixteen-bit value minus one, wrapping.
pub open spec fn wrap_dec(v: u16) -> u16 {
    ((v + 0xFFFF) % 0x10000) as u16
}

// ---------------------------------------------------------------------
// Which instructions exist, and for how many cycles

/// The instructions whose execution is implemented.
pub open spec fn implemented(instr: Instruction) -> bool {
    match instr {
        Instruction::Ld(_, _) | Instruction::LdImm(_) | Instruction::Ld16Imm(_)
        | Instruction::LdHlInd(_) | Instruction::LdHlIndImm | Instruction::LdRegHlInd(_)
        | Instruction::LdReg16IndA(_) | Instruction::LdImmIndA | Instruction::LdhImm8IndA
        | Instruction::LdhCIndA | Instruction::LdAReg16Ind(_) | Instruction::LdAImm16Ind
        | Instruction::LdhAImm8Ind | Instruction::LdhACInd | Instruction::LdHliA
        | Instruction::LdHldA | Instruction::LdAhli | Instruction::LdAHld => true,
        Instruction::Adc(_) | Instruction::AdcImm | Instruction::Add(_) | Instruction::AddImm
        | Instruction::Cp(_) | Instruction::CpImm | Instruction::Sbc(_) | Instruction::SbcImm
        | Instruction::Sub(_) | Instruction::SubImm | Instruction::And(_)
        | Instruction::AndImm | Instruction::Or(_) | Instruction::OrImm | Instruction::Xor(_)
        | Instruction::XorImm => true,
        Instruction::Inc(_) | Instruction::Dec(_) => true,
        Instruction::Add16(_) | Instruction::Inc16(_) | Instruction::Dec16(_) => true,
        Instruction::Cpl => true,
        Instruction::Bit(_, _) | Instruction::Res(_, _) | Instruction::SetBit(_, _) => true,
        Instruction::Rl(_) | Instruction::RlA | Instruction::Rlc(_) | Instruction::RlcA
        | Instruction::Rr(_) | Instruction::RrA | Instruction::Rrc(_) | Instruction::RrcA => true,
        _ => false,
    }
}

/// The last step of an implemented instruction (any step for the two plain
/// register loads, which do not look at it).
pub open spec fn last_step(instr: Instruction) -> int {
    match instr {
        Instruction::Ld16Imm(_) | Instruction::LdHlIndImm | Instruction::LdhImm8IndA
        | Instruction::LdhAImm8Ind => 1,
        Instruction::LdImmIndA | Instruction::LdAImm16Ind => 2,
        Instruction::Inc(Operand8::HlInd) | Instruction::Dec(Operand8::HlInd)
        | Instruction::Res(_, Operand8::HlInd) | Instruction::SetBit(_, Operand8::HlInd)
        | Instruction::Rl(Operand8::HlInd) | Instruction::Rlc(Operand8::HlInd)
        | Instruction::Rr(Operand8::HlInd) | Instruction::Rrc(Operand8::HlInd) => 1,
        _ => 0,
    }
}

/// Whether `step` is a step of the instruction.
pub open spec fn step_ok(instr: Instruction, step: u8) -> bool {
    match instr {
        Instruction::Ld(_, _) | Instruction::LdImm(_) => true,
        _ => step <= last_step(instr),
    }
}

/// Operands that the instruction can take: sixteen-bit destinations other
/// than the program counter, bit numbers below 8.
pub open spec fn operands_ok(instr: Instruction) -> bool {
    match instr {
        Instruction::Ld16Imm(rr) | Instruction::Inc16(rr) | Instruction::Dec16(rr) => rr
            != Reg16::PC,
        Instruction::Bit(n, _) | Instruction::Res(n, _) | Instruction::SetBit(n, _) => n < 8,
        _ => true,
    }
}

/// The address that a step of an instruction writes, if it writes one.
pub open spec fn write_addr(c: CpuView, instr: Instruction, step: u8) -> Option<u16> {
    match instr {
        Instruction::LdHlInd(_) | Instruction::LdHliA | Instruction::LdHldA => Some(c.hl()),
        Instruction::LdReg16IndA(rr) => Some(c.regs.get16(rr)),
        Instruction::LdhCIndA => Some(high_page(c.regs.c)),
        Instruction::LdHlIndImm => if step == 1 {
            Some(c.hl())
        } else {
            None
        },
        Instruction::LdhImm8IndA => if step == 1 {
            Some(c.temp_val)
        } else {
            None
        },
        Instruction::LdImmIndA => if step == 2 {
            Some(c.temp_val)
        } else {
            None
        },
        Instruction::Inc(Operand8::HlInd) | Instruction::Dec(Operand8::HlInd)
        | Instruction::Res(_, Operand8::HlInd) | Instruction::SetBit(_, Operand8::HlInd)
        | Instruction::Rl(Operand8::HlInd) | Instruction::Rlc(Operand8::HlInd)
        | Instruction::Rr(Operand8::HlInd) | Instruction::Rrc(Operand8::HlInd) => if step == 1 {
            Some(c.hl())
        } else {
            None
        },
        _ => None,
    }
}

/// When a step of an instruction can run: the instruction is implemented,
/// the step and the operands are valid, and the bus accepts the write.
pub open spec fn exec_pre(c: CpuView, b: BusView, instr: Instruction, step: u8) -> bool {
    &&& implemented(instr)
    &&& step_ok(instr, step)
    &&& operands_ok(instr)
    &&& match write_addr(c, instr, step) {
        Some(a) => b.can_write(a),
        None => true,
    }
}

// ---------------------------------------------------------------------
// What one step of an instruction does

/// Loads.
pub open spec fn load_step(c: CpuView, b: BusView, instr: Instruction, step: u8) -> (
    CpuView,
    BusView,
) {
    let r = c.regs;
    let n = fetched(c, b);
    let c1 = c.advance_pc();
    match instr {
        Instruction::Ld(dst, src) => (c.with_regs(r.set8(dst, r.get8(src))).finish(), b),
        Instruction::LdImm(dst) => (c1.with_regs(c1.regs.set8(dst, n)).finish(), b),
        Instruction::Ld16Imm(rr) => if step == 0 {
            (c1.with_temp(n as u16).continue_at(instr, 1), b)
        } else {
            (c1.with_regs(c1.regs.set16(rr, with_high(c.temp_val, n))).finish(), b)
        },
        Instruction::LdHlInd(src) => (c.finish(), b.write(c.hl(), r.get8(src))),
        Instruction::LdHlIndImm => if step == 0 {
            (c1.with_temp(n as u16).continue_at(instr, 1), b)
        } else {
            (c.finish(), b.write(c.hl(), c.temp_val as u8))
        },
        Instruction::LdRegHlInd(dst) => (c.with_regs(r.set8(dst, b.read(c.hl()))).finish(), b),
        Instruction::LdReg16IndA(rr) => (c.finish(), b.write(r.get16(rr), r.a)),
        Instruction::LdImmIndA | Instruction::LdAImm16Ind => if step == 0 {
            (c1.with_temp(n as u16).continue_at(instr, 1), b)
        } else if step == 1 {
            (c1.with_temp(with_high(c.temp_val, n)).continue_at(instr, 2), b)
        } else {
            match instr {
                Instruction::LdImmIndA => (c.finish(), b.write(c.temp_val, r.a)),
                _ => (c.with_regs(r.set8(Reg8::A, b.read(c.temp_val))).finish(), b),
            }
        },
        Instruction::LdhImm8IndA => if step == 0 {
            (c1.with_temp(high_page(n)).continue_at(instr, 1), b)
        } else {
            (c.finish(), b.write(c.temp_val, r.a))
        },
        Instruction::LdhCIndA => (c.finish(), b.write(high_page(r.c), r.a)),
        Instruction::LdAReg16Ind(rr) => (
            c.with_regs(r.set8(Reg8::A, b.read(r.get16(rr)))).finish(),
            b,
        ),
        Instruction::LdhAImm8Ind => if step == 0 {
            (c1.with_temp(high_page(n)).continue_at(instr, 1), b)
        } else {
            (c.with_regs(r.set8(Reg8::A, b.read(c.temp_val))).finish(), b)
        },
        Instruction::LdhACInd => (
            c.with_regs(r.set8(Reg8::A, b.read(high_page(r.c)))).finish(),
            b,
        ),
        Instruction::LdHliA => (
            c.with_regs(r.set16(Reg16::HL, wrap_inc(c.hl()))).finish(),
            b.write(c.hl(), r.a),
        ),
        Instruction::LdHldA => (
            c.with_regs(r.set16(Reg16::HL, wrap_dec(c.hl()))).finish(),
            b.write(c.hl(), r.a),
        ),
        Instruction::LdAhli => (
            c.with_regs(
                r.set8(Reg8::A, b.read(c.hl())).set16(Reg16::HL, wrap_inc(c.hl())),
            ).finish(),
            b,
        ),
        Instruction::LdAHld => (
            c.with_regs(
                r.set8(Reg8::A, b.read(c.hl())).set16(Reg16::HL, wrap_dec(c.hl())),
            ).finish(),
            b,
        ),
        _ => (c, b),
    }
}

/// The operation of an arithmetic or logic instruction on A and a value.
pub open spec fn alu_apply(instr: Instruction, r: RegsView, v: u8) -> RegsView {
    match instr {
        Instruction::Add(_) | Instruction::AddImm => add_spec(r, v, false),
        Instruction::Adc(_) | Instruction::AdcImm => add_spec(r, v, true),
        Instruction::Sub(_) | Instruction::SubImm => sub_spec(r, v, false),
        Instruction::Sbc(_) | Instruction::SbcImm => sub_spec(r, v, true),
        Instruction::Cp(_) | Instruction::CpImm => cp_spec(r, v),
        Instruction::And(_) | Instruction::AndImm => and_spec(r, v),
        Instruction::Or(_) | Instruction::OrImm => or_spec(r, v),
        _ => xor_spec(r, v),
    }
}

/// The operand of an arithmetic or logic instruction; `None` for the
/// immediate forms, which take the byte after the opcode.
pub open spec fn alu_operand(instr: Instruction) -> Option<Operand8> {
    match instr {
        Instruction::Add(o) | Instruction::Adc(o) | Instruction::Sub(o) | Instruction::Sbc(o)
        | Instruction::Cp(o) | Instruction::And(o) | Instruction::Or(o) | Instruction::Xor(
            o,
        ) => Some(o),
        _ => None,
    }
}

/// Eight-bit arithmetic and logic: one step.
pub open spec fn alu_step(c: CpuView, b: BusView, instr: Instruction) -> (CpuView, BusView) {
    match alu_operand(instr) {
        Some(o) => (c.with_regs(alu_apply(instr, c.regs, operand_value(c, b, o))).finish(), b),
        None => {
            let c1 = c.advance_pc();
            (c1.with_regs(alu_apply(instr, c1.regs, fetched(c, b))).finish(), b)
        },
    }
}

/// INC and DEC of an eight-bit operand; the byte at HL takes a read step
/// and a write step.
pub open spec fn incdec_step(c: CpuView, b: BusView, instr: Instruction, step: u8) -> (
    CpuView,
    BusView,
) {
    match instr {
        Instruction::Inc(Operand8::Reg(r)) => {
            let v = c.regs.get8(r);
            (c.with_regs(inc_flags(c.regs.set8(r, inc_value(v)), v)).finish(), b)
        },
        Instruction::Dec(Operand8::Reg(r)) => {
            let v = c.regs.get8(r);
            (c.with_regs(dec_flags(c.regs.set8(r, dec_value(v)), v)).finish(), b)
        },
        Instruction::Inc(Operand8::HlInd) | Instruction::Dec(Operand8::HlInd) => if step == 0 {
            (c.with_temp(b.read(c.hl()) as u16).continue_at(instr, 1), b)
        } else {
            let v = c.temp_val as u8;
            match instr {
                Instruction::Inc(_) => (
                    c.with_regs(inc_flags(c.regs, v)).finish(),
                    b.write(c.hl(), inc_value(v)),
                ),
                _ => (c.with_regs(dec_flags(c.regs, v)).finish(), b.write(c.hl(), dec_value(v))),
            }
        },
        _ => (c, b),
    }
}

/// Sixteen-bit arithmetic, and CPL.
pub open spec fn wide_step(c: CpuView, b: BusView, instr: Instruction) -> (CpuView, BusView) {
    let r = c.regs;
    match instr {
        Instruction::Add16(rr) => {
            let v = r.get16(rr);
            let hl = c.hl();
            let sum = hl + v;
            (
                c.with_regs(
                    r.set16(Reg16::HL, (sum % 0x10000) as u16).with_flags(
                        r.flag(Flag::Z),
                        false,
                        v % 0x1000 + hl % 0x1000 > 0xFFF,
                        sum > 0xFFFF,
                    ),
                ).finish(),
                b,
            )
        },
        Instruction::Inc16(rr) => (c.with_regs(r.set16(rr, wrap_inc(r.get16(rr)))).finish(), b),
        Instruction::Dec16(rr) => (c.with_regs(r.set16(rr, wrap_dec(r.get16(rr)))).finish(), b),
        Instruction::Cpl => (
            c.with_regs(
                r.set8(Reg8::A, (255 - r.a) as u8).with_flags(
                    r.flag(Flag::Z),
                    true,
                    true,
                    r.flag(Flag::C),
                ),
            ).finish(),
            b,
        ),
        _ => (c, b),
    }
}

/// BIT, RES and SET. BIT sets Z when the bit is clear, clears N, sets H and
/// keeps C; RES and SET on the byte at HL take a read and a write step.
pub open spec fn bits_step(c: CpuView, b: BusView, instr: Instruction, step: u8) -> (
    CpuView,
    BusView,
) {
    let r = c.regs;
    match instr {
        Instruction::Bit(n, o) => {
            let v = operand_value(c, b, o);
            (c.with_regs(r.with_flags(!bit_is_set(v, n), false, true, r.flag(Flag::C))).finish(), b)
        },
        Instruction::Res(n, Operand8::Reg(x)) => (
            c.with_regs(r.set8(x, clear_bit(r.get8(x), n))).finish(),
            b,
        ),
        Instruction::SetBit(n, Operand8::Reg(x)) => (
            c.with_regs(r.set8(x, set_bit(r.get8(x), n))).finish(),
            b,
        ),
        Instruction::Res(n, Operand8::HlInd) | Instruction::SetBit(n, Operand8::HlInd) => if step
            == 0 {
            (c.with_temp(b.read(c.hl()) as u16).continue_at(instr, 1), b)
        } else {
            let v = c.temp_val as u8;
            match instr {
                Instruction::Res(_, _) => (c.finish(), b.write(c.hl(), clear_bit(v, n))),
                _ => (c.finish(), b.write(c.hl(), set_bit(v, n))),
            }
        },
        _ => (c, b),
    }
}

/// The result byte and the bit that leaves, of a rotation instruction on `v`
/// with incoming carry `carry`.
pub open spec fn rotate_result(instr: Instruction, v: u8, carry: bool) -> (u8, bool) {
    match instr {
        Instruction::Rl(_) | Instruction::RlA => (rl_value(v, carry), left_out(v)),
        Instruction::Rlc(_) | Instruction::RlcA => (rlc_value(v), left_out(v)),
        Instruction::Rr(_) | Instruction::RrA => (rr_value(v, carry), right_out(v)),
        _ => (rrc_value(v), right_out(v)),
    }
}

/// Rotations. The forms on A clear Z; the others set Z on a zero result.
/// N and H are cleared and C takes the bit that leaves.
pub open spec fn rotate_step(c: CpuView, b: BusView, instr: Instruction, step: u8) -> (
    CpuView,
    BusView,
) {
    let r = c.regs;
    let carry = r.flag(Flag::C);
    match instr {
        Instruction::RlA | Instruction::RlcA | Instruction::RrA | Instruction::RrcA => {
            let (res, out) = rotate_result(instr, r.a, carry);
            (c.with_regs(r.set8(Reg8::A, res).with_flags(false, false, false, out)).finish(), b)
        },
        Instruction::Rl(Operand8::Reg(x)) | Instruction::Rlc(Operand8::Reg(x))
        | Instruction::Rr(Operand8::Reg(x)) | Instruction::Rrc(Operand8::Reg(x)) => {
            let (res, out) = rotate_result(instr, r.get8(x), carry);
            (c.with_regs(r.set8(x, res).with_flags(res == 0, false, false, out)).finish(), b)
        },
        _ => if step == 0 {
            (c.with_temp(b.read(c.hl()) as u16).continue_at(instr, 1), b)
        } else {
            let (res, out) = rotate_result(instr, c.temp_val as u8, carry);
            (
                c.with_regs(r.with_flags(res == 0, false, false, out)).finish(),
                b.write(c.hl(), res),
            )
        },
    }
}

/// What one step of an instruction does to the CPU and the bus.
pub open spec fn exec_spec(c: CpuView, b: BusView, instr: Instruction, step: u8) -> (
    CpuView,
    BusView,
) {
    match instr {
        Instruction::Adc(_) | Instruction::AdcImm | Instruction::Add(_) | Instruction::AddImm
        | Instruction::Cp(_) | Instruction::CpImm | Instruction::Sbc(_) | Instruction::SbcImm
        | Instruction::Sub(_) | Instruction::SubImm | Instruction::And(_)
        | Instruction::AndImm | Instruction::Or(_) | Instruction::OrImm | Instruction::Xor(_)
        | Instruction::XorImm => alu_step(c, b, instr),
        Instruction::Inc(_) | Instruction::Dec(_) => incdec_step(c, b, instr, step),
        Instruction::Add16(_) | Instruction::Inc16(_) | Instruction::Dec16(_)
        | Instruction::Cpl => wide_step(c, b, instr),
        Instruction::Bit(_, _) | Instruction::Res(_, _) | Instruction::SetBit(_, _) => bits_step(
            c,
            b,
            instr,
            step,
        ),
        Instruction::Rl(_) | Instruction::RlA | Instruction::Rlc(_) | Instruction::RlcA
        | Instruction::Rr(_) | Instruction::RrA | Instruction::Rrc(_)
        | Instruction::RrcA => rotate_step(c, b, instr, step),
        _ => load_step(c, b, instr, step),
    }
}

// ---------------------------------------------------------------------
// One machine cycle

/// The extended instructions on the byte at HL, which take execution steps
/// after their fetch.
pub open spec fn cb_uses_memory(instr: Instruction) -> bool {
    match instr {
        Instruction::Bit(_, Operand8::HlInd) | Instruction::Res(_, Operand8::HlInd)
        | Instruction::SetBit(_, Operand8::HlInd) | Instruction::Rlc(Operand8::HlInd)
        | Instruction::Rrc(Operand8::HlInd) | Instruction::Rl(Operand8::HlInd)
        | Instruction::Rr(Operand8::HlInd) | Instruction::Sla(Operand8::HlInd)
        | Instruction::Sra(Operand8::HlInd) | Instruction::Srl(Operand8::HlInd)
        | Instruction::Swap(Operand8::HlInd) => true,
        _ => false,
    }
}

/// What one machine cycle does. Fetching an opcode advances the program
/// counter; the 0xCB prefix leads to a second fetch; an instruction that
/// needs no more than its fetch runs at once, any other runs from step 0 in
/// the next cycles; a halted CPU does nothing.
pub open spec fn tick_spec(c: CpuView, b: BusView) -> (CpuView, BusView) {
    match c.state {
        CpuState::FetchOpCode => {
            let instr = super::instruction::decode_spec(fetched(c, b));
            let c1 = c.advance_pc();
            if instr is PrefixCb {
                (c1.with_state(CpuState::FetchCbOpCode), b)
            } else if single_cycle_spec(instr) {
                let (c2, b2) = exec_spec(c1, b, instr, 0);
                (c2.finish(), b2)
            } else {
                (c1.continue_at(instr, 0), b)
            }
        },
        CpuState::FetchCbOpCode => {
            let instr = super::instruction::decode_cb_spec(fetched(c, b));
            let c1 = c.advance_pc();
            if cb_uses_memory(instr) {
                (c1.continue_at(instr, 0), b)
            } else {
                let (c2, b2) = exec_spec(c1, b, instr, 0);
                (c2.finish(), b2)
            }
        },
        CpuState::Executing { instr, step } => exec_spec(c, b, instr, step),
        CpuState::Halted => (c, b),
    }
}

/// When a machine cycle can run: any instruction it executes must be able to.
pub open spec fn tick_pre(c: CpuView, b: BusView) -> bool {
    match c.state {
        CpuState::FetchOpCode => {
            let instr = super::instruction::decode_spec(fetched(c, b));
            (!(instr is PrefixCb) && single_cycle_spec(instr)) ==> exec_pre(
                c.advance_pc(),
                b,
                instr,
                0,
            )
        },
        CpuState::FetchCbOpCode => {
            let instr = super::instruction::decode_cb_spec(fetched(c, b));
            !cb_uses_memory(instr) ==> exec_pre(c.advance_pc(), b, instr, 0)
        },
        CpuState::Executing { instr, step } => exec_pre(c, b, instr, step),
        CpuState::Halted => true,
    }
}

} // verus!
