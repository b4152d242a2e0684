use vstd::prelude::*;

use super::instruction::{Instruction, Operand8};
use super::registers::{lemma_flags_read_back, lemma_write8_read8, Flag, Reg16, Reg8};
use super::properties::{lemma_byte_round_trip, read_write_steps};
use super::semantics::{exec_spec, CpuState, CpuView};
use crate::bus::BusView;

verus! {

// What each implemented instruction does, stated in plain arithmetic on
// the registers, the flags and the bus.

/// The carry flag as 0 or 1.
pub open spec fn carry_bit(c: CpuView) -> int {
    if c.regs.flag(Flag::C) {
        1
    } else {
        0
    }
}

/// The byte that an eight-bit operand names: a register, or the byte at HL.
pub open spec fn operand_byte(c: CpuView, b: BusView, o: Operand8) -> u8 {
    match o {
        Operand8::Reg(r) => c.regs.get8(r),
        Operand8::HlInd => b.read(c.regs.get16(Reg16::HL)),
    }
}

// ---------------------------------------------------------------------
// Eight-bit arithmetic and logic

/// ADD A,o: A becomes A + o modulo 256; Z when that is 0, N clear, H on a
/// carry out of bit 3, C on a carry out of bit 7. Only A and F change, and
/// the bus is not written.
pub proof fn lemma_add_effect(c: CpuView, b: BusView, o: Operand8, other: Reg8)
    ensures
        ({
            let a = c.regs.a;
            let v = operand_byte(c, b, o);
            let (c1, b1) = exec_spec(c, b, Instruction::Add(o), 0);
            &&& c1.regs.a == (a + v) % 256
            &&& c1.regs.flag(Flag::Z) == ((a + v) % 256 == 0)
            &&& !c1.regs.flag(Flag::N)
            &&& c1.regs.flag(Flag::H) == (a % 16 + v % 16 > 15)
            &&& c1.regs.flag(Flag::C) == (a + v > 255)
            &&& other != Reg8::A ==> c1.regs.get8(other) == c.regs.get8(other)
            &&& b1 == b
        }),
{
    let a = c.regs.a;
    let v = operand_byte(c, b, o);
    let sum = a + v;
    lemma_flags_read_back(c.regs.set8(Reg8::A, (sum % 256) as u8), sum % 256 == 0, false, a % 16 + v % 16 > 15, sum > 255);
}

/// ADC A,o: as ADD with the carry flag added in.
pub proof fn lemma_adc_effect(c: CpuView, b: BusView, o: Operand8)
    ensures
        ({
            let a = c.regs.a;
            let v = operand_byte(c, b, o);
            let cin = carry_bit(c);
            let (c1, b1) = exec_spec(c, b, Instruction::Adc(o), 0);
            &&& c1.regs.a == (a + v + cin) % 256
            &&& c1.regs.flag(Flag::Z) == ((a + v + cin) % 256 == 0)
            &&& !c1.regs.flag(Flag::N)
            &&& c1.regs.flag(Flag::H) == (a % 16 + v % 16 + cin > 15)
            &&& c1.regs.flag(Flag::C) == (a + v + cin > 255)
            &&& b1 == b
        }),
{
    let a = c.regs.a;
    let v = operand_byte(c, b, o);
    let cin = carry_bit(c);
    let sum = a + v + cin;
    lemma_flags_read_back(c.regs.set8(Reg8::A, (sum % 256) as u8), sum % 256 == 0, false, a % 16 + v % 16 + cin > 15, sum > 255);
}

/// SUB o: A becomes A - o modulo 256; Z when A equalled o, N set, H on a
/// borrow from bit 4, C on a borrow.
pub proof fn lemma_sub_effect(c: CpuView, b: BusView, o: Operand8, other: Reg8)
    ensures
        ({
            let a = c.regs.a;
            let v = operand_byte(c, b, o);
            let (c1, b1) = exec_spec(c, b, Instruction::Sub(o), 0);
            &&& c1.regs.a == (a + 256 - v) % 256
            &&& c1.regs.flag(Flag::Z) == (a == v)
            &&& c1.regs.flag(Flag::N)
            &&& c1.regs.flag(Flag::H) == (a % 16 < v % 16)
            &&& c1.regs.flag(Flag::C) == (a < v)
            &&& other != Reg8::A ==> c1.regs.get8(other) == c.regs.get8(other)
            &&& b1 == b
        }),
{
    let a = c.regs.a;
    let v = operand_byte(c, b, o);
    let diff = a - v;
    assert((diff % 256 == 0) == (a == v));
    assert(diff % 256 == (a + 256 - v) % 256);
    lemma_flags_read_back(c.regs.set8(Reg8::A, (diff % 256) as u8), diff % 256 == 0, true, a % 16 < v % 16, a < v);
}

/// SBC A,o: as SUB with the carry flag subtracted too.
pub proof fn lemma_sbc_effect(c: CpuView, b: BusView, o: Operand8)
    ensures
        ({
            let a = c.regs.a;
            let v = operand_byte(c, b, o);
            let cin = carry_bit(c);
            let (c1, b1) = exec_spec(c, b, Instruction::Sbc(o), 0);
            &&& c1.regs.a == (a + 512 - v - cin) % 256
            &&& c1.regs.flag(Flag::Z) == ((a + 512 - v - cin) % 256 == 0)
            &&& c1.regs.flag(Flag::N)
            &&& c1.regs.flag(Flag::H) == (a % 16 < v % 16 + cin)
            &&& c1.regs.flag(Flag::C) == (a < v + cin)
            &&& b1 == b
        }),
{
    let a = c.regs.a;
    let v = operand_byte(c, b, o);
    let cin = carry_bit(c);
    let diff = a - v - cin;
    assert(diff % 256 == (a + 512 - v - cin) % 256);
    lemma_flags_read_back(c.regs.set8(Reg8::A, (diff % 256) as u8), diff % 256 == 0, true, a % 16 < v % 16 + cin, a < v + cin);
}

/// CP o: the flags of A - o, with A and every other register kept.
pub proof fn lemma_cp_effect(c: CpuView, b: BusView, o: Operand8, other: Reg8)
    ensures
        ({
            let a = c.regs.a;
            let v = operand_byte(c, b, o);
            let (c1, b1) = exec_spec(c, b, Instruction::Cp(o), 0);
            &&& c1.regs.get8(other) == c.regs.get8(other)
            &&& c1.regs.flag(Flag::Z) == (a == v)
            &&& c1.regs.flag(Flag::N)
            &&& c1.regs.flag(Flag::H) == (a % 16 < v % 16)
            &&& c1.regs.flag(Flag::C) == (a < v)
            &&& b1 == b
        }),
{
    let a = c.regs.a;
    let v = operand_byte(c, b, o);
    lemma_flags_read_back(c.regs, a == v, true, a % 16 < v % 16, a < v);
}

/// AND o: A becomes A & o; Z when that is 0, N clear, H set, C clear.
pub proof fn lemma_and_effect(c: CpuView, b: BusView, o: Operand8)
    ensures
        ({
            let a = c.regs.a;
            let v = operand_byte(c, b, o);
            let (c1, b1) = exec_spec(c, b, Instruction::And(o), 0);
            &&& c1.regs.a == a & v
            &&& c1.regs.flag(Flag::Z) == (a & v == 0)
            &&& !c1.regs.flag(Flag::N)
            &&& c1.regs.flag(Flag::H)
            &&& !c1.regs.flag(Flag::C)
            &&& b1 == b
        }),
{
    let a = c.regs.a;
    let v = operand_byte(c, b, o);
    lemma_flags_read_back(c.regs.set8(Reg8::A, a & v), a & v == 0, false, true, false);
}

/// OR o: A becomes A | o; Z when that is 0, the other flags clear.
pub proof fn lemma_or_effect(c: CpuView, b: BusView, o: Operand8)
    ensures
        ({
            let a = c.regs.a;
            let v = operand_byte(c, b, o);
            let (c1, b1) = exec_spec(c, b, Instruction::Or(o), 0);
            &&& c1.regs.a == a | v
            &&& c1.regs.flag(Flag::Z) == (a | v == 0)
            &&& !c1.regs.flag(Flag::N)
            &&& !c1.regs.flag(Flag::H)
            &&& !c1.regs.flag(Flag::C)
            &&& b1 == b
        }),
{
    let a = c.regs.a;
    let v = operand_byte(c, b, o);
    lemma_flags_read_back(c.regs.set8(Reg8::A, a | v), a | v == 0, false, false, false);
}

/// XOR o: A becomes A ^ o; Z when that is 0, the other flags clear.
pub proof fn lemma_xor_effect(c: CpuView, b: BusView, o: Operand8)
    ensures
        ({
            let a = c.regs.a;
            let v = operand_byte(c, b, o);
            let (c1, b1) = exec_spec(c, b, Instruction::Xor(o), 0);
            &&& c1.regs.a == a ^ v
            &&& c1.regs.flag(Flag::Z) == (a ^ v == 0)
            &&& !c1.regs.flag(Flag::N)
            &&& !c1.regs.flag(Flag::H)
            &&& !c1.regs.flag(Flag::C)
            &&& b1 == b
        }),
{
    let a = c.regs.a;
    let v = operand_byte(c, b, o);
    lemma_flags_read_back(c.regs.set8(Reg8::A, a ^ v), a ^ v == 0, false, false, false);
}

/// ADD A,n takes the byte after the opcode as the operand and moves the
/// program counter past it.
pub proof fn lemma_add_immediate_effect(c: CpuView, b: BusView)
    ensures
        ({
            let a = c.regs.a;
            let n = b.read(c.regs.pc);
            let (c1, b1) = exec_spec(c, b, Instruction::AddImm, 0);
            &&& c1.regs.a == (a + n) % 256
            &&& c1.regs.flag(Flag::C) == (a + n > 255)
            &&& c1.regs.flag(Flag::H) == (a % 16 + n % 16 > 15)
            &&& c1.regs.pc == (c.regs.pc + 1) % 0x10000
            &&& b1 == b
        }),
{
    let a = c.regs.a;
    let n = b.read(c.regs.pc);
    let r1 = c.advance_pc().regs;
    lemma_flags_read_back(r1.set8(Reg8::A, ((a + n) % 256) as u8), (a + n) % 256 == 0, false, a % 16 + n % 16 > 15, a + n > 255);
}

/// SUB n takes the byte after the opcode as the operand and moves the
/// program counter past it.
pub proof fn lemma_sub_immediate_effect(c: CpuView, b: BusView)
    ensures
        ({
            let a = c.regs.a;
            let n = b.read(c.regs.pc);
            let (c1, b1) = exec_spec(c, b, Instruction::SubImm, 0);
            &&& c1.regs.a == (a + 256 - n) % 256
            &&& c1.regs.flag(Flag::C) == (a < n)
            &&& c1.regs.flag(Flag::Z) == (a == n)
            &&& c1.regs.pc == (c.regs.pc + 1) % 0x10000
            &&& b1 == b
        }),
{
    let a = c.regs.a;
    let n = b.read(c.regs.pc);
    let r1 = c.advance_pc().regs;
    assert((a - n) % 256 == (a + 256 - n) % 256);
    assert(((a - n) % 256 == 0) == (a == n));
    lemma_flags_read_back(r1.set8(Reg8::A, ((a - n) % 256) as u8), (a - n) % 256 == 0, true, a % 16 < n % 16, a < n);
}

/// CP n compares A with the byte after the opcode, keeps A and moves the
/// program counter past that byte.
pub proof fn lemma_cp_immediate_effect(c: CpuView, b: BusView)
    ensures
        ({
            let a = c.regs.a;
            let n = b.read(c.regs.pc);
            let (c1, b1) = exec_spec(c, b, Instruction::CpImm, 0);
            &&& c1.regs.a == a
            &&& c1.regs.flag(Flag::Z) == (a == n)
            &&& c1.regs.flag(Flag::C) == (a < n)
            &&& c1.regs.pc == (c.regs.pc + 1) % 0x10000
            &&& b1 == b
        }),
{
    let a = c.regs.a;
    let n = b.read(c.regs.pc);
    let r1 = c.advance_pc().regs;
    lemma_flags_read_back(r1, a == n, true, a % 16 < n % 16, a < n);
}

// ---------------------------------------------------------------------
// Rotations and single bits

/// RLCA moves bit 7 of A to bit 0 and into C; RLA moves the carry into
/// bit 0 and bit 7 into C. Both clear Z, N and H.
pub proof fn lemma_rotate_a_left_effect(c: CpuView, b: BusView)
    ensures
        ({
            let a = c.regs.a;
            let cin = carry_bit(c);
            let (c1, b1) = exec_spec(c, b, Instruction::RlcA, 0);
            let (c2, b2) = exec_spec(c, b, Instruction::RlA, 0);
            &&& c1.regs.a == (a * 2) % 256 + a / 128 && c1.regs.flag(Flag::C) == (a >= 128)
            &&& c2.regs.a == (a * 2) % 256 + cin && c2.regs.flag(Flag::C) == (a >= 128)
            &&& !c1.regs.flag(Flag::Z) && !c2.regs.flag(Flag::Z)
            &&& b1 == b && b2 == b
        }),
{
    let a = c.regs.a;
    let r = c.regs;
    lemma_flags_read_back(r.set8(Reg8::A, ((a * 2) % 256 + a / 128) as u8), false, false, false, a >= 128);
    lemma_flags_read_back(r.set8(Reg8::A, ((a * 2) % 256 + carry_bit(c)) as u8), false, false, false, a >= 128);
}

/// RRCA moves bit 0 of A to bit 7 and into C; RRA moves the carry into
/// bit 7 and bit 0 into C. Both clear Z, N and H.
pub proof fn lemma_rotate_a_right_effect(c: CpuView, b: BusView)
    ensures
        ({
            let a = c.regs.a;
            let cin = carry_bit(c);
            let (c1, b1) = exec_spec(c, b, Instruction::RrcA, 0);
            let (c2, b2) = exec_spec(c, b, Instruction::RrA, 0);
            &&& c1.regs.a == a / 2 + (a % 2) * 128 && c1.regs.flag(Flag::C) == (a % 2 == 1)
            &&& c2.regs.a == a / 2 + cin * 128 && c2.regs.flag(Flag::C) == (a % 2 == 1)
            &&& !c1.regs.flag(Flag::Z) && !c2.regs.flag(Flag::Z)
            &&& b1 == b && b2 == b
        }),
{
    let a = c.regs.a;
    let r = c.regs;
    lemma_flags_read_back(r.set8(Reg8::A, (a / 2 + (a % 2) * 128) as u8), false, false, false, a % 2 == 1);
    lemma_flags_read_back(r.set8(Reg8::A, (a / 2 + carry_bit(c) * 128) as u8), false, false, false, a % 2 == 1);
}

/// RLC r rotates the register left, bit 7 into bit 0 and into C; Z tells
/// whether the result is 0, N and H are cleared.
pub proof fn lemma_rlc_register_effect(c: CpuView, b: BusView, x: Reg8)
    ensures
        ({
            let v = c.regs.get8(x);
            let w = (v * 2) % 256 + v / 128;
            let (c1, b1) = exec_spec(c, b, Instruction::Rlc(Operand8::Reg(x)), 0);
            &&& c1.regs.get8(x) == w
            &&& c1.regs.flag(Flag::C) == (v >= 128)
            &&& c1.regs.flag(Flag::Z) == (w == 0)
            &&& !c1.regs.flag(Flag::N) && !c1.regs.flag(Flag::H)
            &&& b1 == b
        }),
{
    let v = c.regs.get8(x);
    let w = ((v * 2) % 256 + v / 128) as u8;
    lemma_flags_read_back(c.regs.set8(x, w), w == 0, false, false, v >= 128);
    lemma_write8_read8(c.regs, x, x, w);
}

/// RRC r rotates the register right, bit 0 into bit 7 and into C.
pub proof fn lemma_rrc_register_effect(c: CpuView, b: BusView, x: Reg8)
    ensures
        ({
            let v = c.regs.get8(x);
            let w = v / 2 + (v % 2) * 128;
            let (c1, b1) = exec_spec(c, b, Instruction::Rrc(Operand8::Reg(x)), 0);
            &&& c1.regs.get8(x) == w
            &&& c1.regs.flag(Flag::C) == (v % 2 == 1)
            &&& c1.regs.flag(Flag::Z) == (w == 0)
            &&& b1 == b
        }),
{
    let v = c.regs.get8(x);
    let w = (v / 2 + (v % 2) * 128) as u8;
    lemma_flags_read_back(c.regs.set8(x, w), w == 0, false, false, v % 2 == 1);
    lemma_write8_read8(c.regs, x, x, w);
}

/// RL r rotates the register left through the carry: the carry enters bit
/// 0 and bit 7 leaves into C.
pub proof fn lemma_rl_register_effect(c: CpuView, b: BusView, x: Reg8)
    ensures
        ({
            let v = c.regs.get8(x);
            let w = (v * 2) % 256 + carry_bit(c);
            let (c1, b1) = exec_spec(c, b, Instruction::Rl(Operand8::Reg(x)), 0);
            &&& c1.regs.get8(x) == w
            &&& c1.regs.flag(Flag::C) == (v >= 128)
            &&& c1.regs.flag(Flag::Z) == (w == 0)
            &&& b1 == b
        }),
{
    let v = c.regs.get8(x);
    let w = ((v * 2) % 256 + carry_bit(c)) as u8;
    lemma_flags_read_back(c.regs.set8(x, w), w == 0, false, false, v >= 128);
    lemma_write8_read8(c.regs, x, x, w);
}

/// RR r rotates the register right through the carry: the carry enters bit
/// 7 and bit 0 leaves into C.
pub proof fn lemma_rr_register_effect(c: CpuView, b: BusView, x: Reg8)
    ensures
        ({
            let v = c.regs.get8(x);
            let w = v / 2 + carry_bit(c) * 128;
            let (c1, b1) = exec_spec(c, b, Instruction::Rr(Operand8::Reg(x)), 0);
            &&& c1.regs.get8(x) == w
            &&& c1.regs.flag(Flag::C) == (v % 2 == 1)
            &&& c1.regs.flag(Flag::Z) == (w == 0)
            &&& b1 == b
        }),
{
    let v = c.regs.get8(x);
    let w = (v / 2 + carry_bit(c) * 128) as u8;
    lemma_flags_read_back(c.regs.set8(x, w), w == 0, false, false, v % 2 == 1);
    lemma_write8_read8(c.regs, x, x, w);
}

/// BIT n,o sets Z exactly when bit n of the operand is clear, clears N,
/// sets H, keeps C, and changes no register but F.
pub proof fn lemma_bit_effect(c: CpuView, b: BusView, n: u8, o: Operand8, other: Reg8)
    requires
        n < 8,
    ensures
        ({
            let v = operand_byte(c, b, o);
            let (c1, b1) = exec_spec(c, b, Instruction::Bit(n, o), 0);
            &&& c1.regs.flag(Flag::Z) == ((v >> n) & 1 == 0)
            &&& !c1.regs.flag(Flag::N)
            &&& c1.regs.flag(Flag::H)
            &&& c1.regs.flag(Flag::C) == c.regs.flag(Flag::C)
            &&& c1.regs.get8(other) == c.regs.get8(other)
            &&& b1 == b
        }),
{
    let v = operand_byte(c, b, o);
    assert(((v & (1u8 << n)) == 0) == ((v >> n) & 1 == 0)) by (bit_vector)
        requires
            n < 8,
    ;
    lemma_flags_read_back(c.regs, v & (1u8 << n) == 0, false, true, c.regs.flag(Flag::C));
}

/// RES n,r clears bit n of the register and SET n,r sets it; the other bits
/// and the flags are kept.
pub proof fn lemma_res_set_register_effect(c: CpuView, b: BusView, n: u8, x: Reg8, m: u8)
    requires
        n < 8,
        m < 8,
    ensures
        ({
            let v = c.regs.get8(x);
            let (c1, b1) = exec_spec(c, b, Instruction::Res(n, Operand8::Reg(x)), 0);
            let (c2, b2) = exec_spec(c, b, Instruction::SetBit(n, Operand8::Reg(x)), 0);
            &&& (c1.regs.get8(x) >> n) & 1 == 0
            &&& (c2.regs.get8(x) >> n) & 1 == 1
            &&& m != n ==> (c1.regs.get8(x) >> m) & 1 == (v >> m) & 1
            &&& m != n ==> (c2.regs.get8(x) >> m) & 1 == (v >> m) & 1
            &&& c1.regs.f == c.regs.f && c2.regs.f == c.regs.f
            &&& b1 == b && b2 == b
        }),
{
    let v = c.regs.get8(x);
    lemma_write8_read8(c.regs, x, x, v & !(1u8 << n));
    lemma_write8_read8(c.regs, x, x, v | (1u8 << n));
    assert({
        &&& ((v & !(1u8 << n)) >> n) & 1 == 0
        &&& ((v | (1u8 << n)) >> n) & 1 == 1
        &&& m != n ==> ((v & !(1u8 << n)) >> m) & 1 == (v >> m) & 1
        &&& m != n ==> ((v | (1u8 << n)) >> m) & 1 == (v >> m) & 1
    }) by (bit_vector)
        requires
            n < 8,
            m < 8,
    ;
}

/// RLC (HL) and RRC (HL) rotate the byte at HL over a read and a write
/// step, the bit that leaves going to C.
pub proof fn lemma_rotate_byte_at_hl_effect(c: CpuView, b: BusView)
    ensures
        ({
            let hl = c.regs.get16(Reg16::HL);
            let v = b.read(hl);
            let (c1, b1) = read_write_steps(c, b, Instruction::Rlc(Operand8::HlInd));
            let (c2, b2) = read_write_steps(c, b, Instruction::Rrc(Operand8::HlInd));
            &&& b1 == b.write(hl, ((v * 2) % 256 + v / 128) as u8)
            &&& c1.regs.flag(Flag::C) == (v >= 128)
            &&& b2 == b.write(hl, (v / 2 + (v % 2) * 128) as u8)
            &&& c2.regs.flag(Flag::C) == (v % 2 == 1)
            &&& c1.state == CpuState::FetchOpCode && c2.state == CpuState::FetchOpCode
        }),
{
    reveal(read_write_steps);
    let v = b.read(c.regs.get16(Reg16::HL));
    lemma_byte_round_trip(v);
    let r = c.regs;
    lemma_flags_read_back(r, ((v * 2) % 256 + v / 128) as u8 == 0, false, false, v >= 128);
    lemma_flags_read_back(r, (v / 2 + (v % 2) * 128) as u8 == 0, false, false, v % 2 == 1);
}

/// RES n,(HL) clears bit n of the byte at HL and SET n,(HL) sets it, over a
/// read and a write step, with no register changed.
pub proof fn lemma_res_set_byte_at_hl_effect(c: CpuView, b: BusView, n: u8)
    requires
        n < 8,
    ensures
        ({
            let hl = c.regs.get16(Reg16::HL);
            let v = b.read(hl);
            let (c1, b1) = read_write_steps(c, b, Instruction::Res(n, Operand8::HlInd));
            let (c2, b2) = read_write_steps(c, b, Instruction::SetBit(n, Operand8::HlInd));
            &&& b1 == b.write(hl, v & !(1u8 << n))
            &&& b2 == b.write(hl, v | (1u8 << n))
            &&& c1.regs == c.regs && c2.regs == c.regs
            &&& c1.state == CpuState::FetchOpCode && c2.state == CpuState::FetchOpCode
        }),
{
    reveal(read_write_steps);
    lemma_byte_round_trip(b.read(c.regs.get16(Reg16::HL)));
}

// ---------------------------------------------------------------------
// Sixteen-bit arithmetic and CPL

/// ADD HL,rr adds modulo 65536; H on a carry out of bit 11, C on a carry
/// out of bit 15, N clear and Z kept; A is kept.
pub proof fn lemma_add16_effect(c: CpuView, b: BusView, rr: Reg16)
    requires
        rr != Reg16::AF,
        rr != Reg16::PC,
    ensures
        ({
            let hl = c.regs.get16(Reg16::HL);
            let v = c.regs.get16(rr);
            let (c1, b1) = exec_spec(c, b, Instruction::Add16(rr), 0);
            &&& c1.regs.get16(Reg16::HL) == (hl + v) % 0x10000
            &&& c1.regs.flag(Flag::C) == (hl + v > 0xFFFF)
            &&& c1.regs.flag(Flag::H) == (hl % 0x1000 + v % 0x1000 > 0xFFF)
            &&& !c1.regs.flag(Flag::N)
            &&& c1.regs.flag(Flag::Z) == c.regs.flag(Flag::Z)
            &&& c1.regs.a == c.regs.a
            &&& b1 == b
        }),
{
    let r = c.regs;
    let hl = r.get16(Reg16::HL);
    let v = r.get16(rr);
    let sum = hl + v;
    super::registers::lemma_write16_read16(r, Reg16::HL, (sum % 0x10000) as u16);
    let r1 = r.set16(Reg16::HL, (sum % 0x10000) as u16);
    lemma_flags_read_back(r1, r.flag(Flag::Z), false, v % 0x1000 + hl % 0x1000 > 0xFFF, sum > 0xFFFF);
    assert(r1.with_flags(r.flag(Flag::Z), false, v % 0x1000 + hl % 0x1000 > 0xFFF, sum > 0xFFFF).get16(Reg16::HL) == r1.get16(Reg16::HL));
}

/// INC rr and DEC rr add and subtract one modulo 65536 and keep the flags.
pub proof fn lemma_inc_dec16_effect(c: CpuView, b: BusView, rr: Reg16)
    requires
        rr != Reg16::AF,
        rr != Reg16::PC,
    ensures
        ({
            let v = c.regs.get16(rr);
            let (c2, b2) = exec_spec(c, b, Instruction::Inc16(rr), 0);
            let (c3, b3) = exec_spec(c, b, Instruction::Dec16(rr), 0);
            &&& c2.regs.get16(rr) == (v + 1) % 0x10000 && c2.regs.f == c.regs.f
            &&& c3.regs.get16(rr) == (v + 0xFFFF) % 0x10000 && c3.regs.f == c.regs.f
            &&& b2 == b && b3 == b
        }),
{
    let r = c.regs;
    let v = r.get16(rr);
    super::registers::lemma_write16_read16(r, rr, ((v + 1) % 0x10000) as u16);
    super::registers::lemma_write16_read16(r, rr, ((v + 0xFFFF) % 0x10000) as u16);
}

/// CPL complements A, sets N and H and keeps Z and C.
pub proof fn lemma_cpl_effect(c: CpuView, b: BusView)
    ensures
        ({
            let a = c.regs.a;
            let (c4, b4) = exec_spec(c, b, Instruction::Cpl, 0);
            &&& c4.regs.a == 255 - a
            &&& c4.regs.flag(Flag::N) && c4.regs.flag(Flag::H)
            &&& c4.regs.flag(Flag::Z) == c.regs.flag(Flag::Z)
            &&& c4.regs.flag(Flag::C) == c.regs.flag(Flag::C)
            &&& b4 == b
        }),
{
    let r = c.regs;
    lemma_flags_read_back(r.set8(Reg8::A, (255 - r.a) as u8), r.flag(Flag::Z), true, true, r.flag(Flag::C));
}

// ---------------------------------------------------------------------
// Loads

/// The register loads: LD d,s copies s into d; LD d,(HL) loads the byte at
/// HL into d; LD A,(rr) loads the byte at the address in rr; LDH A,(C)
/// loads the byte at 0xFF00 + C. None writes the bus or changes the flags.
pub proof fn lemma_register_loads(c: CpuView, b: BusView, d: Reg8, s: Reg8, rr: Reg16)
    ensures
        ({
            let hl = c.regs.get16(Reg16::HL);
            let (c1, b1) = exec_spec(c, b, Instruction::Ld(d, s), 0);
            let (c2, b2) = exec_spec(c, b, Instruction::LdRegHlInd(d), 0);
            let (c3, b3) = exec_spec(c, b, Instruction::LdAReg16Ind(rr), 0);
            let (c4, b4) = exec_spec(c, b, Instruction::LdhACInd, 0);
            &&& c1.regs.get8(d) == c.regs.get8(s) && b1 == b
            &&& c2.regs.get8(d) == b.read(hl) && b2 == b
            &&& c3.regs.a == b.read(c.regs.get16(rr)) && b3 == b
            &&& c4.regs.a == b.read((0xFF00 + c.regs.c) as u16) && b4 == b
            &&& c1.regs.f == c.regs.f && c2.regs.f == c.regs.f
            &&& c3.regs.f == c.regs.f && c4.regs.f == c.regs.f
        }),
{
    lemma_write8_read8(c.regs, d, d, c.regs.get8(s));
    lemma_write8_read8(c.regs, d, d, b.read(c.regs.get16(Reg16::HL)));
}

/// The stores of A: LD (rr),A writes A at the address in rr, LDH (C),A at
/// 0xFF00 + C; they change no register.
pub proof fn lemma_stores_of_a(c: CpuView, b: BusView, rr: Reg16)
    ensures
        ({
            let (c1, b1) = exec_spec(c, b, Instruction::LdReg16IndA(rr), 0);
            let (c2, b2) = exec_spec(c, b, Instruction::LdhCIndA, 0);
            &&& b1 == b.write(c.regs.get16(rr), c.regs.a) && c1.regs == c.regs
            &&& b2 == b.write((0xFF00 + c.regs.c) as u16, c.regs.a) && c2.regs == c.regs
        }),
{
}

/// The loads through HL that step it: LD (HL+),A and LD (HL-),A store A at
/// HL, LD A,(HL+) and LD A,(HL-) load the byte at HL into A; the + forms then
/// add one to HL and the - forms subtract one, modulo 65536.
pub proof fn lemma_stepping_hl_loads(c: CpuView, b: BusView)
    ensures
        ({
            let hl = c.regs.get16(Reg16::HL);
            let a = c.regs.a;
            let (c1, b1) = exec_spec(c, b, Instruction::LdHliA, 0);
            let (c2, b2) = exec_spec(c, b, Instruction::LdHldA, 0);
            let (c3, b3) = exec_spec(c, b, Instruction::LdAhli, 0);
            let (c4, b4) = exec_spec(c, b, Instruction::LdAHld, 0);
            &&& b1 == b.write(hl, a) && c1.regs.get16(Reg16::HL) == (hl + 1) % 0x10000
            &&& b2 == b.write(hl, a) && c2.regs.get16(Reg16::HL) == (hl + 0xFFFF) % 0x10000
            &&& c3.regs.a == b.read(hl) && c3.regs.get16(Reg16::HL) == (hl + 1) % 0x10000
            &&& c4.regs.a == b.read(hl) && c4.regs.get16(Reg16::HL) == (hl + 0xFFFF) % 0x10000
            &&& c1.regs.a == a && c2.regs.a == a
            &&& b3 == b && b4 == b
        }),
{
    let r = c.regs;
    let hl = r.get16(Reg16::HL);
    super::registers::lemma_write16_read16(r, Reg16::HL, ((hl + 1) % 0x10000) as u16);
    super::registers::lemma_write16_read16(r, Reg16::HL, ((hl + 0xFFFF) % 0x10000) as u16);
    let ra = r.set8(Reg8::A, b.read(hl));
    super::registers::lemma_write16_read16(ra, Reg16::HL, ((hl + 1) % 0x10000) as u16);
    super::registers::lemma_write16_read16(ra, Reg16::HL, ((hl + 0xFFFF) % 0x10000) as u16);
}

/// The loads with immediate operands: LD d,n loads the byte after the
/// opcode; LD (HL),n stores it at HL in a second step; LDH (n),A stores A at
/// 0xFF00 + n and LDH A,(n) loads from there; LD (nn),A and LD A,(nn) use the
/// little-endian address after the opcode.
pub proof fn lemma_immediate_loads(c: CpuView, b: BusView, d: Reg8)
    ensures
        ({
            let pc = c.regs.pc;
            let n = b.read(pc);
            let (c1, b1) = exec_spec(c, b, Instruction::LdImm(d), 0);
            &&& c1.regs.get8(d) == n && c1.regs.pc == (pc + 1) % 0x10000 && b1 == b
        }),
        ({
            let n = b.read(c.regs.pc);
            let (c1, b1) = exec_spec(c, b, Instruction::LdHlIndImm, 0);
            let (c2, b2) = exec_spec(c1, b1, Instruction::LdHlIndImm, 1);
            b2 == b.write(c.regs.get16(Reg16::HL), n)
        }),
        ({
            let n = b.read(c.regs.pc);
            let (c1, b1) = exec_spec(c, b, Instruction::LdhImm8IndA, 0);
            let (c2, b2) = exec_spec(c1, b1, Instruction::LdhImm8IndA, 1);
            let (c3, b3) = exec_spec(c, b, Instruction::LdhAImm8Ind, 0);
            let (c4, b4) = exec_spec(c3, b3, Instruction::LdhAImm8Ind, 1);
            &&& b2 == b.write((0xFF00 + n) as u16, c.regs.a)
            &&& c4.regs.a == b.read((0xFF00 + n) as u16) && b4 == b
        }),
        ({
            let pc = c.regs.pc;
            let lo = b.read(pc);
            let hi = b.read(((pc + 1) % 0x10000) as u16);
            let addr = (lo + 256 * hi) as u16;
            let (c1, b1) = exec_spec(c, b, Instruction::LdImmIndA, 0);
            let (c2, b2) = exec_spec(c1, b1, Instruction::LdImmIndA, 1);
            let (c3, b3) = exec_spec(c2, b2, Instruction::LdImmIndA, 2);
            let (e1, f1) = exec_spec(c, b, Instruction::LdAImm16Ind, 0);
            let (e2, f2) = exec_spec(e1, f1, Instruction::LdAImm16Ind, 1);
            let (e3, f3) = exec_spec(e2, f2, Instruction::LdAImm16Ind, 2);
            &&& b3 == b.write(addr, c.regs.a)
            &&& e3.regs.a == b.read(addr) && f3 == b
        }),
{
    lemma_write8_read8(c.regs.with_pc(((c.regs.pc + 1) % 0x10000) as u16), d, d, b.read(c.regs.pc));
    let lo = b.read(c.regs.pc);
    let hi = b.read(((c.regs.pc + 1) % 0x10000) as u16);
    assert((lo as u16) | ((hi as u16) << 8u16) == (lo + 256 * hi) as u16) by (bit_vector);
}

} // verus!
