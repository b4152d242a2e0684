use vstd::prelude::*;

use super::instruction::{decode_cb_spec, decode_spec, single_cycle_spec, Instruction, Operand8};
use super::registers::{
    bit_of, lemma_flags_read_back, lemma_write8_read8, Flag, Reg16, Reg8, RegsView,
};
use super::semantics::{
    add_spec, bit_is_set, cb_uses_memory, clear_bit, cp_spec, dec_value, exec_pre, exec_spec, fetched, implemented,
    inc_value, last_step, left_out, right_out, rl_value, rlc_value, rr_value, rrc_value, set_bit,
    step_ok, sub_spec, tick_pre, tick_spec, wrap_inc, CpuState, CpuView,
};
use crate::bus::BusView;

verus! {

/// CP computes the flags of SUB and leaves A as it was.
pub proof fn lemma_cp_is_sub_without_store(r: RegsView, v: u8)
    ensures
        cp_spec(r, v) == sub_spec(r, v, false).set8(Reg8::A, r.a),
{
    assert(((r.a - v) % 256 == 0) == (r.a == v));
}

/// Adding a value to A and subtracting it again gives back A.
pub proof fn lemma_add_then_sub(r: RegsView, v: u8)
    ensures
        sub_spec(add_spec(r, v, false), v, false).a == r.a,
{
    let s = (r.a + v) % 256;
    assert(((s - v) % 256) == r.a) by {
        if r.a + v >= 256 {
            assert(s == r.a + v - 256);
        } else {
            assert(s == r.a + v);
        }
    }
}

/// INC and DEC undo each other.
pub proof fn lemma_inc_dec_inverse(v: u8)
    ensures
        dec_value(inc_value(v)) == v,
        inc_value(dec_value(v)) == v,
{
}

/// The rotations undo each other: RRC undoes RLC and back, and RR with the
/// carry that RL produced undoes RL (restoring the carry), and back.
pub proof fn lemma_rotations_invert(v: u8, carry: bool)
    ensures
        rrc_value(rlc_value(v)) == v,
        rlc_value(rrc_value(v)) == v,
        rr_value(rl_value(v, carry), left_out(v)) == v,
        right_out(rl_value(v, carry)) == carry,
        rl_value(rr_value(v, carry), right_out(v)) == v,
        left_out(rr_value(v, carry)) == carry,
{
    let cb = bit_of(carry);
    assert(cb == 0 || cb == 1);
    let l = rlc_value(v);
    assert(l == (v * 2) % 256 + v / 128);
    let r = rrc_value(v);
    assert(r == v / 2 + (v % 2) * 128);
    let lc = rl_value(v, carry);
    assert(lc == (v * 2) % 256 + cb);
    let rc = rr_value(v, carry);
    assert(rc == v / 2 + cb * 128);
}

/// SET makes a bit read as set and RES as clear; the other bits keep
/// their values.
pub proof fn lemma_set_res_bit(v: u8, n: u8, m: u8)
    requires
        n < 8,
        m < 8,
    ensures
        bit_is_set(set_bit(v, n), n),
        !bit_is_set(clear_bit(v, n), n),
        m != n ==> bit_is_set(set_bit(v, n), m) == bit_is_set(v, m),
        m != n ==> bit_is_set(clear_bit(v, n), m) == bit_is_set(v, m),
{
    assert((v | (1u8 << n)) & (1u8 << n) != 0) by (bit_vector)
        requires
            n < 8,
    ;
    assert((v & !(1u8 << n)) & (1u8 << n) == 0) by (bit_vector)
        requires
            n < 8,
    ;
    assert(m != n ==> (((v | (1u8 << n)) & (1u8 << m) != 0) == (v & (1u8 << m) != 0)))
        by (bit_vector)
        requires
            n < 8,
            m < 8,
    ;
    assert(m != n ==> (((v & !(1u8 << n)) & (1u8 << m) != 0) == (v & (1u8 << m) != 0)))
        by (bit_vector)
        requires
            n < 8,
            m < 8,
    ;
}

/// An instruction that completes within its fetch cycle neither touches the
/// bus nor moves the program counter, and completes in step 0.
pub proof fn lemma_single_cycle_stays_in_cpu(c: CpuView, b: BusView, instr: Instruction)
    requires
        single_cycle_spec(instr),
        implemented(instr),
    ensures
        exec_spec(c, b, instr, 0).1 == b,
        exec_spec(c, b, instr, 0).0.state == CpuState::FetchOpCode,
        exec_spec(c, b, instr, 0).0.regs.pc == c.regs.pc,
{
}

/// Every step of an instruction either completes it or moves on to its
/// next step.
pub proof fn lemma_step_progress(c: CpuView, b: BusView, instr: Instruction, step: u8)
    requires
        exec_pre(c, b, instr, step),
    ensures
        ({
            let next = exec_spec(c, b, instr, step).0.state;
            ||| next == CpuState::FetchOpCode
            ||| step < last_step(instr) && next == (CpuState::Executing {
                instr,
                step: (step + 1) as u8,
            }) && step_ok(instr, (step + 1) as u8)
        }),
{
}

/// Running an instruction that needs no more than its fetch within the
/// fetch cycle gives the same result as running it in a cycle of its own.
pub proof fn lemma_fetch_cycle_execution(c: CpuView, b: BusView)
    requires
        c.state == CpuState::FetchOpCode,
        single_cycle_spec(decode_spec(fetched(c, b))),
        implemented(decode_spec(fetched(c, b))),
    ensures
        tick_spec(c, b) == tick_spec(c.advance_pc().continue_at(decode_spec(fetched(c, b)), 0), b),
{
}

/// Fetching an opcode moves the program counter past it (wrapping at the
/// top of the address space).
pub proof fn lemma_fetch_advances_pc(c: CpuView, b: BusView)
    requires
        c.state == CpuState::FetchOpCode || c.state == CpuState::FetchCbOpCode,
        tick_pre(c, b),
    ensures
        tick_spec(c, b).0.regs.pc == wrap_inc(c.regs.pc),
{
    let c1 = c.advance_pc();
    if c.state == CpuState::FetchOpCode {
        let instr = decode_spec(fetched(c, b));
        if !(instr is PrefixCb) && single_cycle_spec(instr) {
            lemma_single_cycle_stays_in_cpu(c1, b, instr);
        }
    } else {
        let instr = decode_cb_spec(fetched(c, b));
        if !cb_uses_memory(instr) {
            lemma_register_rotations_and_bits_stay(c1, b, instr);
        }
    }
}

/// The BIT, RES, SET and rotate instructions on a register do not move the
/// program counter.
proof fn lemma_register_rotations_and_bits_stay(c: CpuView, b: BusView, instr: Instruction)
    requires
        exec_pre(c, b, instr, 0),
        match instr {
            Instruction::Bit(_, o) | Instruction::Res(_, o) | Instruction::SetBit(_, o)
            | Instruction::Rl(o) | Instruction::Rlc(o) | Instruction::Rr(o) | Instruction::Rrc(o)
            | Instruction::Sla(o) | Instruction::Sra(o) | Instruction::Srl(o) | Instruction::Swap(
                o,
            ) => o != Operand8::HlInd,
            _ => false,
        },
    ensures
        exec_spec(c, b, instr, 0).0.regs.pc == c.regs.pc,
{
}

/// A halted CPU does nothing.
pub proof fn lemma_halted_is_idle(c: CpuView, b: BusView)
    requires
        c.state == CpuState::Halted,
    ensures
        tick_spec(c, b) == (c, b),
{
}

/// LD r16, n16 over its two steps loads the two bytes after the opcode,
/// low byte first, moves the program counter past them, changes no other
/// register and does not write the bus.
pub proof fn lemma_ld16_imm_little_endian(c: CpuView, b: BusView, r: Reg16)
    requires
        r == Reg16::BC || r == Reg16::DE || r == Reg16::HL || r == Reg16::SP,
    ensures
        ({
            let instr = Instruction::Ld16Imm(r);
            let pc = c.regs.pc;
            let (c1, b1) = exec_spec(c, b, instr, 0);
            let (c2, b2) = exec_spec(c1, b1, instr, 1);
            &&& b1 == b
            &&& b2 == b
            &&& c1.state == (CpuState::Executing { instr, step: 1 })
            &&& c2.state == CpuState::FetchOpCode
            &&& c2.regs == c.regs.set16(
                r,
                (b.read(pc) + 256 * b.read(wrap_inc(pc))) as u16,
            ).with_pc(wrap_inc(wrap_inc(pc)))
        }),
{
    let pc = c.regs.pc;
    let lo = b.read(pc);
    let hi = b.read(wrap_inc(pc));
    let lo16 = lo as u16;
    assert(lo16 | ((hi as u16) << 8u16) == (lo + 256 * hi) as u16) by (bit_vector)
        requires
            lo16 == lo as u16,
    ;
    let instr = Instruction::Ld16Imm(r);
    let (c1, b1) = exec_spec(c, b, instr, 0);
    let (c2, b2) = exec_spec(c1, b1, instr, 1);
    assert(c2.regs =~= c.regs.set16(r, (lo + 256 * hi) as u16).with_pc(wrap_inc(wrap_inc(pc))));
}

/// RR on a register undoes RL on it, restoring both the register and the
/// carry flag.
pub proof fn lemma_rr_undoes_rl(c: CpuView, b: BusView, r: Reg8)
    ensures
        ({
            let (c1, b1) = exec_spec(c, b, Instruction::Rl(Operand8::Reg(r)), 0);
            let (c2, b2) = exec_spec(c1, b1, Instruction::Rr(Operand8::Reg(r)), 0);
            &&& c2.regs.get8(r) == c.regs.get8(r)
            &&& c2.regs.flag(Flag::C) == c.regs.flag(Flag::C)
            &&& b2 == b
        }),
{
    let v = c.regs.get8(r);
    let carry = c.regs.flag(Flag::C);
    lemma_rotations_invert(v, carry);
    let res = rl_value(v, carry);
    let mid = c.regs.set8(r, res);
    lemma_flags_read_back(mid, res == 0, false, false, left_out(v));
    let (c1, b1) = exec_spec(c, b, Instruction::Rl(Operand8::Reg(r)), 0);
    lemma_write8_read8(mid, r, r, res);
    let back = rr_value(res, left_out(v));
    lemma_flags_read_back(c1.regs.set8(r, back), back == 0, false, false, right_out(res));
}

/// A cycle of an instruction in progress is exactly that step of it.
pub proof fn lemma_tick_executes_step(c: CpuView, b: BusView, instr: Instruction, step: u8)
    requires
        c.state == (CpuState::Executing { instr, step }),
    ensures
        tick_spec(c, b) == exec_spec(c, b, instr, step),
{
}

/// Whether an instruction reads or writes the byte at HL.
pub open spec fn uses_byte_at_hl(instr: Instruction) -> bool {
    match instr {
        Instruction::LdHlInd(_) | Instruction::LdHlIndImm | Instruction::LdRegHlInd(_)
        | Instruction::LdHliA | Instruction::LdHldA | Instruction::LdAhli
        | Instruction::LdAHld => true,
        Instruction::Adc(o) | Instruction::Add(o) | Instruction::Cp(o) | Instruction::Dec(o)
        | Instruction::Inc(o) | Instruction::Sbc(o) | Instruction::Sub(o) | Instruction::And(o)
        | Instruction::Or(o) | Instruction::Xor(o) | Instruction::Bit(_, o) | Instruction::Res(
            _,
            o,
        ) | Instruction::SetBit(_, o) | Instruction::Rl(o) | Instruction::Rlc(o)
        | Instruction::Rr(o) | Instruction::Rrc(o) | Instruction::Sla(o) | Instruction::Sra(o)
        | Instruction::Srl(o) | Instruction::Swap(o) => o == Operand8::HlInd,
        _ => false,
    }
}

/// An instruction that completes within its fetch cycle is not the 0xCB
/// prefix and does not use the byte at HL.
pub proof fn lemma_single_cycle_shape(instr: Instruction)
    requires
        single_cycle_spec(instr),
    ensures
        !(instr is PrefixCb),
        !uses_byte_at_hl(instr),
{
}

/// A byte widened to sixteen bits and narrowed again is the same byte.
pub proof fn lemma_byte_round_trip(v: u8)
    ensures
        (v as u16) as u8 == v,
{
    assert((v as u16) as u8 == v) by (bit_vector);
}

/// Both steps of an instruction on the byte at HL: the read step, then the
/// write step.
#[verifier::opaque]
pub open spec fn read_write_steps(c: CpuView, b: BusView, instr: Instruction) -> (CpuView, BusView) {
    let (c1, b1) = exec_spec(c, b, instr, 0);
    exec_spec(c1, b1, instr, 1)
}

/// RL on the byte at HL rotates it left through the carry: over its read
/// and write steps the byte at HL becomes twice its value modulo 256 plus 1
/// when the carry was set, the carry takes its old bit 7, Z tells whether
/// the new byte is 0, N and H are cleared, and HL is kept.
pub proof fn lemma_rl_hl_rotates_through_carry(c: CpuView, b: BusView)
    ensures
        ({
            let v = b.read(c.hl());
            let res = ((v * 2) % 256 + (if c.regs.flag(Flag::C) { 1int } else { 0int })) as u8;
            let (c2, b2) = read_write_steps(c, b, Instruction::Rl(Operand8::HlInd));
            &&& b2 == b.write(c.hl(), res)
            &&& c2.regs.flag(Flag::C) == (v >= 128)
            &&& c2.regs.flag(Flag::Z) == (res == 0)
            &&& !c2.regs.flag(Flag::N)
            &&& !c2.regs.flag(Flag::H)
            &&& c2.hl() == c.hl()
            &&& c2.state == CpuState::FetchOpCode
        }),
{
    reveal(read_write_steps);
    let v = b.read(c.hl());
    lemma_byte_round_trip(v);
    let carry = c.regs.flag(Flag::C);
    let res = rl_value(v, carry);
    lemma_flags_read_back(c.regs, res == 0, false, false, left_out(v));
}

/// RR on the byte at HL rotates it right through the carry: the byte at HL
/// becomes half its value plus 128 when the carry was set, the carry takes
/// its old bit 0, Z tells whether the new byte is 0, and HL is kept.
pub proof fn lemma_rr_hl_rotates_through_carry(c: CpuView, b: BusView)
    ensures
        ({
            let v = b.read(c.hl());
            let res = (v / 2 + (if c.regs.flag(Flag::C) { 128int } else { 0int })) as u8;
            let (c2, b2) = read_write_steps(c, b, Instruction::Rr(Operand8::HlInd));
            &&& b2 == b.write(c.hl(), res)
            &&& c2.regs.flag(Flag::C) == (v % 2 == 1)
            &&& c2.regs.flag(Flag::Z) == (res == 0)
            &&& c2.hl() == c.hl()
            &&& c2.state == CpuState::FetchOpCode
        }),
{
    reveal(read_write_steps);
    let v = b.read(c.hl());
    lemma_byte_round_trip(v);
    let carry = c.regs.flag(Flag::C);
    let res = rr_value(v, carry);
    lemma_flags_read_back(c.regs, res == 0, false, false, right_out(v));
}

/// With HL in work RAM, RR (HL) undoes RL (HL): the byte at HL and the carry
/// flag read as they did before.
pub proof fn lemma_rr_hl_undoes_rl_hl(c: CpuView, b: BusView)
    requires
        b.wram.len() == 0x2000,
        0xC000 <= c.hl() <= 0xDFFF,
    ensures
        ({
            let (c2, b2) = read_write_steps(c, b, Instruction::Rl(Operand8::HlInd));
            let (c4, b4) = read_write_steps(c2, b2, Instruction::Rr(Operand8::HlInd));
            &&& b4.read(c.hl()) == b.read(c.hl())
            &&& c4.regs.flag(Flag::C) == c.regs.flag(Flag::C)
        }),
{
    let hl = c.hl();
    let v = b.read(hl);
    let carry = c.regs.flag(Flag::C);
    lemma_rl_hl_rotates_through_carry(c, b);
    let (c2, b2) = read_write_steps(c, b, Instruction::Rl(Operand8::HlInd));
    let res = ((v * 2) % 256 + (if carry { 1int } else { 0int })) as u8;
    crate::bus::lemma_ram_read_after_write(b, hl, res);
    crate::bus::lemma_wram_len_kept(b, hl, res);
    lemma_rr_hl_rotates_through_carry(c2, b2);
    let back = (res / 2 + (if v >= 128 { 128int } else { 0int })) as u8;
    crate::bus::lemma_ram_read_after_write(b2, hl, back);
    assert(back == v);
    assert(res % 2 == 1 <==> carry);
}

/// INC on a register adds one modulo 256, sets Z exactly when the result is
/// 0, clears N, sets H on a carry out of bit 3 and leaves the carry flag as
/// it was; the other registers and the bus are unchanged.
pub proof fn lemma_inc_register_keeps_carry(c: CpuView, b: BusView, r: Reg8, other: Reg8)
    ensures
        ({
            let v = c.regs.get8(r);
            let (c1, b1) = exec_spec(c, b, Instruction::Inc(Operand8::Reg(r)), 0);
            &&& c1.regs.get8(r) == (v + 1) % 256
            &&& c1.regs.flag(Flag::Z) == (v == 255)
            &&& !c1.regs.flag(Flag::N)
            &&& c1.regs.flag(Flag::H) == (v % 16 == 15)
            &&& c1.regs.flag(Flag::C) == c.regs.flag(Flag::C)
            &&& other != r ==> c1.regs.get8(other) == c.regs.get8(other)
            &&& b1 == b
        }),
{
    let v = c.regs.get8(r);
    let mid = c.regs.set8(r, inc_value(v));
    lemma_flags_read_back(mid, inc_value(v) == 0, false, v % 16 == 15, mid.flag(Flag::C));
    lemma_write8_read8(c.regs, r, other, inc_value(v));
}

/// DEC on a register subtracts one modulo 256, sets Z exactly when the
/// result is 0, sets N, sets H on a borrow from bit 4 and leaves the carry
/// flag as it was.
pub proof fn lemma_dec_register_keeps_carry(c: CpuView, b: BusView, r: Reg8)
    ensures
        ({
            let v = c.regs.get8(r);
            let (c1, b1) = exec_spec(c, b, Instruction::Dec(Operand8::Reg(r)), 0);
            &&& c1.regs.get8(r) == (v + 255) % 256
            &&& c1.regs.flag(Flag::Z) == (v == 1)
            &&& c1.regs.flag(Flag::N)
            &&& c1.regs.flag(Flag::H) == (v % 16 == 0)
            &&& c1.regs.flag(Flag::C) == c.regs.flag(Flag::C)
            &&& b1 == b
        }),
{
    let v = c.regs.get8(r);
    let mid = c.regs.set8(r, dec_value(v));
    lemma_flags_read_back(mid, dec_value(v) == 0, true, v % 16 == 0, mid.flag(Flag::C));
    lemma_write8_read8(c.regs, r, r, dec_value(v));
}

/// INC on the byte at HL writes back its value plus one modulo 256 over a
/// read and a write step, with the flags of INC and the carry flag kept.
pub proof fn lemma_inc_hl_keeps_carry(c: CpuView, b: BusView)
    ensures
        ({
            let instr = Instruction::Inc(Operand8::HlInd);
            let v = b.read(c.hl());
            let (c1, b1) = exec_spec(c, b, instr, 0);
            let (c2, b2) = exec_spec(c1, b1, instr, 1);
            &&& b2 == b.write(c.hl(), ((v + 1) % 256) as u8)
            &&& c2.regs.flag(Flag::Z) == (v == 255)
            &&& !c2.regs.flag(Flag::N)
            &&& c2.regs.flag(Flag::H) == (v % 16 == 15)
            &&& c2.regs.flag(Flag::C) == c.regs.flag(Flag::C)
            &&& c2.regs.get8(Reg8::A) == c.regs.get8(Reg8::A)
            &&& c2.state == CpuState::FetchOpCode
        }),
{
    let v = b.read(c.hl());
    lemma_byte_round_trip(v);
    lemma_flags_read_back(c.regs, inc_value(v) == 0, false, v % 16 == 15, c.regs.flag(Flag::C));
}

/// DEC on the byte at HL writes back its value minus one modulo 256, with
/// the flags of DEC and the carry flag kept.
pub proof fn lemma_dec_hl_keeps_carry(c: CpuView, b: BusView)
    ensures
        ({
            let instr = Instruction::Dec(Operand8::HlInd);
            let v = b.read(c.hl());
            let (c1, b1) = exec_spec(c, b, instr, 0);
            let (c2, b2) = exec_spec(c1, b1, instr, 1);
            &&& b2 == b.write(c.hl(), ((v + 255) % 256) as u8)
            &&& c2.regs.flag(Flag::Z) == (v == 1)
            &&& c2.regs.flag(Flag::N)
            &&& c2.regs.flag(Flag::H) == (v % 16 == 0)
            &&& c2.regs.flag(Flag::C) == c.regs.flag(Flag::C)
            &&& c2.state == CpuState::FetchOpCode
        }),
{
    let v = b.read(c.hl());
    lemma_byte_round_trip(v);
    lemma_flags_read_back(c.regs, dec_value(v) == 0, true, v % 16 == 0, c.regs.flag(Flag::C));
}

/// LD (HL),r stores the register that it names at the address in HL and
/// changes no register.
pub proof fn lemma_ld_hl_stores_named_register(c: CpuView, b: BusView, r: Reg8)
    ensures
        ({
            let (c1, b1) = exec_spec(c, b, Instruction::LdHlInd(r), 0);
            &&& b1 == b.write(c.hl(), c.regs.get8(r))
            &&& c1.regs == c.regs
            &&& c1.state == CpuState::FetchOpCode
        }),
{
}

/// With HL in work RAM, LD (HL),r followed by LD d,(HL) copies register r
/// into register d, and the byte at HL reads as r.
pub proof fn lemma_store_then_load_through_hl(c: CpuView, b: BusView, r: Reg8, d: Reg8)
    requires
        b.wram.len() == 0x2000,
        0xC000 <= c.hl() <= 0xDFFF,
    ensures
        ({
            let (c1, b1) = exec_spec(c, b, Instruction::LdHlInd(r), 0);
            let (c2, b2) = exec_spec(c1, b1, Instruction::LdRegHlInd(d), 0);
            &&& b1.read(c.hl()) == c.regs.get8(r)
            &&& c2.regs.get8(d) == c.regs.get8(r)
        }),
{
    lemma_ld_hl_stores_named_register(c, b, r);
    crate::bus::lemma_ram_read_after_write(b, c.hl(), c.regs.get8(r));
    lemma_write8_read8(c.regs, d, d, c.regs.get8(r));
}

/// A fetch cycle reads the opcode at PC and moves PC past it. The 0xCB
/// prefix leads to a second fetch; an instruction that needs more cycles
/// starts at step 0 in the next cycle. Neither touches the bus or any other
/// register.
pub proof fn lemma_fetch_cycle_shape(c: CpuView, b: BusView)
    requires
        c.state == CpuState::FetchOpCode,
    ensures
        ({
            let instr = decode_spec(b.read(c.regs.pc));
            let (c1, b1) = tick_spec(c, b);
            &&& instr is PrefixCb ==> c1.state == CpuState::FetchCbOpCode
            &&& (!(instr is PrefixCb) && !single_cycle_spec(instr)) ==> c1.state == (
            CpuState::Executing { instr, step: 0 })
            &&& (instr is PrefixCb || !single_cycle_spec(instr)) ==> b1 == b && c1.regs
                == c.regs.with_pc(((c.regs.pc + 1) % 0x10000) as u16)
        }),
{
}

} // verus!
