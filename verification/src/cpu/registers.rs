use vstd::prelude::*;

verus! {

/// Masks of the four flags that live in the upper nibble of register F.
pub struct Flag;

impl Flag {
    /// Zero flag.
    pub const Z: u8 = 0x80;
    /// Subtraction flag.
    pub const N: u8 = 0x40;
    /// Half-carry flag.
    pub const H: u8 = 0x20;
    /// Carry flag.
    pub const C: u8 = 0x10;
}

/// The eight-bit registers that instructions name directly.
#[derive(Debug, Clone, Copy, PartialEq, Eq, Structural)]
pub enum Reg8 {
    A,
    B,
    C,
    D,
    E,
    H,
    L,
}

/// The sixteen-bit register pairs and pointers.
#[derive(Debug, Clone, Copy, PartialEq, Eq, Structural)]
pub enum Reg16 {
    AF,
    BC,
    DE,
    HL,
    SP,
    PC,
}

/// The register file of the CPU.
pub struct Regs {
    pub a: u8,
    pub b: u8,
    pub c: u8,
    pub d: u8,
    pub e: u8,
    /// The flag register; only its upper nibble carries meaning.
    pub f: u8,
    pub h: u8,
    pub l: u8,
    /// Program counter, reached through `PC` and `s_PC`.
    pc: u16,
    /// Stack pointer, reached through `read16` and `write16`.
    sp: u16,
}

/// The mathematical value of a register file: every register by name.
pub struct RegsView {
    pub a: u8,
    pub b: u8,
    pub c: u8,
    pub d: u8,
    pub e: u8,
    pub f: u8,
    pub h: u8,
    pub l: u8,
    pub pc: u16,
    pub sp: u16,
}

/// The sixteen-bit value whose high byte is `hi` and low byte is `lo`.
pub open spec fn pair(hi: u8, lo: u8) -> u16 {
    (hi * 256 + lo) as u16
}

/// The high byte of a sixteen-bit value.
pub open spec fn high_byte(v: u16) -> u8 {
    (v / 256) as u8
}

/// The low byte of a sixteen-bit value.
pub open spec fn low_byte(v: u16) -> u8 {
    (v % 256) as u8
}

/// `b` as a number: 1 for true, 0 for false.
pub open spec fn bit_of(b: bool) -> int {
    if b {
        1
    } else {
        0
    }
}

/// The flag register after all four flags were set to the given values:
/// the lower nibble is kept, the upper nibble holds Z, N, H, C from bit 7 down.
pub open spec fn flags_byte(f: u8, z: bool, n: bool, h: bool, c: bool) -> u8 {
    (f % 16 + 128 * bit_of(z) + 64 * bit_of(n) + 32 * bit_of(h) + 16 * bit_of(c)) as u8
}

/// The initial register file: every register zero.
pub open spec fn zero_regs() -> RegsView {
    RegsView { a: 0, b: 0, c: 0, d: 0, e: 0, f: 0, h: 0, l: 0, pc: 0, sp: 0 }
}

impl RegsView {
    pub open spec fn get8(self, r: Reg8) -> u8 {
        match r {
            Reg8::A => self.a,
            Reg8::B => self.b,
            Reg8::C => self.c,
            Reg8::D => self.d,
            Reg8::E => self.e,
            Reg8::H => self.h,
            Reg8::L => self.l,
        }
    }

    pub open spec fn set8(self, r: Reg8, v: u8) -> RegsView {
        match r {
            Reg8::A => RegsView { a: v, ..self },
            Reg8::B => RegsView { b: v, ..self },
            Reg8::C => RegsView { c: v, ..self },
            Reg8::D => RegsView { d: v, ..self },
            Reg8::E => RegsView { e: v, ..self },
            Reg8::H => RegsView { h: v, ..self },
            Reg8::L => RegsView { l: v, ..self },
        }
    }

    /// A register pair read as one sixteen-bit value, the first register high.
    pub open spec fn get16(self, r: Reg16) -> u16 {
        match r {
            Reg16::AF => pair(self.a, self.f),
            Reg16::BC => pair(self.b, self.c),
            Reg16::DE => pair(self.d, self.e),
            Reg16::HL => pair(self.h, self.l),
            Reg16::SP => self.sp,
            Reg16::PC => self.pc,
        }
    }

    /// A register pair written as one sixteen-bit value; writing AF keeps
    /// only the upper nibble of the low byte in F.
    pub open spec fn set16(self, r: Reg16, v: u16) -> RegsView {
        match r {
            Reg16::AF => RegsView { a: high_byte(v), f: (low_byte(v) / 16 * 16) as u8, ..self },
            Reg16::BC => RegsView { b: high_byte(v), c: low_byte(v), ..self },
            Reg16::DE => RegsView { d: high_byte(v), e: low_byte(v), ..self },
            Reg16::HL => RegsView { h: high_byte(v), l: low_byte(v), ..self },
            Reg16::SP => RegsView { sp: v, ..self },
            Reg16::PC => RegsView { pc: v, ..self },
        }
    }

    /// Whether any bit of `mask` is set in F.
    pub open spec fn flag(self, mask: u8) -> bool {
        self.f & mask != 0
    }

    /// F with the bits of `mask` set (when `set`) or cleared.
    pub open spec fn with_flag(self, mask: u8, set: bool) -> RegsView {
        RegsView {
            f: if set {
                self.f | mask
            } else {
                self.f & !mask
            },
            ..self
        }
    }

    /// F with all four flags replaced.
    pub open spec fn with_flags(self, z: bool, n: bool, h: bool, c: bool) -> RegsView {
        RegsView { f: flags_byte(self.f, z, n, h, c), ..self }
    }

    pub open spec fn with_pc(self, pc: u16) -> RegsView {
        RegsView { pc, ..self }
    }
}

proof fn lemma_pair_bits(hi: u8, lo: u8)
    ensures
        ((hi as u16) << 8u16) | (lo as u16) == pair(hi, lo),
{
    assert(((hi as u16) << 8u16) | (lo as u16) == (hi * 256 + lo) as u16) by (bit_vector);
}

proof fn lemma_split_bits(v: u16)
    ensures
        ((v & 0xFF00u16) >> 8u16) as u8 == high_byte(v),
        (v & 0x00FFu16) as u8 == low_byte(v),
        (v & 0x00F0u16) as u8 == (low_byte(v) / 16 * 16) as u8,
{
    assert(((v & 0xFF00u16) >> 8u16) as u8 == (v / 256) as u8) by (bit_vector);
    assert((v & 0x00FFu16) as u8 == (v % 256) as u8) by (bit_vector);
    assert((v & 0x00F0u16) as u8 == (((v % 256) as u8) / 16 * 16) as u8) by (bit_vector);
}

proof fn lemma_flag_chain(f: u8, z: bool, n: bool, h: bool, c: bool)
    ensures
        ({
            let f1 = if z { f | 0x80u8 } else { f & !0x80u8 };
            let f2 = if n { f1 | 0x40u8 } else { f1 & !0x40u8 };
            let f3 = if h { f2 | 0x20u8 } else { f2 & !0x20u8 };
            let f4 = if c { f3 | 0x10u8 } else { f3 & !0x10u8 };
            f4 == flags_byte(f, z, n, h, c)
        }),
{
    let zb: u8 = if z { 1 } else { 0 };
    let nb: u8 = if n { 1 } else { 0 };
    let hb: u8 = if h { 1 } else { 0 };
    let cb: u8 = if c { 1 } else { 0 };
    assert({
        let f1 = if zb == 1 { f | 0x80u8 } else { f & !0x80u8 };
        let f2 = if nb == 1 { f1 | 0x40u8 } else { f1 & !0x40u8 };
        let f3 = if hb == 1 { f2 | 0x20u8 } else { f2 & !0x20u8 };
        let f4 = if cb == 1 { f3 | 0x10u8 } else { f3 & !0x10u8 };
        f4 == (f % 16 + 128 * zb + 64 * nb + 32 * hb + 16 * cb) as u8
    }) by (bit_vector)
        requires
            zb <= 1,
            nb <= 1,
            hb <= 1,
            cb <= 1,
    ;
}

impl View for Regs {
    type V = RegsView;

    closed spec fn view(&self) -> RegsView {
        RegsView {
            a: self.a,
            b: self.b,
            c: self.c,
            d: self.d,
            e: self.e,
            f: self.f,
            h: self.h,
            l: self.l,
            pc: self.pc,
            sp: self.sp,
        }
    }
}

impl Regs {
    /// A register file with every register zero.
    pub fn new() -> (r: Self)
        ensures
            r@ == zero_regs(),
    {
        Regs { a: 0, b: 0, c: 0, d: 0, e: 0, f: 0, h: 0, l: 0, pc: 0, sp: 0 }
    }

    /// Sets (or clears) the bits of `flag_mask` in F.
    pub fn set_flag(&mut self, flag_mask: u8, set: bool)
        ensures
            final(self)@ == old(self)@.with_flag(flag_mask, set),
    {
        if set {
            self.f |= flag_mask;
        } else {
            self.f &= !flag_mask;
        }
    }

    /// Whether any bit of `flag_mask` is set in F.
    pub fn get_flag(&self, flag_mask: u8) -> (r: bool)
        ensures
            r == self@.flag(flag_mask),
    {
        (self.f & flag_mask) != 0
    }

    /// Sets all four flags at once.
    pub fn update_flags(&mut self, z: bool, n: bool, h: bool, c: bool)
        ensures
            final(self)@ == old(self)@.with_flags(z, n, h, c),
    {
        proof {
            lemma_flag_chain(self.f, z, n, h, c);
        }
        self.set_flag(Flag::Z, z);
        self.set_flag(Flag::N, n);
        self.set_flag(Flag::H, h);
        self.set_flag(Flag::C, c);
    }

    pub fn read8(&self, reg: Reg8) -> (r: u8)
        ensures
            r == self@.get8(reg),
    {
        match reg {
            Reg8::A => self.a,
            Reg8::B => self.b,
            Reg8::C => self.c,
            Reg8::D => self.d,
            Reg8::E => self.e,
            Reg8::H => self.h,
            Reg8::L => self.l,
        }
    }

    pub fn write8(&mut self, reg: Reg8, val: u8)
        ensures
            final(self)@ == old(self)@.set8(reg, val),
    {
        match reg {
            Reg8::A => self.a = val,
            Reg8::B => self.b = val,
            Reg8::C => self.c = val,
            Reg8::D => self.d = val,
            Reg8::E => self.e = val,
            Reg8::H => self.h = val,
            Reg8::L => self.l = val,
        }
    }

    /// Reads a register pair as one sixteen-bit value.
    pub fn read16(&self, reg: Reg16) -> (r: u16)
        ensures
            r == self@.get16(reg),
    {
        match reg {
            Reg16::AF => {
                proof {
                    lemma_pair_bits(self.a, self.f);
                }
                (self.a as u16) << 8 | self.f as u16
            },
            Reg16::BC => {
                proof {
                    lemma_pair_bits(self.b, self.c);
                }
                (self.b as u16) << 8 | self.c as u16
            },
            Reg16::DE => {
                proof {
                    lemma_pair_bits(self.d, self.e);
                }
                (self.d as u16) << 8 | self.e as u16
            },
            Reg16::HL => {
                proof {
                    lemma_pair_bits(self.h, self.l);
                }
                (self.h as u16) << 8 | self.l as u16
            },
            Reg16::SP => self.sp,
            Reg16::PC => self.pc,
        }
    }

    /// Writes a register pair; the program counter cannot be written this way.
    pub fn write16(&mut self, reg: Reg16, val: u16)
        requires
            reg != Reg16::PC,
        ensures
            final(self)@ == old(self)@.set16(reg, val),
    {
        proof {
            lemma_split_bits(val);
        }
        match reg {
            Reg16::AF => {
                self.a = ((val & 0xFF00) >> 8) as u8;
                // the low nibble of F always reads as zero
                self.f = (val & 0x00F0) as u8;
            },
            Reg16::BC => {
                self.b = ((val & 0xFF00) >> 8) as u8;
                self.c = (val & 0x00FF) as u8;
            },
            Reg16::DE => {
                self.d = ((val & 0xFF00) >> 8) as u8;
                self.e = (val & 0x00FF) as u8;
            },
            Reg16::HL => {
                self.h = ((val & 0xFF00) >> 8) as u8;
                self.l = (val & 0x00FF) as u8;
            },
            Reg16::SP => self.sp = val,
            // ruled out by the precondition: the program counter has its own setter
            Reg16::PC => {},
        }
    }

    /// The program counter.
    pub fn PC(&self) -> (r: u16)
        ensures
            r == self@.pc,
    {
        self.pc as u16
    }

    /// Sets the program counter.
    pub fn s_PC(&mut self, val: u16)
        ensures
            final(self)@ == old(self)@.with_pc(val),
    {
        self.pc = val;
    }
}

/// Writing an eight-bit register and reading a register back gives the
/// written value for that register and the old value for any other.
pub proof fn lemma_write8_read8(regs: RegsView, written: Reg8, read: Reg8, v: u8)
    ensures
        regs.set8(written, v).get8(read) == if written == read {
            v
        } else {
            regs.get8(read)
        },
{
}

/// Writing a register pair and reading it back gives the written value;
/// for AF the low nibble reads back as zero.
pub proof fn lemma_write16_read16(regs: RegsView, r: Reg16, v: u16)
    ensures
        regs.set16(r, v).get16(r) == if r == Reg16::AF {
            (v - v % 16) as u16
        } else {
            v
        },
{
    assert((v / 256) * 256 + v % 256 == v);
    assert((v % 256) / 16 * 16 == v % 256 - v % 16) by (nonlinear_arith);
    assert(v / 256 < 256);
}

/// A register pair reads as its first register times 256 plus its second.
pub proof fn lemma_pair_of_halves(regs: RegsView)
    ensures
        regs.get16(Reg16::BC) == regs.get8(Reg8::B) * 256 + regs.get8(Reg8::C),
        regs.get16(Reg16::DE) == regs.get8(Reg8::D) * 256 + regs.get8(Reg8::E),
        regs.get16(Reg16::HL) == regs.get8(Reg8::H) * 256 + regs.get8(Reg8::L),
        regs.get16(Reg16::AF) == regs.get8(Reg8::A) * 256 + regs.f,
{
}

/// After all four flags were set, each reads back as given, and the lower
/// nibble of F is unchanged.
pub proof fn lemma_flags_read_back(regs: RegsView, z: bool, n: bool, h: bool, c: bool)
    ensures
        regs.with_flags(z, n, h, c).flag(Flag::Z) == z,
        regs.with_flags(z, n, h, c).flag(Flag::N) == n,
        regs.with_flags(z, n, h, c).flag(Flag::H) == h,
        regs.with_flags(z, n, h, c).flag(Flag::C) == c,
        regs.with_flags(z, n, h, c).f % 16 == regs.f % 16,
{
    let f = regs.f;
    let zb: u8 = if z { 1 } else { 0 };
    let nb: u8 = if n { 1 } else { 0 };
    let hb: u8 = if h { 1 } else { 0 };
    let cb: u8 = if c { 1 } else { 0 };
    let g = flags_byte(f, z, n, h, c);
    assert(g == (f % 16 + 128 * zb + 64 * nb + 32 * hb + 16 * cb) as u8);
    assert({
        let g = (f % 16 + 128 * zb + 64 * nb + 32 * hb + 16 * cb) as u8;
        &&& (g & 0x80u8 != 0) == (zb == 1)
        &&& (g & 0x40u8 != 0) == (nb == 1)
        &&& (g & 0x20u8 != 0) == (hb == 1)
        &&& (g & 0x10u8 != 0) == (cb == 1)
        &&& g % 16 == f % 16
    }) by (bit_vector)
        requires
            zb <= 1,
            nb <= 1,
            hb <= 1,
            cb <= 1,
    ;
}

/// Setting the bits of a mask makes the flag read true; clearing them makes
/// it read false.
pub proof fn lemma_flag_read_back(regs: RegsView, mask: u8, set: bool)
    requires
        mask != 0,
    ensures
        regs.with_flag(mask, set).flag(mask) == set,
{
    let f = regs.f;
    assert((f | mask) & mask != 0) by (bit_vector)
        requires
            mask != 0,
    ;
    assert((f & !mask) & mask == 0) by (bit_vector);
}

} // verus!
