use vstd::prelude::*;

verus! {

/// The MBC1 banking mode: whether the two-bit bank register extends the
/// ROM bank number or selects the RAM bank.
#[derive(Clone, Copy)]
pub enum BankingMode {
    ROM,
    RAM,
}

impl BankingMode {
    /// The mode that the lowest bit of `val` selects: 0 for ROM, 1 for RAM.
    pub fn from_u8(val: u8) -> (r: Self)
        ensures
            r == (if val % 2 == 0 {
                BankingMode::ROM
            } else {
                BankingMode::RAM
            }),
    {
        assert(val & 1 == val % 2) by (bit_vector);
        if val & 1 == 0 {
            BankingMode::ROM
        } else {
            BankingMode::RAM
        }
    }
}

/// The registers of an MBC1 controller.
pub struct Mbc1View {
    /// The five-bit ROM bank register (bank 0 reads as 1 once written).
    pub rom_bank: usize,
    /// The two-bit register for the RAM bank or the upper ROM bank bits.
    pub ram_bank: usize,
    pub ram_enabled: bool,
    pub banking_mode: BankingMode,
}

/// The state of a memory bank controller.
pub enum MbcView {
    /// A cartridge without a controller: ROM mapped as is, no RAM.
    RomOnly,
    Mbc1(Mbc1View),
}

/// Size of a switchable ROM bank.
pub open spec fn rom_bank_size() -> int {
    0x4000
}

/// Size of a RAM bank.
pub open spec fn ram_bank_size() -> int {
    0x2000
}

impl Mbc1View {
    /// The registers right after power-on.
    pub open spec fn initial() -> Mbc1View {
        Mbc1View { rom_bank: 0, ram_bank: 1, ram_enabled: false, banking_mode: BankingMode::ROM }
    }

    /// Register bounds that every reachable state keeps.
    pub open spec fn wf(self) -> bool {
        self.rom_bank < 32 && self.ram_bank < 4
    }
}

impl MbcView {
    pub open spec fn ram_enabled(self) -> bool {
        match self {
            MbcView::RomOnly => false,
            MbcView::Mbc1(m) => m.ram_enabled,
        }
    }

    pub open spec fn banking_mode(self) -> BankingMode {
        match self {
            MbcView::RomOnly => BankingMode::ROM,
            MbcView::Mbc1(m) => m.banking_mode,
        }
    }

    /// The ROM bank mapped at 0x4000-0x7FFF. In ROM banking mode the
    /// two-bit register supplies bits 5 and 6 of the bank number.
    pub open spec fn rom_bank(self) -> int {
        match self {
            MbcView::RomOnly => 1,
            MbcView::Mbc1(m) => match m.banking_mode {
                BankingMode::ROM => m.rom_bank + 32 * m.ram_bank,
                BankingMode::RAM => m.rom_bank as int,
            },
        }
    }

    /// The RAM bank mapped at 0xA000-0xBFFF: always bank 0 in ROM banking mode.
    pub open spec fn ram_bank(self) -> int {
        match self {
            MbcView::RomOnly => 0,
            MbcView::Mbc1(m) => match m.banking_mode {
                BankingMode::ROM => 0,
                BankingMode::RAM => m.ram_bank as int,
            },
        }
    }

    /// The offset in the ROM image of a CPU address in 0x0000-0x7FFF.
    pub open spec fn rom_addr(self, addr: u16) -> int {
        match self {
            MbcView::RomOnly => addr as int,
            MbcView::Mbc1(m) => if addr < 0x4000 {
                let low_bank = match m.banking_mode {
                    BankingMode::ROM => 0,
                    BankingMode::RAM => 32 * m.ram_bank,
                };
                low_bank * rom_bank_size() + addr
            } else {
                self.rom_bank() * rom_bank_size() + (addr as int) % rom_bank_size()
            },
        }
    }

    /// The offset in cartridge RAM of a CPU address in 0xA000-0xBFFF, or
    /// `None` while RAM is disabled.
    pub open spec fn ram_addr(self, addr: u16) -> Option<usize> {
        if self.ram_enabled() {
            Some(((addr as int) % ram_bank_size() + self.ram_bank() * ram_bank_size()) as usize)
        } else {
            None
        }
    }

    /// The controller after the CPU wrote `val` to the ROM address `addr`:
    /// 0x0000-0x1FFF enables RAM on 0x0A and disables it on anything else,
    /// 0x2000-0x3FFF selects the ROM bank from the low five bits (0 selects 1),
    /// 0x4000-0x5FFF sets the two-bit register, 0x6000-0x7FFF the banking mode.
    pub open spec fn after_write(self, addr: u16, val: u8) -> MbcView {
        match self {
            MbcView::RomOnly => MbcView::RomOnly,
            MbcView::Mbc1(m) => MbcView::Mbc1(
                if addr < 0x2000 {
                    Mbc1View { ram_enabled: val == 0x0A, ..m }
                } else if addr < 0x4000 {
                    Mbc1View {
                        rom_bank: if val % 32 == 0 {
                            1
                        } else {
                            (val % 32) as usize
                        },
                        ..m
                    }
                } else if addr < 0x6000 {
                    Mbc1View { ram_bank: (val % 4) as usize, ..m }
                } else if addr < 0x8000 {
                    Mbc1View {
                        banking_mode: if val % 2 == 0 {
                            BankingMode::ROM
                        } else {
                            BankingMode::RAM
                        },
                        ..m
                    }
                } else {
                    m
                },
            ),
        }
    }

    /// Register bounds that every reachable state keeps.
    pub open spec fn wf(self) -> bool {
        match self {
            MbcView::RomOnly => true,
            MbcView::Mbc1(m) => m.wf(),
        }
    }
}

/// A memory bank controller: it maps CPU addresses of the cartridge to
/// offsets in ROM and RAM, and is programmed by writes to ROM addresses.
pub trait MbcTrait: Send {
    /// The controller's registers.
    spec fn mbc_view(&self) -> MbcView;

    fn ram_enabled(&self) -> (r: bool)
        ensures
            r == self.mbc_view().ram_enabled(),
    ;

    fn get_rom_bank(&self) -> (r: usize)
        ensures
            r == self.mbc_view().rom_bank(),
            r < 128,
    ;

    fn get_ram_bank(&self) -> (r: usize)
        ensures
            r == self.mbc_view().ram_bank(),
            r < 4,
    ;

    fn get_banking_mode(&self) -> (r: BankingMode)
        ensures
            r == self.mbc_view().banking_mode(),
    ;

    /// The ROM offset of a CPU address in 0x0000-0x7FFF. By default the
    /// address is taken as an offset into the current ROM bank; controllers
    /// that map ROM otherwise replace this, and each controller of this crate
    /// states `r == self.mbc_view().rom_addr(addr)` for its own mapping.
    fn map_rom_addr(&self, addr: u16) -> (r: usize)
        default_ensures
            r == self.mbc_view().rom_bank() * rom_bank_size() + (addr as int) % rom_bank_size(),
    {
        let bank_offset = self.get_rom_bank() * 0x4000;
        // a 14-bit mask: ROM banks are 16 KiB
        let relative_addr = (addr & 0x3FFF) as usize;
        assert(addr & 0x3FFF == addr % 0x4000) by (bit_vector);
        let safe_addr = relative_addr + bank_offset;
        safe_addr
    }

    /// The RAM offset of a CPU address in 0xA000-0xBFFF, if RAM is enabled.
    fn map_ram_addr(&self, addr: u16) -> (r: Option<usize>)
        ensures
            r == self.mbc_view().ram_addr(addr),
    {
        if !self.ram_enabled() {
            return None;
        }
        // a 13-bit mask: RAM banks are 8 KiB

        let normalized_addr = (addr & 0x1FFF) as usize;
        assert(addr & 0x1FFF == addr % 0x2000) by (bit_vector);
        let bank_size: usize = 0x2000;
        let bank_offset = self.get_ram_bank() * bank_size;
        let resolved_addr = normalized_addr + bank_offset;
        Some(resolved_addr)
    }

    /// Programs the controller through a write to a ROM address.
    fn write_rom(&mut self, addr: u16, val: u8)
        ensures
            final(self).mbc_view() == old(self).mbc_view().after_write(addr, val),
    ;
}

/// Selecting ROM bank 0 selects bank 1.
pub proof fn lemma_rom_bank_zero_selects_one(m: Mbc1View, addr: u16, val: u8)
    requires
        0x2000 <= addr <= 0x3FFF,
        val % 32 == 0,
    ensures
        MbcView::Mbc1(m).after_write(addr, val) == MbcView::Mbc1(Mbc1View { rom_bank: 1, ..m }),
{
}

/// Writing 0x0A below 0x2000 enables RAM; writing anything else there disables it.
pub proof fn lemma_ram_enable(m: Mbc1View, addr: u16, val: u8)
    requires
        addr <= 0x1FFF,
    ensures
        MbcView::Mbc1(m).after_write(addr, val).ram_enabled() == (val == 0x0A),
{
}

/// Writes to ROM keep the registers within their widths.
pub proof fn lemma_after_write_wf(m: MbcView, addr: u16, val: u8)
    requires
        m.wf(),
    ensures
        m.after_write(addr, val).wf(),
{
}

/// In ROM banking mode RAM bank 0 is mapped whatever the two-bit register
/// holds, and the register supplies bits 5 and 6 of the ROM bank.
pub proof fn lemma_rom_banking_mode(m: Mbc1View)
    requires
        m.banking_mode == BankingMode::ROM,
    ensures
        MbcView::Mbc1(m).ram_bank() == 0,
        MbcView::Mbc1(m).rom_bank() == m.rom_bank + 32 * m.ram_bank,
{
}

/// In RAM banking mode the two-bit register selects the RAM bank and the
/// ROM bank is the five-bit register alone.
pub proof fn lemma_ram_banking_mode(m: Mbc1View)
    requires
        m.banking_mode == BankingMode::RAM,
    ensures
        MbcView::Mbc1(m).ram_bank() == m.ram_bank,
        MbcView::Mbc1(m).rom_bank() == m.rom_bank,
{
}

/// A cartridge without a controller ignores writes to ROM and maps ROM as is.
pub proof fn lemma_rom_only(addr: u16, val: u8)
    ensures
        MbcView::RomOnly.after_write(addr, val) == MbcView::RomOnly,
        MbcView::RomOnly.rom_addr(addr) == addr,
        MbcView::RomOnly.ram_addr(addr) is None,
{
}

/// Within the register widths, placing the two-bit register above the five
/// ROM bank bits (as a bitwise OR) is the same as adding 32 times it.
pub proof fn lemma_rom_bank_bits(m: Mbc1View)
    requires
        m.wf(),
    ensures
        m.rom_bank | (m.ram_bank << 5usize) == m.rom_bank + 32 * m.ram_bank,
{
    let rb = m.rom_bank;
    let hb = m.ram_bank;
    assert(rb | (hb << 5usize) == rb + 32 * hb) by (bit_vector)
        requires
            rb < 32,
            hb < 4,
    ;
}

/// A write to 0x6000-0x7FFF sets the banking mode from bit 0 of the value
/// alone, whatever the mode was: an even value selects ROM banking, in which
/// RAM bank 0 is mapped (so an enabled RAM address maps to its offset within
/// the first 8 KiB) and the two-bit register extends the ROM bank; an odd
/// value selects RAM banking. The bank registers and the RAM enable are kept.
pub proof fn lemma_mode_write_sets_mode(m: Mbc1View, addr: u16, val: u8, ram_addr: u16)
    requires
        0x6000 <= addr <= 0x7FFF,
    ensures
        ({
            let after = MbcView::Mbc1(m).after_write(addr, val);
            &&& after.banking_mode() == (if val % 2 == 0 {
                BankingMode::ROM
            } else {
                BankingMode::RAM
            })
            &&& after.ram_enabled() == m.ram_enabled
            &&& val % 2 == 0 ==> after.ram_bank() == 0
            &&& val % 2 == 0 ==> after.rom_bank() == m.rom_bank + 32 * m.ram_bank
            &&& val % 2 == 1 ==> after.ram_bank() == m.ram_bank
            &&& val % 2 == 1 ==> after.rom_bank() == m.rom_bank
            &&& (val % 2 == 0 && m.ram_enabled) ==> after.ram_addr(ram_addr) == Some(
                ((ram_addr as int) % 0x2000) as usize,
            )
        }),
{
}

/// Of two writes to the banking mode, the second decides: a mode write
/// after another gives the same controller as the second write alone.
pub proof fn lemma_last_mode_write_wins(m: Mbc1View, a1: u16, v1: u8, a2: u16, v2: u8)
    requires
        0x6000 <= a1 <= 0x7FFF,
        0x6000 <= a2 <= 0x7FFF,
    ensures
        MbcView::Mbc1(m).after_write(a1, v1).after_write(a2, v2) == MbcView::Mbc1(m).after_write(
            a2,
            v2,
        ),
{
}

/// The register writes of MBC1: 0x2000-0x3FFF loads the five-bit ROM bank
/// register from the low five bits of the value (0 loads 1), 0x4000-0x5FFF
/// loads the two-bit register from the low two bits, 0x0000-0x1FFF only
/// switches RAM on (for 0x0A) or off; each write leaves the other registers
/// as they were.
pub proof fn lemma_register_writes(m: Mbc1View, addr: u16, val: u8)
    ensures
        ({
            let after = MbcView::Mbc1(m).after_write(addr, val);
            &&& after matches MbcView::Mbc1(a)
            &&& 0x2000 <= addr <= 0x3FFF ==> (after->Mbc1_0).rom_bank == (if val % 32 == 0 {
                1
            } else {
                val % 32
            }) && (after->Mbc1_0).ram_bank == m.ram_bank && after.ram_enabled() == m.ram_enabled
                && after.banking_mode() == m.banking_mode
            &&& 0x4000 <= addr <= 0x5FFF ==> (after->Mbc1_0).ram_bank == val % 4 && (
            after->Mbc1_0).rom_bank == m.rom_bank && after.ram_enabled() == m.ram_enabled
                && after.banking_mode() == m.banking_mode
            &&& addr <= 0x1FFF ==> (after->Mbc1_0).rom_bank == m.rom_bank && (
            after->Mbc1_0).ram_bank == m.ram_bank && after.ram_enabled() == (val == 0x0A)
                && after.banking_mode() == m.banking_mode
        }),
{
}

/// Where MBC1 maps addresses: 0x4000-0x7FFF reads the ROM bank made of the
/// five-bit register and, in ROM banking mode, the two-bit register above
/// it; 0x0000-0x3FFF reads bank 0 in ROM banking mode; enabled cartridge RAM
/// is the 8 KiB bank that the two-bit register selects in RAM banking mode,
/// and bank 0 in ROM banking mode.
pub proof fn lemma_mbc1_mapping(m: Mbc1View, addr: u16)
    ensures
        ({
            let mv = MbcView::Mbc1(m);
            let upper = if m.banking_mode == BankingMode::ROM {
                m.ram_bank as int
            } else {
                0
            };
            let ram_bank = if m.banking_mode == BankingMode::RAM {
                m.ram_bank as int
            } else {
                0
            };
            &&& 0x4000 <= addr <= 0x7FFF ==> mv.rom_addr(addr) == (m.rom_bank + 32 * upper) * 0x4000
                + (addr - 0x4000)
            &&& (addr < 0x4000 && m.banking_mode == BankingMode::ROM) ==> mv.rom_addr(addr) == addr
            &&& (0xA000 <= addr <= 0xBFFF && m.ram_enabled) ==> mv.ram_addr(addr) == Some(
                ((addr - 0xA000) + ram_bank * 0x2000) as usize,
            )
            &&& !m.ram_enabled ==> mv.ram_addr(addr) is None
        }),
{
}

} // verus!
