use vstd::prelude::*;

use crate::mmu::mbc::{BankingMode, Mbc1View, MbcTrait, MbcView};

verus! {

/// The MBC1 memory bank controller.
pub struct Mbc1 {
    rom_bank: usize,
    ram_bank: usize,
    ram_enabled: bool,
    /// ROM banking (0) or RAM banking (1).
    banking_mode: BankingMode,
}

impl View for Mbc1 {
    type V = Mbc1View;

    closed spec fn view(&self) -> Mbc1View {
        Mbc1View {
            rom_bank: self.rom_bank,
            ram_bank: self.ram_bank,
            ram_enabled: self.ram_enabled,
            banking_mode: self.banking_mode,
        }
    }
}

impl Mbc1 {
    #[verifier::type_invariant]
    spec fn registers_in_range(self) -> bool {
        self.rom_bank < 32 && self.ram_bank < 4
    }

    /// The controller at power-on: ROM banking, RAM disabled.
    pub fn new() -> (r: Self)
        ensures
            r@ == Mbc1View::initial(),
            r@.wf(),
    {
        Self { rom_bank: 0, ram_bank: 1, ram_enabled: false, banking_mode: BankingMode::ROM }
    }
}

impl MbcTrait for Mbc1 {
    open spec fn mbc_view(&self) -> MbcView {
        MbcView::Mbc1(self@)
    }

    fn get_banking_mode(&self) -> (r: BankingMode) {
        self.banking_mode
    }

    fn ram_enabled(&self) -> (r: bool) {
        self.ram_enabled
    }

    fn get_rom_bank(&self) -> (r: usize) {
        proof {
            use_type_invariant(self);
        }
        match self.banking_mode {
            BankingMode::ROM => {
                // the two-bit register supplies bits 5 and 6 of the bank number
                let rb = self.rom_bank;
                let hb = self.ram_bank;
                assert(rb | (hb << 5usize) == rb + 32 * hb && rb + 32 * hb < 128) by (bit_vector)
                    requires
                        rb < 32,
                        hb < 4,
                ;
                self.rom_bank | (self.ram_bank << 5)
            },
            BankingMode::RAM => self.rom_bank,
        }
    }

    fn get_ram_bank(&self) -> (r: usize) {
        proof {
            use_type_invariant(self);
        }
        match self.banking_mode {
            // RAM is locked to bank 0
            BankingMode::ROM => 0,
            BankingMode::RAM => self.ram_bank,
        }
    }

    fn map_rom_addr(&self, addr: u16) -> (r: usize)
        ensures
            r == self.mbc_view().rom_addr(addr),
    {
        proof {
            use_type_invariant(self);
        }
        assert(addr & 0x3FFF == addr % 0x4000) by (bit_vector);
        if addr < 0x4000 {
            // bank 0 region, which RAM banking mode can move to banks 0x20, 0x40, 0x60
            let bank: usize = match self.banking_mode {
                BankingMode::ROM => 0,
                BankingMode::RAM => {
                    let hb = self.ram_bank;
                    assert(0usize | (hb << 5usize) == 32 * hb) by (bit_vector)
                        requires
                            hb < 4,
                    ;
                    0 | self.ram_bank << 5
                },
            };
            (bank * 0x4000) + (addr & 0x3FFF) as usize
        } else {
            let bank = self.get_rom_bank();
            (bank * 0x4000) + (addr & 0x3FFF) as usize
        }
    }

    /// The registers stay within their widths: the ROM bank register below
    /// 32, the two-bit register below 4.
    fn write_rom(&mut self, addr: u16, val: u8)
        ensures
            final(self)@.wf(),
    {
        proof {
            use_type_invariant(&*self);
        }
        if addr <= 0x1FFF {
            // RAM enable: 0x0A enables, anything else disables
            if val == 0x0A {
                self.ram_enabled = true;
            } else {
                self.ram_enabled = false;
            }
        } else if addr <= 0x3FFF {
            // ROM bank select: the low five bits, where 0 selects bank 1
            assert(val & 0x1F == val % 32) by (bit_vector);
            let mut bank = (val & 0x1F) as usize;
            if bank == 0 {
                bank = 1;
            }
            self.rom_bank = bank;
        } else if addr <= 0x5FFF {
            // RAM bank select: the low two bits
            assert(val & 0b11 == val % 4) by (bit_vector);
            self.ram_bank = (val & 0b11) as usize;
        } else if addr <= 0x7FFF {
            // banking mode select
            assert((val & 0x1) % 2 == val % 2) by (bit_vector);
            self.banking_mode = BankingMode::from_u8(val & 0x1);
        }
        proof {
            use_type_invariant(&*self);
        }
    }
}

} // verus!
