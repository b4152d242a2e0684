use vstd::prelude::*;

use crate::mmu::mbc::{BankingMode, MbcTrait, MbcView};

verus! {

/// A cartridge without a bank controller: 32 KiB of ROM mapped as is.
pub struct RomOnly;

impl RomOnly {
    pub fn new() -> (r: Self)
        ensures
            r.mbc_view() == MbcView::RomOnly,
    {
        Self
    }
}

impl MbcTrait for RomOnly {
    open spec fn mbc_view(&self) -> MbcView {
        MbcView::RomOnly
    }

    fn ram_enabled(&self) -> (r: bool) {
        false
    }

    fn get_rom_bank(&self) -> (r: usize) {
        1
    }

    fn get_ram_bank(&self) -> (r: usize) {
        0
    }

    fn get_banking_mode(&self) -> (r: BankingMode) {
        BankingMode::ROM
    }

    fn map_rom_addr(&self, addr: u16) -> (r: usize)
        ensures
            r == self.mbc_view().rom_addr(addr),
    {
        addr as usize
    }

    fn write_rom(&mut self, addr: u16, val: u8) {
    }
}

} // verus!
