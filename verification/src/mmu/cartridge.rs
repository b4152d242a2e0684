use vstd::prelude::*;

use crate::mmu::mbc::{BankingMode, Mbc1View, MbcTrait, MbcView};
use crate::mmu::mbcs;
use crate::utils::Memory;

verus! {

// Built after the cartridge header layout at https://gbdev.io/pandocs/The_Cartridge_Header.html

/// Header offset of the cartridge type (the bank controller).
pub open spec fn cartridge_type_offset() -> int {
    0x0147
}

/// Header offset of the ROM size code.
pub open spec fn rom_size_offset() -> int {
    0x0148
}

/// Header offset of the RAM size code.
pub open spec fn ram_size_offset() -> int {
    0x0149
}

/// Whether the ROM image holds a header with a cartridge type that is
/// supported: 0x00 (no controller), 0x01 and 0x02 (MBC1).
pub open spec fn supported_rom(data: Seq<u8>) -> bool {
    data.len() > ram_size_offset() && data[cartridge_type_offset()] <= 2
}

/// The bank controller that a cartridge type selects, at power-on.
pub open spec fn mbc_for_type(cartridge_type: u8) -> MbcView {
    if cartridge_type == 0 {
        MbcView::RomOnly
    } else {
        MbcView::Mbc1(Mbc1View::initial())
    }
}

/// The ROM size in bytes that a header code gives: 32 KiB doubled per step
/// up to code 8, three irregular sizes of 72, 80 and 96 banks, and 0 for
/// any other code.
pub open spec fn rom_size_spec(code: u8) -> int {
    if code <= 8 {
        32768 * (vstd::arithmetic::power2::pow2(code as nat) as int)
    } else if code == 0x52 {
        1152 * 1024int
    } else if code == 0x53 {
        1280 * 1024int
    } else if code == 0x54 {
        1536 * 1024int
    } else {
        0
    }
}

/// The cartridge RAM size in bytes that a header code gives; code 1 is
/// unused and, like any unknown code, gives no RAM.
pub open spec fn ram_size_spec(code: u8) -> int {
    if code == 2 {
        8 * 1024int
    } else if code == 3 {
        32 * 1024int
    } else if code == 4 {
        128 * 1024int
    } else if code == 5 {
        64 * 1024int
    } else {
        0
    }
}

/// The ROM size in bytes that a header code gives.
pub fn rom_size_in_bytes(code: u8) -> (r: u32)
    ensures
        r == rom_size_spec(code),
{
    if code <= 0x08 {
        proof {
            vstd::arithmetic::power2::lemma2_to64();
            vstd::bits::lemma_u32_shl_is_mul(32768u32, code as u32);
        }
        (32 * 1024u32) << (code as u32)
    } else if code == 0x52 {
        // 72 banks
        1152 * 1024
    } else if code == 0x53 {
        // 80 banks
        1280 * 1024
    } else if code == 0x54 {
        // 96 banks
        1536 * 1024
    } else {
        0
    }
}

/// The cartridge RAM size in bytes that a header code gives.
pub fn ram_size_in_bytes(code: u8) -> (r: usize)
    ensures
        r == ram_size_spec(code),
{
    match code {
        0x00 => 0,
        0x01 => 0,  // unused
        0x02 => 8 * 1024,
        0x03 => 32 * 1024,
        0x04 => 128 * 1024,
        0x05 => 64 * 1024,
        _ => 0,
    }
}

/// Whether `addr` lies in the cartridge ROM area (0x0000-0x7FFF).
pub open spec fn in_rom_area(addr: u16) -> bool {
    addr <= 0x7FFF
}

/// Whether `addr` lies in the cartridge RAM area (0xA000-0xBFFF).
pub open spec fn in_ram_area(addr: u16) -> bool {
    0xA000 <= addr <= 0xBFFF
}

/// The contents of a cartridge and the state of its bank controller.
pub struct CartridgeView {
    pub rom: Seq<u8>,
    pub ram: Seq<u8>,
    pub mbc: MbcView,
}

impl CartridgeView {
    /// What a read returns: the mapped ROM or RAM byte, and 0xFF where the
    /// mapped offset lies outside the image, while RAM is disabled, and at
    /// any address outside both areas.
    pub open spec fn read(self, addr: u16) -> u8 {
        if in_rom_area(addr) {
            let i = self.mbc.rom_addr(addr);
            if i < self.rom.len() {
                self.rom[i]
            } else {
                0xFF
            }
        } else if in_ram_area(addr) {
            match self.mbc.ram_addr(addr) {
                Some(i) => if i < self.ram.len() {
                    self.ram[i as int]
                } else {
                    0xFF
                },
                None => 0xFF,
            }
        } else {
            0xFF
        }
    }

    /// Where a write is defined: anywhere in the ROM area, and in the RAM
    /// area unless RAM is enabled on a cartridge that has none.
    pub open spec fn can_write(self, addr: u16) -> bool {
        ||| in_rom_area(addr)
        ||| in_ram_area(addr) && (self.mbc.ram_addr(addr) is Some ==> self.ram.len() > 0)
    }

    /// The cartridge after a write: writes to ROM program the controller;
    /// writes to RAM store the byte at the mapped offset, wrapped around the
    /// RAM size, and are dropped while RAM is disabled.
    pub open spec fn write(self, addr: u16, val: u8) -> CartridgeView {
        if in_rom_area(addr) {
            CartridgeView { mbc: self.mbc.after_write(addr, val), ..self }
        } else {
            match self.mbc.ram_addr(addr) {
                Some(i) => CartridgeView {
                    ram: self.ram.update(i as int % self.ram.len() as int, val),
                    ..self
                },
                None => self,
            }
        }
    }
}

/// The bank controllers that are supported.
pub enum CartridgeMbc {
    RomOnly(mbcs::RomOnly),
    Mbc1(mbcs::Mbc1),
}

impl MbcTrait for CartridgeMbc {
    open spec fn mbc_view(&self) -> MbcView {
        match self {
            CartridgeMbc::RomOnly(m) => m.mbc_view(),
            CartridgeMbc::Mbc1(m) => m.mbc_view(),
        }
    }

    fn ram_enabled(&self) -> (r: bool) {
        match self {
            CartridgeMbc::RomOnly(m) => m.ram_enabled(),
            CartridgeMbc::Mbc1(m) => m.ram_enabled(),
        }
    }

    fn get_rom_bank(&self) -> (r: usize) {
        match self {
            CartridgeMbc::RomOnly(m) => m.get_rom_bank(),
            CartridgeMbc::Mbc1(m) => m.get_rom_bank(),
        }
    }

    fn get_ram_bank(&self) -> (r: usize) {
        match self {
            CartridgeMbc::RomOnly(m) => m.get_ram_bank(),
            CartridgeMbc::Mbc1(m) => m.get_ram_bank(),
        }
    }

    fn get_banking_mode(&self) -> (r: BankingMode) {
        match self {
            CartridgeMbc::RomOnly(m) => m.get_banking_mode(),
            CartridgeMbc::Mbc1(m) => m.get_banking_mode(),
        }
    }

    fn map_rom_addr(&self, addr: u16) -> (r: usize)
        ensures
            r == self.mbc_view().rom_addr(addr),
    {
        match self {
            CartridgeMbc::RomOnly(m) => m.map_rom_addr(addr),
            CartridgeMbc::Mbc1(m) => m.map_rom_addr(addr),
        }
    }

    fn write_rom(&mut self, addr: u16, val: u8) {
        match self {
            CartridgeMbc::RomOnly(m) => m.write_rom(addr, val),
            CartridgeMbc::Mbc1(m) => m.write_rom(addr, val),
        }
    }
}

/// A game cartridge: the ROM image, the external RAM (save data) and the
/// bank controller.
pub struct Cartridge {
    rom: Vec<u8>,
    ram: Vec<u8>,
    mbc: CartridgeMbc,
}

impl View for Cartridge {
    type V = CartridgeView;

    closed spec fn view(&self) -> CartridgeView {
        CartridgeView { rom: self.rom@, ram: self.ram@, mbc: self.mbc.mbc_view() }
    }
}

impl Cartridge {
    /// Loads a ROM image: the header selects the bank controller and the
    /// size of the zero-filled external RAM; the image is kept as is.
    pub fn new(data: Vec<u8>) -> (r: Self)
        requires
            supported_rom(data@),
        ensures
            r@ == (CartridgeView {
                rom: data@,
                ram: Seq::new(ram_size_spec(data@[ram_size_offset()]) as nat, |i: int| 0u8),
                mbc: mbc_for_type(data@[cartridge_type_offset()]),
            }),
    {
        let mbc_byte = data[0x0147];
        let mbc = if mbc_byte == 0x00 {
            CartridgeMbc::RomOnly(mbcs::RomOnly::new())
        } else {
            CartridgeMbc::Mbc1(mbcs::Mbc1::new())
        };
        let ram_size = ram_size_in_bytes(data[0x0149]);
        let ram = vec![0u8; ram_size];
        assert(ram@ =~= Seq::new(ram_size as nat, |i: int| 0u8));
        Self { rom: data, ram, mbc }
    }
}

impl Memory for Cartridge {
    open spec fn readable(&self, addr: u16) -> bool {
        true
    }

    open spec fn writable(&self, addr: u16) -> bool {
        self@.can_write(addr)
    }

    fn read(&self, addr: u16) -> (r: u8)
        ensures
            r == self@.read(addr),
    {
        if addr <= 0x7FFF {
            let resolved_addr = self.mbc.map_rom_addr(addr);
            // out-of-range offsets of malformed images read as 0xFF
            if resolved_addr < self.rom.len() {
                self.rom[resolved_addr]
            } else {
                0xFF
            }
        } else if 0xA000 <= addr && addr <= 0xBFFF {
            match self.mbc.map_ram_addr(addr) {
                Some(resolved_addr) => {
                    if resolved_addr < self.ram.len() {
                        self.ram[resolved_addr]
                    } else {
                        0xFF
                    }
                },
                None => 0xFF,
            }
        } else {
            0xFF
        }
    }

    fn write(&mut self, addr: u16, val: u8)
        ensures
            final(self)@ == old(self)@.write(addr, val),
    {
        if addr <= 0x7FFF {
            // ROM cannot change: the write programs the bank controller
            self.mbc.write_rom(addr, val);
        } else {
            let ram_length = self.ram.len();
            if let Some(resolved_addr) = self.mbc.map_ram_addr(addr) {
                // offsets past the end wrap around the RAM size
                self.ram.set(resolved_addr % ram_length, val);
            }
        }
    }
}

/// A byte written to cartridge RAM reads back at the same address, when
/// the address maps inside the RAM.
pub proof fn lemma_ram_read_after_write(cart: CartridgeView, addr: u16, val: u8)
    requires
        in_ram_area(addr),
        cart.mbc.ram_addr(addr) matches Some(i) && i < cart.ram.len(),
    ensures
        cart.write(addr, val).read(addr) == val,
{
    let i = cart.mbc.ram_addr(addr).unwrap();
    vstd::arithmetic::div_mod::lemma_small_mod(i as nat, cart.ram.len());
}

/// While RAM is disabled, its area reads as 0xFF and ignores writes.
pub proof fn lemma_disabled_ram(cart: CartridgeView, addr: u16, val: u8)
    requires
        in_ram_area(addr),
        !cart.mbc.ram_enabled(),
    ensures
        cart.read(addr) == 0xFF,
        cart.write(addr, val) == cart,
{
}

/// Writes never change the ROM image; writes to the ROM area leave RAM as is.
pub proof fn lemma_rom_is_read_only(cart: CartridgeView, addr: u16, val: u8)
    ensures
        cart.write(addr, val).rom == cart.rom,
        in_rom_area(addr) ==> cart.write(addr, val).ram == cart.ram,
{
}

/// Without a controller, ROM addresses inside the image read the image byte
/// there, and those outside read 0xFF.
pub proof fn lemma_rom_only_reads_image(cart: CartridgeView, addr: u16)
    requires
        cart.mbc == MbcView::RomOnly,
        in_rom_area(addr),
    ensures
        cart.read(addr) == if addr < cart.rom.len() {
            cart.rom[addr as int]
        } else {
            0xFF
        },
{
}

/// A freshly loaded cartridge, as `Cartridge::new` builds it, has its RAM
/// switched off, so the RAM area reads 0xFF; the first 16 KiB read straight
/// from the image, and without a controller so do all 32 KiB of ROM.
pub proof fn lemma_fresh_cartridge(data: Seq<u8>, addr: u16)
    requires
        supported_rom(data),
    ensures
        ({
            let cart = CartridgeView {
                rom: data,
                ram: Seq::new(ram_size_spec(data[ram_size_offset()]) as nat, |i: int| 0u8),
                mbc: mbc_for_type(data[cartridge_type_offset()]),
            };
            &&& in_ram_area(addr) ==> cart.read(addr) == 0xFF
            &&& (addr < 0x4000 && addr < data.len()) ==> cart.read(addr) == data[addr as int]
            &&& (data[cartridge_type_offset()] == 0 && in_rom_area(addr) && addr < data.len())
                ==> cart.read(addr) == data[addr as int]
        }),
{
}

} // verus!
