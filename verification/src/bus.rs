use vstd::prelude::*;

use crate::mmu::cartridge::{Cartridge, CartridgeView};
use crate::mmu::io::IoView;
use crate::mmu::{Hram, Io, Oam, Vram, Wram};
use crate::utils::Memory;

verus! {

// The bus carries sixteen-bit addresses and eight-bit data.

/// The memory bus: it routes each address to the device mapped there.
pub struct Bus {
    wram: Wram,
    hram: Hram,
    vram: Vram,
    io: Io,
    oam: Oam,
    cartridge: Cartridge,
}

/// The state of everything on the bus that holds state.
pub struct BusView {
    pub cartridge: CartridgeView,
    pub wram: Seq<u8>,
    pub io: IoView,
}

/// Whether `addr` lies in echo RAM (0xE000-0xFDFF), which mirrors work RAM.
pub open spec fn in_echo_ram(addr: u16) -> bool {
    0xE000 <= addr <= 0xFDFF
}

/// Whether `addr` lies in the unusable area 0xFEA0-0xFEFF.
pub open spec fn in_unusable_area(addr: u16) -> bool {
    0xFEA0 <= addr <= 0xFEFF
}

impl BusView {
    /// The byte that a read of `addr` returns:
    /// 0x0000-0x7FFF and 0xA000-0xBFFF the cartridge, 0xC000-0xDFFF work RAM,
    /// 0xE000-0xFDFF work RAM again (8 KiB lower), 0xFF00-0xFF7F and 0xFFFF
    /// the I/O registers; video RAM, OAM, high RAM and the unusable area read as 0.
    #[verifier::opaque]
    pub open spec fn read(self, addr: u16) -> u8 {
        if addr <= 0x7FFF {
            self.cartridge.read(addr)
        } else if addr <= 0x9FFF {
            0
        } else if addr <= 0xBFFF {
            self.cartridge.read(addr)
        } else if addr <= 0xDFFF {
            self.wram[addr - 0xC000]
        } else if addr <= 0xFDFF {
            self.wram[addr - 0xE000]
        } else if addr <= 0xFEFF {
            0
        } else if addr <= 0xFF7F {
            self.io.read(addr)
        } else if addr <= 0xFFFE {
            0
        } else {
            self.io.read(addr)
        }
    }

    /// Where a write is defined: everywhere but in cartridge RAM that is
    /// enabled on a cartridge without RAM.
    #[verifier::opaque]
    pub open spec fn can_write(self, addr: u16) -> bool {
        (addr <= 0x7FFF || 0xA000 <= addr <= 0xBFFF) ==> self.cartridge.can_write(addr)
    }

    /// The state after a write of `val` to `addr`, routed as reads are;
    /// writes to video RAM, OAM, high RAM and the unusable area change nothing.
    #[verifier::opaque]
    pub open spec fn write(self, addr: u16, val: u8) -> BusView {
        if addr <= 0x7FFF {
            BusView { cartridge: self.cartridge.write(addr, val), ..self }
        } else if addr <= 0x9FFF {
            self
        } else if addr <= 0xBFFF {
            BusView { cartridge: self.cartridge.write(addr, val), ..self }
        } else if addr <= 0xDFFF {
            BusView { wram: self.wram.update(addr - 0xC000, val), ..self }
        } else if addr <= 0xFDFF {
            BusView { wram: self.wram.update(addr - 0xE000, val), ..self }
        } else if addr <= 0xFEFF {
            self
        } else if addr <= 0xFF7F {
            BusView { io: self.io.write(addr, val), ..self }
        } else if addr <= 0xFFFE {
            self
        } else {
            BusView { io: self.io.write(addr, val), ..self }
        }
    }
}

impl View for Bus {
    type V = BusView;

    closed spec fn view(&self) -> BusView {
        BusView { cartridge: self.cartridge@, wram: self.wram@, io: self.io@ }
    }
}

impl Bus {
    /// A bus with the given cartridge, zeroed work RAM and I/O registers at power-on.
    pub fn new(cartridge: Cartridge) -> (r: Self)
        ensures
            r@ == (BusView {
                cartridge: cartridge@,
                wram: Seq::new(0x2000, |i: int| 0u8),
                io: IoView::initial(),
            }),
    {
        Bus {
            wram: Wram::new(),
            hram: Hram {},
            vram: Vram {},
            io: Io::new(),
            oam: Oam {},
            cartridge,
        }
    }

    /// Work RAM always holds 8 KiB.
    pub proof fn lemma_wram_len(&self)
        ensures
            self@.wram.len() == 0x2000,
    {
        self.wram.lemma_len();
    }

    /// Hands out the bytes sent over the serial port since the last call.
    pub fn take_serial_output(&mut self) -> (r: Vec<u8>)
        ensures
            r@ == old(self)@.io.serial_out,
            final(self)@ == (BusView {
                io: IoView { serial_out: Seq::empty(), ..old(self)@.io },
                ..old(self)@
            }),
    {
        self.io.take_serial_output()
    }

    pub fn read(&self, addr: u16) -> (r: u8)
        ensures
            r == self@.read(addr),
    {
        reveal(BusView::read);
        match addr {
            // cartridge ROM
            0x0000..=0x7FFF => self.cartridge.read(addr),
            0x8000..=0x9FFF => self.vram.read(addr),
            // cartridge RAM
            0xA000..=0xBFFF => self.cartridge.read(addr),
            0xC000..=0xDFFF => self.wram.read(addr),
            // echo RAM
            0xE000..=0xFDFF => self.wram.read(addr - 0x2000),
            0xFE00..=0xFE9F => self.oam.read(addr),
            // Nintendo forbade accessing this area
            0xFEA0..=0xFEFF => 0x00,
            // I/O: serial port, interrupt flags and the rest
            0xFF00..=0xFF7F => self.io.read(addr),
            0xFF80..=0xFFFE => self.hram.read(addr),
            // the interrupt enable register
            0xFFFF..=0xFFFF => self.io.read(addr),
        }
    }

    pub fn write(&mut self, addr: u16, val: u8)
        requires
            old(self)@.can_write(addr),
        ensures
            final(self)@ == old(self)@.write(addr, val),
    {
        reveal(BusView::write);
        reveal(BusView::can_write);
        match addr {
            // cartridge ROM: programs the bank controller
            0x0000..=0x7FFF => self.cartridge.write(addr, val),
            0x8000..=0x9FFF => self.vram.write(addr, val),
            0xA000..=0xBFFF => self.cartridge.write(addr, val),
            0xC000..=0xDFFF => self.wram.write(addr, val),
            // echo RAM
            0xE000..=0xFDFF => self.wram.write(addr - 0x2000, val),
            0xFE00..=0xFE9F => self.oam.write(addr, val),
            // Nintendo forbade accessing this area
            0xFEA0..=0xFEFF => {},
            0xFF00..=0xFF7F => self.io.write(addr, val),
            0xFF80..=0xFFFE => self.hram.write(addr, val),
            0xFFFF..=0xFFFF => self.io.write(addr, val),
        }
    }
}

/// Echo RAM reads as the work RAM byte 8 KiB lower.
pub proof fn lemma_echo_ram_read(b: BusView, addr: u16)
    requires
        in_echo_ram(addr),
    ensures
        b.read(addr) == b.read((addr - 0x2000) as u16),
{
    reveal(BusView::read);
    reveal(BusView::write);
}

/// A write to echo RAM has the same effect as a write to the work RAM byte
/// 8 KiB lower.
pub proof fn lemma_echo_ram_write(b: BusView, addr: u16, val: u8)
    requires
        in_echo_ram(addr),
    ensures
        b.write(addr, val) == b.write((addr - 0x2000) as u16, val),
{
    reveal(BusView::read);
    reveal(BusView::write);
}

/// A byte written to work RAM or echo RAM reads back, at the address written.
pub proof fn lemma_ram_read_after_write(b: BusView, addr: u16, val: u8)
    requires
        b.wram.len() == 0x2000,
        0xC000 <= addr <= 0xFDFF,
    ensures
        b.write(addr, val).read(addr) == val,
{
    reveal(BusView::read);
    reveal(BusView::write);
}

/// Work RAM keeps its 8 KiB under every write.
pub proof fn lemma_wram_len_kept(b: BusView, addr: u16, val: u8)
    requires
        b.wram.len() == 0x2000,
    ensures
        b.write(addr, val).wram.len() == b.wram.len(),
{
    reveal(BusView::write);
}

/// A write to work RAM changes what reads return only at the address
/// written and at its echo.
pub proof fn lemma_ram_write_frame(b: BusView, addr: u16, other: u16, val: u8)
    requires
        b.wram.len() == 0x2000,
        0xC000 <= addr <= 0xDFFF,
        other != addr,
        other != addr + 0x2000,
    ensures
        b.write(addr, val).read(other) == b.read(other),
{
    reveal(BusView::read);
    reveal(BusView::write);
}

/// The unusable area reads as 0 and ignores writes.
pub proof fn lemma_unusable_area(b: BusView, addr: u16, val: u8)
    requires
        in_unusable_area(addr),
    ensures
        b.read(addr) == 0,
        b.write(addr, val) == b,
{
    reveal(BusView::read);
    reveal(BusView::write);
}

/// Writing 0x81 to the serial control register sends the serial data byte.
pub proof fn lemma_serial_transfer(b: BusView)
    ensures
        b.write(0xFF02, 0x81).io.serial_out == b.io.serial_out.push(b.read(0xFF01)),
        b.write(0xFF02, 0x81).read(0xFF02) == 0,
{
    reveal(BusView::read);
    reveal(BusView::write);
}

/// The cartridge areas of the bus are the cartridge's: a read of ROM
/// (0x0000-0x7FFF) or cartridge RAM (0xA000-0xBFFF) returns what the
/// cartridge returns there, and a write there changes the cartridge alone.
pub proof fn lemma_cartridge_areas(b: BusView, addr: u16, val: u8)
    requires
        addr <= 0x7FFF || 0xA000 <= addr <= 0xBFFF,
    ensures
        b.read(addr) == b.cartridge.read(addr),
        b.write(addr, val) == (BusView { cartridge: b.cartridge.write(addr, val), ..b }),
{
    reveal(BusView::read);
    reveal(BusView::write);
}

/// A byte written through the bus to enabled cartridge RAM, at an address
/// that maps inside the RAM, reads back through the bus.
pub proof fn lemma_cartridge_ram_read_after_write(b: BusView, addr: u16, val: u8)
    requires
        0xA000 <= addr <= 0xBFFF,
        b.cartridge.mbc.ram_addr(addr) matches Some(i) && i < b.cartridge.ram.len(),
    ensures
        b.write(addr, val).read(addr) == val,
{
    lemma_cartridge_areas(b, addr, val);
    lemma_cartridge_areas(b.write(addr, val), addr, val);
    crate::mmu::cartridge::lemma_ram_read_after_write(b.cartridge, addr, val);
}

/// The serial data register and the interrupt flags read back what was
/// written to them through the bus.
pub proof fn lemma_io_registers_read_back(b: BusView, val: u8)
    ensures
        b.write(0xFF01, val).read(0xFF01) == val,
        b.write(0xFF0F, val).read(0xFF0F) == val,
        b.write(0xFF01, val).read(0xFF0F) == b.read(0xFF0F),
{
    reveal(BusView::read);
    reveal(BusView::write);
}

/// Video RAM, OAM and high RAM hold nothing here: they read as 0 and
/// writes there leave the bus as it was.
pub proof fn lemma_stateless_areas(b: BusView, addr: u16, val: u8)
    requires
        (0x8000 <= addr <= 0x9FFF) || (0xFE00 <= addr <= 0xFEFF) || (0xFF80 <= addr <= 0xFFFE),
    ensures
        b.read(addr) == 0,
        b.write(addr, val) == b,
{
    reveal(BusView::read);
    reveal(BusView::write);
}

} // verus!
