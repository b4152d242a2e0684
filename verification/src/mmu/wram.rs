use vstd::prelude::*;

use crate::utils::Memory;

verus! {

/// Work RAM: 8 KiB at 0xC000-0xDFFF.
pub struct Wram {
    data: [u8; 0x2000],
}

/// The first address of work RAM.
pub open spec fn wram_base() -> int {
    0xC000
}

/// Whether `addr` lies in work RAM (0xC000-0xDFFF).
pub open spec fn in_wram(addr: u16) -> bool {
    0xC000 <= addr <= 0xDFFF
}

impl View for Wram {
    type V = Seq<u8>;

    closed spec fn view(&self) -> Seq<u8> {
        self.data@
    }
}

impl Wram {
    /// Work RAM filled with zeroes.
    pub fn new() -> (r: Self)
        ensures
            r@ == Seq::new(0x2000, |i: int| 0u8),
    {
        let r = Wram { data: [0u8; 0x2000] };
        assert(r.data@ =~= Seq::new(0x2000, |i: int| 0u8));
        r
    }

    /// Work RAM always holds 8 KiB.
    pub proof fn lemma_len(&self)
        ensures
            self@.len() == 0x2000,
    {
    }
}

impl Memory for Wram {
    open spec fn readable(&self, addr: u16) -> bool {
        in_wram(addr)
    }

    open spec fn writable(&self, addr: u16) -> bool {
        in_wram(addr)
    }

    fn read(&self, addr: u16) -> (r: u8)
        ensures
            r == self@[addr - wram_base()],
    {
        self.data[(addr - 0xC000) as usize]
    }

    fn write(&mut self, addr: u16, value: u8)
        ensures
            final(self)@ == old(self)@.update(addr - wram_base(), value),
    {
        self.data[(addr - 0xC000) as usize] = value;
    }
}

} // verus!
