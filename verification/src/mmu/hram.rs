use vstd::prelude::*;

use crate::utils::Memory;

verus! {

/// High RAM (0xFF80-0xFFFE); not emulated yet: it reads as 0 and ignores writes.
pub struct Hram {}

impl Memory for Hram {
    open spec fn readable(&self, addr: u16) -> bool {
        true
    }

    open spec fn writable(&self, addr: u16) -> bool {
        true
    }

    fn read(&self, addr: u16) -> (r: u8)
        ensures
            r == 0,
    {
        0x00
    }

    fn write(&mut self, addr: u16, value: u8)
        ensures
            *final(self) == *old(self),
    {
    }
}

} // verus!
