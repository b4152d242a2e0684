use vstd::prelude::*;

verus! {

/// A device on the memory bus: it answers reads and takes writes of single
/// bytes at sixteen-bit addresses.
pub trait Memory {
    /// The addresses this device can be read at.
    spec fn readable(&self, addr: u16) -> bool;

    /// The addresses this device can be written at.
    spec fn writable(&self, addr: u16) -> bool;

    fn read(&self, addr: u16) -> u8
        requires
            self.readable(addr),
    ;

    fn write(&mut self, addr: u16, value: u8)
        requires
            old(self).writable(addr),
    ;
}

} // verus!
