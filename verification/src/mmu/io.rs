use vstd::prelude::*;

use crate::utils::Memory;

verus! {

/// The I/O registers that are emulated: the serial port and the interrupt
/// flags. Bytes sent over the serial port are kept until taken.
pub struct Io {
    /// Serial transfer data (0xFF01).
    sb: u8,
    /// Serial transfer control (0xFF02).
    sc: u8,
    /// Interrupt flags (0xFF0F).
    pub if_reg: u8,
    /// Bytes transferred over the serial port and not yet taken.
    serial_out: Vec<u8>,
}

/// The state of the I/O registers.
pub struct IoView {
    pub sb: u8,
    pub sc: u8,
    pub if_reg: u8,
    pub serial_out: Seq<u8>,
}

impl IoView {
    /// The registers at power-on.
    pub open spec fn initial() -> IoView {
        IoView { sb: 0, sc: 0, if_reg: 0, serial_out: Seq::empty() }
    }

    /// What a read of `addr` returns: the register there, 0 for the interrupt
    /// enable register (0xFFFF), and 0xFF elsewhere.
    pub open spec fn read(self, addr: u16) -> u8 {
        if addr == 0xFF01 {
            self.sb
        } else if addr == 0xFF02 {
            self.sc
        } else if addr == 0xFF0F {
            self.if_reg
        } else if addr == 0xFFFF {
            0
        } else {
            0xFF
        }
    }

    /// The registers after a write of `value` to `addr`. Writing 0x81 to the
    /// serial control register sends the data byte and clears the control
    /// register; writes elsewhere are ignored.
    pub open spec fn write(self, addr: u16, value: u8) -> IoView {
        if addr == 0xFF01 {
            IoView { sb: value, ..self }
        } else if addr == 0xFF02 {
            if value == 0x81 {
                IoView { sc: 0, serial_out: self.serial_out.push(self.sb), ..self }
            } else {
                IoView { sc: value, ..self }
            }
        } else if addr == 0xFF0F {
            IoView { if_reg: value, ..self }
        } else {
            self
        }
    }
}

impl View for Io {
    type V = IoView;

    closed spec fn view(&self) -> IoView {
        IoView { sb: self.sb, sc: self.sc, if_reg: self.if_reg, serial_out: self.serial_out@ }
    }
}

impl Io {
    /// The registers at power-on, with nothing sent.
    pub fn new() -> (r: Self)
        ensures
            r@ == IoView::initial(),
    {
        Io { sb: 0, sc: 0, if_reg: 0, serial_out: Vec::new() }
    }

    /// Hands out the bytes sent over the serial port since the last call.
    pub fn take_serial_output(&mut self) -> (r: Vec<u8>)
        ensures
            r@ == old(self)@.serial_out,
            final(self)@ == (IoView { serial_out: Seq::empty(), ..old(self)@ }),
    {
        let mut out = Vec::new();
        core::mem::swap(&mut out, &mut self.serial_out);
        out
    }
}

impl Memory for Io {
    open spec fn readable(&self, addr: u16) -> bool {
        true
    }

    open spec fn writable(&self, addr: u16) -> bool {
        true
    }

    fn read(&self, addr: u16) -> (r: u8)
        ensures
            r == self@.read(addr),
    {
        match addr {
            0xFF01 => self.sb,
            0xFF02 => self.sc,
            0xFF0F => self.if_reg,
            0xFFFF => 0x0,  // interrupt enable register
            _ => 0xFF,
        }
    }

    fn write(&mut self, addr: u16, value: u8)
        ensures
            final(self)@ == old(self)@.write(addr, value),
    {
        match addr {
            0xFF01 => self.sb = value,
            0xFF02 => {
                self.sc = value;
                if value == 0x81 {
                    // a transfer with the internal clock: the byte goes out at once
                    self.serial_out.push(self.sb);
                    self.sc = 0x00;
                }
            },
            0xFF0F => self.if_reg = value,
            _ => {},
        }
    }
}

} // verus!
