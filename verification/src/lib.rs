//! A Game Boy (DMG) emulator core: the CPU register file, instruction
//! decoder and step machine, the memory bus and the cartridge with its
//! memory bank controllers.
#![allow(non_snake_case)]

pub mod bus;
pub mod cpu;
pub mod mmu;
pub mod utils;
