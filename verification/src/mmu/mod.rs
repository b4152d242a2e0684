pub mod mbc;
pub mod mbcs;

pub use mbc::{BankingMode, MbcTrait};
pub mod hram;
pub mod io;
pub mod oam;
pub mod vram;
pub mod wram;

pub use hram::Hram;
pub use io::Io;
pub use oam::Oam;
pub use vram::Vram;
pub use wram::Wram;
pub mod cartridge;

pub use cartridge::Cartridge;
