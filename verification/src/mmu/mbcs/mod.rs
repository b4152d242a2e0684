pub mod mbc1;
pub mod rom_only;

pub use mbc1::Mbc1;
pub use rom_only::RomOnly;
