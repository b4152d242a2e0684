use gameboy::mmu::cartridge::{ram_size_in_bytes, rom_size_in_bytes};
use gameboy::mmu::Cartridge;
use gameboy::utils::Memory;

fn image(cartridge_type: u8, rom_code: u8, ram_code: u8, len: usize) -> Vec<u8> {
    let mut data = vec![0u8; len];
    for (i, b) in data.iter_mut().enumerate() {
        *b = (i % 251) as u8;
    }
    data[0x0147] = cartridge_type;
    data[0x0148] = rom_code;
    data[0x0149] = ram_code;
    data
}

#[test]
fn rom_sizes() {
    assert_eq!(rom_size_in_bytes(0x00), 32 * 1024);
    assert_eq!(rom_size_in_bytes(0x01), 64 * 1024);
    assert_eq!(rom_size_in_bytes(0x05), 1024 * 1024);
    assert_eq!(rom_size_in_bytes(0x08), 8 * 1024 * 1024);
    assert_eq!(rom_size_in_bytes(0x52), 1152 * 1024);
    assert_eq!(rom_size_in_bytes(0x53), 1280 * 1024);
    assert_eq!(rom_size_in_bytes(0x54), 1536 * 1024);
    assert_eq!(rom_size_in_bytes(0x09), 0);
    assert_eq!(rom_size_in_bytes(0xFF), 0);
}

#[test]
fn ram_sizes() {
    assert_eq!(ram_size_in_bytes(0x00), 0);
    assert_eq!(ram_size_in_bytes(0x01), 0);
    assert_eq!(ram_size_in_bytes(0x02), 8 * 1024);
    assert_eq!(ram_size_in_bytes(0x03), 32 * 1024);
    assert_eq!(ram_size_in_bytes(0x04), 128 * 1024);
    assert_eq!(ram_size_in_bytes(0x05), 64 * 1024);
    assert_eq!(ram_size_in_bytes(0x06), 0);
}

#[test]
fn rom_only_reads_the_image() {
    let data = image(0x00, 0x00, 0x00, 0x8000);
    let cart = Cartridge::new(data.clone());
    assert_eq!(cart.read(0x0000), data[0]);
    assert_eq!(cart.read(0x0147), 0x00);
    assert_eq!(cart.read(0x7FFF), data[0x7FFF]);
    // no RAM: reads as 0xFF
    assert_eq!(cart.read(0xA000), 0xFF);
    // outside both areas
    assert_eq!(cart.read(0x8000), 0xFF);
}

#[test]
fn reads_past_the_image_are_ff() {
    let data = image(0x00, 0x00, 0x00, 0x200);
    let cart = Cartridge::new(data);
    assert_eq!(cart.read(0x01FF), (0x01FF % 251) as u8);
    assert_eq!(cart.read(0x0200), 0xFF);
    assert_eq!(cart.read(0x7000), 0xFF);
}

#[test]
fn rom_only_ignores_writes() {
    let data = image(0x00, 0x00, 0x00, 0x8000);
    let mut cart = Cartridge::new(data.clone());
    cart.write(0x2000, 0x05);
    cart.write(0x0000, 0x0A);
    assert_eq!(cart.read(0x4000), data[0x4000]);
    cart.write(0xA000, 0x42);
    assert_eq!(cart.read(0xA000), 0xFF);
}

#[test]
fn mbc1_switches_rom_banks() {
    // 4 banks of 16 KiB, each starting with its number
    let mut data = image(0x01, 0x01, 0x00, 4 * 0x4000);
    for bank in 0..4 {
        data[bank * 0x4000 + 0x100] = bank as u8;
    }
    let mut cart = Cartridge::new(data);
    cart.write(0x4000, 0x00); // upper bank bits 0
    cart.write(0x2000, 0x02);
    assert_eq!(cart.read(0x4100), 2);
    cart.write(0x2000, 0x03);
    assert_eq!(cart.read(0x4100), 3);
    cart.write(0x2000, 0x00); // bank 0 selects 1
    assert_eq!(cart.read(0x4100), 1);
    assert_eq!(cart.read(0x0100), 0);
}

#[test]
fn mbc1_ram_read_after_write() {
    let data = image(0x02, 0x00, 0x02, 0x8000);
    let mut cart = Cartridge::new(data);
    // disabled RAM reads 0xFF and ignores writes
    cart.write(0xA010, 0x55);
    assert_eq!(cart.read(0xA010), 0xFF);
    cart.write(0x0000, 0x0A);
    assert_eq!(cart.read(0xA010), 0x00);
    cart.write(0xA010, 0x55);
    assert_eq!(cart.read(0xA010), 0x55);
    cart.write(0x0000, 0x00);
    assert_eq!(cart.read(0xA010), 0xFF);
    cart.write(0x0000, 0x0A);
    assert_eq!(cart.read(0xA010), 0x55);
}

#[test]
fn mbc1_ram_writes_wrap_around_small_ram() {
    // 8 KiB of RAM, RAM banking mode with bank 1 selected: offsets past the end wrap
    let data = image(0x02, 0x00, 0x02, 0x8000);
    let mut cart = Cartridge::new(data);
    cart.write(0x0000, 0x0A);
    cart.write(0x6000, 0x01);
    cart.write(0x4000, 0x01);
    cart.write(0xA005, 0x77);
    // the read of bank 1 lies outside the RAM
    assert_eq!(cart.read(0xA005), 0xFF);
    // the write landed at offset 5 of bank 0
    cart.write(0x4000, 0x00);
    assert_eq!(cart.read(0xA005), 0x77);
}
