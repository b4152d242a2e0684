use gameboy::mmu::mbcs::{Mbc1, RomOnly};
use gameboy::mmu::{BankingMode, MbcTrait};

#[test]
fn banking_mode_from_lowest_bit() {
    assert!(matches!(BankingMode::from_u8(0), BankingMode::ROM));
    assert!(matches!(BankingMode::from_u8(1), BankingMode::RAM));
    assert!(matches!(BankingMode::from_u8(0xFE), BankingMode::ROM));
    assert!(matches!(BankingMode::from_u8(0x03), BankingMode::RAM));
}

#[test]
fn mbc1_at_power_on() {
    let m = Mbc1::new();
    assert!(!m.ram_enabled());
    assert!(matches!(m.get_banking_mode(), BankingMode::ROM));
    // ROM banking mode: the two-bit register (1) supplies bit 5 of the bank
    assert_eq!(m.get_rom_bank(), 0x20);
    assert_eq!(m.get_ram_bank(), 0);
    assert_eq!(m.map_ram_addr(0xA000), None);
}

#[test]
fn mbc1_ram_enable_register() {
    let mut m = Mbc1::new();
    m.write_rom(0x0000, 0x0A);
    assert!(m.ram_enabled());
    m.write_rom(0x1FFF, 0x0B);
    assert!(!m.ram_enabled());
    m.write_rom(0x1000, 0x0A);
    assert!(m.ram_enabled());
    m.write_rom(0x0000, 0x00);
    assert!(!m.ram_enabled());
}

#[test]
fn mbc1_bank_zero_selects_one() {
    let mut m = Mbc1::new();
    m.write_rom(0x4000, 0x00);
    m.write_rom(0x2000, 0x00);
    assert_eq!(m.get_rom_bank(), 1);
    m.write_rom(0x3FFF, 0x20);
    assert_eq!(m.get_rom_bank(), 1);
    m.write_rom(0x2100, 0x05);
    assert_eq!(m.get_rom_bank(), 5);
    m.write_rom(0x2100, 0xFF);
    assert_eq!(m.get_rom_bank(), 0x1F);
}

#[test]
fn mbc1_rom_mapping() {
    let mut m = Mbc1::new();
    m.write_rom(0x4000, 0x00); // upper bits 0
    m.write_rom(0x2000, 0x03); // bank 3
    assert_eq!(m.map_rom_addr(0x0123), 0x0123);
    assert_eq!(m.map_rom_addr(0x4000), 3 * 0x4000);
    assert_eq!(m.map_rom_addr(0x7FFF), 3 * 0x4000 + 0x3FFF);
    // upper bits 2 in ROM banking mode: bank 0x43
    m.write_rom(0x4000, 0x02);
    assert_eq!(m.get_rom_bank(), 0x43);
    assert_eq!(m.map_rom_addr(0x4001), 0x43 * 0x4000 + 1);
    assert_eq!(m.map_rom_addr(0x0001), 1);
    // RAM banking mode: bank 0 area moves to bank 0x40, the upper area loses the upper bits
    m.write_rom(0x6000, 0x01);
    assert_eq!(m.map_rom_addr(0x0001), 0x40 * 0x4000 + 1);
    assert_eq!(m.get_rom_bank(), 3);
    assert_eq!(m.map_rom_addr(0x4001), 3 * 0x4000 + 1);
}

#[test]
fn mbc1_ram_mapping() {
    let mut m = Mbc1::new();
    m.write_rom(0x0000, 0x0A);
    m.write_rom(0x4000, 0x02);
    // ROM banking mode: always RAM bank 0
    assert_eq!(m.get_ram_bank(), 0);
    assert_eq!(m.map_ram_addr(0xA123), Some(0x0123));
    m.write_rom(0x6000, 0x01);
    assert_eq!(m.get_ram_bank(), 2);
    assert_eq!(m.map_ram_addr(0xA123), Some(2 * 0x2000 + 0x0123));
    assert_eq!(m.map_ram_addr(0xBFFF), Some(2 * 0x2000 + 0x1FFF));
    m.write_rom(0x5FFF, 0x07);
    assert_eq!(m.get_ram_bank(), 3);
}

#[test]
fn mbc1_ignores_writes_above_rom() {
    let mut m = Mbc1::new();
    m.write_rom(0x8000, 0x0A);
    assert!(!m.ram_enabled());
    assert_eq!(m.get_rom_bank(), 0x20);
}

#[test]
fn rom_only_maps_rom_as_is() {
    let mut m = RomOnly::new();
    m.write_rom(0x2000, 0x05);
    assert_eq!(m.map_rom_addr(0x4567), 0x4567);
    assert_eq!(m.get_rom_bank(), 1);
    assert_eq!(m.get_ram_bank(), 0);
    assert!(!m.ram_enabled());
    assert!(matches!(m.get_banking_mode(), BankingMode::ROM));
    assert_eq!(m.map_ram_addr(0xA000), None);
}
