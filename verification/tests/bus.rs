use gameboy::bus::Bus;
use gameboy::mmu::Cartridge;

fn bus_with_rom() -> Bus {
    let mut data = vec![0u8; 0x8000];
    data[0x0100] = 0xAB;
    data[0x0147] = 0x00;
    Bus::new(Cartridge::new(data))
}

#[test]
fn reads_cartridge_rom() {
    let bus = bus_with_rom();
    assert_eq!(bus.read(0x0100), 0xAB);
    assert_eq!(bus.read(0x0101), 0x00);
}

#[test]
fn work_ram_read_after_write() {
    let mut bus = bus_with_rom();
    assert_eq!(bus.read(0xC000), 0);
    bus.write(0xC000, 0x11);
    bus.write(0xDFFF, 0x22);
    assert_eq!(bus.read(0xC000), 0x11);
    assert_eq!(bus.read(0xDFFF), 0x22);
    assert_eq!(bus.read(0xC001), 0);
}

#[test]
fn echo_ram_mirrors_work_ram() {
    let mut bus = bus_with_rom();
    bus.write(0xC123, 0x5A);
    assert_eq!(bus.read(0xE123), 0x5A);
    bus.write(0xFDFF, 0x66);
    assert_eq!(bus.read(0xDDFF), 0x66);
}

#[test]
fn unusable_area_reads_zero() {
    let mut bus = bus_with_rom();
    bus.write(0xFEA0, 0x12);
    assert_eq!(bus.read(0xFEA0), 0);
    assert_eq!(bus.read(0xFEFF), 0);
}

#[test]
fn unemulated_areas_read_zero() {
    let mut bus = bus_with_rom();
    bus.write(0x8000, 0x12);
    bus.write(0xFE00, 0x12);
    bus.write(0xFF80, 0x12);
    assert_eq!(bus.read(0x8000), 0);
    assert_eq!(bus.read(0xFE00), 0);
    assert_eq!(bus.read(0xFF80), 0);
}

#[test]
fn io_registers() {
    let mut bus = bus_with_rom();
    assert_eq!(bus.read(0xFF01), 0);
    assert_eq!(bus.read(0xFF10), 0xFF);
    assert_eq!(bus.read(0xFFFF), 0);
    bus.write(0xFF0F, 0x1F);
    assert_eq!(bus.read(0xFF0F), 0x1F);
    bus.write(0xFF02, 0x01);
    assert_eq!(bus.read(0xFF02), 0x01);
    assert!(bus.take_serial_output().is_empty());
}

#[test]
fn serial_transfer_sends_the_data_byte() {
    let mut bus = bus_with_rom();
    bus.write(0xFF01, b'O');
    bus.write(0xFF02, 0x81);
    assert_eq!(bus.read(0xFF02), 0);
    bus.write(0xFF01, b'K');
    bus.write(0xFF02, 0x81);
    assert_eq!(bus.take_serial_output(), b"OK".to_vec());
    assert!(bus.take_serial_output().is_empty());
}
