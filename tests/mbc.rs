use gb_emulator::cartridge::mbc1::MBC1;
use gb_emulator::cartridge::mbc3::MBC3;
use gb_emulator::cartridge::NoMBC;

fn banked_rom(banks: usize) -> Vec<u8> {
    let mut rom = vec![0u8; banks * 0x4000];
    for bank in 0..banks {
        rom[bank * 0x4000] = bank as u8;
    }
    rom
}

#[test]
fn mbc1_rom_banks() {
    let mut mbc = MBC1::new(banked_rom(8), 0x2000);
    assert_eq!(mbc.read_byte(0x0000), 0);
    assert_eq!(mbc.read_byte(0x4000), 1);
    mbc.write_byte(0x2000, 0x03);
    assert_eq!(mbc.read_byte(0x4000), 3);
    mbc.write_byte(0x2000, 0x00);
    assert_eq!(mbc.read_byte(0x4000), 1);
    mbc.write_byte(0x2000, 0x1F);
    assert_eq!(mbc.read_byte(0x4000), 0xFF);
}

#[test]
fn mbc1_ram_enable_and_banks() {
    let mut mbc = MBC1::new(banked_rom(2), 4 * 0x2000);
    mbc.write_byte(0xA000, 0x12);
    assert_eq!(mbc.read_byte(0xA000), 0xFF);
    mbc.write_byte(0x0000, 0x0A);
    mbc.write_byte(0xA000, 0x12);
    assert_eq!(mbc.read_byte(0xA000), 0x12);
    mbc.write_byte(0x6000, 0x01);
    mbc.write_byte(0x4000, 0x02);
    assert_eq!(mbc.read_byte(0xA000), 0x00);
    mbc.write_byte(0xA000, 0x34);
    mbc.write_byte(0x4000, 0x00);
    assert_eq!(mbc.read_byte(0xA000), 0x12);
    mbc.write_byte(0x0000, 0x00);
    assert_eq!(mbc.read_byte(0xA000), 0xFF);
}

#[test]
fn mbc3_rom_banks_and_ram() {
    let mut mbc = MBC3::new(banked_rom(8), 2 * 0x2000);
    assert_eq!(mbc.read_byte(0x4000), 1);
    mbc.write_byte(0x2000, 0x05);
    assert_eq!(mbc.read_byte(0x4000), 5);
    mbc.write_byte(0x0000, 0x0A);
    mbc.write_byte(0x4000, 0x01);
    mbc.write_byte(0xA000, 0x77);
    assert_eq!(mbc.read_byte(0xA000), 0x77);
    mbc.write_byte(0x4000, 0x00);
    assert_eq!(mbc.read_byte(0xA000), 0x00);
    mbc.write_byte(0x4000, 0x05);
    assert_eq!(mbc.read_byte(0xA000), 0xFF);
}

#[test]
fn mbc3_clock_registers() {
    let mut mbc = MBC3::new(banked_rom(2), 0);
    mbc.write_byte(0x0000, 0x0A);
    mbc.write_byte(0x4000, 0x08);
    mbc.write_byte(0xA000, 42);
    assert_eq!(mbc.read_byte(0xA000), 42);
    mbc.latch_clock(2 * 86400 + 3 * 3600 + 4 * 60 + 5);
    assert_eq!(mbc.read_byte(0xA000), 5);
    mbc.write_byte(0x4000, 0x09);
    assert_eq!(mbc.read_byte(0xA000), 4);
    mbc.write_byte(0x4000, 0x0A);
    assert_eq!(mbc.read_byte(0xA000), 3);
    mbc.write_byte(0x4000, 0x0B);
    assert_eq!(mbc.read_byte(0xA000), 2);
    mbc.latch_clock(0x1FF * 86400);
    mbc.write_byte(0x4000, 0x0C);
    assert_eq!(mbc.read_byte(0xA000) & 0x81, 0x01);
    mbc.latch_clock(0x200 * 86400);
    assert_eq!(mbc.read_byte(0xA000) & 0x81, 0x80);
    // halted clock keeps its registers
    mbc.write_byte(0xA000, 0x40);
    mbc.latch_clock(10);
    mbc.write_byte(0x4000, 0x08);
    assert_eq!(mbc.read_byte(0xA000), 0);
}

#[test]
fn mbc3_latch_on_zero_then_one() {
    let mut mbc = MBC3::new(banked_rom(2), 0);
    mbc.write_byte(0x0000, 0x0A);
    mbc.write_byte(0x4000, 0x08);
    mbc.write_byte(0xA000, 42);
    mbc.write_byte(0x6000, 0x01);
    assert_eq!(mbc.read_byte(0xA000), 42);
    mbc.write_byte(0x6000, 0x00);
    mbc.write_byte(0x6000, 0x01);
    assert!(mbc.read_byte(0xA000) < 60);
}

#[test]
fn no_mbc_reads_rom_and_ram() {
    let mut mbc = NoMBC::new();
    let mut data = vec![0u8; 0x8000];
    data[0x1234] = 0x56;
    mbc.load_rom(&data);
    assert_eq!(mbc.read_byte(0x1234), 0x56);
    mbc.write_byte(0x1234, 0x00);
    assert_eq!(mbc.read_byte(0x1234), 0x56);
    mbc.write_byte(0xA010, 0x99);
    assert_eq!(mbc.read_byte(0xA010), 0x99);
}
