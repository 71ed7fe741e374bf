use gb_emulator::cartridge::{Cartridge, CartridgeError, MBC};
use gb_emulator::cpu::CpuFlags;
use gb_emulator::gb::GameBoy;
use gb_emulator::joypad::{GBButton, JoypadButton, JoypadDpad};

fn rom_with(program: &[u8]) -> Vec<u8> {
    let mut rom = vec![0u8; 0x8000];
    rom[0x134..0x134 + 4].copy_from_slice(b"TEST");
    for (i, b) in program.iter().enumerate() {
        rom[0x100 + i] = *b;
    }
    rom
}

fn machine(program: &[u8]) -> GameBoy {
    let cartridge = Cartridge::from_rom(rom_with(program)).expect("a plain 32 KiB ROM loads");
    GameBoy::new(cartridge, false)
}

fn step(gb: &mut GameBoy) -> usize {
    let opcode = gb.mmu.read_byte(gb.cpu.registers.pc());
    gb.execute_opcode(opcode)
}

#[test]
fn ld_bc_immediate() {
    let mut gb = machine(&[0x01, 0x34, 0x12]);
    assert_eq!(gb.cpu.registers.sp(), 0xFFFE);
    assert_eq!(step(&mut gb), 12);
    assert_eq!(gb.cpu.registers.pc(), 0x0103);
    assert_eq!(gb.cpu.registers.b(), 0x12);
    assert_eq!(gb.cpu.registers.c(), 0x34);
}

#[test]
fn add_a_b() {
    let mut gb = machine(&[0x80]);
    gb.cpu.registers.set_a(0x3A);
    gb.cpu.registers.set_b(0xC6);
    assert_eq!(step(&mut gb), 4);
    assert_eq!(gb.cpu.registers.a(), 0x00);
    assert_eq!(gb.cpu.registers.f(), 0xB0);
    assert_eq!(gb.cpu.registers.pc(), 0x0101);
}

#[test]
fn sub_immediate() {
    let mut gb = machine(&[0xD6, 0x01]);
    gb.cpu.registers.set_a(0x00);
    assert_eq!(step(&mut gb), 8);
    assert_eq!(gb.cpu.registers.a(), 0xFF);
    assert_eq!(gb.cpu.registers.f(), 0x70);
    assert_eq!(gb.cpu.registers.pc(), 0x0102);
}

#[test]
fn call_pushes_return_address() {
    let mut gb = machine(&[0xCD, 0x34, 0x12]);
    assert_eq!(step(&mut gb), 24);
    assert_eq!(gb.cpu.registers.pc(), 0x1234);
    assert_eq!(gb.cpu.registers.sp(), 0xFFFC);
    assert_eq!(gb.mmu.read_byte(0xFFFD), 0x01);
    assert_eq!(gb.mmu.read_byte(0xFFFC), 0x03);
}

#[test]
fn rst_38() {
    let mut gb = machine(&[0xFF]);
    assert_eq!(step(&mut gb), 16);
    assert_eq!(gb.cpu.registers.pc(), 0x0038);
    assert_eq!(gb.cpu.registers.sp(), 0xFFFC);
    assert_eq!(gb.mmu.read_byte(0xFFFD), 0x01);
    assert_eq!(gb.mmu.read_byte(0xFFFC), 0x01);
}

#[test]
fn bit_7_h() {
    let mut gb = machine(&[0xCB, 0x7C]);
    gb.cpu.registers.set_h(0x80);
    let carry = gb.cpu.registers.get_flag(CpuFlags::C);
    assert_eq!(step(&mut gb), 8);
    assert!(!gb.cpu.registers.get_flag(CpuFlags::Z));
    assert!(!gb.cpu.registers.get_flag(CpuFlags::N));
    assert!(gb.cpu.registers.get_flag(CpuFlags::H));
    assert_eq!(gb.cpu.registers.get_flag(CpuFlags::C), carry);
    assert_eq!(gb.cpu.registers.pc(), 0x0102);
}

#[test]
fn push_then_pop_restores_pair() {
    let mut gb = machine(&[0xC5, 0x01, 0x00, 0x00, 0xC1, 0xF5, 0xF1]);
    gb.cpu.registers.set_bc(0xBEEF);
    assert_eq!(step(&mut gb), 16);
    assert_eq!(gb.cpu.registers.sp(), 0xFFFC);
    step(&mut gb);
    assert_eq!(gb.cpu.registers.bc(), 0x0000);
    assert_eq!(step(&mut gb), 12);
    assert_eq!(gb.cpu.registers.bc(), 0xBEEF);
    assert_eq!(gb.cpu.registers.sp(), 0xFFFE);

    gb.cpu.registers.set_af(0x12B0);
    step(&mut gb);
    gb.cpu.registers.set_af(0x0000);
    step(&mut gb);
    assert_eq!(gb.cpu.registers.af(), 0x12B0);
}

#[test]
fn pop_af_masks_low_nibble() {
    let mut gb = machine(&[0xF1]);
    gb.cpu.registers.set_sp(0xC000);
    gb.mmu.write_byte(0xC000, 0xFF);
    gb.mmu.write_byte(0xC001, 0x12);
    step(&mut gb);
    assert_eq!(gb.cpu.registers.af(), 0x12F0);
}

#[test]
fn interrupt_service_pushes_pc_and_jumps() {
    let mut gb = machine(&[0x00]);
    gb.cpu.set_ime(true);
    gb.cpu.registers.set_pc(0x1234);
    gb.mmu.interrupt_enable = 0x1F;
    gb.mmu.interrupt_flag = 0x06;
    assert_eq!(gb.handle_interrupts(), 20);
    assert_eq!(gb.cpu.registers.pc(), 0x0048);
    assert_eq!(gb.cpu.registers.sp(), 0xFFFC);
    assert_eq!(gb.mmu.read_byte(0xFFFD), 0x12);
    assert_eq!(gb.mmu.read_byte(0xFFFC), 0x34);
    assert!(!gb.cpu.get_ime());
    assert_eq!(gb.mmu.interrupt_flag, 0x04);
    assert_eq!(gb.handle_interrupts(), 0);
}

#[test]
fn no_service_without_ime() {
    let mut gb = machine(&[0x00]);
    gb.mmu.interrupt_enable = 0x01;
    gb.mmu.interrupt_flag = 0x01;
    assert_eq!(gb.handle_interrupts(), 0);
    assert_eq!(gb.cpu.registers.pc(), 0x0100);
}

#[test]
fn halt_bug_runs_next_byte_twice() {
    // HALT; INC A; NOP
    let mut gb = machine(&[0x76, 0x3C, 0x00]);
    gb.cpu.registers.set_a(0x01);
    gb.mmu.interrupt_enable = 0x01;
    gb.mmu.interrupt_flag = 0x01;
    gb.tick();
    assert!(!gb.cpu.halted);
    assert_eq!(gb.cpu.registers.pc(), 0x0101);
    gb.tick();
    assert_eq!(gb.cpu.registers.a(), 0x02);
    assert_eq!(gb.cpu.registers.pc(), 0x0101);
    gb.tick();
    assert_eq!(gb.cpu.registers.a(), 0x03);
    assert_eq!(gb.cpu.registers.pc(), 0x0102);
}

#[test]
fn halt_waits_for_interrupt() {
    let mut gb = machine(&[0x76, 0x00]);
    gb.mmu.interrupt_enable = 0x04;
    gb.mmu.interrupt_flag = 0x00;
    gb.tick();
    assert!(gb.cpu.halted);
    assert_eq!(gb.tick(), 4);
    assert!(gb.cpu.halted);
    gb.mmu.interrupt_flag = 0x04;
    gb.tick();
    assert!(!gb.cpu.halted);
    assert_eq!(gb.cpu.registers.pc(), 0x0102);
}

#[test]
fn ei_takes_effect_after_next_instruction() {
    let mut gb = machine(&[0xFB, 0x00, 0x00]);
    gb.tick();
    assert!(!gb.cpu.get_ime());
    gb.tick();
    assert!(gb.cpu.get_ime());
}

#[test]
fn jr_backwards_and_conditional() {
    let mut gb = machine(&[0x00, 0x18, 0xFD, 0x20, 0x05]);
    gb.cpu.registers.set_pc(0x0101);
    assert_eq!(step(&mut gb), 12);
    assert_eq!(gb.cpu.registers.pc(), 0x0100);
    gb.cpu.registers.set_pc(0x0103);
    gb.cpu.registers.set_flag(CpuFlags::Z, true);
    assert_eq!(step(&mut gb), 8);
    assert_eq!(gb.cpu.registers.pc(), 0x0105);
    gb.cpu.registers.set_pc(0x0103);
    gb.cpu.registers.set_flag(CpuFlags::Z, false);
    assert_eq!(step(&mut gb), 12);
    assert_eq!(gb.cpu.registers.pc(), 0x010A);
}

#[test]
fn call_then_ret() {
    let mut gb = machine(&[0xCD, 0x10, 0x01]);
    gb.mmu.write_byte(0xC000, 0x00);
    step(&mut gb);
    assert_eq!(gb.cpu.registers.pc(), 0x0110);
    // RET placed in work RAM and jumped to.
    gb.mmu.write_byte(0xC100, 0xC9);
    gb.cpu.registers.set_pc(0xC100);
    assert_eq!(step(&mut gb), 16);
    assert_eq!(gb.cpu.registers.pc(), 0x0103);
    assert_eq!(gb.cpu.registers.sp(), 0xFFFE);
}

#[test]
fn ld_hl_increment_and_memory_operands() {
    // LD HL,C000; LD A,5; LD [HL+],A; LD [HL],7; INC [HL]; LD B,[HL]
    let mut gb = machine(&[0x21, 0x00, 0xC0, 0x3E, 0x05, 0x22, 0x36, 0x07, 0x34, 0x46]);
    step(&mut gb);
    step(&mut gb);
    assert_eq!(step(&mut gb), 8);
    assert_eq!(gb.cpu.registers.hl(), 0xC001);
    assert_eq!(gb.mmu.read_byte(0xC000), 0x05);
    assert_eq!(step(&mut gb), 12);
    assert_eq!(step(&mut gb), 12);
    assert_eq!(step(&mut gb), 8);
    assert_eq!(gb.cpu.registers.b(), 0x08);
    assert_eq!(gb.mmu.read_byte(0xE001), 0x08);
}

#[test]
fn cb_set_res_swap_on_memory() {
    // LD HL,C000; SET 3,[HL]; SWAP [HL]; RES 7,[HL]
    let mut gb = machine(&[0x21, 0x00, 0xC0, 0xCB, 0xDE, 0xCB, 0x36, 0xCB, 0xBE]);
    step(&mut gb);
    assert_eq!(step(&mut gb), 16);
    assert_eq!(gb.mmu.read_byte(0xC000), 0x08);
    step(&mut gb);
    assert_eq!(gb.mmu.read_byte(0xC000), 0x80);
    step(&mut gb);
    assert_eq!(gb.mmu.read_byte(0xC000), 0x00);
    assert_eq!(gb.cpu.registers.pc(), 0x0109);
}

#[test]
fn illegal_opcode_locks_the_cpu() {
    let mut gb = machine(&[0xD3]);
    gb.tick();
    assert!(gb.cpu.locked);
    assert_eq!(gb.tick(), 4);
    assert_eq!(gb.cpu.registers.pc(), 0x0100);
}

#[test]
fn memory_map_regions() {
    let mut gb = machine(&[0x00]);
    gb.mmu.write_byte(0xC123, 0x42);
    assert_eq!(gb.mmu.read_byte(0xE123), 0x42);
    gb.mmu.write_byte(0xFEA5, 0x42);
    assert_eq!(gb.mmu.read_byte(0xFEA5), 0xFF);
    gb.mmu.write_byte(0xFF0F, 0x01);
    assert_eq!(gb.mmu.read_byte(0xFF0F), 0xE1);
    gb.mmu.write_byte(0xFF80, 0x11);
    assert_eq!(gb.mmu.read_byte(0xFF80), 0x11);
    gb.mmu.write_byte(0xFFFF, 0x1F);
    assert_eq!(gb.mmu.read_byte(0xFFFF), 0x1F);
    gb.mmu.write_word(0xC010, 0xBEEF);
    assert_eq!(gb.mmu.read_word(0xC010), 0xBEEF);
    assert_eq!(gb.mmu.read_byte(0xC010), 0xEF);
    assert_eq!(gb.mmu.read_byte(0xFF03), 0xFF);
    gb.mmu.write_byte(0xFF12, 0x33);
    assert_eq!(gb.mmu.read_byte(0xFF12), 0x33);
    assert_eq!(gb.mmu.read_byte(0x0134), b'T');
}

#[test]
fn oam_dma_copies_a_page() {
    let mut gb = machine(&[0x00]);
    for i in 0..160u16 {
        gb.mmu.write_byte(0xC000 + i, i as u8);
    }
    gb.mmu.write_byte(0xFF46, 0xC0);
    assert_eq!(gb.mmu.read_byte(0xFF46), 0xC0);
    assert_eq!(gb.mmu.read_byte(0xFE00), 0);
    assert_eq!(gb.mmu.read_byte(0xFE9F), 159);
}

#[test]
fn joypad_select_and_press() {
    let mut gb = machine(&[0x00]);
    gb.mmu.interrupt_flag = 0;
    gb.mmu.write_byte(0xFF00, 0x20);
    assert_eq!(gb.mmu.read_byte(0xFF00), 0xEF);
    gb.on_button_press(GBButton::Dpad(JoypadDpad::Up));
    assert_eq!(gb.mmu.read_byte(0xFF00), 0xEB);
    assert_eq!(gb.mmu.interrupt_flag & 0x10, 0x10);
    gb.on_button_release(GBButton::Dpad(JoypadDpad::Up));
    assert_eq!(gb.mmu.read_byte(0xFF00), 0xEF);
    gb.mmu.write_byte(0xFF00, 0x10);
    gb.on_button_press(GBButton::Button(JoypadButton::Start));
    assert_eq!(gb.mmu.read_byte(0xFF00), 0xD7);
    gb.mmu.write_byte(0xFF00, 0x30);
    assert_eq!(gb.mmu.read_byte(0xFF00), 0xFF);
}

#[test]
fn serial_output_is_collected() {
    let cartridge = Cartridge::from_rom(rom_with(&[0x00])).unwrap();
    let mut gb = GameBoy::new(cartridge, true);
    gb.mmu.write_byte(0xFF01, b'h');
    gb.mmu.write_byte(0xFF02, 0x81);
    gb.mmu.write_byte(0xFF01, b'i');
    gb.mmu.write_byte(0xFF02, 0x81);
    assert_eq!(gb.mmu.read_byte(0xFF01), b'i');
    assert_eq!(gb.take_serial_output(), b"hi".to_vec());
    assert!(gb.take_serial_output().is_empty());
}

#[test]
fn serial_output_is_dropped_when_not_printing() {
    let mut gb = machine(&[0x00]);
    gb.mmu.write_byte(0xFF01, b'h');
    gb.mmu.write_byte(0xFF02, 0x81);
    assert!(gb.take_serial_output().is_empty());
}

#[test]
fn cartridge_header_errors() {
    assert_eq!(Cartridge::from_rom(vec![0u8; 0x100]).err(), Some(CartridgeError::TooShort));
    let mut rom = rom_with(&[]);
    rom[0x149] = 0x01;
    assert_eq!(Cartridge::from_rom(rom).err(), Some(CartridgeError::InvalidRamSize(0x01)));
    let mut rom = rom_with(&[]);
    rom[0x147] = 0x05;
    assert_eq!(Cartridge::from_rom(rom).err(), Some(CartridgeError::UnsupportedType(0x05)));
}

#[test]
fn cartridge_title_and_kind() {
    let cartridge = Cartridge::from_rom(rom_with(&[])).unwrap();
    assert!(cartridge.title.starts_with("TEST"));
    assert!(matches!(cartridge.mbc, MBC::NoMBC(_)));
    let mut rom = rom_with(&[]);
    rom[0x147] = 0x01;
    assert!(matches!(Cartridge::from_rom(rom).unwrap().mbc, MBC::MBC1(_)));
    let mut rom = rom_with(&[]);
    rom[0x147] = 0x13;
    rom[0x149] = 0x03;
    match Cartridge::from_rom(rom).unwrap().mbc {
        MBC::MBC3(m) => assert_eq!(m.ram.len(), 4 * 0x2000),
        _ => panic!("expected an MBC3 cartridge"),
    }
}

#[test]
fn pixel_data_has_full_frame() {
    let gb = machine(&[0x00]);
    assert_eq!(gb.pixel_data().len(), 160 * 144 * 4);
}

#[test]
fn ld_a_from_bc_reads_memory() {
    let mut gb = machine(&[0x0A]);
    gb.cpu.registers.set_bc(0xC010);
    gb.mmu.write_byte(0xC010, 0x5A);
    assert_eq!(step(&mut gb), 8);
    assert_eq!(gb.cpu.registers.a(), 0x5A);
    assert_eq!(gb.cpu.registers.pc(), 0x0101);
}

#[test]
fn joypad_both_halves_selected() {
    let mut gb = machine(&[0x00]);
    gb.mmu.write_byte(0xFF00, 0x00);
    gb.on_button_press(GBButton::Dpad(JoypadDpad::Right));
    gb.on_button_press(GBButton::Button(JoypadButton::B));
    assert_eq!(gb.mmu.read_byte(0xFF00), 0xCC);
}

#[test]
fn ei_then_nop_through_tick() {
    let mut gb = machine(&[0xFB, 0x00]);
    gb.mmu.interrupt_flag = 0;
    gb.tick();
    assert!(!gb.cpu.get_ime());
    assert!(gb.cpu.ei);
    gb.tick();
    assert!(gb.cpu.get_ime());
    assert!(!gb.cpu.ei);
    assert_eq!(gb.cpu.registers.pc(), 0x0102);
}
