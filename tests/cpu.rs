use gb_emulator::cpu::{CpuFlagError, CpuFlags, Registers, CPU};

fn clear(regs: &mut Registers) {
    regs.set_a(0);
    regs.set_f(0);
    regs.set_b(0);
    regs.set_c(0);
    regs.set_d(0);
    regs.set_e(0);
    regs.set_h(0);
    regs.set_l(0);
    regs.set_sp(0);
    regs.set_pc(0);
}

fn cleared_cpu() -> CPU {
    let mut cpu = CPU::new();
    clear(&mut cpu.registers);
    cpu
}

#[test]
fn test_combined_registers() {
    let mut regs = Registers::new();
    clear(&mut regs);

    assert_eq!(regs.b(), 0);
    assert_eq!(regs.c(), 0);

    assert_eq!(regs.bc(), 0);

    regs.set_bc(0xabcd);

    assert_eq!(regs.bc(), 0xabcd);
    assert_eq!(regs.b(), 0xab);
    assert_eq!(regs.c(), 0xcd);

    regs.set_b(0x12);
    regs.set_c(0x34);

    assert_eq!(regs.bc(), 0x1234);
    assert_eq!(regs.b(), 0x12);
    assert_eq!(regs.c(), 0x34);
}

#[test]
fn test_alu_add() {
    let mut cpu = cleared_cpu();
    cpu.alu_add(10, false);
    assert_eq!(cpu.registers.a(), 10);
}

#[test]
fn test_alu_add_carry() {
    let mut cpu = cleared_cpu();
    cpu.registers.set_flag(CpuFlags::C, true);
    cpu.alu_add(10, true);

    assert_eq!(cpu.registers.a(), 11);
}

#[test]
fn test_alu_add_flags() {
    let mut cpu = cleared_cpu();
    cpu.registers.set_a(1);
    cpu.alu_add(0xFF, false);
    assert_eq!(cpu.registers.a(), 0);
    assert!(cpu.registers.get_flag(CpuFlags::Z));
    assert!(!cpu.registers.get_flag(CpuFlags::N));
    assert!(cpu.registers.get_flag(CpuFlags::H));
    assert!(cpu.registers.get_flag(CpuFlags::C));
}

#[test]
fn test_alu_sub() {
    let mut cpu = cleared_cpu();
    cpu.alu_sub(1, false);
    assert_eq!(cpu.registers.a(), 0xFF);
    assert!(!cpu.registers.get_flag(CpuFlags::Z));
    assert!(cpu.registers.get_flag(CpuFlags::N));
    assert!(cpu.registers.get_flag(CpuFlags::H));
    assert!(cpu.registers.get_flag(CpuFlags::C));
}

#[test]
fn test_rlca() {
    let mut cpu = cleared_cpu();

    assert!(!cpu.registers.get_flag(CpuFlags::C));

    cpu.registers.set_a(0b1000_0000);
    cpu.alu_rlca();

    assert!(cpu.registers.get_flag(CpuFlags::C));
    assert_eq!(cpu.registers.a(), 0b0000_0001);
}

#[test]
fn test_rla() {
    let mut cpu = cleared_cpu();

    assert!(!cpu.registers.get_flag(CpuFlags::C));

    cpu.registers.set_a(0b1000_0000);
    cpu.alu_rla();

    assert!(cpu.registers.get_flag(CpuFlags::C));
    assert_eq!(cpu.registers.a(), 0b0000_0000);

    cpu.alu_rla();
    assert!(!cpu.registers.get_flag(CpuFlags::C));
    assert_eq!(cpu.registers.a(), 0b0000_0001);
}

#[test]
fn test_rrca() {
    let mut cpu = cleared_cpu();

    cpu.registers.set_a(0b0000_0001);
    cpu.alu_rrca();

    assert!(cpu.registers.get_flag(CpuFlags::C));
    assert_eq!(cpu.registers.a(), 0b1000_0000);
}

#[test]
fn test_rra() {
    let mut cpu = cleared_cpu();

    cpu.registers.set_a(0b0000_0001);
    cpu.alu_rra();

    assert!(cpu.registers.get_flag(CpuFlags::C));
    assert_eq!(cpu.registers.a(), 0b0000_0000);

    cpu.alu_rra();
    assert!(!cpu.registers.get_flag(CpuFlags::C));
    assert_eq!(cpu.registers.a(), 0b1000_0000);
}

#[test]
fn test_cpl() {
    let mut cpu = cleared_cpu();

    cpu.registers.set_a(0b1010_0101);
    cpu.alu_cpl();

    assert!(cpu.registers.get_flag(CpuFlags::N));
    assert!(cpu.registers.get_flag(CpuFlags::H));
    assert_eq!(cpu.registers.a(), 0b0101_1010);
}

#[test]
fn test_sla() {
    let mut cpu = cleared_cpu();

    let result = cpu.alu_sla(0b0000_0001);

    assert!(!cpu.registers.get_flag(CpuFlags::C));
    assert_eq!(result, 0b0000_0010);

    let result = cpu.alu_sla(0b1000_0001);
    assert!(cpu.registers.get_flag(CpuFlags::C));
    assert_eq!(result, 0b0000_0010);
}

#[test]
fn test_sra() {
    let mut cpu = cleared_cpu();

    let result = cpu.alu_sra(0b0000_0001);
    assert!(cpu.registers.get_flag(CpuFlags::C));
    assert_eq!(result, 0b0000_0000);

    let result = cpu.alu_sra(0b1000_0000);
    assert!(!cpu.registers.get_flag(CpuFlags::C));
    assert_eq!(result, 0b1100_0000);
}

#[test]
fn test_srl() {
    let mut cpu = cleared_cpu();

    let result = cpu.alu_srl(0b0000_0001);
    assert!(cpu.registers.get_flag(CpuFlags::C));
    assert_eq!(result, 0b0000_0000);

    let result = cpu.alu_srl(0b1000_0000);
    assert!(!cpu.registers.get_flag(CpuFlags::C));
    assert_eq!(result, 0b0100_0000);
}

#[test]
fn test_swap() {
    let mut cpu = cleared_cpu();

    let result = cpu.alu_swap(0b0000_0001);
    assert_eq!(result, 0b0001_0000);

    let result = cpu.alu_swap(0b1010_1001);
    assert_eq!(result, 0b1001_1010);
}

#[test]
fn af_round_trip_masks_low_nibble_of_f() {
    let mut regs = Registers::new();
    regs.set_af(0x12FF);
    assert_eq!(regs.af(), 0x12F0);
    assert_eq!(regs.a(), 0x12);
    assert_eq!(regs.f(), 0xF0);
    regs.set_de(0xBEEF);
    assert_eq!(regs.de(), 0xBEEF);
    regs.set_hl(0x0001);
    assert_eq!(regs.hl(), 0x0001);
}

#[test]
fn writing_f_clears_low_nibble() {
    let mut regs = Registers::new();
    regs.set_f(0xFF);
    assert_eq!(regs.f(), 0xF0);
    regs.set_f(0x0F);
    assert_eq!(regs.f(), 0x00);
}

#[test]
fn flag_updates_keep_low_nibble_clear() {
    let mut cpu = cleared_cpu();
    cpu.registers.set_a(0x0F);
    cpu.alu_add(0x01, false);
    assert_eq!(cpu.registers.f() & 0x0F, 0);
    cpu.alu_daa();
    assert_eq!(cpu.registers.f() & 0x0F, 0);
    cpu.registers.set_flag(CpuFlags::C, true);
    assert_eq!(cpu.registers.f(), 0x10);
}

#[test]
fn bit_sets_z_from_the_tested_bit() {
    let mut cpu = cleared_cpu();
    cpu.registers.set_flag(CpuFlags::C, true);
    cpu.alu_bit(7, 0x80);
    assert!(!cpu.registers.get_flag(CpuFlags::Z));
    assert!(!cpu.registers.get_flag(CpuFlags::N));
    assert!(cpu.registers.get_flag(CpuFlags::H));
    assert!(cpu.registers.get_flag(CpuFlags::C));
    cpu.alu_bit(0, 0x80);
    assert!(cpu.registers.get_flag(CpuFlags::Z));
    assert!(cpu.registers.get_flag(CpuFlags::C));
}

#[test]
fn daa_after_bcd_addition() {
    let mut cpu = cleared_cpu();
    cpu.registers.set_a(0x15);
    cpu.alu_add(0x27, false);
    assert_eq!(cpu.registers.a(), 0x3C);
    cpu.alu_daa();
    assert_eq!(cpu.registers.a(), 0x42);
    assert!(!cpu.registers.get_flag(CpuFlags::C));

    cpu.registers.set_a(0x99);
    cpu.alu_add(0x01, false);
    cpu.alu_daa();
    assert_eq!(cpu.registers.a(), 0x00);
    assert!(cpu.registers.get_flag(CpuFlags::Z));
    assert!(cpu.registers.get_flag(CpuFlags::C));
}

#[test]
fn daa_after_bcd_subtraction() {
    let mut cpu = cleared_cpu();
    cpu.registers.set_a(0x42);
    cpu.alu_sub(0x15, false);
    cpu.alu_daa();
    assert_eq!(cpu.registers.a(), 0x27);
}

#[test]
fn sbc_borrows_the_carry() {
    let mut cpu = cleared_cpu();
    cpu.registers.set_a(0x10);
    cpu.registers.set_flag(CpuFlags::C, true);
    cpu.alu_sub(0x0F, true);
    assert_eq!(cpu.registers.a(), 0x00);
    assert!(cpu.registers.get_flag(CpuFlags::Z));
    assert!(cpu.registers.get_flag(CpuFlags::H));
    assert!(!cpu.registers.get_flag(CpuFlags::C));
}

#[test]
fn logic_ops_set_flags() {
    let mut cpu = cleared_cpu();
    cpu.registers.set_a(0xF0);
    cpu.alu_and(0x0F);
    assert_eq!(cpu.registers.a(), 0);
    assert_eq!(cpu.registers.f(), 0xA0);
    cpu.alu_or(0x81);
    assert_eq!(cpu.registers.a(), 0x81);
    assert_eq!(cpu.registers.f(), 0x00);
    cpu.alu_xor(0x81);
    assert_eq!(cpu.registers.a(), 0);
    assert_eq!(cpu.registers.f(), 0x80);
    cpu.registers.set_a(0x10);
    cpu.alu_cp(0x10);
    assert_eq!(cpu.registers.a(), 0x10);
    assert_eq!(cpu.registers.f(), 0xC0);
}

#[test]
fn rotates_through_carry() {
    let mut cpu = cleared_cpu();
    assert_eq!(cpu.alu_rlc(0x80), 0x01);
    assert!(cpu.registers.get_flag(CpuFlags::C));
    assert_eq!(cpu.alu_rl(0x00), 0x01);
    assert!(!cpu.registers.get_flag(CpuFlags::C));
    assert_eq!(cpu.alu_rrc(0x01), 0x80);
    assert!(cpu.registers.get_flag(CpuFlags::C));
    assert_eq!(cpu.alu_rr(0x00), 0x80);
    assert!(cpu.registers.get_flag(CpuFlags::Z) == false);
    assert_eq!(cpu.alu_rlc(0x00), 0x00);
    assert!(cpu.registers.get_flag(CpuFlags::Z));
}

#[test]
fn inc_dec_keep_carry() {
    let mut cpu = cleared_cpu();
    cpu.registers.set_flag(CpuFlags::C, true);
    assert_eq!(cpu.alu_inc(0x0F), 0x10);
    assert!(cpu.registers.get_flag(CpuFlags::H));
    assert!(cpu.registers.get_flag(CpuFlags::C));
    assert_eq!(cpu.alu_dec(0x01), 0x00);
    assert!(cpu.registers.get_flag(CpuFlags::Z));
    assert!(cpu.registers.get_flag(CpuFlags::N));
    assert!(cpu.registers.get_flag(CpuFlags::C));
    assert_eq!(cpu.alu_inc(0xFF), 0x00);
    assert_eq!(cpu.alu_dec(0x00), 0xFF);
}

#[test]
fn add_sp_signed_offset() {
    let mut cpu = cleared_cpu();
    cpu.registers.set_sp(0x0100);
    assert_eq!(cpu.alu_add_sp(0xFF), 0x00FF);
    assert_eq!(cpu.registers.f(), 0x00);
    cpu.registers.set_sp(0x00FF);
    assert_eq!(cpu.alu_add_sp(0x01), 0x0100);
    assert_eq!(cpu.registers.f(), 0x30);
}

#[test]
fn add_hl_flags() {
    let mut cpu = cleared_cpu();
    cpu.registers.set_hl(0x0FFF);
    cpu.alu_add_hl(0x0001);
    assert_eq!(cpu.registers.hl(), 0x1000);
    assert!(cpu.registers.get_flag(CpuFlags::H));
    assert!(!cpu.registers.get_flag(CpuFlags::C));
    cpu.registers.set_hl(0xFFFF);
    cpu.alu_add_hl(0x0001);
    assert_eq!(cpu.registers.hl(), 0x0000);
    assert!(cpu.registers.get_flag(CpuFlags::C));
}

#[test]
fn scf_ccf() {
    let mut cpu = cleared_cpu();
    cpu.alu_scf();
    assert_eq!(cpu.registers.f(), 0x10);
    cpu.alu_ccf();
    assert_eq!(cpu.registers.f(), 0x00);
}

#[test]
fn flag_names_parse() {
    assert_eq!(CpuFlags::from_str("Z"), Ok(CpuFlags::Z));
    assert_eq!(CpuFlags::from_str("N"), Ok(CpuFlags::N));
    assert_eq!(CpuFlags::from_str("H"), Ok(CpuFlags::H));
    assert_eq!(CpuFlags::from_str("C"), Ok(CpuFlags::C));
    assert_eq!(CpuFlags::from_str("X"), Err(CpuFlagError::ParseError));
    assert_eq!(CpuFlags::from_str("ZN"), Err(CpuFlagError::ParseError));
}

#[test]
fn ime_accessors() {
    let mut cpu = CPU::new();
    assert!(!cpu.get_ime());
    cpu.set_ime(true);
    assert!(cpu.get_ime());
}
