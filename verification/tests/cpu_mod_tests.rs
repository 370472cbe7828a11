use rugb::cpu::Cpu;
use rugb::mmu::Mmu;

fn make_cpu_mmu() -> (Cpu, Mmu) {
    (Cpu::new(), Mmu::new())
}


#[test]
fn alu_add_basic() {
    let (mut cpu, _) = make_cpu_mmu();
    cpu.regs.a = 0x3A;
    cpu.alu_add(0x07);
    assert_eq!(cpu.regs.a, 0x41);
    assert!(!cpu.regs.flag_z());
    assert!(!cpu.regs.flag_n());
    assert!(cpu.regs.flag_h()); // 0xA + 0x7 = 0x11 > 0xF
    assert!(!cpu.regs.flag_c());
}


#[test]
fn alu_add_overflow() {
    let (mut cpu, _) = make_cpu_mmu();
    cpu.regs.a = 0xFF;
    cpu.alu_add(0x01);
    assert_eq!(cpu.regs.a, 0x00);
    assert!(cpu.regs.flag_z());
    assert!(cpu.regs.flag_c());
    assert!(cpu.regs.flag_h());
}


#[test]
fn alu_sub_borrow() {
    let (mut cpu, _) = make_cpu_mmu();
    cpu.regs.a = 0x10;
    cpu.alu_sub(0x20);
    assert_eq!(cpu.regs.a, 0xF0);
    assert!(!cpu.regs.flag_z());
    assert!(cpu.regs.flag_n());
    assert!(cpu.regs.flag_c());
}


#[test]
fn alu_cp_does_not_modify_a() {
    let (mut cpu, _) = make_cpu_mmu();
    cpu.regs.a = 0x42;
    cpu.alu_cp(0x42);
    assert_eq!(cpu.regs.a, 0x42);
    assert!(cpu.regs.flag_z());
}


#[test]
fn push_pop_roundtrip() {
    let (mut cpu, mut mmu) = make_cpu_mmu();
    cpu.regs.sp = 0xFFFE;
    cpu.push(&mut mmu, 0x1234);
    assert_eq!(cpu.regs.sp, 0xFFFC);
    let val = cpu.pop(&mmu);
    assert_eq!(val, 0x1234);
    assert_eq!(cpu.regs.sp, 0xFFFE);
}


#[test]
fn inc_half_carry() {
    let (mut cpu, _) = make_cpu_mmu();
    let result = cpu.alu_inc(0x0F);
    assert_eq!(result, 0x10);
    assert!(cpu.regs.flag_h());
    assert!(!cpu.regs.flag_z());
}


#[test]
fn dec_to_zero() {
    let (mut cpu, _) = make_cpu_mmu();
    let result = cpu.alu_dec(0x01);
    assert_eq!(result, 0x00);
    assert!(cpu.regs.flag_z());
    assert!(cpu.regs.flag_n());
}


#[test]
fn cb_swap_nonzero() {
    let (mut cpu, _) = make_cpu_mmu();
    let result = cpu.cb_swap(0xAB);
    assert_eq!(result, 0xBA);
    assert!(!cpu.regs.flag_z());
}


#[test]
fn cb_swap_zero() {
    let (mut cpu, _) = make_cpu_mmu();
    let result = cpu.cb_swap(0x00);
    assert_eq!(result, 0x00);
    assert!(cpu.regs.flag_z());
}


#[test]
fn cb_bit_test() {
    let (mut cpu, _) = make_cpu_mmu();
    cpu.cb_bit(0, 0x01);
    assert!(!cpu.regs.flag_z()); // bit 0 is set
    cpu.cb_bit(1, 0x01);
    assert!(cpu.regs.flag_z()); // bit 1 is not set
}
