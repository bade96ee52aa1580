use rustyboy::cpu::{Cpu, Flag};

#[test]
fn test_status_reg() {
    let mut cpu = Cpu::new();
    cpu.init();

    cpu.set_flag(Flag::Zero);
    assert_eq!(cpu.flag(Flag::Zero), true);

    cpu.set_flag(Flag::Sub);
    assert_eq!(cpu.flag(Flag::Sub), true);

    cpu.set_flag(Flag::HalfCarry);
    assert_eq!(cpu.flag(Flag::HalfCarry), true);

    cpu.set_flag(Flag::Carry);
    assert_eq!(cpu.flag(Flag::Carry), true);
}

#[test]
fn cpu_test_get_af() {
    let mut cpu = Cpu::new();
    cpu.a = 0x3f;
    cpu.status = 0x7c;

    assert_eq!(cpu.get_af(), 0x3f7c);
}

#[test]
fn cpu_test_set_af() {
    let mut cpu = Cpu::new();
    cpu.set_af(0x3f7c);

    assert_eq!(cpu.a, 0x3f);
    assert_eq!(cpu.status, 0x7c);
}

#[test]
fn cpu_test_get_bc() {
    let mut cpu = Cpu::new();
    cpu.b = 0x3f;
    cpu.c = 0x7c;

    assert_eq!(cpu.get_bc(), 0x3f7c);
}

#[test]
fn cpu_test_set_bc() {
    let mut cpu = Cpu::new();
    cpu.set_bc(0x3f7c);

    assert_eq!(cpu.b, 0x3f);
    assert_eq!(cpu.c, 0x7c);
}

#[test]
fn cpu_test_get_de() {
    let mut cpu = Cpu::new();
    cpu.d = 0x3f;
    cpu.e = 0x7c;

    assert_eq!(cpu.get_de(), 0x3f7c);
}

#[test]
fn cpu_test_set_de() {
    let mut cpu = Cpu::new();
    cpu.set_de(0x3f7c);

    assert_eq!(cpu.d, 0x3f);
    assert_eq!(cpu.e, 0x7c);
}

#[test]
fn cpu_test_get_hl() {
    let mut cpu = Cpu::new();
    cpu.h = 0x3f;
    cpu.l = 0x7c;

    assert_eq!(cpu.get_hl(), 0x3f7c);
}

#[test]
fn cpu_test_set_hl() {
    let mut cpu = Cpu::new();
    cpu.set_hl(0x3f7c);

    assert_eq!(cpu.h, 0x3f);
    assert_eq!(cpu.l, 0x7c);
}

#[test]
fn cpu_test_ld_sp_nn() {
    let mut cpu = Cpu::new();
    cpu.mem[0] = 0x31;
    cpu.mem[1] = 0x01;
    cpu.mem[2] = 0x34;
    cpu.sp = 0;

    // The immediate is stored low byte first.
    cpu.tick().unwrap();
    assert_eq!(cpu.sp, 0x3401);
}

#[test]
fn test_jp_nn() {
    let mut cpu = Cpu::new();
    cpu.mem[0] = 0xc3;
    cpu.mem[1] = 0x00;
    cpu.mem[2] = 0x01;

    cpu.tick().unwrap();
    assert_eq!(cpu.pc, 0x100);
}

#[test]
fn cpu_test_jp_hl() {
    let mut cpu = Cpu::new();
    cpu.mem[0] = 0xe9;
    cpu.set_hl(0x0134);

    cpu.tick().unwrap();
    assert_eq!(cpu.pc, 0x0134);
}

#[test]
fn cpu_test_ld_sp_hl() {
    let mut cpu = Cpu::new();
    cpu.mem[0] = 0xf9;
    cpu.sp = 0;
    cpu.h = 0x01;
    cpu.l = 0x34;

    cpu.tick().unwrap();
    assert_eq!(cpu.sp, 0x0134);
}

#[test]
fn cpu_test_di() {
    let mut cpu = Cpu::new();
    cpu.mem[0] = 0xf3;

    cpu.tick().unwrap();
}

#[test]
fn test_jp_cc_nn() {
    let mut cpu = Cpu::new();

    // check zero flag not set
    cpu.mem[0] = 0xc2;
    cpu.mem[1] = 0;
    cpu.mem[2] = 0x01;

    cpu.tick().unwrap();
    assert_eq!(cpu.pc, 0x100);

    // check zero flag set
    cpu.mem[0] = 0xca;
    cpu.mem[1] = 0;
    cpu.mem[2] = 0x01;
    cpu.pc = 0;

    cpu.set_flag(Flag::Zero);
    cpu.tick().unwrap();

    assert_eq!(cpu.pc, 0x100);

    // check carry flag not set
    cpu.mem[0] = 0xd2;
    cpu.mem[1] = 0;
    cpu.mem[2] = 0x01;
    cpu.pc = 0;

    cpu.tick().unwrap();
    assert_eq!(cpu.pc, 0x100);

    // check carry flag set
    cpu.mem[0] = 0xda;
    cpu.mem[1] = 0;
    cpu.mem[2] = 0x01;
    cpu.pc = 0;

    cpu.set_flag(Flag::Carry);
    cpu.tick().unwrap();
    assert_eq!(cpu.pc, 0x100);
}
