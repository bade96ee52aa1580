use rustyboy::cpu::{Cpu, Flag};
use rustyboy::errors::ErrorKind;
use rustyboy::opcodes;

fn regs(cpu: &Cpu) -> (u8, u8, u8, u8, u8, u8, u8, u8, u16, u16) {
    (cpu.a, cpu.b, cpu.c, cpu.d, cpu.e, cpu.h, cpu.l, cpu.status, cpu.sp, cpu.pc)
}

fn all_flags_set() -> Cpu {
    let mut cpu = Cpu::new();
    cpu.set_flag(Flag::Zero);
    cpu.set_flag(Flag::Sub);
    cpu.set_flag(Flag::HalfCarry);
    cpu.set_flag(Flag::Carry);
    cpu
}

#[test]
fn push_pop_u16_round_trip() {
    for sp in [0xfffeu16, 0x1234, 0x0002, 0x0001, 0x0000, 0xffff] {
        for v in [0x0000u16, 0xffee, 0x1234, 0xffff] {
            let mut cpu = Cpu::new();
            cpu.sp = sp;
            cpu.push_stack_u16(v);
            assert_eq!(cpu.sp, sp.wrapping_sub(2));
            assert_eq!(cpu.pop_stack_u16(), v);
            assert_eq!(cpu.sp, sp);
        }
    }
}

#[test]
fn push_pop_bytes_round_trip() {
    let mut cpu = Cpu::new();
    cpu.sp = 0x0001;
    cpu.push_stack(&[1, 2, 3, 4]);
    assert_eq!(cpu.sp, 0xfffd);
    assert_eq!(cpu.mem[0xfffe], 1);
    assert_eq!(cpu.mem[0xffff], 2);
    assert_eq!(cpu.mem[0x0000], 3);
    assert_eq!(cpu.mem[0x0001], 4);
    assert_eq!(cpu.pop_stack(4), vec![1, 2, 3, 4]);
    assert_eq!(cpu.sp, 0x0001);
}

#[test]
fn pair_round_trip() {
    for (hi, lo) in [(0x00u8, 0x00u8), (0x12, 0x34), (0xff, 0x01), (0x80, 0xff)] {
        let v = (hi as u16) << 8 | lo as u16;
        let mut cpu = Cpu::new();
        cpu.set_af(v);
        cpu.set_bc(v);
        cpu.set_de(v);
        cpu.set_hl(v);
        assert_eq!(cpu.get_af(), v);
        assert_eq!(cpu.get_bc(), v);
        assert_eq!(cpu.get_de(), v);
        assert_eq!(cpu.get_hl(), v);
        assert_eq!((cpu.a, cpu.status), (hi, lo));
        assert_eq!((cpu.h, cpu.l), (hi, lo));
    }
}

#[test]
fn inc_and_dec_wrap() {
    let mut cpu = all_flags_set();
    cpu.b = 0xff;
    cpu.reset_flag(Flag::Zero);
    cpu.reset_flag(Flag::HalfCarry);
    cpu.mem[0] = opcodes::INC_B;
    cpu.tick().unwrap();
    assert_eq!(cpu.b, 0x00);
    assert!(cpu.flag(Flag::Zero));
    assert!(cpu.flag(Flag::HalfCarry));
    assert!(!cpu.flag(Flag::Sub));
    assert!(cpu.flag(Flag::Carry));

    let mut cpu = Cpu::new();
    cpu.set_flag(Flag::Zero);
    cpu.e = 0x00;
    cpu.mem[0] = opcodes::DEC_E;
    cpu.tick().unwrap();
    assert_eq!(cpu.e, 0xff);
    assert!(!cpu.flag(Flag::Zero));
    assert!(cpu.flag(Flag::HalfCarry));
    assert!(cpu.flag(Flag::Sub));
    assert!(!cpu.flag(Flag::Carry));
}

#[test]
fn logic_ops_reset_carry_and_subtract() {
    for (op, half) in [(opcodes::AND_A_B, true), (opcodes::OR_A_B, false), (opcodes::XOR_A_B, false)] {
        let mut cpu = all_flags_set();
        cpu.a = 0b1100_1010;
        cpu.b = 0b0110_0110;
        cpu.mem[0] = op;
        cpu.tick().unwrap();
        assert!(!cpu.flag(Flag::Carry));
        assert!(!cpu.flag(Flag::Sub));
        assert_eq!(cpu.flag(Flag::HalfCarry), half);
        assert!(!cpu.flag(Flag::Zero));
    }
    let mut cpu = all_flags_set();
    cpu.a = 0b1100_1010;
    cpu.mem[0] = opcodes::AND_A_B;
    cpu.b = 0b0011_0101;
    cpu.tick().unwrap();
    assert_eq!(cpu.a, 0);
    assert!(cpu.flag(Flag::Zero));
    // the unused low nibble of the flag byte is kept
    assert_eq!(cpu.status & 0x0f, 0x00);
    let mut cpu = Cpu::new();
    cpu.status = 0x0f;
    cpu.a = 1;
    cpu.mem[0] = opcodes::OR_A_A;
    cpu.tick().unwrap();
    assert_eq!(cpu.status, 0x0f);
}

#[test]
fn conditional_branches_not_taken_only_advance() {
    let cases = [
        (opcodes::JP_NZ_A16, Flag::Zero, true, 3u16),
        (opcodes::JP_C_A16, Flag::Carry, false, 3),
        (opcodes::JR_Z_R8, Flag::Zero, false, 2),
        (opcodes::JR_NC_R8, Flag::Carry, true, 2),
        (opcodes::CALL_NZ_A16, Flag::Zero, true, 3),
        (opcodes::CALL_C_A16, Flag::Carry, false, 3),
        (opcodes::RET_Z, Flag::Zero, false, 1),
        (opcodes::RET_NC, Flag::Carry, true, 1),
    ];
    for (op, flag, set, len) in cases {
        let mut cpu = Cpu::new();
        cpu.pc = 0x4000;
        cpu.sp = 0xd000;
        cpu.set_flag_to(flag, set);
        cpu.mem[0x4000] = op;
        cpu.mem[0x4001] = 0x34;
        cpu.mem[0x4002] = 0x12;
        let before = cpu.clone();
        cpu.tick().unwrap();
        assert_eq!(cpu.pc, 0x4000 + len);
        assert_eq!(cpu.sp, before.sp);
        assert_eq!(cpu.status, before.status);
        assert!(cpu.mem[..] == before.mem[..]);
    }
}

#[test]
fn conditional_branches_taken() {
    let mut cpu = Cpu::new();
    cpu.pc = 0x4000;
    cpu.sp = 0xd000;
    cpu.mem[0x4000] = opcodes::CALL_NC_A16;
    cpu.mem[0x4001] = 0x34;
    cpu.mem[0x4002] = 0x12;
    cpu.tick().unwrap();
    assert_eq!(cpu.pc, 0x1234);
    assert_eq!(cpu.sp, 0xcffe);
    assert_eq!(cpu.mem[0xcfff], 0x40);
    assert_eq!(cpu.mem[0xd000], 0x03);

    cpu.mem[0x1234] = opcodes::RET_NC;
    cpu.tick().unwrap();
    assert_eq!(cpu.pc, 0x4003);
    assert_eq!(cpu.sp, 0xd000);

    cpu.set_flag(Flag::Carry);
    cpu.mem[0x4003] = opcodes::JR_C_R8;
    cpu.mem[0x4004] = 0xfe;
    cpu.tick().unwrap();
    assert_eq!(cpu.pc, 0x4003);

    cpu.mem[0x4003] = opcodes::JP_C_A16;
    cpu.mem[0x4004] = 0xcd;
    cpu.mem[0x4005] = 0xab;
    cpu.tick().unwrap();
    assert_eq!(cpu.pc, 0xabcd);
}

#[test]
fn relative_jump_wraps_backwards() {
    let mut cpu = Cpu::new();
    cpu.pc = 0xffee;
    cpu.mem[0xffee] = opcodes::JR_R8;
    cpu.mem[0xffef] = 0xf1;
    cpu.tick().unwrap();
    assert_eq!(cpu.pc, 0xffe1);
}

#[test]
fn relative_jump_wraps_forwards() {
    let mut cpu = Cpu::new();
    cpu.pc = 0xfffd;
    cpu.mem[0xfffd] = opcodes::JR_R8;
    cpu.mem[0xfffe] = 0x05;
    cpu.tick().unwrap();
    assert_eq!(cpu.pc, 0x0004);
}

#[test]
fn stack_push_order() {
    let mut cpu = Cpu::new();
    cpu.sp = 0x1234;
    cpu.push_stack_u16(0xffee);
    assert_eq!(cpu.mem[0x1234], 0xee);
    assert_eq!(cpu.mem[0x1233], 0xff);
    assert_eq!(cpu.sp, 0x1232);
    assert_eq!(cpu.pop_stack_u16(), 0xffee);
    assert_eq!(cpu.sp, 0x1234);
}

#[test]
fn call_ret_pair() {
    let mut cpu = Cpu::new();
    cpu.pc = 0xff13;
    cpu.sp = 0xfffe;
    cpu.mem[0xff13] = opcodes::CALL_A16;
    cpu.mem[0xff14] = 0x24;
    cpu.mem[0xff15] = 0x35;
    cpu.tick().unwrap();
    assert_eq!(cpu.sp, 0xfffc);
    assert_eq!(cpu.pc, 0x3524);
    assert_eq!(cpu.mem[0xfffe], 0x16);
    assert_eq!(cpu.mem[0xfffd], 0xff);

    cpu.mem[0x3524] = opcodes::RET;
    cpu.tick().unwrap();
    assert_eq!(cpu.pc, 0xff16);
    assert_eq!(cpu.sp, 0xfffe);
}

#[test]
fn unknown_opcode_is_fatal_and_changes_nothing() {
    let mut cpu = Cpu::new();
    cpu.pc = 0x0150;
    cpu.sp = 0xfffe;
    cpu.a = 0x42;
    cpu.mem[0x0150] = 0xd3;
    let before = cpu.clone();
    let err = cpu.tick().unwrap_err();
    assert_eq!(err.kind(), ErrorKind::UnknownInstruction);
    assert_eq!(err.instruction(), Some((0xd3, 0x0150)));
    assert_eq!(regs(&cpu), regs(&before));
    assert!(cpu.mem[..] == before.mem[..]);
}

#[test]
fn unknown_prefixed_opcode_reports_second_byte() {
    let mut cpu = Cpu::new();
    cpu.pc = 0x0200;
    cpu.mem[0x0200] = opcodes::PREFIX_CB;
    cpu.mem[0x0201] = 0x00;
    let err = cpu.tick().unwrap_err();
    assert_eq!(err.kind(), ErrorKind::UnknownInstruction);
    assert_eq!(err.instruction(), Some((0x00, 0x0201)));
    assert_eq!(cpu.pc, 0x0200);
}

#[test]
fn tolerated_undefined_opcode_is_a_no_op() {
    for op in [0xdbu8, 0xdd, 0xe3, 0xe4, 0xeb, 0xec, 0xed, 0xf4, 0xfc, 0xfd] {
        let mut cpu = Cpu::new();
        cpu.mem[0] = op;
        cpu.tick().unwrap();
        assert_eq!(cpu.pc, 1);
        assert_eq!(cpu.status, 0);
    }
}

#[test]
fn add_half_carry_and_carry_boundaries() {
    let mut cpu = all_flags_set();
    cpu.a = 0x0f;
    cpu.mem[0] = opcodes::ADD_A_D8;
    cpu.mem[1] = 0x0f;
    cpu.tick().unwrap();
    assert_eq!(cpu.a, 0x1e);
    assert!(cpu.flag(Flag::HalfCarry));
    assert!(!cpu.flag(Flag::Carry));
    assert!(!cpu.flag(Flag::Zero));
    assert!(!cpu.flag(Flag::Sub));

    let mut cpu = Cpu::new();
    cpu.a = 0xff;
    cpu.mem[0] = opcodes::ADD_A_D8;
    cpu.mem[1] = 0xff;
    cpu.tick().unwrap();
    assert_eq!(cpu.a, 0xfe);
    assert!(cpu.flag(Flag::HalfCarry));
    assert!(cpu.flag(Flag::Carry));
}

#[test]
fn sub_and_compare_flags() {
    let mut cpu = Cpu::new();
    cpu.a = 0x10;
    cpu.mem[0] = opcodes::SUB_A_D8;
    cpu.mem[1] = 0x01;
    cpu.tick().unwrap();
    assert_eq!(cpu.a, 0x0f);
    assert!(cpu.flag(Flag::Sub));
    assert!(cpu.flag(Flag::HalfCarry));
    assert!(!cpu.flag(Flag::Carry));

    cpu.mem[2] = opcodes::SUB_A_D8;
    cpu.mem[3] = 0x10;
    cpu.tick().unwrap();
    assert_eq!(cpu.a, 0xff);
    assert!(cpu.flag(Flag::Carry));
    assert!(!cpu.flag(Flag::Zero));

    cpu.mem[4] = opcodes::CP_D8;
    cpu.mem[5] = 0xff;
    cpu.tick().unwrap();
    assert_eq!(cpu.a, 0xff);
    assert!(cpu.flag(Flag::Zero));
    assert!(cpu.flag(Flag::Sub));
    assert!(!cpu.flag(Flag::Carry));
}

#[test]
fn store_sp_writes_low_byte_first() {
    let mut cpu = Cpu::new();
    cpu.sp = 0xbeef;
    cpu.mem[0] = opcodes::LD_A16_SP;
    cpu.mem[1] = 0x00;
    cpu.mem[2] = 0xc0;
    cpu.tick().unwrap();
    assert_eq!(cpu.mem[0xc000], 0xef);
    assert_eq!(cpu.mem[0xc001], 0xbe);
    assert_eq!(cpu.sp, 0xbeef);
    assert_eq!(cpu.pc, 3);
}

#[test]
fn high_page_loads() {
    let mut cpu = Cpu::new();
    cpu.c = 0x44;
    cpu.mem[0xff44] = 0x90;
    cpu.mem[0] = opcodes::LD_A_FF00C;
    cpu.tick().unwrap();
    assert_eq!(cpu.a, 0x90);

    cpu.mem[1] = opcodes::LDH_A_A8;
    cpu.mem[2] = 0x80;
    cpu.mem[0xff80] = 0x12;
    cpu.tick().unwrap();
    assert_eq!(cpu.a, 0x12);

    cpu.c = 0x81;
    cpu.mem[3] = opcodes::LD_FF00C_A;
    cpu.tick().unwrap();
    assert_eq!(cpu.mem[0xff81], 0x12);
    assert_eq!(cpu.pc, 4);
}

#[test]
fn load_and_decrement_hl() {
    let mut cpu = Cpu::new();
    cpu.set_hl(0x0000);
    cpu.a = 0x5a;
    cpu.mem[0] = opcodes::LDD_HL_A;
    cpu.tick().unwrap();
    assert_eq!(cpu.mem[0x0000], 0x5a);
    assert_eq!(cpu.get_hl(), 0xffff);

    cpu.mem[0xffff] = 0x77;
    cpu.mem[1] = opcodes::LDI_A_HL;
    cpu.tick().unwrap();
    assert_eq!(cpu.a, 0x77);
    assert_eq!(cpu.get_hl(), 0x0000);
}

#[test]
fn shift_right_logical() {
    let mut cpu = all_flags_set();
    cpu.d = 0b1000_0011;
    cpu.mem[0] = opcodes::PREFIX_CB;
    cpu.mem[1] = opcodes::SRL_D;
    cpu.tick().unwrap();
    assert_eq!(cpu.d, 0b0100_0001);
    assert_eq!(cpu.pc, 2);
    assert!(cpu.flag(Flag::Carry));
    assert!(!cpu.flag(Flag::Zero));
    assert!(!cpu.flag(Flag::Sub));
    assert!(!cpu.flag(Flag::HalfCarry));

    cpu.set_hl(0x9000);
    cpu.mem[0x9000] = 0x01;
    cpu.mem[2] = opcodes::PREFIX_CB;
    cpu.mem[3] = opcodes::SRL_HL;
    cpu.tick().unwrap();
    assert_eq!(cpu.mem[0x9000], 0);
    assert!(cpu.flag(Flag::Zero));
    assert!(cpu.flag(Flag::Carry));
}

#[test]
fn restart_and_ld_hl_immediate() {
    let mut cpu = Cpu::new();
    cpu.pc = 0x0300;
    cpu.sp = 0xfffe;
    cpu.mem[0x0300] = opcodes::RST_28;
    cpu.tick().unwrap();
    assert_eq!(cpu.pc, 0x0028);
    assert_eq!(cpu.sp, 0xfffc);
    assert_eq!(cpu.pop_stack_u16(), 0x0301);

    cpu.set_hl(0x8123);
    cpu.mem[0x0028] = opcodes::LD_HL_D8;
    cpu.mem[0x0029] = 0x66;
    cpu.tick().unwrap();
    assert_eq!(cpu.mem[0x8123], 0x66);
    assert_eq!(cpu.pc, 0x002a);
}

#[test]
fn register_moves_not_in_early_table() {
    let mut cpu = Cpu::new();
    cpu.a = 0x31;
    cpu.mem[0] = opcodes::LD_C_A;
    cpu.mem[1] = opcodes::LD_D_A;
    cpu.mem[2] = opcodes::LD_E_A;
    cpu.tick().unwrap();
    cpu.tick().unwrap();
    cpu.tick().unwrap();
    assert_eq!((cpu.c, cpu.d, cpu.e), (0x31, 0x31, 0x31));
}

#[test]
fn init_loads_power_on_values() {
    let mut cpu = Cpu::new();
    cpu.mem[0x1234] = 9;
    cpu.init();
    assert_eq!(cpu.get_af(), 0x01b0);
    assert_eq!(cpu.get_bc(), 0x0013);
    assert_eq!(cpu.get_de(), 0x00d8);
    assert_eq!(cpu.get_hl(), 0x014d);
    assert_eq!(cpu.pc, 0x0100);
    assert_eq!(cpu.sp, 0xfffe);
    assert_eq!(cpu.mem[0x1234], 9);
}

#[test]
fn memory_ranges_are_inclusive() {
    let mut cpu = Cpu::new();
    cpu.set_mem_range(0x0100, 0x0103, &[1, 2, 3, 4]);
    assert_eq!(cpu.get_mem_range(0x00ff, 0x0104), &[0, 1, 2, 3, 4, 0]);
    cpu.set_mem(0xffff, 7);
    assert_eq!(cpu.get_mem_range(0xffff, 0xffff), &[7]);
}

#[test]
fn add_sp_negative_offset_and_add_hl() {
    let mut cpu = Cpu::new();
    cpu.sp = 0x0000;
    cpu.mem[0] = opcodes::ADD_SP_R8;
    cpu.mem[1] = 0x80;
    cpu.tick().unwrap();
    assert_eq!(cpu.sp, 0xff80);
    assert!(!cpu.flag(Flag::HalfCarry));
    assert!(!cpu.flag(Flag::Carry));

    let mut cpu = Cpu::new();
    cpu.set_hl(0x8000);
    cpu.set_de(0x8001);
    cpu.set_flag(Flag::Zero);
    cpu.mem[0] = opcodes::ADD_HL_DE;
    cpu.tick().unwrap();
    assert_eq!(cpu.get_hl(), 0x0001);
    assert!(cpu.flag(Flag::Carry));
    assert!(!cpu.flag(Flag::HalfCarry));
    assert!(cpu.flag(Flag::Zero));
}
