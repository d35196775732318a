use gb_rs::bus::{Bus, RamBus};
use gb_rs::cpu::register::{Reg, RegPair};
use gb_rs::cpu::Cpu;

#[test]
fn test_rl() {
    let mut cpu = Cpu::default();

    let mut test = |value: u8, carry: bool, res: u8, new_carry: bool, zero: bool| {
        cpu.regs.set(Reg::A, value);
        cpu.regs.set_flag_c(carry);
        cpu.rl_r(Reg::A);

        assert!(cpu.regs.get(Reg::A) == res);
        assert!(cpu.regs.flag_c() == new_carry);
        assert!(cpu.regs.flag_z() == zero);
    };

    test(0b01010101, false, 0b10101010, false, false);
    test(0b01010101, true, 0b10101011, false, false);
    test(0b10101010, false, 0b01010100, true, false);
    test(0b10101010, true, 0b01010101, true, false);

    // Make sure Z flag gets set
    test(0b10000000, false, 0b00000000, true, true);
}

#[test]
fn test_rr() {
    let mut cpu = Cpu::default();

    let mut test = |value: u8, carry: bool, res: u8, new_carry: bool, zero: bool| {
        cpu.regs.set(Reg::A, value);
        cpu.regs.set_flag_c(carry);
        cpu.rr_r(Reg::A);

        assert!(cpu.regs.get(Reg::A) == res);
        assert!(cpu.regs.flag_c() == new_carry);
        assert!(cpu.regs.flag_z() == zero);
    };

    test(0b01010101, false, 0b00101010, true, false);
    test(0b01010101, true, 0b10101010, true, false);
    test(0b10101010, false, 0b01010101, false, false);
    test(0b10101010, true, 0b11010101, false, false);

    // Make sure Z flag gets set
    test(0b00000001, false, 0b00000000, true, true);
}

#[test]
fn test_inc() {
    let mut cpu = Cpu::default();
    let mut test_and_check_flags = |value: u8, res: u8, z: bool, n: bool, h: bool, c: bool| {
        // reset all flags
        cpu.regs.set_pair(RegPair::AF, 0x0000);
        assert_eq!(res, cpu.inc_value_and_set_flags(value));
        assert_eq!(z, cpu.regs.flag_z());
        assert_eq!(n, cpu.regs.flag_n());
        assert_eq!(h, cpu.regs.flag_h());
        assert_eq!(c, cpu.regs.flag_c());
    };

    test_and_check_flags(0x00, 0x01, false, false, false, false);
    // H is set
    test_and_check_flags(0x0F, 0x10, false, false, true, false);
    // Z is set, and C is ignored
    test_and_check_flags(0xFF, 0x00, true, false, true, false);
}

#[test]
fn test_dec() {
    let mut cpu = Cpu::default();
    let mut test_and_check_flags = |value: u8, res: u8, z: bool, n: bool, h: bool, c: bool| {
        // reset all flags
        cpu.regs.set_pair(RegPair::AF, 0x0000);
        assert_eq!(res, cpu.dec_value_and_set_flags(value));
        assert_eq!(z, cpu.regs.flag_z());
        assert_eq!(n, cpu.regs.flag_n());
        assert_eq!(h, cpu.regs.flag_h());
        assert_eq!(c, cpu.regs.flag_c());
    };

    test_and_check_flags(0x02, 0x01, false, true, false, false);
    // H is set
    test_and_check_flags(0x10, 0x0F, false, true, true, false);
    // Z is set, and C is ignored
    test_and_check_flags(0x01, 0x00, true, true, false, false);
}

#[test]
fn test_stack_round_trip() {
    let mut cpu = Cpu::default();
    let mut bus = RamBus::new();
    cpu.sp = 0xFFFE;

    cpu.push_word(&mut bus, 0x1234);
    assert_eq!(cpu.sp, 0xFFFC);
    assert_eq!(bus.read_byte(0xFFFC), 0x34);
    assert_eq!(bus.read_byte(0xFFFD), 0x12);

    let popped = cpu.pop_word(&bus);
    assert_eq!(popped, 0x1234);
    assert_eq!(cpu.sp, 0xFFFE);
}

#[test]
fn test_push_pop_opcodes() {
    let mut cpu = Cpu::default();
    let mut bus = RamBus::new();
    cpu.sp = 0xFFFE;
    cpu.regs.set_pair(RegPair::BC, 0xBEEF);
    bus.write_byte(0x0000, 0xC5); // PUSH BC
    bus.write_byte(0x0001, 0xD1); // POP DE

    assert_eq!(cpu.step(&mut bus), 16);
    assert_eq!(cpu.step(&mut bus), 12);
    assert_eq!(cpu.regs.get_pair(RegPair::DE), 0xBEEF);
    assert_eq!(cpu.sp, 0xFFFE);
}

#[test]
fn test_xor_a_idempotent() {
    for start in [0x00u8, 0x01, 0x5A, 0xFF] {
        let mut cpu = Cpu::default();
        let mut bus = RamBus::new();
        bus.write_byte(0x0000, 0xAF); // XOR A
        cpu.regs.set(Reg::A, start);
        cpu.regs.set_pair(RegPair::AF, (start as u16) << 8 | 0x00F0);

        let cycles = cpu.step(&mut bus);
        assert_eq!(cycles, 4);
        assert_eq!(cpu.regs.get(Reg::A), 0x00);
        assert!(cpu.regs.flag_z());
        assert!(!cpu.regs.flag_n());
        assert!(!cpu.regs.flag_h());
        assert!(!cpu.regs.flag_c());
    }
}

#[test]
fn test_inc_dec_half_carry_boundary() {
    let mut cpu = Cpu::default();
    let mut bus = RamBus::new();
    bus.write_byte(0x0000, 0x3C); // INC A
    bus.write_byte(0x0001, 0x3D); // DEC A
    cpu.regs.set(Reg::A, 0x0F);

    cpu.step(&mut bus);
    assert_eq!(cpu.regs.get(Reg::A), 0x10);
    assert!(cpu.regs.flag_h());
    assert!(!cpu.regs.flag_z());
    assert!(!cpu.regs.flag_n());

    cpu.step(&mut bus);
    assert_eq!(cpu.regs.get(Reg::A), 0x0F);
    assert!(cpu.regs.flag_h());
    assert!(!cpu.regs.flag_z());
    assert!(cpu.regs.flag_n());
}

#[test]
fn test_daa_after_add() {
    let mut cpu = Cpu::default();
    let mut bus = RamBus::new();
    bus.write_byte(0x0000, 0x3E); // LD A,0x45
    bus.write_byte(0x0001, 0x45);
    bus.write_byte(0x0002, 0xC6); // ADD 0x38
    bus.write_byte(0x0003, 0x38);
    bus.write_byte(0x0004, 0x27); // DAA

    cpu.step(&mut bus);
    cpu.step(&mut bus);
    assert_eq!(cpu.regs.get(Reg::A), 0x7D);
    // 0x5 + 0x8 = 0xD stays inside the low nibble, so H is clear; DAA
    // still corrects through its own low-nibble check.
    assert!(!cpu.regs.flag_h());
    assert!(!cpu.regs.flag_c());

    cpu.step(&mut bus);
    assert_eq!(cpu.regs.get(Reg::A), 0x83);
    assert!(!cpu.regs.flag_c());
    assert!(!cpu.regs.flag_h());
    assert!(!cpu.regs.flag_z());
}

#[test]
fn test_halt_bug() {
    let mut cpu = Cpu::default();
    let mut bus = RamBus::new();
    cpu.ime = false;
    bus.set_interrupt_enable(0x01);
    bus.set_interrupt_flag(0x01); // IE & IF != 0 while IME = 0
    bus.write_byte(0x0000, 0x76); // HALT
    bus.write_byte(0x0001, 0x3C); // INC A

    let cycles = cpu.step(&mut bus);
    assert_eq!(cycles, 4);
    assert!(!cpu.halted());
    assert_eq!(cpu.pc, 0x0001);

    // The fetch after the HALT bug reads its byte without advancing PC,
    // so the INC A executes twice.
    cpu.step(&mut bus);
    assert_eq!(cpu.pc, 0x0001);
    assert_eq!(cpu.regs.get(Reg::A), 0x01);

    cpu.step(&mut bus);
    assert_eq!(cpu.pc, 0x0002);
    assert_eq!(cpu.regs.get(Reg::A), 0x02);
}

#[test]
fn test_halt_enters_halted_state() {
    let mut cpu = Cpu::default();
    let mut bus = RamBus::new();
    bus.write_byte(0x0000, 0x76); // HALT with IME = 1
    cpu.step(&mut bus);
    assert!(cpu.halted());
    // While halted, a step costs four ticks and PC stays put.
    let cycles = cpu.step(&mut bus);
    assert_eq!(cycles, 4);
    assert_eq!(cpu.pc, 0x0001);

    // A pending-and-enabled interrupt wakes the CPU even with IME = 0.
    cpu.ime = false;
    bus.set_interrupt_enable(0x04);
    bus.set_interrupt_flag(0x04);
    cpu.handle_interrupt(&mut bus);
    assert!(!cpu.halted());
    assert_eq!(bus.interrupt_flag(), 0x04); // not serviced, only woken
}

#[test]
fn test_interrupt_priority() {
    let mut cpu = Cpu::default();
    let mut bus = RamBus::new();
    cpu.ime = true;
    cpu.sp = 0xFFFE;
    cpu.pc = 0x1234;
    bus.set_interrupt_enable(0x05); // VBLANK | TIMER
    bus.set_interrupt_flag(0x05);

    cpu.handle_interrupt(&mut bus);
    assert_eq!(cpu.pc, 0x0040); // VBLANK vector wins
    assert!(!cpu.ime);
    assert_eq!(bus.interrupt_flag(), 0x04); // only the VBLANK bit cleared
    assert_eq!(cpu.sp, 0xFFFC);
    assert_eq!(bus.read_byte(0xFFFC), 0x34);
    assert_eq!(bus.read_byte(0xFFFD), 0x12);

    // With IME cleared the TIMER interrupt stays pending.
    cpu.handle_interrupt(&mut bus);
    assert_eq!(cpu.pc, 0x0040);
    assert_eq!(bus.interrupt_flag(), 0x04);

    // Re-enabled, it is serviced next.
    cpu.ime = true;
    cpu.handle_interrupt(&mut bus);
    assert_eq!(cpu.pc, 0x0050);
    assert_eq!(bus.interrupt_flag(), 0x00);
}

#[test]
fn test_illegal_opcodes_are_zero_cycle_noops() {
    for op in [0xD3u8, 0xDB, 0xDD, 0xE3, 0xE4, 0xEB, 0xEC, 0xED, 0xF4, 0xFC, 0xFD] {
        let mut cpu = Cpu::default();
        let mut bus = RamBus::new();
        cpu.regs.set_pair(RegPair::BC, 0xABCD);
        bus.write_byte(0x0000, op);

        let cycles = cpu.step(&mut bus);
        assert_eq!(cycles, 0);
        assert_eq!(cpu.pc, 0x0001);
        assert!(!cpu.halted());
        assert_eq!(cpu.regs.get_pair(RegPair::BC), 0xABCD);
    }
}

#[test]
fn test_flag_totality() {
    // Every opcode of both tables executes without panicking and leaves
    // the low nibble of the flag byte zero.
    for op in 0..=255u8 {
        let mut cpu = Cpu::default();
        let mut bus = RamBus::new();
        cpu.sp = 0xC000;
        bus.write_byte(0x0000, op);
        cpu.step(&mut bus);
        assert_eq!(cpu.regs.get_pair(RegPair::AF) & 0x000F, 0);
    }
    for op in 0..=255u8 {
        let mut cpu = Cpu::default();
        let mut bus = RamBus::new();
        cpu.sp = 0xC000;
        bus.write_byte(0x0000, 0xCB);
        bus.write_byte(0x0001, op);
        cpu.step(&mut bus);
        assert_eq!(cpu.regs.get_pair(RegPair::AF) & 0x000F, 0);
    }
}

#[test]
fn test_cb_table() {
    let mut cpu = Cpu::default();
    let mut bus = RamBus::new();
    // SET 7,B ; BIT 7,B ; RES 7,B ; SWAP A
    for (i, b) in [0xCBu8, 0xF8, 0xCB, 0x78, 0xCB, 0xB8, 0xCB, 0x37].iter().enumerate() {
        bus.write_byte(i as u16, *b);
    }
    cpu.regs.set(Reg::A, 0x12);

    assert_eq!(cpu.step(&mut bus), 8);
    assert_eq!(cpu.regs.get(Reg::B), 0x80);
    assert_eq!(cpu.step(&mut bus), 8);
    assert!(!cpu.regs.flag_z()); // bit 7 is one
    assert!(cpu.regs.flag_h());
    assert!(!cpu.regs.flag_n());
    assert_eq!(cpu.step(&mut bus), 8);
    assert_eq!(cpu.regs.get(Reg::B), 0x00);
    assert_eq!(cpu.step(&mut bus), 8);
    assert_eq!(cpu.regs.get(Reg::A), 0x21);
}

#[test]
fn test_cb_on_hl_memory() {
    let mut cpu = Cpu::default();
    let mut bus = RamBus::new();
    cpu.regs.set_pair(RegPair::HL, 0xC123);
    bus.write_byte(0xC123, 0x01);
    bus.write_byte(0x0000, 0xCB); // RLC (HL)
    bus.write_byte(0x0001, 0x06);

    assert_eq!(cpu.step(&mut bus), 16);
    assert_eq!(bus.read_byte(0xC123), 0x02);
    assert!(!cpu.regs.flag_c());
}

#[test]
fn test_breakpoint_pauses() {
    let mut cpu = Cpu::with_breakpoint(Some(0x0002), false);
    let mut bus = RamBus::new(); // all NOPs
    assert!(!cpu.is_paused());
    cpu.step(&mut bus);
    cpu.step(&mut bus);
    assert!(!cpu.is_paused());
    cpu.step(&mut bus); // PC == 0x0002 before this fetch
    assert!(cpu.is_paused());
    cpu.set_pause(false);
    assert!(!cpu.is_paused());
    cpu.set_breakpoint(0x0004);
    cpu.step(&mut bus);
    cpu.step(&mut bus);
    assert!(cpu.is_paused());
}

#[test]
fn test_soft_break_on_ld_b_b() {
    let mut cpu = Cpu::with_breakpoint(None, true);
    let mut bus = RamBus::new();
    bus.write_byte(0x0000, 0x41); // LD B,C
    bus.write_byte(0x0001, 0x40); // LD B,B
    cpu.step(&mut bus);
    assert!(!cpu.is_paused());
    cpu.step(&mut bus);
    assert!(cpu.is_paused());
}

#[test]
fn test_jumps_and_calls() {
    let mut cpu = Cpu::default();
    let mut bus = RamBus::new();
    cpu.sp = 0xFFFE;
    bus.write_byte(0x0000, 0xC3); // JP 0x0100
    bus.write_byte(0x0001, 0x00);
    bus.write_byte(0x0002, 0x01);
    bus.write_byte(0x0100, 0xCD); // CALL 0x0200
    bus.write_byte(0x0101, 0x00);
    bus.write_byte(0x0102, 0x02);
    bus.write_byte(0x0200, 0xC9); // RET

    assert_eq!(cpu.step(&mut bus), 16);
    assert_eq!(cpu.pc, 0x0100);
    assert_eq!(cpu.step(&mut bus), 24);
    assert_eq!(cpu.pc, 0x0200);
    assert_eq!(cpu.sp, 0xFFFC);
    assert_eq!(cpu.step(&mut bus), 16);
    assert_eq!(cpu.pc, 0x0103);
    assert_eq!(cpu.sp, 0xFFFE);
}

#[test]
fn test_conditional_jr_cycles() {
    let mut cpu = Cpu::default();
    let mut bus = RamBus::new();
    bus.write_byte(0x0000, 0x20); // JR NZ,+2 (taken: Z starts clear)
    bus.write_byte(0x0001, 0x02);
    bus.write_byte(0x0004, 0x28); // JR Z,+5 (not taken)
    bus.write_byte(0x0005, 0x05);

    assert_eq!(cpu.step(&mut bus), 12);
    assert_eq!(cpu.pc, 0x0004);
    assert_eq!(cpu.step(&mut bus), 8);
    assert_eq!(cpu.pc, 0x0006);
}

#[test]
fn test_add_sp_r8_negative() {
    let mut cpu = Cpu::default();
    let mut bus = RamBus::new();
    cpu.sp = 0xFFF8;
    bus.write_byte(0x0000, 0xE8); // ADD SP,-8
    bus.write_byte(0x0001, 0xF8);

    assert_eq!(cpu.step(&mut bus), 16);
    assert_eq!(cpu.sp, 0xFFF0);
    assert!(!cpu.regs.flag_z());
    assert!(!cpu.regs.flag_n());
    assert!(cpu.regs.flag_h()); // 0x8 + 0x8 carries out of bit 3
    assert!(cpu.regs.flag_c()); // 0xF8 + 0xF8 carries out of bit 7
}

#[test]
fn test_reti_restores_ime() {
    let mut cpu = Cpu::default();
    let mut bus = RamBus::new();
    cpu.ime = false;
    cpu.sp = 0xFFFC;
    bus.write_byte(0xFFFC, 0x34);
    bus.write_byte(0xFFFD, 0x12);
    bus.write_byte(0x0000, 0xD9); // RETI

    assert_eq!(cpu.step(&mut bus), 16);
    assert!(cpu.ime);
    assert_eq!(cpu.pc, 0x1234);
    assert_eq!(cpu.sp, 0xFFFE);
}

#[test]
fn test_di_ei() {
    let mut cpu = Cpu::default();
    let mut bus = RamBus::new();
    bus.write_byte(0x0000, 0xF3); // DI
    bus.write_byte(0x0001, 0xFB); // EI
    cpu.step(&mut bus);
    assert!(!cpu.ime);
    cpu.step(&mut bus);
    assert!(cpu.ime);
}

#[test]
fn test_stop_halts() {
    let mut cpu = Cpu::default();
    let mut bus = RamBus::new();
    bus.write_byte(0x0000, 0x10); // STOP
    assert_eq!(cpu.step(&mut bus), 4);
    assert!(cpu.halted());
}

#[test]
fn test_dump_cpu_format() {
    let cpu = Cpu::default();
    assert_eq!(
        cpu.dump_cpu(),
        "PC=$0000, SP=$0000, AF=$0000, BC=$0000, DE=$0000, HL=$0000, flags=----, IME=true"
    );

    let mut cpu = Cpu::default();
    cpu.pc = 0x1234;
    cpu.sp = 0xFFFE;
    cpu.regs.set_pair(RegPair::AF, 0x5AF0);
    assert_eq!(
        cpu.dump_cpu(),
        "PC=$1234, SP=$FFFE, AF=$5AF0, BC=$0000, DE=$0000, HL=$0000, flags=ZNHC, IME=true"
    );
}

#[test]
fn test_pc_wraps_at_top_of_memory() {
    let mut cpu = Cpu::default();
    let mut bus = RamBus::new();
    cpu.pc = 0xFFFF; // a NOP sits there (fresh memory is zero)
    cpu.step(&mut bus);
    assert_eq!(cpu.pc, 0x0000);
}

#[test]
fn test_add_hl_rr_flags() {
    let mut cpu = Cpu::default();
    let mut bus = RamBus::new();
    bus.write_byte(0x0000, 0x09); // ADD HL,BC
    cpu.regs.set_pair(RegPair::HL, 0x0FFF);
    cpu.regs.set_pair(RegPair::BC, 0x0001);
    cpu.regs.set_flag_z(true); // Z must survive a 16-bit add

    assert_eq!(cpu.step(&mut bus), 8);
    assert_eq!(cpu.regs.get_pair(RegPair::HL), 0x1000);
    assert!(cpu.regs.flag_z());
    assert!(!cpu.regs.flag_n());
    assert!(cpu.regs.flag_h()); // carry out of bit 11
    assert!(!cpu.regs.flag_c());

    bus.write_byte(0x0001, 0x09); // ADD HL,BC again
    cpu.regs.set_pair(RegPair::HL, 0xFFFF);
    assert_eq!(cpu.step(&mut bus), 8);
    assert_eq!(cpu.regs.get_pair(RegPair::HL), 0x0000);
    assert!(cpu.regs.flag_h());
    assert!(cpu.regs.flag_c()); // carry out of bit 15
}

#[test]
fn test_ldh_page_access() {
    let mut cpu = Cpu::default();
    let mut bus = RamBus::new();
    bus.write_byte(0x0000, 0x3E); // LD A,0x42
    bus.write_byte(0x0001, 0x42);
    bus.write_byte(0x0002, 0xE0); // LDH (0x80),A
    bus.write_byte(0x0003, 0x80);
    bus.write_byte(0x0004, 0xF0); // LDH A,(0x81)
    bus.write_byte(0x0005, 0x81);
    bus.write_byte(0xFF81, 0x99);

    cpu.step(&mut bus);
    assert_eq!(cpu.step(&mut bus), 12);
    assert_eq!(bus.read_byte(0xFF80), 0x42);
    assert_eq!(cpu.step(&mut bus), 12);
    assert_eq!(cpu.regs.get(Reg::A), 0x99);
}

#[test]
fn test_ld_hl_inc_dec_moves() {
    let mut cpu = Cpu::default();
    let mut bus = RamBus::new();
    bus.write_byte(0x0000, 0x22); // LD (HL+),A
    bus.write_byte(0x0001, 0x32); // LD (HL-),A
    bus.write_byte(0x0002, 0x2A); // LD A,(HL+)
    cpu.regs.set(Reg::A, 0x7E);
    cpu.regs.set_pair(RegPair::HL, 0xC000);

    assert_eq!(cpu.step(&mut bus), 8);
    assert_eq!(bus.read_byte(0xC000), 0x7E);
    assert_eq!(cpu.regs.get_pair(RegPair::HL), 0xC001);

    assert_eq!(cpu.step(&mut bus), 8);
    assert_eq!(bus.read_byte(0xC001), 0x7E);
    assert_eq!(cpu.regs.get_pair(RegPair::HL), 0xC000);

    cpu.regs.set(Reg::A, 0x00);
    assert_eq!(cpu.step(&mut bus), 8);
    assert_eq!(cpu.regs.get(Reg::A), 0x7E);
    assert_eq!(cpu.regs.get_pair(RegPair::HL), 0xC001);
}

#[test]
fn test_ld_hl_sp_offset() {
    let mut cpu = Cpu::default();
    let mut bus = RamBus::new();
    cpu.sp = 0xFFF8;
    bus.write_byte(0x0000, 0xF8); // LD HL,SP+2
    bus.write_byte(0x0001, 0x02);

    assert_eq!(cpu.step(&mut bus), 12);
    assert_eq!(cpu.regs.get_pair(RegPair::HL), 0xFFFA);
    assert_eq!(cpu.sp, 0xFFF8); // SP itself is untouched
    assert!(!cpu.regs.flag_z());
    assert!(!cpu.regs.flag_n());
}

#[test]
fn test_conditional_ret_and_call() {
    let mut cpu = Cpu::default();
    let mut bus = RamBus::new();
    cpu.sp = 0xFFFE;
    bus.write_byte(0x0000, 0xC4); // CALL NZ,0x0300 (taken: Z clear)
    bus.write_byte(0x0001, 0x00);
    bus.write_byte(0x0002, 0x03);
    bus.write_byte(0x0300, 0xC8); // RET Z (not taken)
    bus.write_byte(0x0301, 0xC0); // RET NZ (taken)

    assert_eq!(cpu.step(&mut bus), 24);
    assert_eq!(cpu.pc, 0x0300);
    assert_eq!(cpu.step(&mut bus), 8);
    assert_eq!(cpu.pc, 0x0301);
    assert_eq!(cpu.step(&mut bus), 20);
    assert_eq!(cpu.pc, 0x0003);
    assert_eq!(cpu.sp, 0xFFFE);
}

#[test]
fn test_rst_vectors() {
    let mut cpu = Cpu::default();
    let mut bus = RamBus::new();
    cpu.sp = 0xFFFE;
    cpu.pc = 0x0150;
    bus.write_byte(0x0150, 0xEF); // RST 0x28

    assert_eq!(cpu.step(&mut bus), 16);
    assert_eq!(cpu.pc, 0x0028);
    assert_eq!(cpu.sp, 0xFFFC);
    // The pushed return address points past the RST opcode.
    assert_eq!(bus.read_byte(0xFFFC), 0x51);
    assert_eq!(bus.read_byte(0xFFFD), 0x01);
}

#[test]
fn test_alu_d8_forms() {
    let mut cpu = Cpu::default();
    let mut bus = RamBus::new();
    let program = [
        0x3Eu8, 0x10, // LD A,0x10
        0xC6, 0x05, // ADD 0x05
        0xD6, 0x01, // SUB 0x01
        0xE6, 0x0C, // AND 0x0C
        0xF6, 0x30, // OR 0x30
        0xEE, 0xFF, // XOR 0xFF
        0xFE, 0xC3, // CP 0xC3
    ];
    for (i, b) in program.iter().enumerate() {
        bus.write_byte(i as u16, *b);
    }
    cpu.step(&mut bus);
    cpu.step(&mut bus);
    assert_eq!(cpu.regs.get(Reg::A), 0x15);
    cpu.step(&mut bus);
    assert_eq!(cpu.regs.get(Reg::A), 0x14);
    cpu.step(&mut bus);
    assert_eq!(cpu.regs.get(Reg::A), 0x04);
    assert!(cpu.regs.flag_h()); // AND always sets H
    cpu.step(&mut bus);
    assert_eq!(cpu.regs.get(Reg::A), 0x34);
    cpu.step(&mut bus);
    assert_eq!(cpu.regs.get(Reg::A), 0xCB);
    cpu.step(&mut bus);
    assert_eq!(cpu.regs.get(Reg::A), 0xCB); // CP discards the result
    assert!(!cpu.regs.flag_z());
    assert!(cpu.regs.flag_n());
}

#[test]
fn test_adc_sbc_carry_chain() {
    let mut cpu = Cpu::default();
    let mut bus = RamBus::new();
    bus.write_byte(0x0000, 0xCE); // ADC 0x00 with C set
    bus.write_byte(0x0001, 0x00);
    bus.write_byte(0x0002, 0xDE); // SBC 0x00 with C set
    bus.write_byte(0x0003, 0x00);

    cpu.regs.set(Reg::A, 0x41);
    cpu.regs.set_flag_c(true);
    cpu.step(&mut bus);
    assert_eq!(cpu.regs.get(Reg::A), 0x42); // the carry-in counts

    cpu.regs.set_flag_c(true);
    cpu.step(&mut bus);
    assert_eq!(cpu.regs.get(Reg::A), 0x41); // the borrow-in counts
}
