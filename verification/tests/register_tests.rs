use gb_rs::cpu::register::{Reg, RegPair, Registers};

#[test]
fn test_flags() {
    let mut regs = Registers::default();

    assert!(!regs.flag_z());
    regs.set_flag_z(true);
    assert!(regs.flag_z());
    regs.set_flag_z(false);
    assert!(!regs.flag_z());

    regs.set_flag_z(true);
    assert!(regs.flag_z());
    regs.set_flag_z(false);
    assert!(!regs.flag_z());
}

#[test]
fn test_get_set_registers() {
    let mut regs = Registers::default();
    regs.set(Reg::A, 0x11);
    regs.set(Reg::B, 0x22);
    regs.set(Reg::C, 0x33);
    regs.set(Reg::D, 0x44);
    regs.set(Reg::E, 0x55);
    regs.set(Reg::H, 0x66);
    regs.set(Reg::L, 0x77);
    assert_eq!(regs.get(Reg::A), 0x11);
    assert_eq!(regs.get(Reg::B), 0x22);
    assert_eq!(regs.get(Reg::C), 0x33);
    assert_eq!(regs.get(Reg::D), 0x44);
    assert_eq!(regs.get(Reg::E), 0x55);
    assert_eq!(regs.get(Reg::H), 0x66);
    assert_eq!(regs.get(Reg::L), 0x77);
    assert_eq!(regs.get_pair(RegPair::BC), 0x2233);
    assert_eq!(regs.get_pair(RegPair::DE), 0x4455);
    assert_eq!(regs.get_pair(RegPair::HL), 0x6677);
}

#[test]
fn test_pairs_round_trip() {
    let mut regs = Registers::default();
    regs.set_pair(RegPair::BC, 0x1234);
    regs.set_pair(RegPair::DE, 0x5678);
    regs.set_pair(RegPair::HL, 0x9ABC);
    assert_eq!(regs.get_pair(RegPair::BC), 0x1234);
    assert_eq!(regs.get_pair(RegPair::DE), 0x5678);
    assert_eq!(regs.get_pair(RegPair::HL), 0x9ABC);
    assert_eq!(regs.get(Reg::B), 0x12);
    assert_eq!(regs.get(Reg::C), 0x34);
}

#[test]
fn test_af_masks_low_nibble() {
    let mut regs = Registers::default();
    regs.set_pair(RegPair::AF, 0x12FF);
    assert_eq!(regs.get_pair(RegPair::AF), 0x12F0);
    assert!(regs.flag_z());
    assert!(regs.flag_n());
    assert!(regs.flag_h());
    assert!(regs.flag_c());

    regs.set_pair(RegPair::AF, 0x3450);
    assert_eq!(regs.get_pair(RegPair::AF), 0x3450);
    assert!(!regs.flag_z());
    assert!(regs.flag_n()); // 0x50 carries bit 6
    assert!(!regs.flag_h());
    assert!(regs.flag_c()); // and bit 4
}

#[test]
fn test_flag_byte_packing() {
    let mut regs = Registers::default();
    regs.set_flag_z(true);
    assert_eq!(regs.f_byte(), 0x80);
    regs.set_flag_c(true);
    assert_eq!(regs.f_byte(), 0x90);
    regs.set_flag_n(true);
    regs.set_flag_h(true);
    assert_eq!(regs.f_byte(), 0xF0);
}
