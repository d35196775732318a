use gb_rs::apu::frame_sequencer::FrameSequencer;
use gb_rs::bus::{Bus, RamBus};
use gb_rs::cartridge::Cartridge;
use gb_rs::hexfmt::{hex2, hex2_lower, hex4};
use gb_rs::interrupt::Interrupt;
use gb_rs::joypad::{Button, Joypad};
use gb_rs::timer::Timer;

fn rom_with_header() -> Vec<u8> {
    let mut data = vec![0u8; 0x8000];
    for (i, b) in b"TESTTITLE".iter().enumerate() {
        data[0x134 + i] = *b;
    }
    data[0x143] = 0x80; // CGB flag set
    data[0x146] = 0x03; // SGB flag set
    data[0x147] = 0x01; // MBC1
    data[0x148] = 0x00; // 32 KiB ROM
    data[0x149] = 0x00; // no cart RAM declared
    data[0x14B] = 0x01; // old licensee code
    data
}

#[test]
fn test_cartridge_header() {
    let cart = Cartridge::new(rom_with_header());
    assert_eq!(cart.title(), "TESTTITLE");
    assert!(cart.cgb_flag());
    assert!(cart.sgb_flag());
    assert_eq!(cart.cartridge_type(), "MBC1");
    assert!(cart.has_mbc1());
    assert!(!cart.has_mbc5());
    assert_eq!(cart.get_rom_size(), 0x00);
    assert_eq!(cart.get_ram_size(), 0x00);
    assert_eq!(cart.licensee_code(), "01 (OLD)");
}

#[test]
fn test_cartridge_new_licensee() {
    let mut data = rom_with_header();
    data[0x14B] = 33;
    data[0x144] = b'A';
    data[0x145] = b'4';
    let cart = Cartridge::new(data);
    assert_eq!(cart.licensee_code(), "A4");
}

#[test]
fn test_cartridge_rom_banking() {
    let mut data = rom_with_header();
    data[0x0123] = 0xAB;
    data[0x4005] = 0xCD; // bank 1, offset 5
    let mut cart = Cartridge::new(data);
    assert_eq!(cart.read_rom(0x0123), 0xAB);
    assert_eq!(cart.read_rom(0x4005), 0xCD);

    // Writing zero to the bank register on MBC1 selects bank one.
    cart.select_rom_bank(0);
    assert_eq!(cart.read_rom(0x4005), 0xCD);
}

#[test]
fn test_cartridge_ram_round_trip() {
    let mut cart = Cartridge::new(rom_with_header());
    cart.write_ram(0x0010, 0x77);
    assert_eq!(cart.read_ram(0x0010), 0x77);
    cart.write_ram(0x1FFF, 0x55);
    assert_eq!(cart.read_ram(0x1FFF), 0x55);
}

#[test]
fn test_timer_div() {
    let mut timer = Timer::new();
    assert_eq!(timer.div_timer(), 0);
    // DIV is the high byte of the cycle counter.
    timer.cycle(255);
    assert_eq!(timer.div_timer(), 0);
    timer.cycle(1);
    assert_eq!(timer.div_timer(), 1);
    timer.reset_div_timer();
    assert_eq!(timer.div_timer(), 0);
}

#[test]
fn test_timer_tima_increments() {
    let mut timer = Timer::new();
    timer.set_tac(0x05); // enabled, falling edge of bit 3: every 16 cycles
    assert_eq!(timer.tac(), 0xFD);
    let requested = timer.cycle(16);
    assert!(!requested);
    assert_eq!(timer.tima(), 1);
    timer.cycle(32);
    assert_eq!(timer.tima(), 3);
}

#[test]
fn test_timer_overflow_reloads_tma() {
    let mut timer = Timer::new();
    timer.set_tac(0x05);
    timer.set_tma(0xAB);
    timer.set_tima(0xFF);
    // The overflow itself does not raise the interrupt yet...
    let requested = timer.cycle(16);
    assert!(!requested);
    assert_eq!(timer.tima(), 0);
    // ...the reload happens one cycle later, with the interrupt.
    let requested = timer.cycle(1);
    assert!(requested);
    assert_eq!(timer.tima(), 0xAB);
}

#[test]
fn test_joypad_groups() {
    let mut joypad = Joypad::default();
    assert_eq!(joypad.read(), 0xFF); // nothing selected

    joypad.write(0x20); // bit 4 low: direction group
    let changed = joypad.set_button(Button::Right, true);
    assert!(changed);
    assert_eq!(joypad.read(), 0xFE);

    // An action button is invisible while the direction group is selected.
    let changed = joypad.set_button(Button::A, true);
    assert!(!changed);
    assert_eq!(joypad.read(), 0xFE);

    joypad.write(0x10); // bit 5 low: action group
    assert_eq!(joypad.read(), 0xFE); // A pressed, bit 0 low
    joypad.set_button(Button::Start, true);
    assert_eq!(joypad.read(), 0xF6);
}

#[test]
fn test_frame_sequencer_triggers() {
    let mut seq = FrameSequencer::default();
    let mut lengths = 0;
    let mut envelopes = 0;
    let mut sweeps = 0;
    for _ in 0..8 {
        if seq.length_triggered() {
            lengths += 1;
        }
        if seq.vol_envelope_trigged() {
            envelopes += 1;
        }
        if seq.sweep_triggered() {
            sweeps += 1;
        }
        seq.tick();
    }
    assert_eq!(lengths, 4);
    assert_eq!(envelopes, 1);
    assert_eq!(sweeps, 2);
    assert_eq!(seq, FrameSequencer::default()); // back to frame zero
}

#[test]
fn test_hex_formatting() {
    assert_eq!(hex2(0x00), "00");
    assert_eq!(hex2(0xAB), "AB");
    assert_eq!(hex2_lower(0xAB), "ab");
    assert_eq!(hex4(0x1234), "1234");
    assert_eq!(hex4(0xBEEF), "BEEF");
    assert_eq!(hex4(0x000F), "000F");
}

#[test]
fn test_ram_bus_words() {
    let mut bus = RamBus::new();
    bus.write_word(0xC000, 0x1234);
    assert_eq!(bus.read_byte(0xC000), 0x34); // little-endian: low byte first
    assert_eq!(bus.read_byte(0xC001), 0x12);
    assert_eq!(bus.read_word(0xC000), 0x1234);
}

#[test]
fn test_ram_bus_interrupt_registers() {
    let mut bus = RamBus::new();
    bus.set_interrupt_enable(0xFF);
    assert_eq!(bus.interrupt_enable(), 0x1F); // only five bits exist
    bus.set_interrupt_flag(0x04);
    assert!(bus.interrupt_pending());
    bus.ack_interrupt(Interrupt::Timer);
    assert_eq!(bus.interrupt_flag(), 0x00);
    assert!(!bus.interrupt_pending());
}

#[test]
fn test_interrupt_masks_and_vectors() {
    let cases = [
        (Interrupt::VBlank, 0x01, 0x0040),
        (Interrupt::Stat, 0x02, 0x0048),
        (Interrupt::Timer, 0x04, 0x0050),
        (Interrupt::Serial, 0x08, 0x0058),
        (Interrupt::Joypad, 0x10, 0x0060),
    ];
    for (interrupt, mask, vector) in cases {
        assert_eq!(interrupt.mask(), mask);
        assert_eq!(interrupt.vector(), vector);
    }
}
