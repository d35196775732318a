//! Instruction-level emulation core for the Sharp LR35902, the 8-bit CPU of
//! the original handheld Game Boy.
//!
//! The heart of the crate is [`cpu::Cpu`]: it owns the register file, decodes
//! the primary and the 0xCB-prefixed opcode tables, computes the Z/N/H/C
//! flags bit for bit, and drives the HALT/interrupt state machine. Memory and
//! peripherals are reached through the [`bus::Bus`] capability; [`bus::RamBus`]
//! is a flat in-crate implementation of it. The remaining modules hold the
//! pure per-peripheral logic: cartridge banking, the divider/TIMA timer, the
//! joypad register, and the audio frame sequencer.

use vstd::prelude::*;

pub mod apu;
pub mod bus;
pub mod cartridge;
pub mod cpu;
pub mod hexfmt;
pub mod interrupt;
pub mod joypad;
pub mod laws;
pub mod timer;

verus! {

pub const SCREEN_WIDTH: usize = 160;
pub const SCREEN_HEIGHT: usize = 144;

/// Receives finished video frames from the driver loop; implemented by hosts.
pub trait FrameSink {
    fn push_frame(&mut self, frame: &[(u8, u8, u8)]);
}

} // verus!
