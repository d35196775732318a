//! The five interrupt sources, their bit masks in the IE/IF registers and
//! their fixed vector addresses. Priority is the listed order: the lowest
//! vector address wins.

use vstd::prelude::*;

verus! {

/// Bit masks of the five used bits of the IE and IF registers.
pub const IRQ_VBLANK: u8 = 0x01;
pub const IRQ_STAT: u8 = 0x02;
pub const IRQ_TIMER: u8 = 0x04;
pub const IRQ_SERIAL: u8 = 0x08;
pub const IRQ_JOYPAD: u8 = 0x10;

/// Every used IE/IF bit at once.
pub const IRQ_ALL: u8 = 0x1F;

/// One interrupt source.
#[derive(Debug, Clone, Copy, PartialEq, Eq, Structural)]
pub enum Interrupt {
    VBlank,
    Stat,
    Timer,
    Serial,
    Joypad,
}

/// The IE/IF bit of an interrupt source.
pub open spec fn spec_mask(i: Interrupt) -> u8 {
    match i {
        Interrupt::VBlank => 0x01,
        Interrupt::Stat => 0x02,
        Interrupt::Timer => 0x04,
        Interrupt::Serial => 0x08,
        Interrupt::Joypad => 0x10,
    }
}

/// The handler address of an interrupt source.
pub open spec fn spec_vector(i: Interrupt) -> u16 {
    match i {
        Interrupt::VBlank => 0x0040,
        Interrupt::Stat => 0x0048,
        Interrupt::Timer => 0x0050,
        Interrupt::Serial => 0x0058,
        Interrupt::Joypad => 0x0060,
    }
}

/// The highest-priority interrupt among a non-empty set of pending bits:
/// VBLANK before STAT before TIMER before SERIAL before JOYPAD.
pub open spec fn spec_pick(pending: u8) -> Interrupt {
    if pending & 0x01 != 0 {
        Interrupt::VBlank
    } else if pending & 0x02 != 0 {
        Interrupt::Stat
    } else if pending & 0x04 != 0 {
        Interrupt::Timer
    } else if pending & 0x08 != 0 {
        Interrupt::Serial
    } else {
        Interrupt::Joypad
    }
}

impl Interrupt {
    /// The IE/IF bit of this source.
    pub fn mask(&self) -> (mask: u8)
        ensures
            mask == spec_mask(*self),
    {
        match self {
            Interrupt::VBlank => IRQ_VBLANK,
            Interrupt::Stat => IRQ_STAT,
            Interrupt::Timer => IRQ_TIMER,
            Interrupt::Serial => IRQ_SERIAL,
            Interrupt::Joypad => IRQ_JOYPAD,
        }
    }

    /// The handler address of this source.
    pub fn vector(&self) -> (addr: u16)
        ensures
            addr == spec_vector(*self),
    {
        match self {
            Interrupt::VBlank => 0x0040,
            Interrupt::Stat => 0x0048,
            Interrupt::Timer => 0x0050,
            Interrupt::Serial => 0x0058,
            Interrupt::Joypad => 0x0060,
        }
    }
}

} // verus!
