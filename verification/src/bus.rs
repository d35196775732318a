//! The memory capability the CPU executes against.
//!
//! The CPU never owns memory: every fetch, load, store and interrupt
//! acknowledgement goes through the [`Bus`] trait. Its contract is stated
//! over three views: the byte at every 16-bit address, and the IE and IF
//! interrupt registers (only their five low bits are ever set).
//! [`RamBus`] implements it with a flat 64 KiB array; hosts that route
//! reads and writes to peripherals supply their own implementation.

use vstd::prelude::*;

verus! {

use crate::interrupt::Interrupt;

/// Memory and interrupt-register access, one byte at a time, little-endian
/// for word access. Word access at 0xFFFF wraps around to 0x0000.
pub trait Bus: Sized {
    /// Implementation-specific well-formedness, preserved by every method.
    spec fn inv(&self) -> bool;

    /// The byte visible at each address.
    spec fn mem(&self) -> Map<u16, u8>;

    /// The IE register: which interrupt sources are enabled.
    spec fn ie(&self) -> u8;

    /// The IF register: which interrupt sources are pending.
    spec fn iflag(&self) -> u8;

    fn read_byte(&self, addr: u16) -> (b: u8)
        requires
            self.inv(),
        ensures
            b == self.mem()[addr],
    ;

    fn write_byte(&mut self, addr: u16, b: u8)
        requires
            old(self).inv(),
        ensures
            final(self).inv(),
            final(self).mem() == old(self).mem().insert(addr, b),
            final(self).ie() == old(self).ie(),
            final(self).iflag() == old(self).iflag(),
    ;

    fn read_word(&self, addr: u16) -> (w: u16)
        requires
            self.inv(),
        ensures
            w == spec_word_at(self.mem(), addr),
    ;

    fn write_word(&mut self, addr: u16, w: u16)
        requires
            old(self).inv(),
        ensures
            final(self).inv(),
            final(self).mem() == spec_write_word(old(self).mem(), addr, w),
            final(self).ie() == old(self).ie(),
            final(self).iflag() == old(self).iflag(),
    ;

    fn interrupt_enable(&self) -> (ie: u8)
        requires
            self.inv(),
        ensures
            ie == self.ie(),
            ie & 0xE0 == 0,
    ;

    fn interrupt_flag(&self) -> (iflag: u8)
        requires
            self.inv(),
        ensures
            iflag == self.iflag(),
            iflag & 0xE0 == 0,
    ;

    fn interrupt_pending(&self) -> (pending: bool)
        requires
            self.inv(),
        ensures
            pending == ((self.ie() & self.iflag()) != 0),
    ;

    /// Clears the IF bit of the given source, leaving the others pending.
    fn ack_interrupt(&mut self, interrupt: Interrupt)
        requires
            old(self).inv(),
        ensures
            final(self).inv(),
            final(self).mem() == old(self).mem(),
            final(self).ie() == old(self).ie(),
            final(self).iflag() == (old(self).iflag()
                & !crate::interrupt::spec_mask(interrupt)) as u8,
    ;
}

/// Only the five interrupt bits survive masking with 0x1F.
proof fn lemma_five_bits(b: u8)
    ensures
        (b & 0x1F) & 0xE0 == 0,
        0u8 & 0xE0 == 0,
{
    assert((b & 0x1F) & 0xE0 == 0 && 0u8 & 0xE0 == 0) by (bit_vector);
}

/// A 16-bit address moved forward, wrapping at the top of the address space.
pub open spec fn spec_wrap16(x: int) -> u16 {
    (x % 0x10000) as u16
}

/// The little-endian 16-bit value at `addr`: low byte first, high byte at
/// the following address (wrapping at the top of the address space).
pub open spec fn spec_word_at(mem: Map<u16, u8>, addr: u16) -> u16 {
    crate::cpu::register::spec_pack(mem[spec_wrap16(addr + 1)], mem[addr])
}

/// Memory after a little-endian 16-bit store at `addr`.
pub open spec fn spec_write_word(mem: Map<u16, u8>, addr: u16, w: u16) -> Map<u16, u8> {
    mem.insert(addr, (w & 0xFF) as u8).insert(spec_wrap16(addr + 1), (w >> 8) as u8)
}

/// A flat 64 KiB memory with the two interrupt registers, satisfying the
/// full [`Bus`] contract. Used by tests and by hosts that need no
/// memory-mapped peripherals.
pub struct RamBus {
    data: Vec<u8>,
    int_enable: u8,
    int_flag: u8,
}

impl RamBus {
    /// All memory zero, nothing enabled, nothing pending.
    pub fn new() -> (bus: RamBus)
        ensures
            bus.inv(),
            bus.mem() == Map::<u16, u8>::new(|addr: u16| true, |addr: u16| 0u8),
            bus.ie() == 0,
            bus.iflag() == 0,
    {
        let mut data: Vec<u8> = Vec::new();
        data.resize(0x10000, 0u8);
        let bus = RamBus { data, int_enable: 0, int_flag: 0 };
        proof {
            lemma_five_bits(0);
            assert(bus.mem() =~= Map::<u16, u8>::new(|addr: u16| true, |addr: u16| 0u8));
        }
        bus
    }

    /// Writes the IE register; only the five used bits are kept.
    pub fn set_interrupt_enable(&mut self, bits: u8)
        requires
            old(self).inv(),
        ensures
            final(self).inv(),
            final(self).mem() == old(self).mem(),
            final(self).ie() == (bits & 0x1F) as u8,
            final(self).iflag() == old(self).iflag(),
    {
        self.int_enable = bits & 0x1F;
        proof {
            lemma_five_bits(bits);
        }
    }

    /// Writes the IF register; only the five used bits are kept.
    pub fn set_interrupt_flag(&mut self, bits: u8)
        requires
            old(self).inv(),
        ensures
            final(self).inv(),
            final(self).mem() == old(self).mem(),
            final(self).ie() == old(self).ie(),
            final(self).iflag() == (bits & 0x1F) as u8,
    {
        self.int_flag = bits & 0x1F;
        proof {
            lemma_five_bits(bits);
        }
    }
}

impl Bus for RamBus {
    closed spec fn inv(&self) -> bool {
        self.data@.len() == 0x10000 && self.int_enable & 0xE0 == 0 && self.int_flag & 0xE0 == 0
    }

    closed spec fn mem(&self) -> Map<u16, u8> {
        Map::new(|addr: u16| true, |addr: u16| self.data@[addr as int])
    }

    closed spec fn ie(&self) -> u8 {
        self.int_enable
    }

    closed spec fn iflag(&self) -> u8 {
        self.int_flag
    }

    fn read_byte(&self, addr: u16) -> (b: u8) {
        self.data[addr as usize]
    }

    fn write_byte(&mut self, addr: u16, b: u8) {
        self.data[addr as usize] = b;
        proof {
            assert(self.mem() =~= old(self).mem().insert(addr, b));
        }
    }

    fn read_word(&self, addr: u16) -> (w: u16) {
        let lo = self.data[addr as usize];
        let hi = self.data[addr.wrapping_add(1) as usize];
        crate::cpu::register::pack(hi, lo)
    }

    fn write_word(&mut self, addr: u16, w: u16) {
        let lo = (w & 0xFF) as u8;
        let hi = (w >> 8) as u8;
        self.data[addr as usize] = lo;
        self.data[addr.wrapping_add(1) as usize] = hi;
        proof {
            assert(self.mem() =~= spec_write_word(old(self).mem(), addr, w));
        }
    }

    fn interrupt_enable(&self) -> (ie: u8) {
        self.int_enable
    }

    fn interrupt_flag(&self) -> (iflag: u8) {
        self.int_flag
    }

    fn interrupt_pending(&self) -> (pending: bool) {
        (self.int_enable & self.int_flag) != 0
    }

    fn ack_interrupt(&mut self, interrupt: Interrupt) {
        let mask = interrupt.mask();
        self.int_flag = self.int_flag & !mask;
        proof {
            let m = crate::interrupt::spec_mask(interrupt);
            let f = old(self).int_flag;
            assert((f & !m) & 0xE0 == 0) by (bit_vector)
                requires
                    f & 0xE0 == 0,
            ;
        }
    }
}

} // verus!
