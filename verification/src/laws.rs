//! Crate-level laws: properties that tie several operations together,
//! stated over the same spec functions the executable contracts use.

use vstd::prelude::*;

verus! {

use crate::bus::{spec_word_at, spec_wrap16, spec_write_word};
use crate::cpu::register::{Registers, spec_f_byte, spec_pack};
use crate::cpu::{spec_fetch_pc, spec_xor_regs, Cpu};
use crate::interrupt::{spec_mask, spec_pick, Interrupt};

/// Splitting a word into bytes and packing them again is the identity.
pub proof fn lemma_pack_split(v: u16)
    ensures
        spec_pack((v >> 8) as u8, (v & 0xFF) as u8) == v,
{
    let hi = (v >> 8) as u8;
    let lo = (v & 0xFF) as u8;
    assert(((hi as u16) << 8 | (lo as u16)) == v) by (bit_vector)
        requires
            hi == (v >> 8) as u8 && lo == (v & 0xFF) as u8,
    ;
}

/// Stack round trip: for every 16-bit value and every starting SP, a
/// `push_word` followed by a `pop_word` reads the pushed value back and
/// restores SP. The left-hand sides are exactly what the contracts of
/// `push_word` and `pop_word` say those functions do.
pub proof fn lemma_stack_round_trip(mem: Map<u16, u8>, sp: u16, v: u16)
    ensures
        spec_word_at(spec_write_word(mem, spec_wrap16(sp - 2), v), spec_wrap16(sp - 2)) == v,
        spec_wrap16(spec_wrap16(sp - 2) + 2) == sp,
{
    let a = spec_wrap16(sp - 2);
    let b = spec_wrap16(a + 1);
    assert(a != b);
    let written = spec_write_word(mem, a, v);
    assert(written[a] == (v & 0xFF) as u8);
    assert(written[b] == (v >> 8) as u8);
    lemma_pack_split(v);
}

/// XOR A: from any starting register file, `XOR` of A with itself leaves
/// A zero, Z set, and N, H and C clear.
pub proof fn lemma_xor_a(r: Registers)
    ensures
        spec_xor_regs(r, r.a) == (Registers {
            a: 0,
            zf: true,
            nf: false,
            hf: false,
            cf: false,
            ..r
        }),
{
    let a = r.a;
    assert(a ^ a == 0) by (bit_vector);
}

/// The packed flag byte never carries anything in its low nibble.
pub proof fn lemma_flag_byte_low_nibble(r: Registers)
    ensures
        spec_f_byte(r) & 0x0F == 0,
{
    let f = spec_f_byte(r);
    let z = r.zf;
    let n = r.nf;
    let h = r.hf;
    let c = r.cf;
    assert(f & 0x0F == 0) by (bit_vector)
        requires
            f == ((if z { 0x80u8 } else { 0u8 }) | (if n { 0x40u8 } else { 0u8 }) | (if h {
                0x20u8
            } else {
                0u8
            }) | (if c { 0x10u8 } else { 0u8 })) as u8,
    ;
}

/// An armed HALT-bug latch suppresses exactly the next PC advance: a fetch
/// made with the latch set reads its byte without moving PC.
pub proof fn lemma_halt_bug_freezes_fetch(cpu: Cpu)
    requires
        cpu.halt_bug,
    ensures
        spec_fetch_pc(cpu) == cpu.pc,
{
}

/// The serviced interrupt is always one of the pending set, and every
/// source with a smaller mask — that is, a lower vector address and a
/// higher priority — is not pending. VBLANK therefore always wins over
/// TIMER, and so on down the fixed order.
pub proof fn lemma_interrupt_priority(p: u8)
    requires
        p != 0,
        p & 0xE0 == 0,
    ensures
        p & spec_mask(spec_pick(p)) != 0,
        forall|other: Interrupt|
            spec_mask(other) < spec_mask(spec_pick(p)) ==> p & spec_mask(other) == 0,
{
    assert(p & 0x01 == 0 && p & 0x02 == 0 && p & 0x04 == 0 && p & 0x08 == 0 ==> p & 0x10 != 0)
        by (bit_vector)
        requires
            p != 0 && p & 0xE0 == 0,
    ;
    assert forall|other: Interrupt|
        spec_mask(other) < spec_mask(spec_pick(p)) implies p & spec_mask(other) == 0 by {
        match other {
            Interrupt::VBlank => {},
            Interrupt::Stat => {},
            Interrupt::Timer => {},
            Interrupt::Serial => {},
            Interrupt::Joypad => {},
        }
    }
}


} // verus!
