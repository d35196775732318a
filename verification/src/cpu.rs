//! The CPU core: register file, instruction execution and the
//! halt/interrupt state machine.

use vstd::prelude::*;

pub mod register;

verus! {

use crate::cpu::register::{Reg, RegPair, Registers, spec_get, spec_set, spec_get_pair, spec_set_pair, spec_pack};
use vstd::string::StringExecFns;

/// The CPU: register file, the two independent 16-bit pointers PC and SP,
/// the run state, the interrupt master enable, and the debug hooks.
#[derive(Debug, Clone, Copy, PartialEq, Eq, Structural)]
pub struct Cpu {
    pub regs: Registers,
    pub sp: u16,
    pub pc: u16,
    /// Run state: true between HALT/STOP and the next pending interrupt.
    pub halted: bool,
    /// IME, the master gate on interrupt servicing.
    pub ime: bool,
    /// Debug hook: `step` pauses when PC reaches this address before a fetch.
    pub breakpoint: u16,
    /// Debug hook: set by the breakpoints, polled and cleared by the host.
    pub paused: bool,
    /// Debug hook: when set, executing `LD B,B` (opcode 0x40) also pauses.
    pub enable_soft_break: bool,
    /// One-shot HALT-bug latch: the next fetch does not advance PC.
    pub halt_bug: bool,
}

impl Default for Cpu {
    /// Power-on state: everything zero except IME, which starts enabled, and
    /// the breakpoint, which starts at an address games never execute from.
    fn default() -> (cpu: Cpu)
        ensures
            cpu == (Cpu {
                regs: Registers {
                    a: 0,
                    b: 0,
                    c: 0,
                    d: 0,
                    e: 0,
                    h: 0,
                    l: 0,
                    zf: false,
                    nf: false,
                    hf: false,
                    cf: false,
                },
                sp: 0,
                pc: 0,
                halted: false,
                ime: true,
                breakpoint: 0xFFFF,
                paused: false,
                enable_soft_break: false,
                halt_bug: false,
            }),
    {
        Cpu {
            regs: Registers {
                a: 0,
                b: 0,
                c: 0,
                d: 0,
                e: 0,
                h: 0,
                l: 0,
                zf: false,
                nf: false,
                hf: false,
                cf: false,
            },
            sp: 0,
            pc: 0,
            halted: false,
            ime: true,
            breakpoint: 0xFFFF,
            paused: false,
            enable_soft_break: false,
            halt_bug: false,
        }
    }
}

impl Cpu {
    /// A fresh CPU with the given breakpoint (absent means never) and the
    /// soft-break trap on `LD B,B` switched on or off.
    pub fn with_breakpoint(breakpoint: Option<u16>, enable_soft_break: bool) -> (cpu: Cpu)
        ensures
            cpu == (Cpu {
                breakpoint: (match breakpoint {
                    Some(b) => b,
                    None => 0xFFFF,
                }),
                enable_soft_break,
                ..Cpu::default_spec()
            }),
    {
        let bp = match breakpoint {
            Some(b) => b,
            None => 0xFFFF,
        };
        let mut cpu = Self::default();
        cpu.breakpoint = bp;
        cpu.enable_soft_break = enable_soft_break;
        cpu
    }

    /// The power-on state, as a spec value.
    pub open spec fn default_spec() -> Cpu {
        Cpu {
            regs: Registers {
                a: 0,
                b: 0,
                c: 0,
                d: 0,
                e: 0,
                h: 0,
                l: 0,
                zf: false,
                nf: false,
                hf: false,
                cf: false,
            },
            sp: 0,
            pc: 0,
            halted: false,
            ime: true,
            breakpoint: 0xFFFF,
            paused: false,
            enable_soft_break: false,
            halt_bug: false,
        }
    }

    /// Whether the CPU is stopped on a breakpoint.
    pub fn is_paused(&self) -> (paused: bool)
        ensures
            paused == self.paused,
    {
        self.paused
    }

    /// Sets or clears the debug pause flag.
    pub fn set_pause(&mut self, pause: bool)
        ensures
            *final(self) == (Cpu { paused: pause, ..*old(self) }),
    {
        self.paused = pause;
    }

    /// Moves the breakpoint address.
    pub fn set_breakpoint(&mut self, breakpoint: u16)
        ensures
            *final(self) == (Cpu { breakpoint, ..*old(self) }),
    {
        self.breakpoint = breakpoint;
    }

    /// Whether the CPU is halted, waiting for an interrupt.
    pub fn halted(&self) -> (halted: bool)
        ensures
            halted == self.halted,
    {
        self.halted
    }
}


//
// Instruction semantics, value level.
//
// Each spec function below is the exact meaning of one ALU / rotate / shift
// family from the opcode tables: the new register file, all four flags
// included. The executable helpers mirror them one for one.
//

/// ADD / ADC: A plus an operand plus an optional carry-in.
/// Z from the 8-bit result, N clear, H from bit 3, C from bit 7.
pub open spec fn spec_adc_regs(r: Registers, v: u8, carry_in: bool) -> Registers {
    let cin: int = if carry_in { 1 } else { 0 };
    let total: int = r.a + v + cin;
    let res: u8 = (total % 256) as u8;
    Registers {
        a: res,
        zf: res == 0,
        nf: false,
        hf: (r.a & 0x0F) + (v & 0x0F) + cin > 0x0F,
        cf: total > 0xFF,
        ..r
    }
}

/// SUB / SBC: A minus an operand minus an optional borrow-in.
/// Z from the 8-bit result, N set, H from the low nibbles, C is the borrow.
pub open spec fn spec_sbc_regs(r: Registers, v: u8, carry_in: bool) -> Registers {
    let cin: int = if carry_in { 1 } else { 0 };
    let res: u8 = ((256 + r.a - v - cin) % 256) as u8;
    Registers {
        a: res,
        zf: res == 0,
        nf: true,
        hf: (r.a & 0x0F) < (v & 0x0F) + cin,
        cf: v + cin > r.a,
        ..r
    }
}

/// CP: the flags of `SUB` without the half-borrow carry-in and with A kept.
pub open spec fn spec_cp_regs(r: Registers, v: u8) -> Registers {
    let res: u8 = ((256 + r.a - v) % 256) as u8;
    Registers {
        zf: res == 0,
        nf: true,
        hf: (r.a & 0x0F) < (v & 0x0F),
        cf: v > r.a,
        ..r
    }
}

/// AND: Z from the result, N clear, H set, C clear.
pub open spec fn spec_and_regs(r: Registers, v: u8) -> Registers {
    let res: u8 = r.a & v;
    Registers { a: res, zf: res == 0, nf: false, hf: true, cf: false, ..r }
}

/// OR: Z from the result, N, H and C clear.
pub open spec fn spec_or_regs(r: Registers, v: u8) -> Registers {
    let res: u8 = r.a | v;
    Registers { a: res, zf: res == 0, nf: false, hf: false, cf: false, ..r }
}

/// XOR: Z from the result, N, H and C clear.
pub open spec fn spec_xor_regs(r: Registers, v: u8) -> Registers {
    let res: u8 = r.a ^ v;
    Registers { a: res, zf: res == 0, nf: false, hf: false, cf: false, ..r }
}

/// INC (8-bit): value plus one; H exactly when the low nibble was 0xF;
/// C untouched.
pub open spec fn spec_inc_val(v: u8) -> u8 {
    ((v + 1) % 256) as u8
}

pub open spec fn spec_inc_flags(r: Registers, v: u8) -> Registers {
    Registers { zf: spec_inc_val(v) == 0, nf: false, hf: v & 0x0F == 0x0F, ..r }
}

/// DEC (8-bit): value minus one; H exactly when the low nibble was 0x0;
/// C untouched.
pub open spec fn spec_dec_val(v: u8) -> u8 {
    ((256 + v - 1) % 256) as u8
}

pub open spec fn spec_dec_flags(r: Registers, v: u8) -> Registers {
    Registers { zf: spec_dec_val(v) == 0, nf: true, hf: v & 0x0F == 0, ..r }
}

/// RLC: rotate left; C is the bit that moved from position 7 to position 0.
pub open spec fn spec_rlc_val(v: u8) -> u8 {
    (v << 1) | (v >> 7)
}

/// RRC: rotate right; C is the bit that moved from position 0 to position 7.
pub open spec fn spec_rrc_val(v: u8) -> u8 {
    (v >> 1) | (v << 7)
}

/// RL: rotate left through carry: C enters at bit 0, bit 7 leaves into C.
pub open spec fn spec_rl_val(v: u8, carry: bool) -> u8 {
    (v << 1) | (if carry { 1u8 } else { 0u8 })
}

/// RR: rotate right through carry: C enters at bit 7, bit 0 leaves into C.
pub open spec fn spec_rr_val(v: u8, carry: bool) -> u8 {
    (v >> 1) | (if carry { 0x80u8 } else { 0u8 })
}

/// SLA: shift left, bit 7 into C, bit 0 cleared.
pub open spec fn spec_sla_val(v: u8) -> u8 {
    v << 1
}

/// SRA: shift right, bit 0 into C, bit 7 kept.
pub open spec fn spec_sra_val(v: u8) -> u8 {
    (v >> 1) | (v & 0x80)
}

/// SRL: shift right, bit 0 into C, bit 7 cleared.
pub open spec fn spec_srl_val(v: u8) -> u8 {
    v >> 1
}

/// SWAP: exchange the two nibbles.
pub open spec fn spec_swap_val(v: u8) -> u8 {
    (v >> 4) | (v << 4)
}

/// The flags every CB-prefixed rotate and shift writes: Z from the result,
/// N and H clear, C the shifted-out bit.
pub open spec fn spec_rot_flags(r: Registers, res: u8, carry: bool) -> Registers {
    Registers { zf: res == 0, nf: false, hf: false, cf: carry, ..r }
}

/// The carry bit a CB rotate or shift pushes out of the value.
pub open spec fn spec_rot_carry(v: u8, right: bool) -> bool {
    if right {
        v & 0x01 != 0
    } else {
        v & 0x80 != 0
    }
}

/// BIT n: Z is the complement of the tested bit, N clear, H set, C kept.
/// The operand itself is never written.
pub open spec fn spec_bit_flags(r: Registers, n: u8, v: u8) -> Registers {
    Registers { zf: v & (1u8 << n) == 0, nf: false, hf: true, ..r }
}

/// RES n: clear one bit, flags untouched.
pub open spec fn spec_res_val(v: u8, n: u8) -> u8 {
    v & !(1u8 << n)
}

/// SET n: set one bit, flags untouched.
pub open spec fn spec_set_val(v: u8, n: u8) -> u8 {
    v | (1u8 << n)
}

/// CPL: complement A; N and H set, Z and C kept.
pub open spec fn spec_cpl_regs(r: Registers) -> Registers {
    Registers { a: !r.a, nf: true, hf: true, ..r }
}

/// DAA: the BCD correction added to (N clear) or subtracted from (N set) A,
/// built from the incoming C and H flags and, after an addition, from the
/// nibbles of A.
pub open spec fn spec_daa_adjust(r: Registers) -> u8 {
    if !r.nf {
        let lo: u8 = if r.hf || r.a & 0x0F > 0x09 { 0x06 } else { 0 };
        let hi: u8 = if r.cf || r.a > 0x99 { 0x60 } else { 0 };
        (hi + lo) as u8
    } else {
        let lo: u8 = if r.hf { 0x06u8 } else { 0 };
        let hi: u8 = if r.cf { 0x60u8 } else { 0 };
        (hi + lo) as u8
    }
}

/// DAA: corrected A, C set exactly when the correction reached 0x60,
/// H cleared, Z from the result, N kept.
pub open spec fn spec_daa_regs(r: Registers) -> Registers {
    let adjust = spec_daa_adjust(r);
    let res: u8 = if !r.nf {
        ((r.a + adjust) % 256) as u8
    } else {
        ((256 + r.a - adjust) % 256) as u8
    };
    Registers { a: res, zf: res == 0, hf: false, cf: adjust >= 0x60, ..r }
}

/// ADD HL,rr / ADD HL,SP: 16-bit add into a pair; Z kept, N clear,
/// H from bit 11, C from bit 15.
pub open spec fn spec_add16_regs(r: Registers, rt: RegPair, v: u16) -> Registers {
    let reg = spec_get_pair(r, rt);
    let sum: u16 = ((reg + v) % 0x10000) as u16;
    let written = spec_set_pair(r, rt, sum);
    Registers {
        nf: false,
        hf: (reg & 0x0FFF) + (v & 0x0FFF) > 0x0FFF,
        cf: reg + v > 0xFFFF,
        ..written
    }
}

/// An 8-bit immediate sign-extended to 16 bits, as `ADD SP,r8` and
/// `LD HL,SP+r8` read it.
pub open spec fn spec_sign_extend(b: u8) -> u16 {
    if b < 0x80 {
        b as u16
    } else {
        (0xFF00 + b) as u16
    }
}

/// ADD SP,r8 and LD HL,SP+r8: the 16-bit sum and its flags — Z and N clear,
/// H and C from the unsigned byte addition of the low bits.
pub open spec fn spec_addsp_sum(sp: u16, off: u16) -> u16 {
    ((sp + off) % 0x10000) as u16
}

pub open spec fn spec_addsp_flags(r: Registers, sp: u16, off: u16) -> Registers {
    Registers {
        zf: false,
        nf: false,
        hf: (sp & 0x000F) + (off & 0x000F) > 0x000F,
        cf: (sp & 0x00FF) + (off & 0x00FF) > 0x00FF,
        ..r
    }
}

impl Cpu {
    /// A <- A ^ v; Z from the result, the other flags cleared.
    fn xor(&mut self, v: u8) -> (cycles: u8)
        ensures
            *final(self) == (Cpu { regs: spec_xor_regs(old(self).regs, v), ..*old(self) }),
            cycles == 4,
    {
        let new_a = self.regs.a ^ v;
        self.regs.a = new_a;
        self.regs.zf = new_a == 0;
        self.regs.nf = false;
        self.regs.hf = false;
        self.regs.cf = false;
        4
    }

    /// A <- A & v; Z from the result, N clear, H set, C clear.
    fn and(&mut self, v: u8) -> (cycles: u8)
        ensures
            *final(self) == (Cpu { regs: spec_and_regs(old(self).regs, v), ..*old(self) }),
            cycles == 4,
    {
        let res = self.regs.a & v;
        self.regs.zf = res == 0;
        self.regs.nf = false;
        self.regs.hf = true;
        self.regs.cf = false;
        self.regs.a = res;
        4
    }

    /// A <- A | v; Z from the result, the other flags cleared.
    fn or(&mut self, v: u8) -> (cycles: u8)
        ensures
            *final(self) == (Cpu { regs: spec_or_regs(old(self).regs, v), ..*old(self) }),
            cycles == 4,
    {
        let res = self.regs.a | v;
        self.regs.zf = res == 0;
        self.regs.nf = false;
        self.regs.hf = false;
        self.regs.cf = false;
        self.regs.a = res;
        4
    }

    /// A <- A + v (+ C when `with_carry`); flags per the ADD/ADC row.
    fn adc(&mut self, value: u8, with_carry: bool) -> (cycles: u8)
        ensures
            *final(self) == (Cpu {
                regs: spec_adc_regs(old(self).regs, value, with_carry && old(self).regs.cf),
                ..*old(self)
            }),
            cycles == 8,
    {
        let cin: u8 = if with_carry && self.regs.cf { 1 } else { 0 };
        let total: u16 = self.regs.a as u16 + value as u16 + cin as u16;
        let res: u8 = (total % 256) as u8;
        let half: u16 = (self.regs.a & 0x0F) as u16 + (value & 0x0F) as u16 + cin as u16;
        self.regs.a = res;
        self.regs.zf = res == 0;
        self.regs.nf = false;
        self.regs.cf = total > 0xFF;
        self.regs.hf = half > 0x0F;
        8
    }

    /// A <- A + v, no carry-in.
    fn add(&mut self, value: u8) -> (cycles: u8)
        ensures
            *final(self) == (Cpu {
                regs: spec_adc_regs(old(self).regs, value, false),
                ..*old(self)
            }),
            cycles == 8,
    {
        self.adc(value, false)
    }

    /// A <- A - v (- C when `with_carry`); flags per the SUB/SBC row.
    fn sbc(&mut self, value: u8, with_carry: bool) -> (cycles: u8)
        ensures
            *final(self) == (Cpu {
                regs: spec_sbc_regs(old(self).regs, value, with_carry && old(self).regs.cf),
                ..*old(self)
            }),
            cycles == 8,
    {
        let cin: u8 = if with_carry && self.regs.cf { 1 } else { 0 };
        let lhs: u16 = 0x100 + self.regs.a as u16;
        let rhs: u16 = value as u16 + cin as u16;
        let res: u8 = ((lhs - rhs) % 256) as u8;
        self.regs.zf = res == 0;
        self.regs.nf = true;
        self.regs.cf = rhs > self.regs.a as u16;
        self.regs.hf = ((self.regs.a & 0x0F) as u16) < ((value & 0x0F) as u16 + cin as u16);
        self.regs.a = res;
        8
    }

    /// A <- A - v, no borrow-in.
    fn sub(&mut self, v: u8) -> (cycles: u8)
        ensures
            *final(self) == (Cpu { regs: spec_sbc_regs(old(self).regs, v, false), ..*old(self) }),
            cycles == 4,
    {
        self.sbc(v, false);
        4
    }

    /// CP v: the SUB flags, A kept.
    fn cp(&mut self, value: u8)
        ensures
            *final(self) == (Cpu { regs: spec_cp_regs(old(self).regs, value), ..*old(self) }),
    {
        let res: u8 = ((0x100 + self.regs.a as u16 - value as u16) % 256) as u8;
        self.regs.zf = res == 0;
        self.regs.nf = true;
        self.regs.cf = value > self.regs.a;
        self.regs.hf = (self.regs.a & 0x0F) < (value & 0x0F);
    }

    /// INC helper: returns v + 1 and writes Z, N and H; C is untouched.
    pub fn inc_value_and_set_flags(&mut self, v: u8) -> (res: u8)
        ensures
            res == spec_inc_val(v),
            *final(self) == (Cpu { regs: spec_inc_flags(old(self).regs, v), ..*old(self) }),
    {
        let new_v: u8 = ((v as u16 + 1) % 256) as u8;
        self.regs.zf = new_v == 0;
        self.regs.nf = false;
        self.regs.hf = v & 0x0F == 0x0F;
        new_v
    }

    /// DEC helper: returns v - 1 and writes Z, N and H; C is untouched.
    pub fn dec_value_and_set_flags(&mut self, v: u8) -> (res: u8)
        ensures
            res == spec_dec_val(v),
            *final(self) == (Cpu { regs: spec_dec_flags(old(self).regs, v), ..*old(self) }),
    {
        let new_v: u8 = ((0x100 + v as u16 - 1) % 256) as u8;
        self.regs.zf = new_v == 0;
        self.regs.nf = true;
        self.regs.hf = v & 0x0F == 0;
        new_v
    }

    /// RL core: rotate through carry, write the rotate flags.
    fn rl(&mut self, v: u8) -> (res: u8)
        ensures
            res == spec_rl_val(v, old(self).regs.cf),
            *final(self) == (Cpu {
                regs: spec_rot_flags(old(self).regs, spec_rl_val(v, old(self).regs.cf),
                    spec_rot_carry(v, false)),
                ..*old(self)
            }),
    {
        let res = (v << 1) | (if self.regs.cf { 1u8 } else { 0u8 });
        let new_c = v & 0x80 != 0;
        self.regs.zf = res == 0;
        self.regs.nf = false;
        self.regs.hf = false;
        self.regs.cf = new_c;
        res
    }

    /// RR core: rotate through carry, write the rotate flags.
    fn rr(&mut self, v: u8) -> (res: u8)
        ensures
            res == spec_rr_val(v, old(self).regs.cf),
            *final(self) == (Cpu {
                regs: spec_rot_flags(old(self).regs, spec_rr_val(v, old(self).regs.cf),
                    spec_rot_carry(v, true)),
                ..*old(self)
            }),
    {
        let res = (v >> 1) | (if self.regs.cf { 0x80u8 } else { 0u8 });
        let new_c = v & 0x01 != 0;
        self.regs.zf = res == 0;
        self.regs.nf = false;
        self.regs.hf = false;
        self.regs.cf = new_c;
        res
    }

    /// RLC core.
    fn rlc(&mut self, v: u8) -> (res: u8)
        ensures
            res == spec_rlc_val(v),
            *final(self) == (Cpu {
                regs: spec_rot_flags(old(self).regs, spec_rlc_val(v), spec_rot_carry(v, false)),
                ..*old(self)
            }),
    {
        let res = (v << 1) | (v >> 7);
        self.regs.zf = res == 0;
        self.regs.nf = false;
        self.regs.hf = false;
        self.regs.cf = v & 0x80 != 0;
        res
    }

    /// RRC core.
    fn rrc(&mut self, v: u8) -> (res: u8)
        ensures
            res == spec_rrc_val(v),
            *final(self) == (Cpu {
                regs: spec_rot_flags(old(self).regs, spec_rrc_val(v), spec_rot_carry(v, true)),
                ..*old(self)
            }),
    {
        let res = (v >> 1) | (v << 7);
        self.regs.zf = res == 0;
        self.regs.nf = false;
        self.regs.hf = false;
        self.regs.cf = v & 0x01 != 0;
        res
    }

    /// SLA core.
    fn sla(&mut self, v: u8) -> (res: u8)
        ensures
            res == spec_sla_val(v),
            *final(self) == (Cpu {
                regs: spec_rot_flags(old(self).regs, spec_sla_val(v), spec_rot_carry(v, false)),
                ..*old(self)
            }),
    {
        let res = v << 1;
        self.regs.zf = res == 0;
        self.regs.nf = false;
        self.regs.hf = false;
        self.regs.cf = v & 0x80 != 0;
        res
    }

    /// SRA core.
    fn sra(&mut self, v: u8) -> (res: u8)
        ensures
            res == spec_sra_val(v),
            *final(self) == (Cpu {
                regs: spec_rot_flags(old(self).regs, spec_sra_val(v), spec_rot_carry(v, true)),
                ..*old(self)
            }),
    {
        let res = (v >> 1) | (v & 0x80);
        self.regs.zf = res == 0;
        self.regs.nf = false;
        self.regs.hf = false;
        self.regs.cf = v & 0x01 != 0;
        res
    }

    /// SRL core.
    fn srl_value_and_set_flags(&mut self, v: u8) -> (res: u8)
        ensures
            res == spec_srl_val(v),
            *final(self) == (Cpu {
                regs: spec_rot_flags(old(self).regs, spec_srl_val(v), spec_rot_carry(v, true)),
                ..*old(self)
            }),
    {
        let res = v >> 1;
        self.regs.zf = res == 0;
        self.regs.nf = false;
        self.regs.hf = false;
        self.regs.cf = v & 0x01 != 0;
        res
    }

    /// SWAP core: nibbles exchanged, Z from the result, N, H, C cleared.
    fn swap(&mut self, v: u8) -> (res: u8)
        ensures
            res == spec_swap_val(v),
            *final(self) == (Cpu {
                regs: spec_rot_flags(old(self).regs, spec_swap_val(v), false),
                ..*old(self)
            }),
    {
        let res = (v >> 4) | (v << 4);
        self.regs.zf = res == 0;
        self.regs.nf = false;
        self.regs.hf = false;
        self.regs.cf = false;
        res
    }

    /// BIT n of a value: only the flags change.
    fn bit_n_value(&mut self, n: u8, value: u8) -> (cycles: u8)
        requires
            n < 8,
        ensures
            *final(self) == (Cpu { regs: spec_bit_flags(old(self).regs, n, value), ..*old(self) }),
            cycles == 8,
    {
        self.regs.zf = value & (1u8 << n) == 0;
        self.regs.nf = false;
        self.regs.hf = true;
        8
    }

    /// CPL: complement A, set N and H.
    fn cpl(&mut self) -> (cycles: u8)
        ensures
            *final(self) == (Cpu { regs: spec_cpl_regs(old(self).regs), ..*old(self) }),
            cycles == 8,
    {
        self.regs.a = !self.regs.a;
        self.regs.nf = true;
        self.regs.hf = true;
        8
    }

    /// DAA: correct A back to packed BCD after an 8-bit add or subtract.
    fn daa(&mut self) -> (cycles: u8)
        ensures
            *final(self) == (Cpu { regs: spec_daa_regs(old(self).regs), ..*old(self) }),
            cycles == 4,
    {
        let a = self.regs.a;
        let adjust: u8 = if !self.regs.nf {
            let lo: u8 = if self.regs.hf || a & 0x0F > 0x09 { 0x06 } else { 0 };
            let hi: u8 = if self.regs.cf || a > 0x99 { 0x60 } else { 0 };
            hi + lo
        } else {
            let lo: u8 = if self.regs.hf { 0x06 } else { 0 };
            let hi: u8 = if self.regs.cf { 0x60 } else { 0 };
            hi + lo
        };
        let res: u8 = if !self.regs.nf {
            ((a as u16 + adjust as u16) % 256) as u8
        } else {
            ((0x100 + a as u16 - adjust as u16) % 256) as u8
        };
        self.regs.cf = adjust >= 0x60;
        self.regs.hf = false;
        self.regs.zf = res == 0;
        self.regs.a = res;
        4
    }

    /// ADD rr,v: 16-bit add into a register pair.
    fn add_rr_rr(&mut self, rt: RegPair, v: u16) -> (cycles: u8)
        ensures
            *final(self) == (Cpu { regs: spec_add16_regs(old(self).regs, rt, v), ..*old(self) }),
            cycles == 8,
    {
        let reg = self.regs.get_pair(rt);
        let total: u32 = reg as u32 + v as u32;
        let sum: u16 = (total % 0x10000) as u16;
        let half: u32 = (reg & 0x0FFF) as u32 + (v & 0x0FFF) as u32;
        self.regs.set_pair(rt, sum);
        self.regs.cf = total > 0xFFFF;
        self.regs.nf = false;
        self.regs.hf = half > 0x0FFF;
        8
    }
}


//
// Fetching, addressing and control flow.
//

use crate::bus::{Bus, spec_wrap16, spec_word_at, spec_write_word};
use crate::interrupt::{Interrupt, spec_mask, spec_pick, spec_vector};

/// PC after one fetch: unchanged while the HALT-bug latch is armed, else
/// advanced by one, wrapping.
pub open spec fn spec_fetch_pc(c: Cpu) -> u16 {
    if c.halt_bug {
        c.pc
    } else {
        spec_wrap16(c.pc + 1)
    }
}

/// PC after fetching a two-byte operand.
pub open spec fn spec_fetch2_pc(c: Cpu) -> u16 {
    if c.halt_bug {
        spec_wrap16(c.pc + 1)
    } else {
        spec_wrap16(c.pc + 2)
    }
}

/// The little-endian 16-bit operand two fetches read. With the HALT-bug
/// latch armed the first fetch does not advance PC, so the same byte is
/// read twice.
pub open spec fn spec_fetch2_val(c: Cpu, mem: Map<u16, u8>) -> u16 {
    if c.halt_bug {
        spec_pack(mem[c.pc], mem[c.pc])
    } else {
        spec_pack(mem[spec_wrap16(c.pc + 1)], mem[c.pc])
    }
}

/// The address held in HL.
pub open spec fn spec_hl(r: Registers) -> u16 {
    spec_pack(r.h, r.l)
}

/// The byte operand following the opcode `step` is about to execute.
pub open spec fn spec_imm8(c: Cpu, mem: Map<u16, u8>) -> u8 {
    mem[spec_fetch_pc(c)]
}

/// The little-endian word operand following the opcode `step` is about to
/// execute.
pub open spec fn spec_imm16(c: Cpu, mem: Map<u16, u8>) -> u16 {
    spec_pack(mem[spec_wrap16(spec_fetch_pc(c) + 1)], mem[spec_fetch_pc(c)])
}

/// PC after the opcode and the given number of operand bytes.
pub open spec fn spec_pc_after(c: Cpu, operands: int) -> u16 {
    spec_wrap16(spec_fetch_pc(c) + operands)
}

impl Cpu {
    /// Reads the byte at PC. PC advances by one, except that an armed
    /// HALT-bug latch suppresses the advance once, so the byte will be
    /// read again.
    fn fetch<B: Bus>(&mut self, bus: &B) -> (op: u8)
        requires
            bus.inv(),
        ensures
            op == bus.mem()[old(self).pc],
            *final(self) == (Cpu { pc: spec_fetch_pc(*old(self)), halt_bug: false, ..*old(self) }),
    {
        let byte = bus.read_byte(self.pc);
        if self.halt_bug {
            self.halt_bug = false;
        } else {
            self.pc = self.pc.wrapping_add(1);
        }
        byte
    }

    /// Reads a little-endian two-byte operand at PC.
    fn fetch_word<B: Bus>(&mut self, bus: &B) -> (w: u16)
        requires
            bus.inv(),
        ensures
            w == spec_fetch2_val(*old(self), bus.mem()),
            *final(self) == (Cpu { pc: spec_fetch2_pc(*old(self)), halt_bug: false, ..*old(self) }),
    {
        let lsb = self.fetch(bus);
        let msb = self.fetch(bus);
        crate::cpu::register::pack(msb, lsb)
    }

    /// Pushes a word: SP moves down by two, then the word is stored
    /// little-endian at the new SP.
    pub fn push_word<B: Bus>(&mut self, bus: &mut B, word: u16)
        requires
            old(bus).inv(),
        ensures
            final(bus).inv(),
            *final(self) == (Cpu { sp: spec_wrap16(old(self).sp - 2), ..*old(self) }),
            final(bus).mem() == spec_write_word(old(bus).mem(), spec_wrap16(old(self).sp - 2),
                word),
            final(bus).ie() == old(bus).ie(),
            final(bus).iflag() == old(bus).iflag(),
    {
        self.sp = self.sp.wrapping_sub(2);
        bus.write_word(self.sp, word);
    }

    /// Pops a word: reads little-endian at SP, then SP moves up by two.
    pub fn pop_word<B: Bus>(&mut self, bus: &B) -> (word: u16)
        requires
            bus.inv(),
        ensures
            word == spec_word_at(bus.mem(), old(self).sp),
            *final(self) == (Cpu { sp: spec_wrap16(old(self).sp + 2), ..*old(self) }),
    {
        let word = bus.read_word(self.sp);
        self.sp = self.sp.wrapping_add(2);
        word
    }

    /// LD r,d8.
    fn ld_r_d8<B: Bus>(&mut self, bus: &B, reg: Reg) -> (cycles: u8)
        requires
            bus.inv(),
        ensures
            *final(self) == (Cpu {
                regs: spec_set(old(self).regs, reg, bus.mem()[old(self).pc]),
                pc: spec_fetch_pc(*old(self)),
                halt_bug: false,
                ..*old(self)
            }),
            cycles == 8,
    {
        let d8 = self.fetch(bus);
        self.regs.set(reg, d8);
        8
    }

    /// LD (HL),d8.
    fn ld_hl_d8<B: Bus>(&mut self, bus: &mut B) -> (cycles: u8)
        requires
            old(bus).inv(),
        ensures
            final(bus).inv(),
            *final(self) == (Cpu {
                pc: spec_fetch_pc(*old(self)),
                halt_bug: false,
                ..*old(self)
            }),
            final(bus).mem() == old(bus).mem().insert(spec_hl(old(self).regs),
                old(bus).mem()[old(self).pc]),
            final(bus).ie() == old(bus).ie(),
            final(bus).iflag() == old(bus).iflag(),
            cycles == 12,
    {
        let d8 = self.fetch(bus);
        bus.write_byte(self.regs.get_pair(RegPair::HL), d8);
        12
    }

    /// LD r,r. With the soft-break hook enabled, `LD B,B` also pauses.
    fn ld_r_r(&mut self, rt: Reg, rs: Reg) -> (cycles: u8)
        ensures
            *final(self) == (Cpu {
                regs: spec_set(old(self).regs, rt, spec_get(old(self).regs, rs)),
                paused: old(self).paused || (old(self).enable_soft_break && rt == Reg::B && rs
                    == Reg::B),
                ..*old(self)
            }),
            cycles == 4,
    {
        if self.enable_soft_break && rt == Reg::B && rs == Reg::B {
            self.paused = true;
        }
        let v = self.regs.get(rs);
        self.regs.set(rt, v);
        4
    }

    /// LD rr,d16.
    fn ld_rr_d16<B: Bus>(&mut self, bus: &B, reg: RegPair) -> (cycles: u8)
        requires
            bus.inv(),
        ensures
            *final(self) == (Cpu {
                regs: spec_set_pair(old(self).regs, reg, spec_fetch2_val(*old(self), bus.mem())),
                pc: spec_fetch2_pc(*old(self)),
                halt_bug: false,
                ..*old(self)
            }),
            cycles == 12,
    {
        let d16 = self.fetch_word(bus);
        self.regs.set_pair(reg, d16);
        12
    }

    /// LD r,(rr).
    fn ld_r_addr<B: Bus>(&mut self, bus: &B, r: Reg, rr: RegPair) -> (cycles: u8)
        requires
            bus.inv(),
        ensures
            *final(self) == (Cpu {
                regs: spec_set(old(self).regs, r, bus.mem()[spec_get_pair(old(self).regs, rr)]),
                ..*old(self)
            }),
            cycles == 8,
    {
        let addr = self.regs.get_pair(rr);
        let v = bus.read_byte(addr);
        self.regs.set(r, v);
        8
    }

    /// LD (rr),r.
    fn ld_addr_r<B: Bus>(&mut self, bus: &mut B, rr: RegPair, r: Reg) -> (cycles: u8)
        requires
            old(bus).inv(),
        ensures
            final(bus).inv(),
            *final(self) == *old(self),
            final(bus).mem() == old(bus).mem().insert(spec_get_pair(old(self).regs, rr),
                spec_get(old(self).regs, r)),
            final(bus).ie() == old(bus).ie(),
            final(bus).iflag() == old(bus).iflag(),
            cycles == 8,
    {
        let addr = self.regs.get_pair(rr);
        let v = self.regs.get(r);
        bus.write_byte(addr, v);
        8
    }

    /// LD (a16),r.
    fn ld_a16_r<B: Bus>(&mut self, bus: &mut B, r: Reg) -> (cycles: u8)
        requires
            old(bus).inv(),
        ensures
            final(bus).inv(),
            *final(self) == (Cpu {
                pc: spec_fetch2_pc(*old(self)),
                halt_bug: false,
                ..*old(self)
            }),
            final(bus).mem() == old(bus).mem().insert(spec_fetch2_val(*old(self), old(bus).mem()),
                spec_get(old(self).regs, r)),
            final(bus).ie() == old(bus).ie(),
            final(bus).iflag() == old(bus).iflag(),
            cycles == 16,
    {
        let addr = self.fetch_word(bus);
        let v = self.regs.get(r);
        bus.write_byte(addr, v);
        16
    }

    /// LD r,(a16).
    fn ld_r_a16<B: Bus>(&mut self, bus: &B, r: Reg) -> (cycles: u8)
        requires
            bus.inv(),
        ensures
            *final(self) == (Cpu {
                regs: spec_set(old(self).regs, r, bus.mem()[spec_fetch2_val(*old(self),
                    bus.mem())]),
                pc: spec_fetch2_pc(*old(self)),
                halt_bug: false,
                ..*old(self)
            }),
            cycles == 16,
    {
        let addr = self.fetch_word(bus);
        let byte = bus.read_byte(addr);
        self.regs.set(r, byte);
        16
    }

    /// LD HL,SP+r8: like ADD SP,r8 but the sum lands in HL and SP is kept.
    fn ld_hl_sp_r8<B: Bus>(&mut self, bus: &B) -> (cycles: u8)
        requires
            bus.inv(),
        ensures
            *final(self) == (Cpu {
                regs: spec_set_pair(spec_addsp_flags(old(self).regs, old(self).sp,
                    spec_sign_extend(bus.mem()[old(self).pc])), RegPair::HL,
                    spec_addsp_sum(old(self).sp, spec_sign_extend(bus.mem()[old(self).pc]))),
                pc: spec_fetch_pc(*old(self)),
                halt_bug: false,
                ..*old(self)
            }),
            cycles == 12,
    {
        let b = self.fetch(bus);
        let off: u16 = if b < 0x80 {
            b as u16
        } else {
            0xFF00 + b as u16
        };
        let sum: u16 = ((self.sp as u32 + off as u32) % 0x10000) as u16;
        self.regs.zf = false;
        self.regs.nf = false;
        self.regs.hf = (self.sp & 0x000F) as u32 + (off & 0x000F) as u32 > 0x000F;
        self.regs.cf = (self.sp & 0x00FF) as u32 + (off & 0x00FF) as u32 > 0x00FF;
        self.regs.set_pair(RegPair::HL, sum);
        12
    }

    /// ADD SP,r8: signed immediate added to SP; Z and N clear, H and C from
    /// the low byte addition.
    fn add_sp_r8<B: Bus>(&mut self, bus: &B) -> (cycles: u8)
        requires
            bus.inv(),
        ensures
            *final(self) == (Cpu {
                regs: spec_addsp_flags(old(self).regs, old(self).sp,
                    spec_sign_extend(bus.mem()[old(self).pc])),
                sp: spec_addsp_sum(old(self).sp, spec_sign_extend(bus.mem()[old(self).pc])),
                pc: spec_fetch_pc(*old(self)),
                halt_bug: false,
                ..*old(self)
            }),
            cycles == 16,
    {
        let b = self.fetch(bus);
        let off: u16 = if b < 0x80 {
            b as u16
        } else {
            0xFF00 + b as u16
        };
        let sum: u16 = ((self.sp as u32 + off as u32) % 0x10000) as u16;
        self.regs.zf = false;
        self.regs.nf = false;
        self.regs.hf = (self.sp & 0x000F) as u32 + (off & 0x000F) as u32 > 0x000F;
        self.regs.cf = (self.sp & 0x00FF) as u32 + (off & 0x00FF) as u32 > 0x00FF;
        self.sp = sum;
        16
    }

    /// JR cc,r8: a signed relative jump, taken when `flag` holds.
    fn jr_if_r8<B: Bus>(&mut self, bus: &B, flag: bool) -> (cycles: u8)
        requires
            bus.inv(),
        ensures
            *final(self) == (Cpu {
                pc: if flag {
                    spec_wrap16(spec_fetch_pc(*old(self))
                        + spec_sign_extend(bus.mem()[old(self).pc]))
                } else {
                    spec_fetch_pc(*old(self))
                },
                halt_bug: false,
                ..*old(self)
            }),
            cycles == (if flag { 12u8 } else { 8u8 }),
    {
        let b = self.fetch(bus);
        let off: u16 = if b < 0x80 {
            b as u16
        } else {
            0xFF00 + b as u16
        };
        if flag {
            self.pc = self.pc.wrapping_add(off);
            12
        } else {
            8
        }
    }

    /// JP cc,a16: an absolute jump, taken when `flag` holds.
    fn jp_if_a16<B: Bus>(&mut self, bus: &B, flag: bool) -> (cycles: u8)
        requires
            bus.inv(),
        ensures
            *final(self) == (Cpu {
                pc: if flag {
                    spec_fetch2_val(*old(self), bus.mem())
                } else {
                    spec_fetch2_pc(*old(self))
                },
                halt_bug: false,
                ..*old(self)
            }),
            cycles == (if flag { 16u8 } else { 12u8 }),
    {
        let a16 = self.fetch_word(bus);
        if flag {
            self.pc = a16;
            16
        } else {
            12
        }
    }

    /// JP HL.
    fn jp_hl(&mut self) -> (cycles: u8)
        ensures
            *final(self) == (Cpu { pc: spec_hl(old(self).regs), ..*old(self) }),
            cycles == 4,
    {
        self.pc = self.regs.get_pair(RegPair::HL);
        4
    }

    /// Pushes the return address and jumps.
    fn call<B: Bus>(&mut self, bus: &mut B, addr: u16)
        requires
            old(bus).inv(),
        ensures
            final(bus).inv(),
            *final(self) == (Cpu {
                sp: spec_wrap16(old(self).sp - 2),
                pc: addr,
                ..*old(self)
            }),
            final(bus).mem() == spec_write_word(old(bus).mem(), spec_wrap16(old(self).sp - 2),
                old(self).pc),
            final(bus).ie() == old(bus).ie(),
            final(bus).iflag() == old(bus).iflag(),
    {
        let pc = self.pc;
        self.push_word(bus, pc);
        self.pc = addr;
    }

    /// CALL cc,a16: reads the target, then calls when `flag` holds.
    fn call_if_a16<B: Bus>(&mut self, bus: &mut B, flag: bool) -> (cycles: u8)
        requires
            old(bus).inv(),
        ensures
            final(bus).inv(),
            final(bus).ie() == old(bus).ie(),
            final(bus).iflag() == old(bus).iflag(),
            flag ==> *final(self) == (Cpu {
                sp: spec_wrap16(old(self).sp - 2),
                pc: spec_fetch2_val(*old(self), old(bus).mem()),
                halt_bug: false,
                ..*old(self)
            }) && final(bus).mem() == spec_write_word(old(bus).mem(),
                spec_wrap16(old(self).sp - 2), spec_fetch2_pc(*old(self))),
            !flag ==> *final(self) == (Cpu {
                pc: spec_fetch2_pc(*old(self)),
                halt_bug: false,
                ..*old(self)
            }) && final(bus).mem() == old(bus).mem(),
            cycles == (if flag { 24u8 } else { 12u8 }),
    {
        let addr = self.fetch_word(bus);
        if flag {
            self.call(bus, addr);
            24
        } else {
            12
        }
    }

    /// RET cc: pops the return address when `flag` holds.
    fn ret_if<B: Bus>(&mut self, bus: &B, flag: bool) -> (cycles: u8)
        requires
            bus.inv(),
        ensures
            flag ==> *final(self) == (Cpu {
                sp: spec_wrap16(old(self).sp + 2),
                pc: spec_word_at(bus.mem(), old(self).sp),
                ..*old(self)
            }),
            !flag ==> *final(self) == *old(self),
            cycles == (if flag { 20u8 } else { 8u8 }),
    {
        if flag {
            self.pc = self.pop_word(bus);
            20
        } else {
            8
        }
    }

    /// RST: a one-byte call to a fixed low address.
    fn rst<B: Bus>(&mut self, bus: &mut B, vec: u8) -> (cycles: u8)
        requires
            old(bus).inv(),
        ensures
            final(bus).inv(),
            *final(self) == (Cpu {
                sp: spec_wrap16(old(self).sp - 2),
                pc: vec as u16,
                ..*old(self)
            }),
            final(bus).mem() == spec_write_word(old(bus).mem(), spec_wrap16(old(self).sp - 2),
                old(self).pc),
            final(bus).ie() == old(bus).ie(),
            final(bus).iflag() == old(bus).iflag(),
            cycles == 16,
    {
        self.call(bus, vec as u16);
        16
    }

    /// PUSH rr.
    fn push_rr<B: Bus>(&mut self, bus: &mut B, rr: RegPair) -> (cycles: u8)
        requires
            old(bus).inv(),
        ensures
            final(bus).inv(),
            *final(self) == (Cpu { sp: spec_wrap16(old(self).sp - 2), ..*old(self) }),
            final(bus).mem() == spec_write_word(old(bus).mem(), spec_wrap16(old(self).sp - 2),
                spec_get_pair(old(self).regs, rr)),
            final(bus).ie() == old(bus).ie(),
            final(bus).iflag() == old(bus).iflag(),
            cycles == 16,
    {
        let w = self.regs.get_pair(rr);
        self.push_word(bus, w);
        16
    }

    /// POP rr; a pop into AF drops the low nibble of the flag byte.
    fn pop_rr<B: Bus>(&mut self, bus: &B, rr: RegPair) -> (cycles: u8)
        requires
            bus.inv(),
        ensures
            *final(self) == (Cpu {
                regs: spec_set_pair(old(self).regs, rr, spec_word_at(bus.mem(), old(self).sp)),
                sp: spec_wrap16(old(self).sp + 2),
                ..*old(self)
            }),
            cycles == 12,
    {
        let word = self.pop_word(bus);
        self.regs.set_pair(rr, word);
        12
    }
}


/// RLA/RLCA/RRA/RRCA: the CB rotate applied to A, except that Z is always
/// cleared afterwards.
pub open spec fn spec_rla_regs(r: Registers) -> Registers {
    let res = spec_rl_val(r.a, r.cf);
    Registers { zf: false, ..spec_set(spec_rot_flags(r, res, spec_rot_carry(r.a, false)), Reg::A, res) }
}

pub open spec fn spec_rra_regs(r: Registers) -> Registers {
    let res = spec_rr_val(r.a, r.cf);
    Registers { zf: false, ..spec_set(spec_rot_flags(r, res, spec_rot_carry(r.a, true)), Reg::A, res) }
}

pub open spec fn spec_rlca_regs(r: Registers) -> Registers {
    let res = spec_rlc_val(r.a);
    Registers { zf: false, ..spec_set(spec_rot_flags(r, res, spec_rot_carry(r.a, false)), Reg::A, res) }
}

pub open spec fn spec_rrca_regs(r: Registers) -> Registers {
    let res = spec_rrc_val(r.a);
    Registers { zf: false, ..spec_set(spec_rot_flags(r, res, spec_rot_carry(r.a, true)), Reg::A, res) }
}

impl Cpu {
    /// XOR r.
    pub fn xor_r(&mut self, reg: Reg) -> (cycles: u8)
        ensures
            *final(self) == (Cpu {
                regs: spec_xor_regs(old(self).regs, spec_get(old(self).regs, reg)),
                ..*old(self)
            }),
            cycles == 4,
    {
        let v = self.regs.get(reg);
        self.xor(v)
    }

    /// AND r.
    pub fn and_r(&mut self, reg: Reg) -> (cycles: u8)
        ensures
            *final(self) == (Cpu {
                regs: spec_and_regs(old(self).regs, spec_get(old(self).regs, reg)),
                ..*old(self)
            }),
            cycles == 4,
    {
        let v = self.regs.get(reg);
        self.and(v)
    }

    /// OR r.
    pub fn or_r(&mut self, reg: Reg) -> (cycles: u8)
        ensures
            *final(self) == (Cpu {
                regs: spec_or_regs(old(self).regs, spec_get(old(self).regs, reg)),
                ..*old(self)
            }),
            cycles == 4,
    {
        let v = self.regs.get(reg);
        self.or(v)
    }

    /// ADD A,r.
    pub fn add_r(&mut self, reg: Reg) -> (cycles: u8)
        ensures
            *final(self) == (Cpu {
                regs: spec_adc_regs(old(self).regs, spec_get(old(self).regs, reg), false),
                ..*old(self)
            }),
            cycles == 8,
    {
        let v = self.regs.get(reg);
        self.add(v)
    }

    /// ADC A,r.
    pub fn adc_r(&mut self, reg: Reg) -> (cycles: u8)
        ensures
            *final(self) == (Cpu {
                regs: spec_adc_regs(old(self).regs, spec_get(old(self).regs, reg),
                    old(self).regs.cf),
                ..*old(self)
            }),
            cycles == 8,
    {
        let v = self.regs.get(reg);
        self.adc(v, true)
    }

    /// SUB r.
    pub fn sub_r(&mut self, reg: Reg) -> (cycles: u8)
        ensures
            *final(self) == (Cpu {
                regs: spec_sbc_regs(old(self).regs, spec_get(old(self).regs, reg), false),
                ..*old(self)
            }),
            cycles == 4,
    {
        let v = self.regs.get(reg);
        self.sub(v)
    }

    /// SBC A,r.
    pub fn sbc_r(&mut self, reg: Reg) -> (cycles: u8)
        ensures
            *final(self) == (Cpu {
                regs: spec_sbc_regs(old(self).regs, spec_get(old(self).regs, reg),
                    old(self).regs.cf),
                ..*old(self)
            }),
            cycles == 8,
    {
        let v = self.regs.get(reg);
        self.sbc(v, true)
    }

    /// CP r.
    pub fn cp_r(&mut self, reg: Reg) -> (cycles: u8)
        ensures
            *final(self) == (Cpu {
                regs: spec_cp_regs(old(self).regs, spec_get(old(self).regs, reg)),
                ..*old(self)
            }),
            cycles == 4,
    {
        let v = self.regs.get(reg);
        self.cp(v);
        4
    }

    /// XOR d8.
    fn xor_d8<B: Bus>(&mut self, bus: &B) -> (cycles: u8)
        requires
            bus.inv(),
        ensures
            *final(self) == (Cpu {
                regs: spec_xor_regs(old(self).regs, bus.mem()[old(self).pc]),
                pc: spec_fetch_pc(*old(self)),
                halt_bug: false,
                ..*old(self)
            }),
            cycles == 8,
    {
        let d8 = self.fetch(bus);
        self.xor(d8);
        8
    }

    /// AND d8.
    fn and_d8<B: Bus>(&mut self, bus: &B) -> (cycles: u8)
        requires
            bus.inv(),
        ensures
            *final(self) == (Cpu {
                regs: spec_and_regs(old(self).regs, bus.mem()[old(self).pc]),
                pc: spec_fetch_pc(*old(self)),
                halt_bug: false,
                ..*old(self)
            }),
            cycles == 8,
    {
        let d8 = self.fetch(bus);
        self.and(d8);
        8
    }

    /// OR d8.
    fn or_d8<B: Bus>(&mut self, bus: &B) -> (cycles: u8)
        requires
            bus.inv(),
        ensures
            *final(self) == (Cpu {
                regs: spec_or_regs(old(self).regs, bus.mem()[old(self).pc]),
                pc: spec_fetch_pc(*old(self)),
                halt_bug: false,
                ..*old(self)
            }),
            cycles == 8,
    {
        let d8 = self.fetch(bus);
        self.or(d8);
        8
    }

    /// ADD d8.
    fn add_d8<B: Bus>(&mut self, bus: &B) -> (cycles: u8)
        requires
            bus.inv(),
        ensures
            *final(self) == (Cpu {
                regs: spec_adc_regs(old(self).regs, bus.mem()[old(self).pc], false),
                pc: spec_fetch_pc(*old(self)),
                halt_bug: false,
                ..*old(self)
            }),
            cycles == 4,
    {
        let d8 = self.fetch(bus);
        self.add(d8);
        4
    }

    /// ADC d8.
    fn adc_d8<B: Bus>(&mut self, bus: &B) -> (cycles: u8)
        requires
            bus.inv(),
        ensures
            *final(self) == (Cpu {
                regs: spec_adc_regs(old(self).regs, bus.mem()[old(self).pc], old(self).regs.cf),
                pc: spec_fetch_pc(*old(self)),
                halt_bug: false,
                ..*old(self)
            }),
            cycles == 4,
    {
        let d8 = self.fetch(bus);
        self.adc(d8, true);
        4
    }

    /// SUB d8.
    fn sub_d8<B: Bus>(&mut self, bus: &B) -> (cycles: u8)
        requires
            bus.inv(),
        ensures
            *final(self) == (Cpu {
                regs: spec_sbc_regs(old(self).regs, bus.mem()[old(self).pc], false),
                pc: spec_fetch_pc(*old(self)),
                halt_bug: false,
                ..*old(self)
            }),
            cycles == 8,
    {
        let d8 = self.fetch(bus);
        self.sub(d8);
        8
    }

    /// SBC d8.
    fn sbc_d8<B: Bus>(&mut self, bus: &B) -> (cycles: u8)
        requires
            bus.inv(),
        ensures
            *final(self) == (Cpu {
                regs: spec_sbc_regs(old(self).regs, bus.mem()[old(self).pc], old(self).regs.cf),
                pc: spec_fetch_pc(*old(self)),
                halt_bug: false,
                ..*old(self)
            }),
            cycles == 4,
    {
        let d8 = self.fetch(bus);
        self.sbc(d8, true);
        4
    }

    /// CP d8.
    fn cp_d8<B: Bus>(&mut self, bus: &B) -> (cycles: u8)
        requires
            bus.inv(),
        ensures
            *final(self) == (Cpu {
                regs: spec_cp_regs(old(self).regs, bus.mem()[old(self).pc]),
                pc: spec_fetch_pc(*old(self)),
                halt_bug: false,
                ..*old(self)
            }),
            cycles == 8,
    {
        let d8 = self.fetch(bus);
        self.cp(d8);
        8
    }

    /// XOR (HL).
    fn xor_hl<B: Bus>(&mut self, bus: &B) -> (cycles: u8)
        requires
            bus.inv(),
        ensures
            *final(self) == (Cpu { regs: spec_xor_regs(old(self).regs, bus.mem()[spec_hl(old(self).regs)]), ..*old(self) }),
            cycles == 8,
    {
        let v = bus.read_byte(self.regs.get_pair(RegPair::HL));
        self.xor(v);
        8
    }

    /// AND (HL).
    fn and_hl<B: Bus>(&mut self, bus: &B) -> (cycles: u8)
        requires
            bus.inv(),
        ensures
            *final(self) == (Cpu { regs: spec_and_regs(old(self).regs, bus.mem()[spec_hl(old(self).regs)]), ..*old(self) }),
            cycles == 8,
    {
        let v = bus.read_byte(self.regs.get_pair(RegPair::HL));
        self.and(v);
        8
    }

    /// OR (HL).
    fn or_hl<B: Bus>(&mut self, bus: &B) -> (cycles: u8)
        requires
            bus.inv(),
        ensures
            *final(self) == (Cpu { regs: spec_or_regs(old(self).regs, bus.mem()[spec_hl(old(self).regs)]), ..*old(self) }),
            cycles == 8,
    {
        let v = bus.read_byte(self.regs.get_pair(RegPair::HL));
        self.or(v);
        8
    }

    /// ADD A,(HL).
    fn add_hl_addr<B: Bus>(&mut self, bus: &B) -> (cycles: u8)
        requires
            bus.inv(),
        ensures
            *final(self) == (Cpu { regs: spec_adc_regs(old(self).regs, bus.mem()[spec_hl(old(self).regs)], false), ..*old(self) }),
            cycles == 8,
    {
        let v = bus.read_byte(self.regs.get_pair(RegPair::HL));
        self.add(v);
        8
    }

    /// ADC A,(HL).
    fn adc_hl<B: Bus>(&mut self, bus: &B) -> (cycles: u8)
        requires
            bus.inv(),
        ensures
            *final(self) == (Cpu { regs: spec_adc_regs(old(self).regs, bus.mem()[spec_hl(old(self).regs)], old(self).regs.cf), ..*old(self) }),
            cycles == 8,
    {
        let v = bus.read_byte(self.regs.get_pair(RegPair::HL));
        self.adc(v, true);
        8
    }

    /// SUB (HL).
    fn sub_hl_addr<B: Bus>(&mut self, bus: &B) -> (cycles: u8)
        requires
            bus.inv(),
        ensures
            *final(self) == (Cpu { regs: spec_sbc_regs(old(self).regs, bus.mem()[spec_hl(old(self).regs)], false), ..*old(self) }),
            cycles == 8,
    {
        let v = bus.read_byte(self.regs.get_pair(RegPair::HL));
        self.sub(v);
        8
    }

    /// SBC A,(HL).
    fn sbc_hl<B: Bus>(&mut self, bus: &B) -> (cycles: u8)
        requires
            bus.inv(),
        ensures
            *final(self) == (Cpu { regs: spec_sbc_regs(old(self).regs, bus.mem()[spec_hl(old(self).regs)], old(self).regs.cf), ..*old(self) }),
            cycles == 8,
    {
        let v = bus.read_byte(self.regs.get_pair(RegPair::HL));
        self.sbc(v, true);
        8
    }

    /// CP (HL).
    fn cp_hl<B: Bus>(&mut self, bus: &B) -> (cycles: u8)
        requires
            bus.inv(),
        ensures
            *final(self) == (Cpu { regs: spec_cp_regs(old(self).regs, bus.mem()[spec_hl(old(self).regs)]), ..*old(self) }),
            cycles == 8,
    {
        let v = bus.read_byte(self.regs.get_pair(RegPair::HL));
        self.cp(v);
        8
    }

    /// INC r.
    pub fn inc_r(&mut self, reg: Reg) -> (cycles: u8)
        ensures
            *final(self) == (Cpu {
                regs: spec_set(spec_inc_flags(old(self).regs, spec_get(old(self).regs, reg)),
                    reg, spec_inc_val(spec_get(old(self).regs, reg))),
                ..*old(self)
            }),
            cycles == 4,
    {
        let v = self.regs.get(reg);
        let new_v = self.inc_value_and_set_flags(v);
        self.regs.set(reg, new_v);
        4
    }

    /// DEC r.
    pub fn dec_r(&mut self, reg: Reg) -> (cycles: u8)
        ensures
            *final(self) == (Cpu {
                regs: spec_set(spec_dec_flags(old(self).regs, spec_get(old(self).regs, reg)),
                    reg, spec_dec_val(spec_get(old(self).regs, reg))),
                ..*old(self)
            }),
            cycles == 4,
    {
        let v = self.regs.get(reg);
        let new_v = self.dec_value_and_set_flags(v);
        self.regs.set(reg, new_v);
        4
    }

    /// INC (HL): flags as INC r, result stored back to memory.
    fn inc_hl<B: Bus>(&mut self, bus: &mut B) -> (cycles: u8)
        requires
            old(bus).inv(),
        ensures
            final(bus).inv(),
            *final(self) == (Cpu {
                regs: spec_inc_flags(old(self).regs,
                    old(bus).mem()[spec_hl(old(self).regs)]),
                ..*old(self)
            }),
            final(bus).mem() == old(bus).mem().insert(spec_hl(old(self).regs),
                spec_inc_val(old(bus).mem()[spec_hl(old(self).regs)])),
            final(bus).ie() == old(bus).ie(),
            final(bus).iflag() == old(bus).iflag(),
            cycles == 12,
    {
        let addr = self.regs.get_pair(RegPair::HL);
        let v = bus.read_byte(addr);
        let new_v = self.inc_value_and_set_flags(v);
        bus.write_byte(addr, new_v);
        12
    }

    /// DEC (HL): flags as DEC r, result stored back to memory.
    fn dec_hl<B: Bus>(&mut self, bus: &mut B) -> (cycles: u8)
        requires
            old(bus).inv(),
        ensures
            final(bus).inv(),
            *final(self) == (Cpu {
                regs: spec_dec_flags(old(self).regs,
                    old(bus).mem()[spec_hl(old(self).regs)]),
                ..*old(self)
            }),
            final(bus).mem() == old(bus).mem().insert(spec_hl(old(self).regs),
                spec_dec_val(old(bus).mem()[spec_hl(old(self).regs)])),
            final(bus).ie() == old(bus).ie(),
            final(bus).iflag() == old(bus).iflag(),
            cycles == 12,
    {
        let addr = self.regs.get_pair(RegPair::HL);
        let v = bus.read_byte(addr);
        let new_v = self.dec_value_and_set_flags(v);
        bus.write_byte(addr, new_v);
        12
    }

    /// INC rr: no flags change.
    fn inc_rr(&mut self, reg: RegPair) -> (cycles: u8)
        ensures
            *final(self) == (Cpu {
                regs: spec_set_pair(old(self).regs, reg,
                    spec_wrap16(spec_get_pair(old(self).regs, reg) + 1)),
                ..*old(self)
            }),
            cycles == 8,
    {
        let v = self.regs.get_pair(reg);
        self.regs.set_pair(reg, v.wrapping_add(1));
        8
    }

    /// DEC rr: no flags change.
    fn dec_rr(&mut self, reg: RegPair) -> (cycles: u8)
        ensures
            *final(self) == (Cpu {
                regs: spec_set_pair(old(self).regs, reg,
                    spec_wrap16(spec_get_pair(old(self).regs, reg) - 1)),
                ..*old(self)
            }),
            cycles == 8,
    {
        let v = self.regs.get_pair(reg);
        self.regs.set_pair(reg, v.wrapping_sub(1));
        8
    }

    /// INC SP.
    fn inc_sp(&mut self) -> (cycles: u8)
        ensures
            *final(self) == (Cpu { sp: spec_wrap16(old(self).sp + 1), ..*old(self) }),
            cycles == 8,
    {
        self.sp = self.sp.wrapping_add(1);
        8
    }

    /// RL r: rotate left through carry.
    pub fn rl_r(&mut self, reg: Reg) -> (cycles: u8)
        ensures
            *final(self) == (Cpu {
                regs: spec_set(spec_rot_flags(old(self).regs, spec_rl_val(spec_get(old(self).regs, reg), old(self).regs.cf),
                    spec_rot_carry(spec_get(old(self).regs, reg), false)), reg, spec_rl_val(spec_get(old(self).regs, reg), old(self).regs.cf)),
                ..*old(self)
            }),
            cycles == 8,
    {
        let v = self.regs.get(reg);
        let new_v = self.rl(v);
        self.regs.set(reg, new_v);
        8
    }

    /// RR r: rotate right through carry.
    pub fn rr_r(&mut self, reg: Reg) -> (cycles: u8)
        ensures
            *final(self) == (Cpu {
                regs: spec_set(spec_rot_flags(old(self).regs, spec_rr_val(spec_get(old(self).regs, reg), old(self).regs.cf),
                    spec_rot_carry(spec_get(old(self).regs, reg), true)), reg, spec_rr_val(spec_get(old(self).regs, reg), old(self).regs.cf)),
                ..*old(self)
            }),
            cycles == 8,
    {
        let v = self.regs.get(reg);
        let new_v = self.rr(v);
        self.regs.set(reg, new_v);
        8
    }

    /// RLC r: rotate left.
    pub fn rlc_r(&mut self, reg: Reg) -> (cycles: u8)
        ensures
            *final(self) == (Cpu {
                regs: spec_set(spec_rot_flags(old(self).regs, spec_rlc_val(spec_get(old(self).regs, reg)),
                    spec_rot_carry(spec_get(old(self).regs, reg), false)), reg, spec_rlc_val(spec_get(old(self).regs, reg))),
                ..*old(self)
            }),
            cycles == 8,
    {
        let v = self.regs.get(reg);
        let new_v = self.rlc(v);
        self.regs.set(reg, new_v);
        8
    }

    /// RRC r: rotate right.
    pub fn rrc_r(&mut self, reg: Reg) -> (cycles: u8)
        ensures
            *final(self) == (Cpu {
                regs: spec_set(spec_rot_flags(old(self).regs, spec_rrc_val(spec_get(old(self).regs, reg)),
                    spec_rot_carry(spec_get(old(self).regs, reg), true)), reg, spec_rrc_val(spec_get(old(self).regs, reg))),
                ..*old(self)
            }),
            cycles == 8,
    {
        let v = self.regs.get(reg);
        let new_v = self.rrc(v);
        self.regs.set(reg, new_v);
        8
    }

    /// SLA r: shift left arithmetically.
    pub fn sla_r(&mut self, reg: Reg) -> (cycles: u8)
        ensures
            *final(self) == (Cpu {
                regs: spec_set(spec_rot_flags(old(self).regs, spec_sla_val(spec_get(old(self).regs, reg)),
                    spec_rot_carry(spec_get(old(self).regs, reg), false)), reg, spec_sla_val(spec_get(old(self).regs, reg))),
                ..*old(self)
            }),
            cycles == 8,
    {
        let v = self.regs.get(reg);
        let new_v = self.sla(v);
        self.regs.set(reg, new_v);
        8
    }

    /// SRA r: shift right arithmetically.
    pub fn sra_r(&mut self, reg: Reg) -> (cycles: u8)
        ensures
            *final(self) == (Cpu {
                regs: spec_set(spec_rot_flags(old(self).regs, spec_sra_val(spec_get(old(self).regs, reg)),
                    spec_rot_carry(spec_get(old(self).regs, reg), true)), reg, spec_sra_val(spec_get(old(self).regs, reg))),
                ..*old(self)
            }),
            cycles == 8,
    {
        let v = self.regs.get(reg);
        let new_v = self.sra(v);
        self.regs.set(reg, new_v);
        8
    }

    /// SRL r: shift right logically.
    pub fn srl_r(&mut self, reg: Reg) -> (cycles: u8)
        ensures
            *final(self) == (Cpu {
                regs: spec_set(spec_rot_flags(old(self).regs, spec_srl_val(spec_get(old(self).regs, reg)),
                    spec_rot_carry(spec_get(old(self).regs, reg), true)), reg, spec_srl_val(spec_get(old(self).regs, reg))),
                ..*old(self)
            }),
            cycles == 8,
    {
        let v = self.regs.get(reg);
        let new_v = self.srl_value_and_set_flags(v);
        self.regs.set(reg, new_v);
        8
    }

    /// RL (HL).
    fn rl_hl<B: Bus>(&mut self, bus: &mut B) -> (cycles: u8)
        requires
            old(bus).inv(),
        ensures
            final(bus).inv(),
            *final(self) == (Cpu {
                regs: spec_rot_flags(old(self).regs, spec_rl_val(old(bus).mem()[spec_hl(old(self).regs)], old(self).regs.cf),
                    spec_rot_carry(old(bus).mem()[spec_hl(old(self).regs)], false)),
                ..*old(self)
            }),
            final(bus).mem() == old(bus).mem().insert(spec_hl(old(self).regs), spec_rl_val(old(bus).mem()[spec_hl(old(self).regs)], old(self).regs.cf)),
            final(bus).ie() == old(bus).ie(),
            final(bus).iflag() == old(bus).iflag(),
            cycles == 16,
    {
        let addr = self.regs.get_pair(RegPair::HL);
        let v = bus.read_byte(addr);
        let new_v = self.rl(v);
        bus.write_byte(addr, new_v);
        16
    }

    /// RR (HL).
    fn rr_hl<B: Bus>(&mut self, bus: &mut B) -> (cycles: u8)
        requires
            old(bus).inv(),
        ensures
            final(bus).inv(),
            *final(self) == (Cpu {
                regs: spec_rot_flags(old(self).regs, spec_rr_val(old(bus).mem()[spec_hl(old(self).regs)], old(self).regs.cf),
                    spec_rot_carry(old(bus).mem()[spec_hl(old(self).regs)], true)),
                ..*old(self)
            }),
            final(bus).mem() == old(bus).mem().insert(spec_hl(old(self).regs), spec_rr_val(old(bus).mem()[spec_hl(old(self).regs)], old(self).regs.cf)),
            final(bus).ie() == old(bus).ie(),
            final(bus).iflag() == old(bus).iflag(),
            cycles == 16,
    {
        let addr = self.regs.get_pair(RegPair::HL);
        let v = bus.read_byte(addr);
        let new_v = self.rr(v);
        bus.write_byte(addr, new_v);
        16
    }

    /// RLC (HL).
    fn rlc_hl<B: Bus>(&mut self, bus: &mut B) -> (cycles: u8)
        requires
            old(bus).inv(),
        ensures
            final(bus).inv(),
            *final(self) == (Cpu {
                regs: spec_rot_flags(old(self).regs, spec_rlc_val(old(bus).mem()[spec_hl(old(self).regs)]),
                    spec_rot_carry(old(bus).mem()[spec_hl(old(self).regs)], false)),
                ..*old(self)
            }),
            final(bus).mem() == old(bus).mem().insert(spec_hl(old(self).regs), spec_rlc_val(old(bus).mem()[spec_hl(old(self).regs)])),
            final(bus).ie() == old(bus).ie(),
            final(bus).iflag() == old(bus).iflag(),
            cycles == 16,
    {
        let addr = self.regs.get_pair(RegPair::HL);
        let v = bus.read_byte(addr);
        let new_v = self.rlc(v);
        bus.write_byte(addr, new_v);
        16
    }

    /// RRC (HL).
    fn rrc_hl<B: Bus>(&mut self, bus: &mut B) -> (cycles: u8)
        requires
            old(bus).inv(),
        ensures
            final(bus).inv(),
            *final(self) == (Cpu {
                regs: spec_rot_flags(old(self).regs, spec_rrc_val(old(bus).mem()[spec_hl(old(self).regs)]),
                    spec_rot_carry(old(bus).mem()[spec_hl(old(self).regs)], true)),
                ..*old(self)
            }),
            final(bus).mem() == old(bus).mem().insert(spec_hl(old(self).regs), spec_rrc_val(old(bus).mem()[spec_hl(old(self).regs)])),
            final(bus).ie() == old(bus).ie(),
            final(bus).iflag() == old(bus).iflag(),
            cycles == 16,
    {
        let addr = self.regs.get_pair(RegPair::HL);
        let v = bus.read_byte(addr);
        let new_v = self.rrc(v);
        bus.write_byte(addr, new_v);
        16
    }

    /// SLA (HL).
    fn sla_hl<B: Bus>(&mut self, bus: &mut B) -> (cycles: u8)
        requires
            old(bus).inv(),
        ensures
            final(bus).inv(),
            *final(self) == (Cpu {
                regs: spec_rot_flags(old(self).regs, spec_sla_val(old(bus).mem()[spec_hl(old(self).regs)]),
                    spec_rot_carry(old(bus).mem()[spec_hl(old(self).regs)], false)),
                ..*old(self)
            }),
            final(bus).mem() == old(bus).mem().insert(spec_hl(old(self).regs), spec_sla_val(old(bus).mem()[spec_hl(old(self).regs)])),
            final(bus).ie() == old(bus).ie(),
            final(bus).iflag() == old(bus).iflag(),
            cycles == 16,
    {
        let addr = self.regs.get_pair(RegPair::HL);
        let v = bus.read_byte(addr);
        let new_v = self.sla(v);
        bus.write_byte(addr, new_v);
        16
    }

    /// SRA (HL).
    fn sra_hl<B: Bus>(&mut self, bus: &mut B) -> (cycles: u8)
        requires
            old(bus).inv(),
        ensures
            final(bus).inv(),
            *final(self) == (Cpu {
                regs: spec_rot_flags(old(self).regs, spec_sra_val(old(bus).mem()[spec_hl(old(self).regs)]),
                    spec_rot_carry(old(bus).mem()[spec_hl(old(self).regs)], true)),
                ..*old(self)
            }),
            final(bus).mem() == old(bus).mem().insert(spec_hl(old(self).regs), spec_sra_val(old(bus).mem()[spec_hl(old(self).regs)])),
            final(bus).ie() == old(bus).ie(),
            final(bus).iflag() == old(bus).iflag(),
            cycles == 16,
    {
        let addr = self.regs.get_pair(RegPair::HL);
        let v = bus.read_byte(addr);
        let new_v = self.sra(v);
        bus.write_byte(addr, new_v);
        16
    }

    /// SRL (HL).
    fn srl_hl<B: Bus>(&mut self, bus: &mut B) -> (cycles: u8)
        requires
            old(bus).inv(),
        ensures
            final(bus).inv(),
            *final(self) == (Cpu {
                regs: spec_rot_flags(old(self).regs, spec_srl_val(old(bus).mem()[spec_hl(old(self).regs)]),
                    spec_rot_carry(old(bus).mem()[spec_hl(old(self).regs)], true)),
                ..*old(self)
            }),
            final(bus).mem() == old(bus).mem().insert(spec_hl(old(self).regs), spec_srl_val(old(bus).mem()[spec_hl(old(self).regs)])),
            final(bus).ie() == old(bus).ie(),
            final(bus).iflag() == old(bus).iflag(),
            cycles == 16,
    {
        let addr = self.regs.get_pair(RegPair::HL);
        let v = bus.read_byte(addr);
        let new_v = self.srl_value_and_set_flags(v);
        bus.write_byte(addr, new_v);
        16
    }

    /// RLA: RL on A with Z forced clear.
    fn rla(&mut self) -> (cycles: u8)
        ensures
            *final(self) == (Cpu { regs: spec_rla_regs(old(self).regs), ..*old(self) }),
            cycles == 4,
    {
        self.rl_r(Reg::A);
        self.regs.zf = false;
        4
    }

    /// RRA: RR on A with Z forced clear.
    fn rra(&mut self) -> (cycles: u8)
        ensures
            *final(self) == (Cpu { regs: spec_rra_regs(old(self).regs), ..*old(self) }),
            cycles == 4,
    {
        self.rr_r(Reg::A);
        self.regs.zf = false;
        4
    }

    /// RLCA: RLC on A with Z forced clear.
    fn rlca(&mut self) -> (cycles: u8)
        ensures
            *final(self) == (Cpu { regs: spec_rlca_regs(old(self).regs), ..*old(self) }),
            cycles == 4,
    {
        self.rlc_r(Reg::A);
        self.regs.zf = false;
        4
    }

    /// RRCA: RRC on A with Z forced clear.
    fn rrca(&mut self) -> (cycles: u8)
        ensures
            *final(self) == (Cpu { regs: spec_rrca_regs(old(self).regs), ..*old(self) }),
            cycles == 4,
    {
        self.rrc_r(Reg::A);
        self.regs.zf = false;
        4
    }

    /// SWAP r.
    fn swap_r(&mut self, reg: Reg) -> (cycles: u8)
        ensures
            *final(self) == (Cpu {
                regs: spec_set(spec_rot_flags(old(self).regs,
                    spec_swap_val(spec_get(old(self).regs, reg)), false), reg,
                    spec_swap_val(spec_get(old(self).regs, reg))),
                ..*old(self)
            }),
            cycles == 8,
    {
        let v = self.regs.get(reg);
        let new_v = self.swap(v);
        self.regs.set(reg, new_v);
        8
    }

    /// SWAP (HL).
    fn swap_hl<B: Bus>(&mut self, bus: &mut B) -> (cycles: u8)
        requires
            old(bus).inv(),
        ensures
            final(bus).inv(),
            *final(self) == (Cpu {
                regs: spec_rot_flags(old(self).regs,
                    spec_swap_val(old(bus).mem()[spec_hl(old(self).regs)]), false),
                ..*old(self)
            }),
            final(bus).mem() == old(bus).mem().insert(spec_hl(old(self).regs),
                spec_swap_val(old(bus).mem()[spec_hl(old(self).regs)])),
            final(bus).ie() == old(bus).ie(),
            final(bus).iflag() == old(bus).iflag(),
            cycles == 16,
    {
        let addr = self.regs.get_pair(RegPair::HL);
        let v = bus.read_byte(addr);
        let new_v = self.swap(v);
        bus.write_byte(addr, new_v);
        16
    }

    /// BIT n,r.
    fn bit_n_r(&mut self, n: u8, reg: Reg) -> (cycles: u8)
        requires
            n < 8,
        ensures
            *final(self) == (Cpu {
                regs: spec_bit_flags(old(self).regs, n, spec_get(old(self).regs, reg)),
                ..*old(self)
            }),
            cycles == 8,
    {
        let v = self.regs.get(reg);
        self.bit_n_value(n, v)
    }

    /// BIT n,(HL).
    fn bit_n_hl<B: Bus>(&mut self, n: u8, bus: &B) -> (cycles: u8)
        requires
            n < 8,
            bus.inv(),
        ensures
            *final(self) == (Cpu {
                regs: spec_bit_flags(old(self).regs, n,
                    bus.mem()[spec_hl(old(self).regs)]),
                ..*old(self)
            }),
            cycles == 16,
    {
        let v = bus.read_byte(self.regs.get_pair(RegPair::HL));
        self.bit_n_value(n, v);
        16
    }

    /// RES n,r: flags untouched.
    fn res_n_r(&mut self, n: u8, reg: Reg) -> (cycles: u8)
        requires
            n < 8,
        ensures
            *final(self) == (Cpu {
                regs: spec_set(old(self).regs, reg,
                    spec_res_val(spec_get(old(self).regs, reg), n)),
                ..*old(self)
            }),
            cycles == 8,
    {
        let v = self.regs.get(reg);
        self.regs.set(reg, v & !(1u8 << n));
        8
    }

    /// RES n,(HL): flags untouched.
    fn res_hl<B: Bus>(&mut self, n: u8, bus: &mut B) -> (cycles: u8)
        requires
            n < 8,
            old(bus).inv(),
        ensures
            final(bus).inv(),
            *final(self) == *old(self),
            final(bus).mem() == old(bus).mem().insert(spec_hl(old(self).regs),
                spec_res_val(old(bus).mem()[spec_hl(old(self).regs)], n)),
            final(bus).ie() == old(bus).ie(),
            final(bus).iflag() == old(bus).iflag(),
            cycles == 16,
    {
        let addr = self.regs.get_pair(RegPair::HL);
        let v = bus.read_byte(addr);
        bus.write_byte(addr, v & !(1u8 << n));
        16
    }

    /// SET n,r: flags untouched.
    fn set_n_r(&mut self, n: u8, reg: Reg) -> (cycles: u8)
        requires
            n < 8,
        ensures
            *final(self) == (Cpu {
                regs: spec_set(old(self).regs, reg,
                    spec_set_val(spec_get(old(self).regs, reg), n)),
                ..*old(self)
            }),
            cycles == 8,
    {
        let v = self.regs.get(reg);
        self.regs.set(reg, v | (1u8 << n));
        8
    }

    /// SET n,(HL): flags untouched.
    fn set_hl<B: Bus>(&mut self, n: u8, bus: &mut B) -> (cycles: u8)
        requires
            n < 8,
            old(bus).inv(),
        ensures
            final(bus).inv(),
            *final(self) == *old(self),
            final(bus).mem() == old(bus).mem().insert(spec_hl(old(self).regs),
                spec_set_val(old(bus).mem()[spec_hl(old(self).regs)], n)),
            final(bus).ie() == old(bus).ie(),
            final(bus).iflag() == old(bus).iflag(),
            cycles == 16,
    {
        let addr = self.regs.get_pair(RegPair::HL);
        let v = bus.read_byte(addr);
        bus.write_byte(addr, v | (1u8 << n));
        16
    }
}


impl Cpu {
    /// Jumps to an interrupt handler: clears IME, acknowledges the source's
    /// IF bit, pushes PC and loads the source's vector address.
    fn call_interrupt<B: Bus>(&mut self, bus: &mut B, interrupt: Interrupt)
        requires
            old(bus).inv(),
        ensures
            final(bus).inv(),
            *final(self) == (Cpu {
                ime: false,
                sp: spec_wrap16(old(self).sp - 2),
                pc: spec_vector(interrupt),
                ..*old(self)
            }),
            final(bus).mem() == spec_write_word(old(bus).mem(), spec_wrap16(old(self).sp - 2),
                old(self).pc),
            final(bus).ie() == old(bus).ie(),
            final(bus).iflag() == (old(bus).iflag() & !spec_mask(interrupt)) as u8,
    {
        let addr = interrupt.vector();
        self.ime = false;
        bus.ack_interrupt(interrupt);
        let pc = self.pc;
        self.push_word(bus, pc);
        self.pc = addr;
    }

    /// Services at most one interrupt, by fixed priority.
    ///
    /// A pending-and-enabled source always wakes a halted CPU, IME or not.
    /// When IME is set and a source is both enabled and pending, the
    /// highest-priority one (VBLANK first, JOYPAD last) is serviced: IME is
    /// cleared, its IF bit is acknowledged, PC is pushed and control moves
    /// to its vector. Otherwise nothing else changes.
    pub fn handle_interrupt<B: Bus>(&mut self, bus: &mut B)
        requires
            old(bus).inv(),
        ensures
            final(bus).inv(),
            final(bus).ie() == old(bus).ie(),
            (!old(self).ime || old(bus).ie() & old(bus).iflag() == 0) ==> {
                &&& final(bus).mem() == old(bus).mem()
                &&& final(bus).iflag() == old(bus).iflag()
                &&& *final(self) == (Cpu {
                    halted: old(self).halted && old(bus).ie() & old(bus).iflag() == 0,
                    ..*old(self)
                })
            },
            (old(self).ime && old(bus).ie() & old(bus).iflag() != 0) ==> {
                let picked = spec_pick(old(bus).ie() & old(bus).iflag());
                &&& *final(self) == (Cpu {
                    halted: false,
                    ime: false,
                    sp: spec_wrap16(old(self).sp - 2),
                    pc: spec_vector(picked),
                    ..*old(self)
                })
                &&& final(bus).mem() == spec_write_word(old(bus).mem(),
                    spec_wrap16(old(self).sp - 2), old(self).pc)
                &&& final(bus).iflag() == (old(bus).iflag() & !spec_mask(picked)) as u8
            },
    {
        let interrupt_flag = bus.interrupt_flag();
        let interrupt_enable = bus.interrupt_enable();
        let pending = interrupt_enable & interrupt_flag;

        // A pending interrupt wakes the CPU even when IME is clear.
        if pending != 0 && self.halted {
            self.halted = false;
        }
        if !self.ime || pending == 0 {
            return ;
        }
        // Priority order: the lowest vector address wins.
        if pending & crate::interrupt::IRQ_VBLANK != 0 {
            self.call_interrupt(bus, Interrupt::VBlank);
        } else if pending & crate::interrupt::IRQ_STAT != 0 {
            self.call_interrupt(bus, Interrupt::Stat);
        } else if pending & crate::interrupt::IRQ_TIMER != 0 {
            self.call_interrupt(bus, Interrupt::Timer);
        } else if pending & crate::interrupt::IRQ_SERIAL != 0 {
            self.call_interrupt(bus, Interrupt::Serial);
        } else {
            self.call_interrupt(bus, Interrupt::Joypad);
        }
    }
}


//
// The 0xCB-prefixed table, decoded for the specification: bits 7..6 select
// the family group, bits 5..3 the rotate kind or the bit index, bits 2..0
// the operand (6 stands for (HL)).
//

/// The register an operand index of either opcode table names; index 6
/// (the (HL) slot) is never passed here.
pub open spec fn spec_operand_reg(i: int) -> Reg {
    if i == 0 {
        Reg::B
    } else if i == 1 {
        Reg::C
    } else if i == 2 {
        Reg::D
    } else if i == 3 {
        Reg::E
    } else if i == 4 {
        Reg::H
    } else if i == 5 {
        Reg::L
    } else {
        Reg::A
    }
}

/// The register pair the PUSH/POP column of the control quadrant names.
pub open spec fn spec_pair_idx(i: int) -> RegPair {
    if i == 0 {
        RegPair::BC
    } else if i == 1 {
        RegPair::DE
    } else if i == 2 {
        RegPair::HL
    } else {
        RegPair::AF
    }
}

/// The value a CB opcode leaves in its operand. BIT leaves it unchanged.
pub open spec fn spec_cb_val(op: u8, v: u8, carry: bool) -> u8 {
    let fam = (op as int) / 8;
    if fam == 0 {
        spec_rlc_val(v)
    } else if fam == 1 {
        spec_rrc_val(v)
    } else if fam == 2 {
        spec_rl_val(v, carry)
    } else if fam == 3 {
        spec_rr_val(v, carry)
    } else if fam == 4 {
        spec_sla_val(v)
    } else if fam == 5 {
        spec_sra_val(v)
    } else if fam == 6 {
        spec_swap_val(v)
    } else if fam == 7 {
        spec_srl_val(v)
    } else if fam < 16 {
        v
    } else if fam < 24 {
        spec_res_val(v, (fam % 8) as u8)
    } else {
        spec_set_val(v, (fam % 8) as u8)
    }
}

/// The flags a CB opcode writes, given its operand's old value. The
/// rotate/shift rows write all four, BIT writes Z, N and H, RES and SET
/// write none.
pub open spec fn spec_cb_flags(op: u8, r: Registers, v: u8) -> Registers {
    let fam = (op as int) / 8;
    if fam < 8 {
        if fam == 6 {
            spec_rot_flags(r, spec_swap_val(v), false)
        } else {
            spec_rot_flags(r, spec_cb_val(op, v, r.cf), spec_rot_carry(v, fam == 1 || fam == 3
                || fam == 5 || fam == 7))
        }
    } else if fam < 16 {
        spec_bit_flags(r, (fam % 8) as u8, v)
    } else {
        r
    }
}

/// CB opcodes on (HL) cost 16 ticks, the others 8.
pub open spec fn spec_cb_cycles(op: u8) -> u8 {
    if (op as int) % 8 == 6 {
        16
    } else {
        8
    }
}

impl Cpu {
    /// The CB rotate/shift/SWAP rows.
    #[verifier::rlimit(60)]
    #[verifier::spinoff_prover]
    fn cb_rotate<B: Bus>(&mut self, bus: &mut B, op: u8) -> (cycles: u8)
        requires
            old(bus).inv(),
            0x00 <= op < 0x40,
        ensures
            final(bus).inv(),
            final(bus).ie() == old(bus).ie(),
            final(bus).iflag() == old(bus).iflag(),
            cycles == spec_cb_cycles(op),
            final(self).sp == old(self).sp,
            final(self).pc == old(self).pc,
            final(self).halted == old(self).halted,
            final(self).ime == old(self).ime,
            final(self).paused == old(self).paused,
            final(self).breakpoint == old(self).breakpoint,
            final(self).enable_soft_break == old(self).enable_soft_break,
            final(self).halt_bug == old(self).halt_bug,
            (op as int) % 8 != 6 ==> final(bus).mem() == old(bus).mem()
                && final(self).regs == spec_set(spec_cb_flags(op, old(self).regs,
                    spec_get(old(self).regs, spec_operand_reg((op as int) % 8))),
                    spec_operand_reg((op as int) % 8),
                    spec_cb_val(op, spec_get(old(self).regs, spec_operand_reg((op as int) % 8)),
                        old(self).regs.cf)),
            (op as int) % 8 == 6 ==> final(self).regs == spec_cb_flags(op, old(self).regs,
                    old(bus).mem()[spec_hl(old(self).regs)])
                && final(bus).mem() == old(bus).mem().insert(spec_hl(old(self).regs),
                    spec_cb_val(op, old(bus).mem()[spec_hl(old(self).regs)],
                        old(self).regs.cf)),
    {
        match op {
            0x00 => self.rlc_r(Reg::B),  // RLC B
            0x01 => self.rlc_r(Reg::C),  // RLC C
            0x02 => self.rlc_r(Reg::D),  // RLC D
            0x03 => self.rlc_r(Reg::E),  // RLC E
            0x04 => self.rlc_r(Reg::H),  // RLC H
            0x05 => self.rlc_r(Reg::L),  // RLC L
            0x06 => self.rlc_hl(bus),  // RLC (HL)
            0x07 => self.rlc_r(Reg::A),  // RLC A
            0x08 => self.rrc_r(Reg::B),  // RRC B
            0x09 => self.rrc_r(Reg::C),  // RRC C
            0x0a => self.rrc_r(Reg::D),  // RRC D
            0x0b => self.rrc_r(Reg::E),  // RRC E
            0x0c => self.rrc_r(Reg::H),  // RRC H
            0x0d => self.rrc_r(Reg::L),  // RRC L
            0x0e => self.rrc_hl(bus),  // RRC (HL)
            0x0f => self.rrc_r(Reg::A),  // RRC A
            0x10 => self.rl_r(Reg::B),  // RL B
            0x11 => self.rl_r(Reg::C),  // RL C
            0x12 => self.rl_r(Reg::D),  // RL D
            0x13 => self.rl_r(Reg::E),  // RL E
            0x14 => self.rl_r(Reg::H),  // RL H
            0x15 => self.rl_r(Reg::L),  // RL L
            0x16 => self.rl_hl(bus),  // RL (HL)
            0x17 => self.rl_r(Reg::A),  // RL A
            0x18 => self.rr_r(Reg::B),  // RR B
            0x19 => self.rr_r(Reg::C),  // RR C
            0x1a => self.rr_r(Reg::D),  // RR D
            0x1b => self.rr_r(Reg::E),  // RR E
            0x1c => self.rr_r(Reg::H),  // RR H
            0x1d => self.rr_r(Reg::L),  // RR L
            0x1e => self.rr_hl(bus),  // RR (HL)
            0x1f => self.rr_r(Reg::A),  // RR A
            0x20 => self.sla_r(Reg::B),  // SLA B
            0x21 => self.sla_r(Reg::C),  // SLA C
            0x22 => self.sla_r(Reg::D),  // SLA D
            0x23 => self.sla_r(Reg::E),  // SLA E
            0x24 => self.sla_r(Reg::H),  // SLA H
            0x25 => self.sla_r(Reg::L),  // SLA L
            0x26 => self.sla_hl(bus),  // SLA (HL)
            0x27 => self.sla_r(Reg::A),  // SLA A
            0x28 => self.sra_r(Reg::B),  // SRA B
            0x29 => self.sra_r(Reg::C),  // SRA C
            0x2a => self.sra_r(Reg::D),  // SRA D
            0x2b => self.sra_r(Reg::E),  // SRA E
            0x2c => self.sra_r(Reg::H),  // SRA H
            0x2d => self.sra_r(Reg::L),  // SRA L
            0x2e => self.sra_hl(bus),  // SRA (HL)
            0x2f => self.sra_r(Reg::A),  // SRA A
            0x30 => self.swap_r(Reg::B),  // SWAP B
            0x31 => self.swap_r(Reg::C),  // SWAP C
            0x32 => self.swap_r(Reg::D),  // SWAP D
            0x33 => self.swap_r(Reg::E),  // SWAP E
            0x34 => self.swap_r(Reg::H),  // SWAP H
            0x35 => self.swap_r(Reg::L),  // SWAP L
            0x36 => self.swap_hl(bus),  // SWAP (HL)
            0x37 => self.swap_r(Reg::A),  // SWAP A
            0x38 => self.srl_r(Reg::B),  // SRL B
            0x39 => self.srl_r(Reg::C),  // SRL C
            0x3a => self.srl_r(Reg::D),  // SRL D
            0x3b => self.srl_r(Reg::E),  // SRL E
            0x3c => self.srl_r(Reg::H),  // SRL H
            0x3d => self.srl_r(Reg::L),  // SRL L
            0x3e => self.srl_hl(bus),  // SRL (HL)
            0x3f => self.srl_r(Reg::A),  // SRL A
            _ => 0,  // unreachable: the caller dispatches by range
        }
    }
    /// The BIT rows: test a bit, write Z, N and H only.
    #[verifier::rlimit(60)]
    #[verifier::spinoff_prover]
    fn cb_bit<B: Bus>(&mut self, bus: &mut B, op: u8) -> (cycles: u8)
        requires
            old(bus).inv(),
            0x40 <= op < 0x80,
        ensures
            final(bus).inv(),
            final(bus).ie() == old(bus).ie(),
            final(bus).iflag() == old(bus).iflag(),
            cycles == spec_cb_cycles(op),
            final(self).sp == old(self).sp,
            final(self).pc == old(self).pc,
            final(self).halted == old(self).halted,
            final(self).ime == old(self).ime,
            final(self).paused == old(self).paused,
            final(self).breakpoint == old(self).breakpoint,
            final(self).enable_soft_break == old(self).enable_soft_break,
            final(self).halt_bug == old(self).halt_bug,
            (op as int) % 8 != 6 ==> final(self).regs == spec_cb_flags(op,
                old(self).regs, spec_get(old(self).regs, spec_operand_reg((op as int) % 8))),
            (op as int) % 8 == 6 ==> final(self).regs == spec_cb_flags(op, old(self).regs,
                old(bus).mem()[spec_hl(old(self).regs)]),
            final(bus).mem() == old(bus).mem(),
    {
        match op {
            0x40 => self.bit_n_r(0, Reg::B),  // BIT 0,B
            0x41 => self.bit_n_r(0, Reg::C),  // BIT 0,C
            0x42 => self.bit_n_r(0, Reg::D),  // BIT 0,D
            0x43 => self.bit_n_r(0, Reg::E),  // BIT 0,E
            0x44 => self.bit_n_r(0, Reg::H),  // BIT 0,H
            0x45 => self.bit_n_r(0, Reg::L),  // BIT 0,L
            0x46 => self.bit_n_hl(0, bus),  // BIT 0,(HL)
            0x47 => self.bit_n_r(0, Reg::A),  // BIT 0,A
            0x48 => self.bit_n_r(1, Reg::B),  // BIT 1,B
            0x49 => self.bit_n_r(1, Reg::C),  // BIT 1,C
            0x4a => self.bit_n_r(1, Reg::D),  // BIT 1,D
            0x4b => self.bit_n_r(1, Reg::E),  // BIT 1,E
            0x4c => self.bit_n_r(1, Reg::H),  // BIT 1,H
            0x4d => self.bit_n_r(1, Reg::L),  // BIT 1,L
            0x4e => self.bit_n_hl(1, bus),  // BIT 1,(HL)
            0x4f => self.bit_n_r(1, Reg::A),  // BIT 1,A
            0x50 => self.bit_n_r(2, Reg::B),  // BIT 2,B
            0x51 => self.bit_n_r(2, Reg::C),  // BIT 2,C
            0x52 => self.bit_n_r(2, Reg::D),  // BIT 2,D
            0x53 => self.bit_n_r(2, Reg::E),  // BIT 2,E
            0x54 => self.bit_n_r(2, Reg::H),  // BIT 2,H
            0x55 => self.bit_n_r(2, Reg::L),  // BIT 2,L
            0x56 => self.bit_n_hl(2, bus),  // BIT 2,(HL)
            0x57 => self.bit_n_r(2, Reg::A),  // BIT 2,A
            0x58 => self.bit_n_r(3, Reg::B),  // BIT 3,B
            0x59 => self.bit_n_r(3, Reg::C),  // BIT 3,C
            0x5a => self.bit_n_r(3, Reg::D),  // BIT 3,D
            0x5b => self.bit_n_r(3, Reg::E),  // BIT 3,E
            0x5c => self.bit_n_r(3, Reg::H),  // BIT 3,H
            0x5d => self.bit_n_r(3, Reg::L),  // BIT 3,L
            0x5e => self.bit_n_hl(3, bus),  // BIT 3,(HL)
            0x5f => self.bit_n_r(3, Reg::A),  // BIT 3,A
            0x60 => self.bit_n_r(4, Reg::B),  // BIT 4,B
            0x61 => self.bit_n_r(4, Reg::C),  // BIT 4,C
            0x62 => self.bit_n_r(4, Reg::D),  // BIT 4,D
            0x63 => self.bit_n_r(4, Reg::E),  // BIT 4,E
            0x64 => self.bit_n_r(4, Reg::H),  // BIT 4,H
            0x65 => self.bit_n_r(4, Reg::L),  // BIT 4,L
            0x66 => self.bit_n_hl(4, bus),  // BIT 4,(HL)
            0x67 => self.bit_n_r(4, Reg::A),  // BIT 4,A
            0x68 => self.bit_n_r(5, Reg::B),  // BIT 5,B
            0x69 => self.bit_n_r(5, Reg::C),  // BIT 5,C
            0x6a => self.bit_n_r(5, Reg::D),  // BIT 5,D
            0x6b => self.bit_n_r(5, Reg::E),  // BIT 5,E
            0x6c => self.bit_n_r(5, Reg::H),  // BIT 5,H
            0x6d => self.bit_n_r(5, Reg::L),  // BIT 5,L
            0x6e => self.bit_n_hl(5, bus),  // BIT 5,(HL)
            0x6f => self.bit_n_r(5, Reg::A),  // BIT 5,A
            0x70 => self.bit_n_r(6, Reg::B),  // BIT 6,B
            0x71 => self.bit_n_r(6, Reg::C),  // BIT 6,C
            0x72 => self.bit_n_r(6, Reg::D),  // BIT 6,D
            0x73 => self.bit_n_r(6, Reg::E),  // BIT 6,E
            0x74 => self.bit_n_r(6, Reg::H),  // BIT 6,H
            0x75 => self.bit_n_r(6, Reg::L),  // BIT 6,L
            0x76 => self.bit_n_hl(6, bus),  // BIT 6,(HL)
            0x77 => self.bit_n_r(6, Reg::A),  // BIT 6,A
            0x78 => self.bit_n_r(7, Reg::B),  // BIT 7,B
            0x79 => self.bit_n_r(7, Reg::C),  // BIT 7,C
            0x7a => self.bit_n_r(7, Reg::D),  // BIT 7,D
            0x7b => self.bit_n_r(7, Reg::E),  // BIT 7,E
            0x7c => self.bit_n_r(7, Reg::H),  // BIT 7,H
            0x7d => self.bit_n_r(7, Reg::L),  // BIT 7,L
            0x7e => self.bit_n_hl(7, bus),  // BIT 7,(HL)
            0x7f => self.bit_n_r(7, Reg::A),  // BIT 7,A
            _ => 0,  // unreachable: the caller dispatches by range
        }
    }
    /// The RES rows: clear a bit, flags untouched.
    #[verifier::rlimit(60)]
    #[verifier::spinoff_prover]
    fn cb_res<B: Bus>(&mut self, bus: &mut B, op: u8) -> (cycles: u8)
        requires
            old(bus).inv(),
            0x80 <= op < 0xc0,
        ensures
            final(bus).inv(),
            final(bus).ie() == old(bus).ie(),
            final(bus).iflag() == old(bus).iflag(),
            cycles == spec_cb_cycles(op),
            final(self).sp == old(self).sp,
            final(self).pc == old(self).pc,
            final(self).halted == old(self).halted,
            final(self).ime == old(self).ime,
            final(self).paused == old(self).paused,
            final(self).breakpoint == old(self).breakpoint,
            final(self).enable_soft_break == old(self).enable_soft_break,
            final(self).halt_bug == old(self).halt_bug,
            (op as int) % 8 != 6 ==> final(bus).mem() == old(bus).mem()
                && final(self).regs == spec_set(old(self).regs, spec_operand_reg((op as int) % 8),
                    spec_cb_val(op, spec_get(old(self).regs, spec_operand_reg((op as int) % 8)),
                        old(self).regs.cf)),
            (op as int) % 8 == 6 ==> final(self).regs == old(self).regs
                && final(bus).mem() == old(bus).mem().insert(spec_hl(old(self).regs),
                    spec_cb_val(op, old(bus).mem()[spec_hl(old(self).regs)],
                        old(self).regs.cf)),
    {
        match op {
            0x80 => self.res_n_r(0, Reg::B),  // RES 0,B
            0x81 => self.res_n_r(0, Reg::C),  // RES 0,C
            0x82 => self.res_n_r(0, Reg::D),  // RES 0,D
            0x83 => self.res_n_r(0, Reg::E),  // RES 0,E
            0x84 => self.res_n_r(0, Reg::H),  // RES 0,H
            0x85 => self.res_n_r(0, Reg::L),  // RES 0,L
            0x86 => self.res_hl(0, bus),  // RES 0,(HL)
            0x87 => self.res_n_r(0, Reg::A),  // RES 0,A
            0x88 => self.res_n_r(1, Reg::B),  // RES 1,B
            0x89 => self.res_n_r(1, Reg::C),  // RES 1,C
            0x8a => self.res_n_r(1, Reg::D),  // RES 1,D
            0x8b => self.res_n_r(1, Reg::E),  // RES 1,E
            0x8c => self.res_n_r(1, Reg::H),  // RES 1,H
            0x8d => self.res_n_r(1, Reg::L),  // RES 1,L
            0x8e => self.res_hl(1, bus),  // RES 1,(HL)
            0x8f => self.res_n_r(1, Reg::A),  // RES 1,A
            0x90 => self.res_n_r(2, Reg::B),  // RES 2,B
            0x91 => self.res_n_r(2, Reg::C),  // RES 2,C
            0x92 => self.res_n_r(2, Reg::D),  // RES 2,D
            0x93 => self.res_n_r(2, Reg::E),  // RES 2,E
            0x94 => self.res_n_r(2, Reg::H),  // RES 2,H
            0x95 => self.res_n_r(2, Reg::L),  // RES 2,L
            0x96 => self.res_hl(2, bus),  // RES 2,(HL)
            0x97 => self.res_n_r(2, Reg::A),  // RES 2,A
            0x98 => self.res_n_r(3, Reg::B),  // RES 3,B
            0x99 => self.res_n_r(3, Reg::C),  // RES 3,C
            0x9a => self.res_n_r(3, Reg::D),  // RES 3,D
            0x9b => self.res_n_r(3, Reg::E),  // RES 3,E
            0x9c => self.res_n_r(3, Reg::H),  // RES 3,H
            0x9d => self.res_n_r(3, Reg::L),  // RES 3,L
            0x9e => self.res_hl(3, bus),  // RES 3,(HL)
            0x9f => self.res_n_r(3, Reg::A),  // RES 3,A
            0xa0 => self.res_n_r(4, Reg::B),  // RES 4,B
            0xa1 => self.res_n_r(4, Reg::C),  // RES 4,C
            0xa2 => self.res_n_r(4, Reg::D),  // RES 4,D
            0xa3 => self.res_n_r(4, Reg::E),  // RES 4,E
            0xa4 => self.res_n_r(4, Reg::H),  // RES 4,H
            0xa5 => self.res_n_r(4, Reg::L),  // RES 4,L
            0xa6 => self.res_hl(4, bus),  // RES 4,(HL)
            0xa7 => self.res_n_r(4, Reg::A),  // RES 4,A
            0xa8 => self.res_n_r(5, Reg::B),  // RES 5,B
            0xa9 => self.res_n_r(5, Reg::C),  // RES 5,C
            0xaa => self.res_n_r(5, Reg::D),  // RES 5,D
            0xab => self.res_n_r(5, Reg::E),  // RES 5,E
            0xac => self.res_n_r(5, Reg::H),  // RES 5,H
            0xad => self.res_n_r(5, Reg::L),  // RES 5,L
            0xae => self.res_hl(5, bus),  // RES 5,(HL)
            0xaf => self.res_n_r(5, Reg::A),  // RES 5,A
            0xb0 => self.res_n_r(6, Reg::B),  // RES 6,B
            0xb1 => self.res_n_r(6, Reg::C),  // RES 6,C
            0xb2 => self.res_n_r(6, Reg::D),  // RES 6,D
            0xb3 => self.res_n_r(6, Reg::E),  // RES 6,E
            0xb4 => self.res_n_r(6, Reg::H),  // RES 6,H
            0xb5 => self.res_n_r(6, Reg::L),  // RES 6,L
            0xb6 => self.res_hl(6, bus),  // RES 6,(HL)
            0xb7 => self.res_n_r(6, Reg::A),  // RES 6,A
            0xb8 => self.res_n_r(7, Reg::B),  // RES 7,B
            0xb9 => self.res_n_r(7, Reg::C),  // RES 7,C
            0xba => self.res_n_r(7, Reg::D),  // RES 7,D
            0xbb => self.res_n_r(7, Reg::E),  // RES 7,E
            0xbc => self.res_n_r(7, Reg::H),  // RES 7,H
            0xbd => self.res_n_r(7, Reg::L),  // RES 7,L
            0xbe => self.res_hl(7, bus),  // RES 7,(HL)
            0xbf => self.res_n_r(7, Reg::A),  // RES 7,A
            _ => 0,  // unreachable: the caller dispatches by range
        }
    }
    /// The SET rows: set a bit, flags untouched.
    #[verifier::rlimit(60)]
    #[verifier::spinoff_prover]
    fn cb_set<B: Bus>(&mut self, bus: &mut B, op: u8) -> (cycles: u8)
        requires
            old(bus).inv(),
            0xc0 <= op < 0x100,
        ensures
            final(bus).inv(),
            final(bus).ie() == old(bus).ie(),
            final(bus).iflag() == old(bus).iflag(),
            cycles == spec_cb_cycles(op),
            final(self).sp == old(self).sp,
            final(self).pc == old(self).pc,
            final(self).halted == old(self).halted,
            final(self).ime == old(self).ime,
            final(self).paused == old(self).paused,
            final(self).breakpoint == old(self).breakpoint,
            final(self).enable_soft_break == old(self).enable_soft_break,
            final(self).halt_bug == old(self).halt_bug,
            (op as int) % 8 != 6 ==> final(bus).mem() == old(bus).mem()
                && final(self).regs == spec_set(old(self).regs, spec_operand_reg((op as int) % 8),
                    spec_cb_val(op, spec_get(old(self).regs, spec_operand_reg((op as int) % 8)),
                        old(self).regs.cf)),
            (op as int) % 8 == 6 ==> final(self).regs == old(self).regs
                && final(bus).mem() == old(bus).mem().insert(spec_hl(old(self).regs),
                    spec_cb_val(op, old(bus).mem()[spec_hl(old(self).regs)],
                        old(self).regs.cf)),
    {
        match op {
            0xc0 => self.set_n_r(0, Reg::B),  // SET 0,B
            0xc1 => self.set_n_r(0, Reg::C),  // SET 0,C
            0xc2 => self.set_n_r(0, Reg::D),  // SET 0,D
            0xc3 => self.set_n_r(0, Reg::E),  // SET 0,E
            0xc4 => self.set_n_r(0, Reg::H),  // SET 0,H
            0xc5 => self.set_n_r(0, Reg::L),  // SET 0,L
            0xc6 => self.set_hl(0, bus),  // SET 0,(HL)
            0xc7 => self.set_n_r(0, Reg::A),  // SET 0,A
            0xc8 => self.set_n_r(1, Reg::B),  // SET 1,B
            0xc9 => self.set_n_r(1, Reg::C),  // SET 1,C
            0xca => self.set_n_r(1, Reg::D),  // SET 1,D
            0xcb => self.set_n_r(1, Reg::E),  // SET 1,E
            0xcc => self.set_n_r(1, Reg::H),  // SET 1,H
            0xcd => self.set_n_r(1, Reg::L),  // SET 1,L
            0xce => self.set_hl(1, bus),  // SET 1,(HL)
            0xcf => self.set_n_r(1, Reg::A),  // SET 1,A
            0xd0 => self.set_n_r(2, Reg::B),  // SET 2,B
            0xd1 => self.set_n_r(2, Reg::C),  // SET 2,C
            0xd2 => self.set_n_r(2, Reg::D),  // SET 2,D
            0xd3 => self.set_n_r(2, Reg::E),  // SET 2,E
            0xd4 => self.set_n_r(2, Reg::H),  // SET 2,H
            0xd5 => self.set_n_r(2, Reg::L),  // SET 2,L
            0xd6 => self.set_hl(2, bus),  // SET 2,(HL)
            0xd7 => self.set_n_r(2, Reg::A),  // SET 2,A
            0xd8 => self.set_n_r(3, Reg::B),  // SET 3,B
            0xd9 => self.set_n_r(3, Reg::C),  // SET 3,C
            0xda => self.set_n_r(3, Reg::D),  // SET 3,D
            0xdb => self.set_n_r(3, Reg::E),  // SET 3,E
            0xdc => self.set_n_r(3, Reg::H),  // SET 3,H
            0xdd => self.set_n_r(3, Reg::L),  // SET 3,L
            0xde => self.set_hl(3, bus),  // SET 3,(HL)
            0xdf => self.set_n_r(3, Reg::A),  // SET 3,A
            0xe0 => self.set_n_r(4, Reg::B),  // SET 4,B
            0xe1 => self.set_n_r(4, Reg::C),  // SET 4,C
            0xe2 => self.set_n_r(4, Reg::D),  // SET 4,D
            0xe3 => self.set_n_r(4, Reg::E),  // SET 4,E
            0xe4 => self.set_n_r(4, Reg::H),  // SET 4,H
            0xe5 => self.set_n_r(4, Reg::L),  // SET 4,L
            0xe6 => self.set_hl(4, bus),  // SET 4,(HL)
            0xe7 => self.set_n_r(4, Reg::A),  // SET 4,A
            0xe8 => self.set_n_r(5, Reg::B),  // SET 5,B
            0xe9 => self.set_n_r(5, Reg::C),  // SET 5,C
            0xea => self.set_n_r(5, Reg::D),  // SET 5,D
            0xeb => self.set_n_r(5, Reg::E),  // SET 5,E
            0xec => self.set_n_r(5, Reg::H),  // SET 5,H
            0xed => self.set_n_r(5, Reg::L),  // SET 5,L
            0xee => self.set_hl(5, bus),  // SET 5,(HL)
            0xef => self.set_n_r(5, Reg::A),  // SET 5,A
            0xf0 => self.set_n_r(6, Reg::B),  // SET 6,B
            0xf1 => self.set_n_r(6, Reg::C),  // SET 6,C
            0xf2 => self.set_n_r(6, Reg::D),  // SET 6,D
            0xf3 => self.set_n_r(6, Reg::E),  // SET 6,E
            0xf4 => self.set_n_r(6, Reg::H),  // SET 6,H
            0xf5 => self.set_n_r(6, Reg::L),  // SET 6,L
            0xf6 => self.set_hl(6, bus),  // SET 6,(HL)
            0xf7 => self.set_n_r(6, Reg::A),  // SET 6,A
            0xf8 => self.set_n_r(7, Reg::B),  // SET 7,B
            0xf9 => self.set_n_r(7, Reg::C),  // SET 7,C
            0xfa => self.set_n_r(7, Reg::D),  // SET 7,D
            0xfb => self.set_n_r(7, Reg::E),  // SET 7,E
            0xfc => self.set_n_r(7, Reg::H),  // SET 7,H
            0xfd => self.set_n_r(7, Reg::L),  // SET 7,L
            0xfe => self.set_hl(7, bus),  // SET 7,(HL)
            0xff => self.set_n_r(7, Reg::A),  // SET 7,A
            _ => 0,  // unreachable: the caller dispatches by range
        }
    }

    /// Fetches and executes one 0xCB-prefixed instruction: the rotate,
    /// shift, SWAP, BIT, RES and SET families, on a register or on (HL).
    fn step_cb<B: Bus>(&mut self, bus: &mut B) -> (cycles: u8)
        requires
            old(bus).inv(),
            !old(self).halt_bug,
        ensures
            final(bus).inv(),
            final(bus).ie() == old(bus).ie(),
            final(bus).iflag() == old(bus).iflag(),
            cycles == spec_cb_cycles(old(bus).mem()[old(self).pc]),
            ({
                let cbop = old(bus).mem()[old(self).pc];
                let tgt = (cbop as int) % 8;
                let fam = (cbop as int) / 8;
                &&& final(self).sp == old(self).sp
                &&& final(self).pc == spec_wrap16(old(self).pc + 1)
                &&& final(self).halted == old(self).halted
                &&& final(self).ime == old(self).ime
                &&& final(self).paused == old(self).paused
                &&& final(self).breakpoint == old(self).breakpoint
                &&& final(self).enable_soft_break == old(self).enable_soft_break
                &&& !final(self).halt_bug
                &&& tgt != 6 ==> {
                    let v = spec_get(old(self).regs, spec_operand_reg(tgt));
                    &&& final(bus).mem() == old(bus).mem()
                    &&& final(self).regs == spec_set(spec_cb_flags(cbop, old(self).regs, v),
                        spec_operand_reg(tgt), spec_cb_val(cbop, v, old(self).regs.cf))
                }
                &&& tgt == 6 ==> {
                    let v = old(bus).mem()[spec_hl(old(self).regs)];
                    &&& final(self).regs == spec_cb_flags(cbop, old(self).regs, v)
                    &&& final(bus).mem() == (if 8 <= fam < 16 {
                        old(bus).mem()
                    } else {
                        old(bus).mem().insert(spec_hl(old(self).regs),
                            spec_cb_val(cbop, v, old(self).regs.cf))
                    })
                }
            }),
    {
        let cb_op = self.fetch(bus);
        if cb_op < 0x40 {
            self.cb_rotate(bus, cb_op)
        } else if cb_op < 0x80 {
            self.cb_bit(bus, cb_op)
        } else if cb_op < 0xC0 {
            self.cb_res(bus, cb_op)
        } else {
            self.cb_set(bus, cb_op)
        }
    }
}


/// Whether an opcode is one of the eleven holes of the primary table:
/// illegal on the real device, executed here as a logged-elsewhere no-op
/// that costs zero cycles.
pub open spec fn spec_is_illegal(op: u8) -> bool {
    op == 0xD3 || op == 0xDB || op == 0xDD || op == 0xE3 || op == 0xE4 || op == 0xEB
        || op == 0xEC || op == 0xED || op == 0xF4 || op == 0xFC || op == 0xFD
}

/// The branch condition a conditional jump, call or return row tests:
/// NZ, Z, NC, C in that order.
pub open spec fn spec_cc(i: int, r: Registers) -> bool {
    if i == 0 {
        !r.zf
    } else if i == 1 {
        r.zf
    } else if i == 2 {
        !r.cf
    } else {
        r.cf
    }
}

/// The tick cost of an immediate-operand instruction of the ALU rows.
pub open spec fn spec_alu_d8_cycles(fam: int) -> u8 {
    if fam == 0 {
        4
    } else if fam == 1 {
        4
    } else if fam == 2 {
        8
    } else if fam == 3 {
        4
    } else {
        8
    }
}

/// The register file after one instruction of the 0x80..0xBF block:
/// ADD, ADC, SUB, SBC, AND, XOR, OR, CP on A, by row.
pub open spec fn spec_alu_regs(fam: int, r: Registers, v: u8) -> Registers {
    if fam == 0 {
        spec_adc_regs(r, v, false)
    } else if fam == 1 {
        spec_adc_regs(r, v, r.cf)
    } else if fam == 2 {
        spec_sbc_regs(r, v, false)
    } else if fam == 3 {
        spec_sbc_regs(r, v, r.cf)
    } else if fam == 4 {
        spec_and_regs(r, v)
    } else if fam == 5 {
        spec_xor_regs(r, v)
    } else if fam == 6 {
        spec_or_regs(r, v)
    } else {
        spec_cp_regs(r, v)
    }
}

/// The tick cost of a register-operand instruction of the 0x80..0xBF
/// block, row by row.
pub open spec fn spec_alu_cycles(fam: int) -> u8 {
    if fam == 0 {
        8
    } else if fam == 1 {
        8
    } else if fam == 2 {
        4
    } else if fam == 3 {
        8
    } else {
        4
    }
}

impl Cpu {
    /// The LD block of the primary table, 0x40..0x7F without 0x76:
    /// register-to-register moves and the (HL) loads and stores.
    #[verifier::rlimit(60)]
    #[verifier::spinoff_prover]
    fn op_ld<B: Bus>(&mut self, bus: &mut B, op: u8) -> (cycles: u8)
        requires
            old(bus).inv(),
            0x40 <= op < 0x80,
            op != 0x76,
        ensures
            final(bus).inv(),
            final(bus).ie() == old(bus).ie(),
            final(bus).iflag() == old(bus).iflag(),
            final(self).sp == old(self).sp,
            final(self).pc == old(self).pc,
            final(self).halted == old(self).halted,
            final(self).ime == old(self).ime,
            final(self).breakpoint == old(self).breakpoint,
            final(self).enable_soft_break == old(self).enable_soft_break,
            final(self).halt_bug == old(self).halt_bug,
            final(self).paused == (old(self).paused || (old(self).enable_soft_break && op
                == 0x40)),
            ({
                let dst = (op - 0x40) as int / 8;
                let src = (op as int) % 8;
                &&& (dst != 6 && src != 6) ==> final(bus).mem() == old(bus).mem()
                    && final(self).regs == spec_set(old(self).regs, spec_operand_reg(dst),
                        spec_get(old(self).regs, spec_operand_reg(src))) && cycles == 4
                &&& (dst != 6 && src == 6) ==> final(bus).mem() == old(bus).mem()
                    && final(self).regs == spec_set(old(self).regs, spec_operand_reg(dst),
                        old(bus).mem()[spec_hl(old(self).regs)]) && cycles == 8
                &&& dst == 6 ==> final(self).regs == old(self).regs && final(bus).mem()
                    == old(bus).mem().insert(spec_hl(old(self).regs),
                        spec_get(old(self).regs, spec_operand_reg(src))) && cycles == 8
            }),
    {
        match op {
            0x40 => self.ld_r_r(Reg::B, Reg::B),  // LD B,B
            0x41 => self.ld_r_r(Reg::B, Reg::C),  // LD B,C
            0x42 => self.ld_r_r(Reg::B, Reg::D),  // LD B,D
            0x43 => self.ld_r_r(Reg::B, Reg::E),  // LD B,E
            0x44 => self.ld_r_r(Reg::B, Reg::H),  // LD B,H
            0x45 => self.ld_r_r(Reg::B, Reg::L),  // LD B,L
            0x46 => self.ld_r_addr(bus, Reg::B, RegPair::HL),  // LD B,(HL)
            0x47 => self.ld_r_r(Reg::B, Reg::A),  // LD B,A
            0x48 => self.ld_r_r(Reg::C, Reg::B),  // LD C,B
            0x49 => self.ld_r_r(Reg::C, Reg::C),  // LD C,C
            0x4a => self.ld_r_r(Reg::C, Reg::D),  // LD C,D
            0x4b => self.ld_r_r(Reg::C, Reg::E),  // LD C,E
            0x4c => self.ld_r_r(Reg::C, Reg::H),  // LD C,H
            0x4d => self.ld_r_r(Reg::C, Reg::L),  // LD C,L
            0x4e => self.ld_r_addr(bus, Reg::C, RegPair::HL),  // LD C,(HL)
            0x4f => self.ld_r_r(Reg::C, Reg::A),  // LD C,A
            0x50 => self.ld_r_r(Reg::D, Reg::B),  // LD D,B
            0x51 => self.ld_r_r(Reg::D, Reg::C),  // LD D,C
            0x52 => self.ld_r_r(Reg::D, Reg::D),  // LD D,D
            0x53 => self.ld_r_r(Reg::D, Reg::E),  // LD D,E
            0x54 => self.ld_r_r(Reg::D, Reg::H),  // LD D,H
            0x55 => self.ld_r_r(Reg::D, Reg::L),  // LD D,L
            0x56 => self.ld_r_addr(bus, Reg::D, RegPair::HL),  // LD D,(HL)
            0x57 => self.ld_r_r(Reg::D, Reg::A),  // LD D,A
            0x58 => self.ld_r_r(Reg::E, Reg::B),  // LD E,B
            0x59 => self.ld_r_r(Reg::E, Reg::C),  // LD E,C
            0x5a => self.ld_r_r(Reg::E, Reg::D),  // LD E,D
            0x5b => self.ld_r_r(Reg::E, Reg::E),  // LD E,E
            0x5c => self.ld_r_r(Reg::E, Reg::H),  // LD E,H
            0x5d => self.ld_r_r(Reg::E, Reg::L),  // LD E,L
            0x5e => self.ld_r_addr(bus, Reg::E, RegPair::HL),  // LD E,(HL)
            0x5f => self.ld_r_r(Reg::E, Reg::A),  // LD E,A
            0x60 => self.ld_r_r(Reg::H, Reg::B),  // LD H,B
            0x61 => self.ld_r_r(Reg::H, Reg::C),  // LD H,C
            0x62 => self.ld_r_r(Reg::H, Reg::D),  // LD H,D
            0x63 => self.ld_r_r(Reg::H, Reg::E),  // LD H,E
            0x64 => self.ld_r_r(Reg::H, Reg::H),  // LD H,H
            0x65 => self.ld_r_r(Reg::H, Reg::L),  // LD H,L
            0x66 => self.ld_r_addr(bus, Reg::H, RegPair::HL),  // LD H,(HL)
            0x67 => self.ld_r_r(Reg::H, Reg::A),  // LD H,A
            0x68 => self.ld_r_r(Reg::L, Reg::B),  // LD L,B
            0x69 => self.ld_r_r(Reg::L, Reg::C),  // LD L,C
            0x6a => self.ld_r_r(Reg::L, Reg::D),  // LD L,D
            0x6b => self.ld_r_r(Reg::L, Reg::E),  // LD L,E
            0x6c => self.ld_r_r(Reg::L, Reg::H),  // LD L,H
            0x6d => self.ld_r_r(Reg::L, Reg::L),  // LD L,L
            0x6e => self.ld_r_addr(bus, Reg::L, RegPair::HL),  // LD L,(HL)
            0x6f => self.ld_r_r(Reg::L, Reg::A),  // LD L,A
            0x70 => self.ld_addr_r(bus, RegPair::HL, Reg::B),  // LD (HL),B
            0x71 => self.ld_addr_r(bus, RegPair::HL, Reg::C),  // LD (HL),C
            0x72 => self.ld_addr_r(bus, RegPair::HL, Reg::D),  // LD (HL),D
            0x73 => self.ld_addr_r(bus, RegPair::HL, Reg::E),  // LD (HL),E
            0x74 => self.ld_addr_r(bus, RegPair::HL, Reg::H),  // LD (HL),H
            0x75 => self.ld_addr_r(bus, RegPair::HL, Reg::L),  // LD (HL),L
            0x77 => self.ld_addr_r(bus, RegPair::HL, Reg::A),  // LD (HL),A
            0x78 => self.ld_r_r(Reg::A, Reg::B),  // LD A,B
            0x79 => self.ld_r_r(Reg::A, Reg::C),  // LD A,C
            0x7a => self.ld_r_r(Reg::A, Reg::D),  // LD A,D
            0x7b => self.ld_r_r(Reg::A, Reg::E),  // LD A,E
            0x7c => self.ld_r_r(Reg::A, Reg::H),  // LD A,H
            0x7d => self.ld_r_r(Reg::A, Reg::L),  // LD A,L
            0x7e => self.ld_r_addr(bus, Reg::A, RegPair::HL),  // LD A,(HL)
            0x7f => self.ld_r_r(Reg::A, Reg::A),  // LD A,A
            _ => 0,  // unreachable: the caller dispatches by range
        }
    }

    /// The ALU block of the primary table, 0x80..0xBF: the eight
    /// accumulator operations, each on the seven registers and on (HL).
    #[verifier::rlimit(60)]
    #[verifier::spinoff_prover]
    fn op_alu<B: Bus>(&mut self, bus: &B, op: u8) -> (cycles: u8)
        requires
            bus.inv(),
            0x80 <= op < 0xC0,
        ensures
            ({
                let fam = (op - 0x80) as int / 8;
                let src = (op as int) % 8;
                let v = if src == 6 {
                    bus.mem()[spec_hl(old(self).regs)]
                } else {
                    spec_get(old(self).regs, spec_operand_reg(src))
                };
                &&& *final(self) == (Cpu {
                    regs: spec_alu_regs(fam, old(self).regs, v),
                    ..*old(self)
                })
                &&& cycles == (if src == 6 {
                    8u8
                } else {
                    spec_alu_cycles(fam)
                })
            }),
    {
        match op {
            0x80 => self.add_r(Reg::B),  // ADD A,B
            0x81 => self.add_r(Reg::C),  // ADD A,C
            0x82 => self.add_r(Reg::D),  // ADD A,D
            0x83 => self.add_r(Reg::E),  // ADD A,E
            0x84 => self.add_r(Reg::H),  // ADD A,H
            0x85 => self.add_r(Reg::L),  // ADD A,L
            0x86 => self.add_hl_addr(bus),  // ADD A,(HL)
            0x87 => self.add_r(Reg::A),  // ADD A,A
            0x88 => self.adc_r(Reg::B),  // ADC A,B
            0x89 => self.adc_r(Reg::C),  // ADC A,C
            0x8a => self.adc_r(Reg::D),  // ADC A,D
            0x8b => self.adc_r(Reg::E),  // ADC A,E
            0x8c => self.adc_r(Reg::H),  // ADC A,H
            0x8d => self.adc_r(Reg::L),  // ADC A,L
            0x8e => self.adc_hl(bus),  // ADC A,(HL)
            0x8f => self.adc_r(Reg::A),  // ADC A,A
            0x90 => self.sub_r(Reg::B),  // SUB B
            0x91 => self.sub_r(Reg::C),  // SUB C
            0x92 => self.sub_r(Reg::D),  // SUB D
            0x93 => self.sub_r(Reg::E),  // SUB E
            0x94 => self.sub_r(Reg::H),  // SUB H
            0x95 => self.sub_r(Reg::L),  // SUB L
            0x96 => self.sub_hl_addr(bus),  // SUB (HL)
            0x97 => self.sub_r(Reg::A),  // SUB A
            0x98 => self.sbc_r(Reg::B),  // SBC A,B
            0x99 => self.sbc_r(Reg::C),  // SBC A,C
            0x9a => self.sbc_r(Reg::D),  // SBC A,D
            0x9b => self.sbc_r(Reg::E),  // SBC A,E
            0x9c => self.sbc_r(Reg::H),  // SBC A,H
            0x9d => self.sbc_r(Reg::L),  // SBC A,L
            0x9e => self.sbc_hl(bus),  // SBC A,(HL)
            0x9f => self.sbc_r(Reg::A),  // SBC A,A
            0xa0 => self.and_r(Reg::B),  // AND B
            0xa1 => self.and_r(Reg::C),  // AND C
            0xa2 => self.and_r(Reg::D),  // AND D
            0xa3 => self.and_r(Reg::E),  // AND E
            0xa4 => self.and_r(Reg::H),  // AND H
            0xa5 => self.and_r(Reg::L),  // AND L
            0xa6 => self.and_hl(bus),  // AND (HL)
            0xa7 => self.and_r(Reg::A),  // AND A
            0xa8 => self.xor_r(Reg::B),  // XOR B
            0xa9 => self.xor_r(Reg::C),  // XOR C
            0xaa => self.xor_r(Reg::D),  // XOR D
            0xab => self.xor_r(Reg::E),  // XOR E
            0xac => self.xor_r(Reg::H),  // XOR H
            0xad => self.xor_r(Reg::L),  // XOR L
            0xae => self.xor_hl(bus),  // XOR (HL)
            0xaf => self.xor_r(Reg::A),  // XOR A
            0xb0 => self.or_r(Reg::B),  // OR B
            0xb1 => self.or_r(Reg::C),  // OR C
            0xb2 => self.or_r(Reg::D),  // OR D
            0xb3 => self.or_r(Reg::E),  // OR E
            0xb4 => self.or_r(Reg::H),  // OR H
            0xb5 => self.or_r(Reg::L),  // OR L
            0xb6 => self.or_hl(bus),  // OR (HL)
            0xb7 => self.or_r(Reg::A),  // OR A
            0xb8 => self.cp_r(Reg::B),  // CP B
            0xb9 => self.cp_r(Reg::C),  // CP C
            0xba => self.cp_r(Reg::D),  // CP D
            0xbb => self.cp_r(Reg::E),  // CP E
            0xbc => self.cp_r(Reg::H),  // CP H
            0xbd => self.cp_r(Reg::L),  // CP L
            0xbe => self.cp_hl(bus),  // CP (HL)
            0xbf => self.cp_r(Reg::A),  // CP A
            _ => 0,  // unreachable: the caller dispatches by range
        }
    }
}


impl Cpu {
    /// The 0x00..0x3F quadrant of the primary table: 16-bit loads and
    /// arithmetic, 8-bit immediates, INC/DEC, the A rotates, DAA, CPL,
    /// SCF, CCF, the relative jumps, STOP and the HL+/HL- moves.
    #[verifier::rlimit(80)]
    #[verifier::spinoff_prover]
    fn op_misc_lo<B: Bus>(&mut self, bus: &mut B, op: u8) -> (cycles: u8)
        requires
            old(bus).inv(),
            op < 0x40,
            !old(self).halted,
            !old(self).halt_bug,
        ensures
            final(bus).inv(),
            final(bus).ie() == old(bus).ie(),
            final(bus).iflag() == old(bus).iflag(),
            final(self).halted == (op == 0x10),
            final(self).ime == old(self).ime,
            final(self).paused == old(self).paused,
            final(self).breakpoint == old(self).breakpoint,
            final(self).enable_soft_break == old(self).enable_soft_break,
            !final(self).halt_bug,
            op == 0x00 ==> *final(self) == *old(self) && final(bus).mem() == old(bus).mem()
                && cycles == 4,
            (op % 8 == 4 && op != 0x34) ==> ({
                let v = spec_get(old(self).regs, spec_operand_reg((op as int) / 8));
                *final(self) == (Cpu {
                    regs: spec_set(spec_inc_flags(old(self).regs, v),
                        spec_operand_reg((op as int) / 8), spec_inc_val(v)),
                    ..*old(self)
                }) && final(bus).mem() == old(bus).mem() && cycles == 4
            }),
            (op % 8 == 5 && op != 0x35) ==> ({
                let v = spec_get(old(self).regs, spec_operand_reg((op as int) / 8));
                *final(self) == (Cpu {
                    regs: spec_set(spec_dec_flags(old(self).regs, v),
                        spec_operand_reg((op as int) / 8), spec_dec_val(v)),
                    ..*old(self)
                }) && final(bus).mem() == old(bus).mem() && cycles == 4
            }),
            op == 0x34 ==> final(self).regs == spec_inc_flags(old(self).regs,
                old(bus).mem()[spec_hl(old(self).regs)]) && final(bus).mem()
                == old(bus).mem().insert(spec_hl(old(self).regs),
                    spec_inc_val(old(bus).mem()[spec_hl(old(self).regs)])) && cycles == 12,
            op == 0x35 ==> final(self).regs == spec_dec_flags(old(self).regs,
                old(bus).mem()[spec_hl(old(self).regs)]) && final(bus).mem()
                == old(bus).mem().insert(spec_hl(old(self).regs),
                    spec_dec_val(old(bus).mem()[spec_hl(old(self).regs)])) && cycles == 12,
            op == 0x27 ==> *final(self) == (Cpu {
                regs: spec_daa_regs(old(self).regs),
                ..*old(self)
            }) && final(bus).mem() == old(bus).mem() && cycles == 4,
            (op == 0x01 || op == 0x11 || op == 0x21) ==> *final(self) == (Cpu {
                regs: spec_set_pair(old(self).regs, spec_pair_idx((op as int) / 16),
                    spec_fetch2_val(*old(self), old(bus).mem())),
                pc: spec_fetch2_pc(*old(self)),
                ..*old(self)
            }) && final(bus).mem() == old(bus).mem() && cycles == 12,
            op == 0x31 ==> *final(self) == (Cpu {
                sp: spec_fetch2_val(*old(self), old(bus).mem()),
                pc: spec_fetch2_pc(*old(self)),
                ..*old(self)
            }) && final(bus).mem() == old(bus).mem() && cycles == 12,
            (op == 0x02 || op == 0x12) ==> *final(self) == *old(self) && final(bus).mem()
                == old(bus).mem().insert(spec_get_pair(old(self).regs, spec_pair_idx(
                (op as int) / 16)), spec_get(old(self).regs, Reg::A)) && cycles == 8,
            (op == 0x0A || op == 0x1A) ==> *final(self) == (Cpu {
                regs: spec_set(old(self).regs, Reg::A, old(bus).mem()[spec_get_pair(
                    old(self).regs, spec_pair_idx((op as int) / 16))]),
                ..*old(self)
            }) && final(bus).mem() == old(bus).mem() && cycles == 8,
            (op == 0x03 || op == 0x13 || op == 0x23) ==> *final(self) == (Cpu {
                regs: spec_set_pair(old(self).regs, spec_pair_idx((op as int) / 16),
                    spec_wrap16(spec_get_pair(old(self).regs, spec_pair_idx((op as int) / 16))
                    + 1)),
                ..*old(self)
            }) && final(bus).mem() == old(bus).mem() && cycles == 8,
            (op == 0x0B || op == 0x1B || op == 0x2B) ==> *final(self) == (Cpu {
                regs: spec_set_pair(old(self).regs, spec_pair_idx((op as int) / 16),
                    spec_wrap16(spec_get_pair(old(self).regs, spec_pair_idx((op as int) / 16))
                    - 1)),
                ..*old(self)
            }) && final(bus).mem() == old(bus).mem() && cycles == 8,
            op == 0x33 ==> *final(self) == (Cpu {
                sp: spec_wrap16(old(self).sp + 1),
                ..*old(self)
            }) && final(bus).mem() == old(bus).mem() && cycles == 8,
            op == 0x3B ==> *final(self) == (Cpu {
                sp: spec_wrap16(old(self).sp - 1),
                ..*old(self)
            }) && final(bus).mem() == old(bus).mem() && cycles == 8,
            op == 0x07 ==> *final(self) == (Cpu {
                regs: spec_rlca_regs(old(self).regs),
                ..*old(self)
            }) && final(bus).mem() == old(bus).mem() && cycles == 4,
            op == 0x0F ==> *final(self) == (Cpu {
                regs: spec_rrca_regs(old(self).regs),
                ..*old(self)
            }) && final(bus).mem() == old(bus).mem() && cycles == 4,
            op == 0x17 ==> *final(self) == (Cpu {
                regs: spec_rla_regs(old(self).regs),
                ..*old(self)
            }) && final(bus).mem() == old(bus).mem() && cycles == 4,
            op == 0x1F ==> *final(self) == (Cpu {
                regs: spec_rra_regs(old(self).regs),
                ..*old(self)
            }) && final(bus).mem() == old(bus).mem() && cycles == 4,
            (op % 8 == 6 && op != 0x36) ==> *final(self) == (Cpu {
                regs: spec_set(old(self).regs, spec_operand_reg((op as int) / 8),
                    old(bus).mem()[old(self).pc]),
                pc: spec_wrap16(old(self).pc + 1),
                ..*old(self)
            }) && final(bus).mem() == old(bus).mem() && cycles == 8,
            op == 0x36 ==> *final(self) == (Cpu {
                pc: spec_wrap16(old(self).pc + 1),
                ..*old(self)
            }) && final(bus).mem() == old(bus).mem().insert(spec_hl(old(self).regs),
                old(bus).mem()[old(self).pc]) && cycles == 12,
            (op == 0x18 || op == 0x20 || op == 0x28 || op == 0x30 || op == 0x38) ==> ({
                let taken = op == 0x18 || spec_cc((op - 0x20) as int / 8, old(self).regs);
                *final(self) == (Cpu {
                    pc: if taken {
                        spec_wrap16(spec_wrap16(old(self).pc + 1) + spec_sign_extend(
                            old(bus).mem()[old(self).pc]))
                    } else {
                        spec_wrap16(old(self).pc + 1)
                    },
                    ..*old(self)
                }) && final(bus).mem() == old(bus).mem() && cycles == (if taken {
                    12u8
                } else {
                    8u8
                })
            }),
            op == 0x08 ==> *final(self) == (Cpu {
                pc: spec_fetch2_pc(*old(self)),
                ..*old(self)
            }) && final(bus).mem() == spec_write_word(old(bus).mem(), spec_fetch2_val(
                *old(self), old(bus).mem()), old(self).sp) && cycles == 20,
            (op == 0x09 || op == 0x19 || op == 0x29) ==> *final(self) == (Cpu {
                regs: spec_add16_regs(old(self).regs, RegPair::HL, spec_get_pair(
                    old(self).regs, spec_pair_idx((op as int) / 16))),
                ..*old(self)
            }) && final(bus).mem() == old(bus).mem() && cycles == 8,
            op == 0x39 ==> *final(self) == (Cpu {
                regs: spec_add16_regs(old(self).regs, RegPair::HL, old(self).sp),
                ..*old(self)
            }) && final(bus).mem() == old(bus).mem() && cycles == 8,
            op == 0x22 ==> *final(self) == (Cpu {
                regs: spec_set_pair(old(self).regs, RegPair::HL, spec_wrap16(spec_hl(
                    old(self).regs) + 1)),
                ..*old(self)
            }) && final(bus).mem() == old(bus).mem().insert(spec_hl(old(self).regs),
                spec_get(old(self).regs, Reg::A)) && cycles == 8,
            op == 0x32 ==> *final(self) == (Cpu {
                regs: spec_set_pair(old(self).regs, RegPair::HL, spec_wrap16(spec_hl(
                    old(self).regs) - 1)),
                ..*old(self)
            }) && final(bus).mem() == old(bus).mem().insert(spec_hl(old(self).regs),
                spec_get(old(self).regs, Reg::A)) && cycles == 8,
            op == 0x2A ==> *final(self) == (Cpu {
                regs: spec_set_pair(spec_set(old(self).regs, Reg::A, old(bus).mem()[spec_hl(
                    old(self).regs)]), RegPair::HL, spec_wrap16(spec_hl(old(self).regs) + 1)),
                ..*old(self)
            }) && final(bus).mem() == old(bus).mem() && cycles == 8,
            op == 0x3A ==> *final(self) == (Cpu {
                regs: spec_set_pair(spec_set(old(self).regs, Reg::A, old(bus).mem()[spec_hl(
                    old(self).regs)]), RegPair::HL, spec_wrap16(spec_hl(old(self).regs) - 1)),
                ..*old(self)
            }) && final(bus).mem() == old(bus).mem() && cycles == 8,
            op == 0x2F ==> *final(self) == (Cpu {
                regs: spec_cpl_regs(old(self).regs),
                ..*old(self)
            }) && final(bus).mem() == old(bus).mem() && cycles == 8,
            op == 0x37 ==> *final(self) == (Cpu {
                regs: (Registers { nf: false, hf: false, cf: true, ..old(self).regs }),
                ..*old(self)
            }) && final(bus).mem() == old(bus).mem() && cycles == 4,
            op == 0x3F ==> *final(self) == (Cpu {
                regs: (Registers { nf: false, hf: false, cf: !old(self).regs.cf,
                    ..old(self).regs }),
                ..*old(self)
            }) && final(bus).mem() == old(bus).mem() && cycles == 4,
            op == 0x10 ==> *final(self) == (Cpu { halted: true, ..*old(self) })
                && final(bus).mem() == old(bus).mem() && cycles == 4,
    {
        match op {
            // NOP
            0x00 => 4,
            // LD BC,d16
            0x01 => self.ld_rr_d16(bus, RegPair::BC),
            // LD (BC),A
            0x02 => self.ld_addr_r(bus, RegPair::BC, Reg::A),
            // INC BC
            0x03 => self.inc_rr(RegPair::BC),
            // INC B
            0x04 => self.inc_r(Reg::B),
            // DEC B
            0x05 => self.dec_r(Reg::B),
            // LD B,d8
            0x06 => self.ld_r_d8(bus, Reg::B),
            // RLCA
            0x07 => self.rlca(),
            // LD (a16),SP
            0x08 => {
                let addr = self.fetch_word(bus);
                let sp = self.sp;
                bus.write_word(addr, sp);
                20
            },
            // ADD HL,BC
            0x09 => {
                let v = self.regs.get_pair(RegPair::BC);
                self.add_rr_rr(RegPair::HL, v)
            },
            // LD A,(BC)
            0x0a => self.ld_r_addr(bus, Reg::A, RegPair::BC),
            // DEC BC
            0x0b => self.dec_rr(RegPair::BC),
            // INC C
            0x0c => self.inc_r(Reg::C),
            // DEC C
            0x0d => self.dec_r(Reg::C),
            // LD C,d8
            0x0e => self.ld_r_d8(bus, Reg::C),
            // RRCA
            0x0f => self.rrca(),
            // STOP, modeled as a bare halt
            0x10 => {
                self.halted = true;
                4
            },
            // LD DE,d16
            0x11 => self.ld_rr_d16(bus, RegPair::DE),
            // LD (DE),A
            0x12 => self.ld_addr_r(bus, RegPair::DE, Reg::A),
            // INC DE
            0x13 => self.inc_rr(RegPair::DE),
            // INC D
            0x14 => self.inc_r(Reg::D),
            // DEC D
            0x15 => self.dec_r(Reg::D),
            // LD D,d8
            0x16 => self.ld_r_d8(bus, Reg::D),
            // RLA
            0x17 => self.rla(),
            // JR r8
            0x18 => self.jr_if_r8(bus, true),
            // ADD HL,DE
            0x19 => {
                let v = self.regs.get_pair(RegPair::DE);
                self.add_rr_rr(RegPair::HL, v)
            },
            // LD A,(DE)
            0x1a => self.ld_r_addr(bus, Reg::A, RegPair::DE),
            // DEC DE
            0x1b => self.dec_rr(RegPair::DE),
            // INC E
            0x1c => self.inc_r(Reg::E),
            // DEC E
            0x1d => self.dec_r(Reg::E),
            // LD E,d8
            0x1e => self.ld_r_d8(bus, Reg::E),
            // RRA
            0x1f => self.rra(),
            // JR NZ,r8
            0x20 => {
                let flag = !self.regs.flag_z();
                self.jr_if_r8(bus, flag)
            },
            // LD HL,d16
            0x21 => self.ld_rr_d16(bus, RegPair::HL),
            // LD (HL+),A
            0x22 => {
                let addr = self.regs.get_pair(RegPair::HL);
                let a = self.regs.get(Reg::A);
                bus.write_byte(addr, a);
                self.regs.set_pair(RegPair::HL, addr.wrapping_add(1));
                8
            },
            // INC HL
            0x23 => self.inc_rr(RegPair::HL),
            // INC H
            0x24 => self.inc_r(Reg::H),
            // DEC H
            0x25 => self.dec_r(Reg::H),
            // LD H,d8
            0x26 => self.ld_r_d8(bus, Reg::H),
            // DAA
            0x27 => self.daa(),
            // JR Z,r8
            0x28 => {
                let flag = self.regs.flag_z();
                self.jr_if_r8(bus, flag)
            },
            // ADD HL,HL
            0x29 => {
                let v = self.regs.get_pair(RegPair::HL);
                self.add_rr_rr(RegPair::HL, v)
            },
            // LD A,(HL+)
            0x2a => {
                self.ld_r_addr(bus, Reg::A, RegPair::HL);
                let hl = self.regs.get_pair(RegPair::HL);
                self.regs.set_pair(RegPair::HL, hl.wrapping_add(1));
                8
            },
            // DEC HL
            0x2b => self.dec_rr(RegPair::HL),
            // INC L
            0x2c => self.inc_r(Reg::L),
            // DEC L
            0x2d => self.dec_r(Reg::L),
            // LD L,d8
            0x2e => self.ld_r_d8(bus, Reg::L),
            // CPL
            0x2f => self.cpl(),
            // JR NC,r8
            0x30 => {
                let flag = !self.regs.flag_c();
                self.jr_if_r8(bus, flag)
            },
            // LD SP,d16
            0x31 => {
                self.sp = self.fetch_word(bus);
                12
            },
            // LD (HL-),A
            0x32 => {
                let addr = self.regs.get_pair(RegPair::HL);
                let a = self.regs.get(Reg::A);
                bus.write_byte(addr, a);
                self.regs.set_pair(RegPair::HL, addr.wrapping_sub(1));
                8
            },
            // INC SP
            0x33 => self.inc_sp(),
            // INC (HL)
            0x34 => self.inc_hl(bus),
            // DEC (HL)
            0x35 => self.dec_hl(bus),
            // LD (HL),d8
            0x36 => self.ld_hl_d8(bus),
            // SCF
            0x37 => {
                self.regs.nf = false;
                self.regs.hf = false;
                self.regs.cf = true;
                4
            },
            // JR C,r8
            0x38 => {
                let flag = self.regs.flag_c();
                self.jr_if_r8(bus, flag)
            },
            // ADD HL,SP
            0x39 => {
                let v = self.sp;
                self.add_rr_rr(RegPair::HL, v)
            },
            // LD A,(HL-)
            0x3a => {
                self.ld_r_addr(bus, Reg::A, RegPair::HL);
                let hl = self.regs.get_pair(RegPair::HL);
                self.regs.set_pair(RegPair::HL, hl.wrapping_sub(1));
                8
            },
            // DEC SP
            0x3b => {
                self.sp = self.sp.wrapping_sub(1);
                8
            },
            // INC A
            0x3c => self.inc_r(Reg::A),
            // DEC A
            0x3d => self.dec_r(Reg::A),
            // LD A,d8
            0x3e => self.ld_r_d8(bus, Reg::A),
            // CCF
            0x3f => {
                self.regs.nf = false;
                self.regs.hf = false;
                let c = self.regs.flag_c();
                self.regs.cf = !c;
                4
            },
            _ => 0,  // unreachable: the caller dispatches by range
        }
    }

    /// The 0xC0..0xFF quadrant of the primary table: conditional and plain
    /// returns, jumps and calls, the stack pushes and pops, RST, the
    /// immediate-operand ALU forms, the 0xFF00-page loads, DI, EI and the
    /// illegal holes (zero-cycle no-ops).
    #[verifier::rlimit(80)]
    #[verifier::spinoff_prover]
    fn op_ctrl_hi<B: Bus>(&mut self, bus: &mut B, op: u8) -> (cycles: u8)
        requires
            old(bus).inv(),
            0xC0 <= op,
            op != 0xCB,
            !old(self).halted,
            !old(self).halt_bug,
        ensures
            final(bus).inv(),
            final(bus).ie() == old(bus).ie(),
            final(bus).iflag() == old(bus).iflag(),
            final(self).halted == old(self).halted,
            final(self).paused == old(self).paused,
            final(self).breakpoint == old(self).breakpoint,
            final(self).enable_soft_break == old(self).enable_soft_break,
            !final(self).halt_bug,
            final(self).ime == (if op == 0xF3 {
                false
            } else if op == 0xFB || op == 0xD9 {
                true
            } else {
                old(self).ime
            }),
            spec_is_illegal(op) ==> *final(self) == *old(self) && final(bus).mem()
                == old(bus).mem() && cycles == 0,
            (op == 0xC5 || op == 0xD5 || op == 0xE5 || op == 0xF5) ==> ({
                let rr = spec_pair_idx((op - 0xC0) as int / 16);
                *final(self) == (Cpu { sp: spec_wrap16(old(self).sp - 2), ..*old(self) })
                    && final(bus).mem() == spec_write_word(old(bus).mem(),
                        spec_wrap16(old(self).sp - 2), spec_get_pair(old(self).regs, rr))
                    && cycles == 16
            }),
            (op == 0xC1 || op == 0xD1 || op == 0xE1 || op == 0xF1) ==> ({
                let rr = spec_pair_idx((op - 0xC0) as int / 16);
                *final(self) == (Cpu {
                    regs: spec_set_pair(old(self).regs, rr, spec_word_at(old(bus).mem(),
                        old(self).sp)),
                    sp: spec_wrap16(old(self).sp + 2),
                    ..*old(self)
                }) && final(bus).mem() == old(bus).mem() && cycles == 12
            }),
            (op == 0xC9 || op == 0xD9) ==> ({
                *final(self) == (Cpu {
                    sp: spec_wrap16(old(self).sp + 2),
                    pc: spec_word_at(old(bus).mem(), old(self).sp),
                    ime: if op == 0xD9 {
                        true
                    } else {
                        old(self).ime
                    },
                    ..*old(self)
                }) && final(bus).mem() == old(bus).mem() && cycles == 16
            }),
            (op % 8 == 7) ==> ({
                *final(self) == (Cpu {
                    sp: spec_wrap16(old(self).sp - 2),
                    pc: (op - 0xC7) as u16,
                    ..*old(self)
                }) && final(bus).mem() == spec_write_word(old(bus).mem(),
                    spec_wrap16(old(self).sp - 2), old(self).pc) && cycles == 16
            }),
            (op == 0xC0 || op == 0xC8 || op == 0xD0 || op == 0xD8) ==> ({
                let taken = spec_cc((op - 0xC0) as int / 8, old(self).regs);
                &&& taken ==> *final(self) == (Cpu {
                    sp: spec_wrap16(old(self).sp + 2),
                    pc: spec_word_at(old(bus).mem(), old(self).sp),
                    ..*old(self)
                }) && cycles == 20
                &&& !taken ==> *final(self) == *old(self) && cycles == 8
                &&& final(bus).mem() == old(bus).mem()
            }),
            (op == 0xC3 || op == 0xC2 || op == 0xCA || op == 0xD2 || op == 0xDA) ==> ({
                let taken = op == 0xC3 || spec_cc((op - 0xC2) as int / 8, old(self).regs);
                *final(self) == (Cpu {
                    pc: if taken {
                        spec_fetch2_val(*old(self), old(bus).mem())
                    } else {
                        spec_fetch2_pc(*old(self))
                    },
                    ..*old(self)
                }) && final(bus).mem() == old(bus).mem() && cycles == (if taken {
                    16u8
                } else {
                    12u8
                })
            }),
            (op == 0xCD || op == 0xC4 || op == 0xCC || op == 0xD4 || op == 0xDC) ==> ({
                let taken = op == 0xCD || spec_cc((op - 0xC4) as int / 8, old(self).regs);
                &&& taken ==> *final(self) == (Cpu {
                    sp: spec_wrap16(old(self).sp - 2),
                    pc: spec_fetch2_val(*old(self), old(bus).mem()),
                    ..*old(self)
                }) && final(bus).mem() == spec_write_word(old(bus).mem(),
                    spec_wrap16(old(self).sp - 2), spec_fetch2_pc(*old(self))) && cycles == 24
                &&& !taken ==> *final(self) == (Cpu {
                    pc: spec_fetch2_pc(*old(self)),
                    ..*old(self)
                }) && final(bus).mem() == old(bus).mem() && cycles == 12
            }),
            (op % 8 == 6) ==> *final(self) == (Cpu {
                regs: spec_alu_regs((op - 0xC0) as int / 8, old(self).regs,
                    old(bus).mem()[old(self).pc]),
                pc: spec_wrap16(old(self).pc + 1),
                ..*old(self)
            }) && final(bus).mem() == old(bus).mem() && cycles == spec_alu_d8_cycles(
                (op - 0xC0) as int / 8),
            op == 0xE0 ==> *final(self) == (Cpu {
                pc: spec_wrap16(old(self).pc + 1),
                ..*old(self)
            }) && final(bus).mem() == old(bus).mem().insert(
                (0xFF00 + old(bus).mem()[old(self).pc]) as u16,
                spec_get(old(self).regs, Reg::A)) && cycles == 12,
            op == 0xF0 ==> *final(self) == (Cpu {
                regs: spec_set(old(self).regs, Reg::A, old(bus).mem()[
                    (0xFF00 + old(bus).mem()[old(self).pc]) as u16]),
                pc: spec_wrap16(old(self).pc + 1),
                ..*old(self)
            }) && final(bus).mem() == old(bus).mem() && cycles == 12,
            op == 0xE2 ==> *final(self) == *old(self) && final(bus).mem()
                == old(bus).mem().insert((0xFF00 + old(self).regs.c) as u16,
                spec_get(old(self).regs, Reg::A)) && cycles == 8,
            op == 0xF2 ==> *final(self) == (Cpu {
                regs: spec_set(old(self).regs, Reg::A, old(bus).mem()[
                    (0xFF00 + old(self).regs.c) as u16]),
                ..*old(self)
            }) && final(bus).mem() == old(bus).mem() && cycles == 8,
            op == 0xEA ==> *final(self) == (Cpu {
                pc: spec_fetch2_pc(*old(self)),
                ..*old(self)
            }) && final(bus).mem() == old(bus).mem().insert(spec_fetch2_val(*old(self),
                old(bus).mem()), spec_get(old(self).regs, Reg::A)) && cycles == 16,
            op == 0xFA ==> *final(self) == (Cpu {
                regs: spec_set(old(self).regs, Reg::A, old(bus).mem()[spec_fetch2_val(
                    *old(self), old(bus).mem())]),
                pc: spec_fetch2_pc(*old(self)),
                ..*old(self)
            }) && final(bus).mem() == old(bus).mem() && cycles == 16,
            op == 0xE8 ==> *final(self) == (Cpu {
                regs: spec_addsp_flags(old(self).regs, old(self).sp, spec_sign_extend(
                    old(bus).mem()[old(self).pc])),
                sp: spec_addsp_sum(old(self).sp, spec_sign_extend(
                    old(bus).mem()[old(self).pc])),
                pc: spec_wrap16(old(self).pc + 1),
                ..*old(self)
            }) && final(bus).mem() == old(bus).mem() && cycles == 16,
            op == 0xF8 ==> *final(self) == (Cpu {
                regs: spec_set_pair(spec_addsp_flags(old(self).regs, old(self).sp,
                    spec_sign_extend(old(bus).mem()[old(self).pc])), RegPair::HL,
                    spec_addsp_sum(old(self).sp, spec_sign_extend(
                    old(bus).mem()[old(self).pc]))),
                pc: spec_wrap16(old(self).pc + 1),
                ..*old(self)
            }) && final(bus).mem() == old(bus).mem() && cycles == 12,
            op == 0xF9 ==> *final(self) == (Cpu {
                sp: spec_hl(old(self).regs),
                ..*old(self)
            }) && final(bus).mem() == old(bus).mem() && cycles == 8,
            op == 0xE9 ==> *final(self) == (Cpu {
                pc: spec_hl(old(self).regs),
                ..*old(self)
            }) && final(bus).mem() == old(bus).mem() && cycles == 4,
            (op == 0xF3 || op == 0xFB) ==> final(self).regs == old(self).regs
                && final(self).sp == old(self).sp && final(self).pc == old(self).pc
                && final(bus).mem() == old(bus).mem() && cycles == 4,
    {
        match op {
            // RET NZ
            0xc0 => {
                let nz = !self.regs.flag_z();
                self.ret_if(bus, nz)
            },
            // POP BC
            0xc1 => self.pop_rr(bus, RegPair::BC),
            // JP NZ,a16
            0xc2 => {
                let nz = !self.regs.flag_z();
                self.jp_if_a16(bus, nz)
            },
            // JP a16
            0xc3 => self.jp_if_a16(bus, true),
            // CALL NZ,a16
            0xc4 => {
                let nz = !self.regs.flag_z();
                self.call_if_a16(bus, nz)
            },
            // PUSH BC
            0xc5 => self.push_rr(bus, RegPair::BC),
            // ADD d8
            0xc6 => self.add_d8(bus),
            // RST 0x00
            0xc7 => self.rst(bus, 0x00),
            // RET Z
            0xc8 => {
                let z = self.regs.flag_z();
                self.ret_if(bus, z)
            },
            // RET
            0xc9 => {
                self.ret_if(bus, true);
                16
            },
            // JP Z,a16
            0xca => {
                let z = self.regs.flag_z();
                self.jp_if_a16(bus, z)
            },
            // CALL Z,a16
            0xcc => {
                let z = self.regs.flag_z();
                self.call_if_a16(bus, z)
            },
            // CALL a16
            0xcd => self.call_if_a16(bus, true),
            // ADC A,d8
            0xce => self.adc_d8(bus),
            // RST 0x08
            0xcf => self.rst(bus, 0x08),
            // RET NC
            0xd0 => {
                let nc = !self.regs.flag_c();
                self.ret_if(bus, nc)
            },
            // POP DE
            0xd1 => self.pop_rr(bus, RegPair::DE),
            // JP NC,a16
            0xd2 => {
                let nc = !self.regs.flag_c();
                self.jp_if_a16(bus, nc)
            },
            // CALL NC,a16
            0xd4 => {
                let nc = !self.regs.flag_c();
                self.call_if_a16(bus, nc)
            },
            // PUSH DE
            0xd5 => self.push_rr(bus, RegPair::DE),
            // SUB d8
            0xd6 => self.sub_d8(bus),
            // RST 0x10
            0xd7 => self.rst(bus, 0x10),
            // RET C
            0xd8 => {
                let c = self.regs.flag_c();
                self.ret_if(bus, c)
            },
            // RETI: RET plus re-enabling interrupts
            0xd9 => {
                self.ret_if(bus, true);
                self.ime = true;
                16
            },
            // JP C,a16
            0xda => {
                let c = self.regs.flag_c();
                self.jp_if_a16(bus, c)
            },
            // CALL C,a16
            0xdc => {
                let c = self.regs.flag_c();
                self.call_if_a16(bus, c)
            },
            // SBC A,d8
            0xde => self.sbc_d8(bus),
            // RST 0x18
            0xdf => self.rst(bus, 0x18),
            // LDH (a8),A
            0xe0 => {
                let a8 = self.fetch(bus);
                let addr = 0xFF00 + a8 as u16;
                let a = self.regs.get(Reg::A);
                bus.write_byte(addr, a);
                12
            },
            // POP HL
            0xe1 => self.pop_rr(bus, RegPair::HL),
            // LD (C),A
            0xe2 => {
                let addr = 0xFF00 + self.regs.get(Reg::C) as u16;
                let a = self.regs.get(Reg::A);
                bus.write_byte(addr, a);
                8
            },
            // PUSH HL
            0xe5 => self.push_rr(bus, RegPair::HL),
            // AND d8
            0xe6 => self.and_d8(bus),
            // RST 0x20
            0xe7 => self.rst(bus, 0x20),
            // ADD SP,r8
            0xe8 => self.add_sp_r8(bus),
            // JP HL
            0xe9 => self.jp_hl(),
            // LD (a16),A
            0xea => self.ld_a16_r(bus, Reg::A),
            // XOR d8
            0xee => self.xor_d8(bus),
            // RST 0x28
            0xef => self.rst(bus, 0x28),
            // LDH A,(a8)
            0xf0 => {
                let a8 = self.fetch(bus);
                let addr = 0xFF00 + a8 as u16;
                let v = bus.read_byte(addr);
                self.regs.set(Reg::A, v);
                12
            },
            // POP AF
            0xf1 => self.pop_rr(bus, RegPair::AF),
            // LD A,(C)
            0xf2 => {
                let addr = 0xFF00 + self.regs.get(Reg::C) as u16;
                let v = bus.read_byte(addr);
                self.regs.set(Reg::A, v);
                8
            },
            // DI
            0xf3 => {
                self.ime = false;
                4
            },
            // PUSH AF
            0xf5 => self.push_rr(bus, RegPair::AF),
            // OR d8
            0xf6 => self.or_d8(bus),
            // RST 0x30
            0xf7 => self.rst(bus, 0x30),
            // LD HL,SP+r8
            0xf8 => self.ld_hl_sp_r8(bus),
            // LD SP,HL
            0xf9 => {
                self.sp = self.regs.get_pair(RegPair::HL);
                8
            },
            // LD A,(a16)
            0xfa => self.ld_r_a16(bus, Reg::A),
            // EI (takes effect at once; the one-instruction delay of the
            // real device is not modeled)
            0xfb => {
                self.ime = true;
                4
            },
            // CP d8
            0xfe => self.cp_d8(bus),
            // RST 0x38
            0xff => self.rst(bus, 0x38),
            // the illegal holes of the table: a zero-cycle no-op
            _ => 0,
        }
    }
}


impl Cpu {
    /// Fetches and executes exactly one instruction (or the halted no-op)
    /// and returns its tick cost.
    ///
    /// Before anything else, reaching the breakpoint address pauses the
    /// CPU (execution still proceeds; the host polls `is_paused`). A
    /// halted CPU performs nothing and costs a fixed four ticks. One armed
    /// HALT-bug latch is always consumed by the first fetch, which then
    /// leaves PC where it was.
    ///
    /// The contract pins, for every opcode of the primary and the
    /// CB-prefixed table, the exact outcome: registers, SP, PC, memory,
    /// the pause, run-state, HALT-bug and IME transitions, the tick cost,
    /// and that IE and IF are never written. The eleven illegal opcodes
    /// execute as zero-cycle no-ops.
    #[verifier::rlimit(80)]
    #[verifier::spinoff_prover]
    pub fn step<B: Bus>(&mut self, bus: &mut B) -> (cycles: u8)
        requires
            old(bus).inv(),
        ensures
            final(bus).inv(),
            final(bus).ie() == old(bus).ie(),
            final(bus).iflag() == old(bus).iflag(),
            final(self).breakpoint == old(self).breakpoint,
            final(self).enable_soft_break == old(self).enable_soft_break,
            old(self).halted ==> cycles == 4 && *final(self) == (Cpu {
                paused: old(self).paused || old(self).pc == old(self).breakpoint,
                ..*old(self)
            }) && final(bus).mem() == old(bus).mem(),
            !old(self).halted ==> ({
                let op = old(bus).mem()[old(self).pc];
                let pending = old(bus).ie() & old(bus).iflag() != 0;
                &&& final(self).paused == (old(self).paused || old(self).pc
                    == old(self).breakpoint || (old(self).enable_soft_break && op == 0x40))
                &&& final(self).halted == (op == 0x10 || (op == 0x76 && (old(self).ime
                    || !pending)))
                &&& final(self).halt_bug == (op == 0x76 && !old(self).ime && pending)
                &&& final(self).ime == (if op == 0xF3 {
                    false
                } else if op == 0xFB || op == 0xD9 {
                    true
                } else {
                    old(self).ime
                })
                &&& op == 0x76 ==> final(self).regs == old(self).regs && final(self).sp
                    == old(self).sp && final(self).pc == spec_fetch_pc(*old(self))
                    && final(bus).mem() == old(bus).mem() && cycles == 4
                &&& spec_is_illegal(op) ==> final(self).regs == old(self).regs
                    && final(self).sp == old(self).sp && final(self).pc
                    == spec_fetch_pc(*old(self)) && final(bus).mem() == old(bus).mem()
                    && cycles == 0
                &&& op == 0x00 ==> final(self).regs == old(self).regs && final(self).sp
                    == old(self).sp && final(self).pc == spec_fetch_pc(*old(self))
                    && final(bus).mem() == old(bus).mem() && cycles == 4
                &&& (0x40 <= op < 0x80 && op != 0x76) ==> ({
                    let dst = (op - 0x40) as int / 8;
                    let src = (op as int) % 8;
                    &&& final(self).sp == old(self).sp
                    &&& final(self).pc == spec_fetch_pc(*old(self))
                    &&& (dst != 6 && src != 6) ==> final(bus).mem() == old(bus).mem()
                        && final(self).regs == spec_set(old(self).regs,
                            spec_operand_reg(dst), spec_get(old(self).regs,
                            spec_operand_reg(src))) && cycles == 4
                    &&& (dst != 6 && src == 6) ==> final(bus).mem() == old(bus).mem()
                        && final(self).regs == spec_set(old(self).regs,
                            spec_operand_reg(dst),
                            old(bus).mem()[spec_hl(old(self).regs)]) && cycles == 8
                    &&& dst == 6 ==> final(self).regs == old(self).regs
                        && final(bus).mem() == old(bus).mem().insert(
                            spec_hl(old(self).regs), spec_get(old(self).regs,
                            spec_operand_reg(src))) && cycles == 8
                })
                &&& (0x80 <= op < 0xC0) ==> ({
                    let fam = (op - 0x80) as int / 8;
                    let src = (op as int) % 8;
                    let v = if src == 6 {
                        old(bus).mem()[spec_hl(old(self).regs)]
                    } else {
                        spec_get(old(self).regs, spec_operand_reg(src))
                    };
                    &&& final(self).regs == spec_alu_regs(fam, old(self).regs, v)
                    &&& final(self).sp == old(self).sp
                    &&& final(self).pc == spec_fetch_pc(*old(self))
                    &&& final(bus).mem() == old(bus).mem()
                    &&& cycles == (if src == 6 {
                        8u8
                    } else {
                        spec_alu_cycles(fam)
                    })
                })
                &&& (op < 0x40 && op % 8 == 4 && op != 0x34) ==> ({
                    let v = spec_get(old(self).regs, spec_operand_reg((op as int) / 8));
                    &&& final(self).regs == spec_set(spec_inc_flags(old(self).regs, v),
                        spec_operand_reg((op as int) / 8), spec_inc_val(v))
                    &&& final(self).sp == old(self).sp
                    &&& final(self).pc == spec_fetch_pc(*old(self))
                    &&& final(bus).mem() == old(bus).mem()
                    &&& cycles == 4
                })
                &&& (op < 0x40 && op % 8 == 5 && op != 0x35) ==> ({
                    let v = spec_get(old(self).regs, spec_operand_reg((op as int) / 8));
                    &&& final(self).regs == spec_set(spec_dec_flags(old(self).regs, v),
                        spec_operand_reg((op as int) / 8), spec_dec_val(v))
                    &&& final(self).sp == old(self).sp
                    &&& final(self).pc == spec_fetch_pc(*old(self))
                    &&& final(bus).mem() == old(bus).mem()
                    &&& cycles == 4
                })
                &&& op == 0x27 ==> final(self).regs == spec_daa_regs(old(self).regs)
                    && final(self).sp == old(self).sp && final(self).pc
                    == spec_fetch_pc(*old(self)) && final(bus).mem() == old(bus).mem()
                    && cycles == 4
                &&& (op == 0x01 || op == 0x11 || op == 0x21) ==> final(self).regs == spec_set_pair(old(self).regs, spec_pair_idx((op as int) / 16), spec_imm16(*old(self), old(bus).mem()))
                    && final(self).sp == old(self).sp
                    && final(self).pc == spec_pc_after(*old(self), 2)
                    && final(bus).mem() == old(bus).mem()
                    && cycles == 12
                &&& (op == 0x31) ==> final(self).regs == old(self).regs
                    && final(self).sp == spec_imm16(*old(self), old(bus).mem())
                    && final(self).pc == spec_pc_after(*old(self), 2)
                    && final(bus).mem() == old(bus).mem()
                    && cycles == 12
                &&& (op == 0x02 || op == 0x12) ==> final(self).regs == old(self).regs
                    && final(self).sp == old(self).sp
                    && final(self).pc == spec_fetch_pc(*old(self))
                    && final(bus).mem() == old(bus).mem().insert(spec_get_pair(old(self).regs, spec_pair_idx((op as int) / 16)), spec_get(old(self).regs, Reg::A))
                    && cycles == 8
                &&& (op == 0x0A || op == 0x1A) ==> final(self).regs == spec_set(old(self).regs, Reg::A, old(bus).mem()[spec_get_pair(old(self).regs, spec_pair_idx((op as int) / 16))])
                    && final(self).sp == old(self).sp
                    && final(self).pc == spec_fetch_pc(*old(self))
                    && final(bus).mem() == old(bus).mem()
                    && cycles == 8
                &&& (op == 0x03 || op == 0x13 || op == 0x23) ==> final(self).regs == spec_set_pair(old(self).regs, spec_pair_idx((op as int) / 16), spec_wrap16(spec_get_pair(old(self).regs, spec_pair_idx((op as int) / 16)) + 1))
                    && final(self).sp == old(self).sp
                    && final(self).pc == spec_fetch_pc(*old(self))
                    && final(bus).mem() == old(bus).mem()
                    && cycles == 8
                &&& (op == 0x0B || op == 0x1B || op == 0x2B) ==> final(self).regs == spec_set_pair(old(self).regs, spec_pair_idx((op as int) / 16), spec_wrap16(spec_get_pair(old(self).regs, spec_pair_idx((op as int) / 16)) - 1))
                    && final(self).sp == old(self).sp
                    && final(self).pc == spec_fetch_pc(*old(self))
                    && final(bus).mem() == old(bus).mem()
                    && cycles == 8
                &&& (op == 0x33) ==> final(self).regs == old(self).regs
                    && final(self).sp == spec_wrap16(old(self).sp + 1)
                    && final(self).pc == spec_fetch_pc(*old(self))
                    && final(bus).mem() == old(bus).mem()
                    && cycles == 8
                &&& (op == 0x3B) ==> final(self).regs == old(self).regs
                    && final(self).sp == spec_wrap16(old(self).sp - 1)
                    && final(self).pc == spec_fetch_pc(*old(self))
                    && final(bus).mem() == old(bus).mem()
                    && cycles == 8
                &&& (op == 0x07) ==> final(self).regs == spec_rlca_regs(old(self).regs)
                    && final(self).sp == old(self).sp
                    && final(self).pc == spec_fetch_pc(*old(self))
                    && final(bus).mem() == old(bus).mem()
                    && cycles == 4
                &&& (op == 0x0F) ==> final(self).regs == spec_rrca_regs(old(self).regs)
                    && final(self).sp == old(self).sp
                    && final(self).pc == spec_fetch_pc(*old(self))
                    && final(bus).mem() == old(bus).mem()
                    && cycles == 4
                &&& (op == 0x17) ==> final(self).regs == spec_rla_regs(old(self).regs)
                    && final(self).sp == old(self).sp
                    && final(self).pc == spec_fetch_pc(*old(self))
                    && final(bus).mem() == old(bus).mem()
                    && cycles == 4
                &&& (op == 0x1F) ==> final(self).regs == spec_rra_regs(old(self).regs)
                    && final(self).sp == old(self).sp
                    && final(self).pc == spec_fetch_pc(*old(self))
                    && final(bus).mem() == old(bus).mem()
                    && cycles == 4
                &&& (op < 0x40 && op % 8 == 6 && op != 0x36) ==> final(self).regs == spec_set(old(self).regs, spec_operand_reg((op as int) / 8), spec_imm8(*old(self), old(bus).mem()))
                    && final(self).sp == old(self).sp
                    && final(self).pc == spec_pc_after(*old(self), 1)
                    && final(bus).mem() == old(bus).mem()
                    && cycles == 8
                &&& (op == 0x36) ==> final(self).regs == old(self).regs
                    && final(self).sp == old(self).sp
                    && final(self).pc == spec_pc_after(*old(self), 1)
                    && final(bus).mem() == old(bus).mem().insert(spec_hl(old(self).regs), spec_imm8(*old(self), old(bus).mem()))
                    && cycles == 12
                &&& (op == 0x08) ==> final(self).regs == old(self).regs
                    && final(self).sp == old(self).sp
                    && final(self).pc == spec_pc_after(*old(self), 2)
                    && final(bus).mem() == spec_write_word(old(bus).mem(), spec_imm16(*old(self), old(bus).mem()), old(self).sp)
                    && cycles == 20
                &&& (op == 0x09 || op == 0x19 || op == 0x29) ==> final(self).regs == spec_add16_regs(old(self).regs, RegPair::HL, spec_get_pair(old(self).regs, spec_pair_idx((op as int) / 16)))
                    && final(self).sp == old(self).sp
                    && final(self).pc == spec_fetch_pc(*old(self))
                    && final(bus).mem() == old(bus).mem()
                    && cycles == 8
                &&& (op == 0x39) ==> final(self).regs == spec_add16_regs(old(self).regs, RegPair::HL, old(self).sp)
                    && final(self).sp == old(self).sp
                    && final(self).pc == spec_fetch_pc(*old(self))
                    && final(bus).mem() == old(bus).mem()
                    && cycles == 8
                &&& (op == 0x22) ==> final(self).regs == spec_set_pair(old(self).regs, RegPair::HL, spec_wrap16(spec_hl(old(self).regs) + 1))
                    && final(self).sp == old(self).sp
                    && final(self).pc == spec_fetch_pc(*old(self))
                    && final(bus).mem() == old(bus).mem().insert(spec_hl(old(self).regs), spec_get(old(self).regs, Reg::A))
                    && cycles == 8
                &&& (op == 0x32) ==> final(self).regs == spec_set_pair(old(self).regs, RegPair::HL, spec_wrap16(spec_hl(old(self).regs) - 1))
                    && final(self).sp == old(self).sp
                    && final(self).pc == spec_fetch_pc(*old(self))
                    && final(bus).mem() == old(bus).mem().insert(spec_hl(old(self).regs), spec_get(old(self).regs, Reg::A))
                    && cycles == 8
                &&& (op == 0x2A) ==> final(self).regs == spec_set_pair(spec_set(old(self).regs, Reg::A, old(bus).mem()[spec_hl(old(self).regs)]), RegPair::HL, spec_wrap16(spec_hl(old(self).regs) + 1))
                    && final(self).sp == old(self).sp
                    && final(self).pc == spec_fetch_pc(*old(self))
                    && final(bus).mem() == old(bus).mem()
                    && cycles == 8
                &&& (op == 0x3A) ==> final(self).regs == spec_set_pair(spec_set(old(self).regs, Reg::A, old(bus).mem()[spec_hl(old(self).regs)]), RegPair::HL, spec_wrap16(spec_hl(old(self).regs) - 1))
                    && final(self).sp == old(self).sp
                    && final(self).pc == spec_fetch_pc(*old(self))
                    && final(bus).mem() == old(bus).mem()
                    && cycles == 8
                &&& (op == 0x2F) ==> final(self).regs == spec_cpl_regs(old(self).regs)
                    && final(self).sp == old(self).sp
                    && final(self).pc == spec_fetch_pc(*old(self))
                    && final(bus).mem() == old(bus).mem()
                    && cycles == 8
                &&& (op == 0x37) ==> final(self).regs == (Registers { nf: false, hf: false, cf: true, ..old(self).regs })
                    && final(self).sp == old(self).sp
                    && final(self).pc == spec_fetch_pc(*old(self))
                    && final(bus).mem() == old(bus).mem()
                    && cycles == 4
                &&& (op == 0x3F) ==> final(self).regs == (Registers { nf: false, hf: false, cf: !old(self).regs.cf, ..old(self).regs })
                    && final(self).sp == old(self).sp
                    && final(self).pc == spec_fetch_pc(*old(self))
                    && final(bus).mem() == old(bus).mem()
                    && cycles == 4
                &&& (op == 0x10) ==> final(self).regs == old(self).regs
                    && final(self).sp == old(self).sp
                    && final(self).pc == spec_fetch_pc(*old(self))
                    && final(bus).mem() == old(bus).mem()
                    && cycles == 4
                &&& (op == 0x18 || op == 0x20 || op == 0x28 || op == 0x30 || op
                    == 0x38) ==> ({
                    let taken = op == 0x18 || spec_cc((op - 0x20) as int / 8, old(self).regs);
                    final(self).regs == old(self).regs
                        && final(self).sp == old(self).sp
                        && final(self).pc == (if taken {
                        spec_wrap16(spec_pc_after(*old(self), 1) + spec_sign_extend(
                            spec_imm8(*old(self), old(bus).mem())))
                    } else {
                        spec_pc_after(*old(self), 1)
                    })
                        && final(bus).mem() == old(bus).mem()
                        && cycles == (if taken { 12u8 } else { 8u8 })
                })
                &&& (op == 0xC0 || op == 0xC8 || op == 0xD0 || op == 0xD8) ==> ({
                    let taken = spec_cc((op - 0xC0) as int / 8, old(self).regs);
                    final(self).regs == old(self).regs
                        && final(self).sp == (if taken {
                        spec_wrap16(old(self).sp + 2)
                    } else {
                        old(self).sp
                    })
                        && final(self).pc == (if taken {
                        spec_word_at(old(bus).mem(), old(self).sp)
                    } else {
                        spec_fetch_pc(*old(self))
                    })
                        && final(bus).mem() == old(bus).mem()
                        && cycles == (if taken { 20u8 } else { 8u8 })
                })
                &&& (op == 0xC3 || op == 0xC2 || op == 0xCA || op == 0xD2 || op == 0xDA)
                    ==> ({
                    let taken = op == 0xC3 || spec_cc((op - 0xC2) as int / 8, old(self).regs);
                    final(self).regs == old(self).regs
                        && final(self).sp == old(self).sp
                        && final(self).pc == (if taken {
                        spec_imm16(*old(self), old(bus).mem())
                    } else {
                        spec_pc_after(*old(self), 2)
                    })
                        && final(bus).mem() == old(bus).mem()
                        && cycles == (if taken { 16u8 } else { 12u8 })
                })
                &&& (op == 0xCD || op == 0xC4 || op == 0xCC || op == 0xD4 || op == 0xDC)
                    ==> ({
                    let taken = op == 0xCD || spec_cc((op - 0xC4) as int / 8, old(self).regs);
                    final(self).regs == old(self).regs
                        && final(self).sp == (if taken {
                        spec_wrap16(old(self).sp - 2)
                    } else {
                        old(self).sp
                    })
                        && final(self).pc == (if taken {
                        spec_imm16(*old(self), old(bus).mem())
                    } else {
                        spec_pc_after(*old(self), 2)
                    })
                        && final(bus).mem() == (if taken {
                        spec_write_word(old(bus).mem(), spec_wrap16(old(self).sp - 2),
                            spec_pc_after(*old(self), 2))
                    } else {
                        old(bus).mem()
                    })
                        && cycles == (if taken { 24u8 } else { 12u8 })
                })
                &&& (op >= 0xC0 && op % 8 == 7) ==> final(self).regs == old(self).regs
                    && final(self).sp == spec_wrap16(old(self).sp - 2)
                    && final(self).pc == (op - 0xC7) as u16
                    && final(bus).mem() == spec_write_word(old(bus).mem(), spec_wrap16(old(self).sp - 2), spec_fetch_pc(*old(self)))
                    && cycles == 16
                &&& (op == 0xC5 || op == 0xD5 || op == 0xE5 || op == 0xF5) ==> final(self).regs == old(self).regs
                    && final(self).sp == spec_wrap16(old(self).sp - 2)
                    && final(self).pc == spec_fetch_pc(*old(self))
                    && final(bus).mem() == spec_write_word(old(bus).mem(), spec_wrap16(old(self).sp - 2), spec_get_pair(old(self).regs, spec_pair_idx((op - 0xC0) as int / 16)))
                    && cycles == 16
                &&& (op == 0xC1 || op == 0xD1 || op == 0xE1 || op == 0xF1) ==> final(self).regs == spec_set_pair(old(self).regs, spec_pair_idx((op - 0xC0) as int / 16), spec_word_at(old(bus).mem(), old(self).sp))
                    && final(self).sp == spec_wrap16(old(self).sp + 2)
                    && final(self).pc == spec_fetch_pc(*old(self))
                    && final(bus).mem() == old(bus).mem()
                    && cycles == 12
                &&& (op == 0xC9 || op == 0xD9) ==> final(self).regs == old(self).regs
                    && final(self).sp == spec_wrap16(old(self).sp + 2)
                    && final(self).pc == spec_word_at(old(bus).mem(), old(self).sp)
                    && final(bus).mem() == old(bus).mem()
                    && cycles == 16
                &&& (op >= 0xC0 && op % 8 == 6) ==> final(self).regs == spec_alu_regs((op - 0xC0) as int / 8, old(self).regs, spec_imm8(*old(self), old(bus).mem()))
                    && final(self).sp == old(self).sp
                    && final(self).pc == spec_pc_after(*old(self), 1)
                    && final(bus).mem() == old(bus).mem()
                    && cycles == spec_alu_d8_cycles((op - 0xC0) as int / 8)
                &&& (op == 0xE0) ==> final(self).regs == old(self).regs
                    && final(self).sp == old(self).sp
                    && final(self).pc == spec_pc_after(*old(self), 1)
                    && final(bus).mem() == old(bus).mem().insert((0xFF00 + spec_imm8(*old(self), old(bus).mem())) as u16, spec_get(old(self).regs, Reg::A))
                    && cycles == 12
                &&& (op == 0xF0) ==> final(self).regs == spec_set(old(self).regs, Reg::A, old(bus).mem()[(0xFF00 + spec_imm8(*old(self), old(bus).mem())) as u16])
                    && final(self).sp == old(self).sp
                    && final(self).pc == spec_pc_after(*old(self), 1)
                    && final(bus).mem() == old(bus).mem()
                    && cycles == 12
                &&& (op == 0xE2) ==> final(self).regs == old(self).regs
                    && final(self).sp == old(self).sp
                    && final(self).pc == spec_fetch_pc(*old(self))
                    && final(bus).mem() == old(bus).mem().insert((0xFF00 + old(self).regs.c) as u16, spec_get(old(self).regs, Reg::A))
                    && cycles == 8
                &&& (op == 0xF2) ==> final(self).regs == spec_set(old(self).regs, Reg::A, old(bus).mem()[(0xFF00 + old(self).regs.c) as u16])
                    && final(self).sp == old(self).sp
                    && final(self).pc == spec_fetch_pc(*old(self))
                    && final(bus).mem() == old(bus).mem()
                    && cycles == 8
                &&& (op == 0xEA) ==> final(self).regs == old(self).regs
                    && final(self).sp == old(self).sp
                    && final(self).pc == spec_pc_after(*old(self), 2)
                    && final(bus).mem() == old(bus).mem().insert(spec_imm16(*old(self), old(bus).mem()), spec_get(old(self).regs, Reg::A))
                    && cycles == 16
                &&& (op == 0xFA) ==> final(self).regs == spec_set(old(self).regs, Reg::A, old(bus).mem()[spec_imm16(*old(self), old(bus).mem())])
                    && final(self).sp == old(self).sp
                    && final(self).pc == spec_pc_after(*old(self), 2)
                    && final(bus).mem() == old(bus).mem()
                    && cycles == 16
                &&& (op == 0xE8) ==> final(self).regs == spec_addsp_flags(old(self).regs, old(self).sp, spec_sign_extend(spec_imm8(*old(self), old(bus).mem())))
                    && final(self).sp == spec_addsp_sum(old(self).sp, spec_sign_extend(spec_imm8(*old(self), old(bus).mem())))
                    && final(self).pc == spec_pc_after(*old(self), 1)
                    && final(bus).mem() == old(bus).mem()
                    && cycles == 16
                &&& (op == 0xF8) ==> final(self).regs == spec_set_pair(spec_addsp_flags(old(self).regs, old(self).sp, spec_sign_extend(spec_imm8(*old(self), old(bus).mem()))), RegPair::HL, spec_addsp_sum(old(self).sp, spec_sign_extend(spec_imm8(*old(self), old(bus).mem()))))
                    && final(self).sp == old(self).sp
                    && final(self).pc == spec_pc_after(*old(self), 1)
                    && final(bus).mem() == old(bus).mem()
                    && cycles == 12
                &&& (op == 0xF9) ==> final(self).regs == old(self).regs
                    && final(self).sp == spec_hl(old(self).regs)
                    && final(self).pc == spec_fetch_pc(*old(self))
                    && final(bus).mem() == old(bus).mem()
                    && cycles == 8
                &&& (op == 0xE9) ==> final(self).regs == old(self).regs
                    && final(self).sp == old(self).sp
                    && final(self).pc == spec_hl(old(self).regs)
                    && final(bus).mem() == old(bus).mem()
                    && cycles == 4
                &&& (op == 0xF3 || op == 0xFB) ==> final(self).regs == old(self).regs
                    && final(self).sp == old(self).sp
                    && final(self).pc == spec_fetch_pc(*old(self))
                    && final(bus).mem() == old(bus).mem()
                    && cycles == 4
                &&& op == 0xCB ==> ({
                    let cbop = spec_imm8(*old(self), old(bus).mem());
                    let tgt = (cbop as int) % 8;
                    let fam = (cbop as int) / 8;
                    &&& final(self).sp == old(self).sp
                    &&& final(self).pc == spec_pc_after(*old(self), 1)
                    &&& cycles == spec_cb_cycles(cbop)
                    &&& tgt != 6 ==> ({
                        let v = spec_get(old(self).regs, spec_operand_reg(tgt));
                        final(bus).mem() == old(bus).mem() && final(self).regs == spec_set(
                            spec_cb_flags(cbop, old(self).regs, v), spec_operand_reg(tgt),
                            spec_cb_val(cbop, v, old(self).regs.cf))
                    })
                    &&& tgt == 6 ==> ({
                        let v = old(bus).mem()[spec_hl(old(self).regs)];
                        final(self).regs == spec_cb_flags(cbop, old(self).regs, v)
                            && final(bus).mem() == (if 8 <= fam < 16 {
                            old(bus).mem()
                        } else {
                            old(bus).mem().insert(spec_hl(old(self).regs),
                                spec_cb_val(cbop, v, old(self).regs.cf))
                        })
                    })
                })
            }),
    {
        // Debug hook: pause when PC reaches the breakpoint.
        if self.pc == self.breakpoint {
            self.paused = true;
        }
        if self.halted {
            return 4;
        }
        let op = self.fetch(bus);
        if op == 0x76 {
            // HALT, including the hardware quirk: with IME clear and an
            // interrupt already pending, the CPU does not halt; instead
            // the next fetch reads its byte without advancing PC.
            if self.ime {
                self.halted = true;
            } else if bus.interrupt_pending() {
                self.halt_bug = true;
            } else {
                self.halted = true;
            }
            4
        } else if op == 0xCB {
            self.step_cb(bus)
        } else if op < 0x40 {
            self.op_misc_lo(bus, op)
        } else if op < 0x80 {
            self.op_ld(bus, op)
        } else if op < 0xC0 {
            self.op_alu(bus, op)
        } else {
            self.op_ctrl_hi(bus, op)
        }
    }
}


/// The text `dump_cpu` produces: PC, SP, the four register pairs, the
/// flag letters and IME, each pair as four upper-case hexadecimal digits.
pub open spec fn spec_dump(c: Cpu) -> Seq<char> {
    "PC=$"@ + crate::hexfmt::spec_hex4(c.pc) + ", SP=$"@ + crate::hexfmt::spec_hex4(c.sp)
        + ", AF=$"@ + crate::hexfmt::spec_hex4(spec_get_pair(c.regs, RegPair::AF)) + ", BC=$"@
        + crate::hexfmt::spec_hex4(spec_get_pair(c.regs, RegPair::BC)) + ", DE=$"@
        + crate::hexfmt::spec_hex4(spec_get_pair(c.regs, RegPair::DE)) + ", HL=$"@
        + crate::hexfmt::spec_hex4(spec_get_pair(c.regs, RegPair::HL)) + ", flags="@ + (
    if c.regs.zf {
        "Z"@
    } else {
        "-"@
    }) + (if c.regs.nf {
        "N"@
    } else {
        "-"@
    }) + (if c.regs.hf {
        "H"@
    } else {
        "-"@
    }) + (if c.regs.cf {
        "C"@
    } else {
        "-"@
    }) + ", IME="@ + (if c.ime {
        "true"@
    } else {
        "false"@
    })
}

impl Cpu {
    /// A one-line, human-readable snapshot of the processor state, for
    /// debugging. The exact text carries no semantic promise beyond its
    /// construction here.
    pub fn dump_cpu(&self) -> (out: String)
        ensures
            out@ == spec_dump(*self),
    {
        let mut out = String::new();
        out.append("PC=$");
        out.append(crate::hexfmt::hex4(self.pc).as_str());
        out.append(", SP=$");
        out.append(crate::hexfmt::hex4(self.sp).as_str());
        out.append(", AF=$");
        out.append(crate::hexfmt::hex4(self.regs.get_pair(RegPair::AF)).as_str());
        out.append(", BC=$");
        out.append(crate::hexfmt::hex4(self.regs.get_pair(RegPair::BC)).as_str());
        out.append(", DE=$");
        out.append(crate::hexfmt::hex4(self.regs.get_pair(RegPair::DE)).as_str());
        out.append(", HL=$");
        out.append(crate::hexfmt::hex4(self.regs.get_pair(RegPair::HL)).as_str());
        out.append(", flags=");
        out.append(if self.regs.flag_z() { "Z" } else { "-" });
        out.append(if self.regs.flag_n() { "N" } else { "-" });
        out.append(if self.regs.flag_h() { "H" } else { "-" });
        out.append(if self.regs.flag_c() { "C" } else { "-" });
        out.append(", IME=");
        out.append(if self.ime { "true" } else { "false" });
        proof {
            assert(out@ =~= spec_dump(*self));
        }
        out
    }
}

} // verus!
