//! The CPU register file: the four 16-bit pairs AF, BC, DE and HL, exposed
//! as eight-bit halves, and the four flag bits Z, N, H and C that live in the
//! upper nibble of F. The lower nibble of F reads as zero at all times; a
//! write to AF discards it.

use vstd::prelude::*;

verus! {

/// Names of the seven addressable 8-bit registers.
#[derive(Debug, Clone, Copy, PartialEq, Eq, Structural)]
pub enum Reg {
    A,
    B,
    C,
    D,
    E,
    H,
    L,
}

/// Names of the four 16-bit register pairs.
#[derive(Debug, Clone, Copy, PartialEq, Eq, Structural)]
pub enum RegPair {
    AF,
    BC,
    DE,
    HL,
}

/// The register file. The flag bits are held apart from the accumulator, so
/// the low nibble of the flag byte is zero by construction; `get_pair` and
/// `set_pair` translate to and from the packed 16-bit AF form.
#[derive(Debug, Clone, Copy, PartialEq, Eq, Structural)]
pub struct Registers {
    pub a: u8,
    pub b: u8,
    pub c: u8,
    pub d: u8,
    pub e: u8,
    pub h: u8,
    pub l: u8,
    /// Zero flag (bit 7 of F).
    pub zf: bool,
    /// Subtract flag (bit 6 of F).
    pub nf: bool,
    /// Half-carry flag (bit 5 of F).
    pub hf: bool,
    /// Carry flag (bit 4 of F).
    pub cf: bool,
}

/// The packed flag byte: Z, N, H, C in bits 7..4, low nibble zero.
pub open spec fn spec_f_byte(r: Registers) -> u8 {
    ((if r.zf { 0x80u8 } else { 0u8 }) | (if r.nf { 0x40u8 } else { 0u8 })
        | (if r.hf { 0x20u8 } else { 0u8 }) | (if r.cf { 0x10u8 } else { 0u8 })) as u8
}

/// Two bytes packed big-end-first into a 16-bit register pair value.
pub open spec fn spec_pack(hi: u8, lo: u8) -> u16 {
    (((hi as u16) << 8) | (lo as u16)) as u16
}

pub open spec fn spec_get(r: Registers, name: Reg) -> u8 {
    match name {
        Reg::A => r.a,
        Reg::B => r.b,
        Reg::C => r.c,
        Reg::D => r.d,
        Reg::E => r.e,
        Reg::H => r.h,
        Reg::L => r.l,
    }
}

pub open spec fn spec_set(r: Registers, name: Reg, value: u8) -> Registers {
    match name {
        Reg::A => Registers { a: value, ..r },
        Reg::B => Registers { b: value, ..r },
        Reg::C => Registers { c: value, ..r },
        Reg::D => Registers { d: value, ..r },
        Reg::E => Registers { e: value, ..r },
        Reg::H => Registers { h: value, ..r },
        Reg::L => Registers { l: value, ..r },
    }
}

pub open spec fn spec_get_pair(r: Registers, pair: RegPair) -> u16 {
    match pair {
        RegPair::AF => spec_pack(r.a, spec_f_byte(r)),
        RegPair::BC => spec_pack(r.b, r.c),
        RegPair::DE => spec_pack(r.d, r.e),
        RegPair::HL => spec_pack(r.h, r.l),
    }
}

/// The register file after a 16-bit write. A write to AF keeps only the
/// upper nibble of the flag byte: the low four bits of F are never stored.
pub open spec fn spec_set_pair(r: Registers, pair: RegPair, value: u16) -> Registers {
    let hi = (value >> 8) as u8;
    let lo = (value & 0xFF) as u8;
    match pair {
        RegPair::AF => Registers {
            a: hi,
            zf: lo & 0x80 != 0,
            nf: lo & 0x40 != 0,
            hf: lo & 0x20 != 0,
            cf: lo & 0x10 != 0,
            ..r
        },
        RegPair::BC => Registers { b: hi, c: lo, ..r },
        RegPair::DE => Registers { d: hi, e: lo, ..r },
        RegPair::HL => Registers { h: hi, l: lo, ..r },
    }
}

impl Registers {
    /// Reads one 8-bit register.
    pub fn get(&self, name: Reg) -> (value: u8)
        ensures
            value == spec_get(*self, name),
    {
        match name {
            Reg::A => self.a,
            Reg::B => self.b,
            Reg::C => self.c,
            Reg::D => self.d,
            Reg::E => self.e,
            Reg::H => self.h,
            Reg::L => self.l,
        }
    }

    /// Writes one 8-bit register; the flags are untouched.
    pub fn set(&mut self, name: Reg, value: u8)
        ensures
            *final(self) == spec_set(*old(self), name, value),
    {
        match name {
            Reg::A => self.a = value,
            Reg::B => self.b = value,
            Reg::C => self.c = value,
            Reg::D => self.d = value,
            Reg::E => self.e = value,
            Reg::H => self.h = value,
            Reg::L => self.l = value,
        }
    }

    /// Reads a 16-bit register pair; AF packs the flag byte into the low half.
    pub fn get_pair(&self, pair: RegPair) -> (value: u16)
        ensures
            value == spec_get_pair(*self, pair),
    {
        match pair {
            RegPair::AF => pack(self.a, self.f_byte()),
            RegPair::BC => pack(self.b, self.c),
            RegPair::DE => pack(self.d, self.e),
            RegPair::HL => pack(self.h, self.l),
        }
    }

    /// Writes a 16-bit register pair; a write to AF drops the low nibble of
    /// the flag byte.
    pub fn set_pair(&mut self, pair: RegPair, value: u16)
        ensures
            *final(self) == spec_set_pair(*old(self), pair, value),
    {
        let hi = (value >> 8) as u8;
        let lo = (value & 0xFF) as u8;
        match pair {
            RegPair::AF => {
                self.a = hi;
                self.zf = lo & 0x80 != 0;
                self.nf = lo & 0x40 != 0;
                self.hf = lo & 0x20 != 0;
                self.cf = lo & 0x10 != 0;
            },
            RegPair::BC => {
                self.b = hi;
                self.c = lo;
            },
            RegPair::DE => {
                self.d = hi;
                self.e = lo;
            },
            RegPair::HL => {
                self.h = hi;
                self.l = lo;
            },
        }
    }

    /// The packed flag byte, low nibble zero.
    pub fn f_byte(&self) -> (f: u8)
        ensures
            f == spec_f_byte(*self),
    {
        (if self.zf { 0x80u8 } else { 0u8 }) | (if self.nf { 0x40u8 } else { 0u8 })
            | (if self.hf { 0x20u8 } else { 0u8 }) | (if self.cf { 0x10u8 } else { 0u8 })
    }

    /// Zero flag.
    pub fn flag_z(&self) -> (set: bool)
        ensures
            set == self.zf,
    {
        self.zf
    }

    /// Subtract flag.
    pub fn flag_n(&self) -> (set: bool)
        ensures
            set == self.nf,
    {
        self.nf
    }

    /// Half-carry flag.
    pub fn flag_h(&self) -> (set: bool)
        ensures
            set == self.hf,
    {
        self.hf
    }

    /// Carry flag.
    pub fn flag_c(&self) -> (set: bool)
        ensures
            set == self.cf,
    {
        self.cf
    }

    pub fn set_flag_z(&mut self, value: bool)
        ensures
            *final(self) == (Registers { zf: value, ..*old(self) }),
    {
        self.zf = value;
    }

    pub fn set_flag_n(&mut self, value: bool)
        ensures
            *final(self) == (Registers { nf: value, ..*old(self) }),
    {
        self.nf = value;
    }

    pub fn set_flag_h(&mut self, value: bool)
        ensures
            *final(self) == (Registers { hf: value, ..*old(self) }),
    {
        self.hf = value;
    }

    pub fn set_flag_c(&mut self, value: bool)
        ensures
            *final(self) == (Registers { cf: value, ..*old(self) }),
    {
        self.cf = value;
    }
}

impl Default for Registers {
    /// Every register zero and every flag clear.
    fn default() -> (r: Registers)
        ensures
            r == (Registers {
                a: 0,
                b: 0,
                c: 0,
                d: 0,
                e: 0,
                h: 0,
                l: 0,
                zf: false,
                nf: false,
                hf: false,
                cf: false,
            }),
    {
        Registers { a: 0, b: 0, c: 0, d: 0, e: 0, h: 0, l: 0, zf: false, nf: false, hf: false, cf: false }
    }
}

/// Packs a high and a low byte into one 16-bit value.
pub fn pack(hi: u8, lo: u8) -> (w: u16)
    ensures
        w == spec_pack(hi, lo),
{
    ((hi as u16) << 8) | (lo as u16)
}

/// A 16-bit write to a pair followed by a read gives the value back, except
/// through AF, which forces the low nibble of the flag byte to zero.
pub proof fn lemma_pair_round_trip(r: Registers, pair: RegPair, value: u16)
    ensures
        pair != RegPair::AF ==> spec_get_pair(spec_set_pair(r, pair, value), pair) == value,
        pair == RegPair::AF ==> spec_get_pair(spec_set_pair(r, pair, value), pair) == value
            & 0xFFF0,
{
    let hi = (value >> 8) as u8;
    let lo = (value & 0xFF) as u8;
    assert(((hi as u16) << 8 | (lo as u16)) == value) by (bit_vector)
        requires
            hi == (value >> 8) as u8 && lo == (value & 0xFF) as u8,
    ;
    let f = spec_f_byte(spec_set_pair(r, RegPair::AF, value));
    assert(f == lo & 0xF0) by (bit_vector)
        requires
            f == ((if lo & 0x80 != 0 { 0x80u8 } else { 0u8 }) | (if lo & 0x40 != 0 {
                0x40u8
            } else {
                0u8
            }) | (if lo & 0x20 != 0 { 0x20u8 } else { 0u8 }) | (if lo & 0x10 != 0 {
                0x10u8
            } else {
                0u8
            })) as u8,
    ;
    assert(((hi as u16) << 8 | ((lo & 0xF0) as u16)) == value & 0xFFF0) by (bit_vector)
        requires
            hi == (value >> 8) as u8 && lo == (value & 0xFF) as u8,
    ;
}

} // verus!
