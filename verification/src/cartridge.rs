//! Cartridge state: the ROM image, the external RAM, and the MBC1-style
//! bank-select registers, with the address mapping they induce.

use vstd::prelude::*;

verus! {

use vstd::string::StringExecFns;
use crate::hexfmt::{hex2_lower, spec_hex2_lower};

/// A loaded cartridge: the ROM bytes as read from the image, 64 KiB of
/// external RAM (the largest any cartridge can address here), and the
/// banking registers games write through the ROM address space.
pub struct Cartridge {
    pub data: Vec<u8>,
    pub ram: Vec<u8>,
    pub selected_rom_bank: u8,
    pub secondary_bank_register: u8,
    pub banking_mode_1: bool,
}

/// Well-formed cartridge state: full-size RAM and bank registers inside
/// the ranges their setters keep them in.
pub open spec fn spec_cart_wf(c: Cartridge) -> bool {
    &&& c.ram@.len() == 0x10000
    &&& c.selected_rom_bank <= 0x1F
    &&& c.secondary_bank_register <= 0x03
}

/// The ROM image offset a bus address reads, given the banking registers:
/// the low window maps bank zero (or, in banking mode 1 on large ROMs, a
/// secondary-register multiple of 32), the high window the selected bank.
pub open spec fn spec_rom_addr(c: Cartridge, addr: u16) -> int {
    if addr < 0x4000 {
        if c.banking_mode_1 && c.data@[0x148] >= 0x05 {
            ((c.secondary_bank_register << 5) as int) * 0x4000 + addr
        } else {
            addr as int
        }
    } else {
        let bank = if c.data@[0x148] >= 0x05 {
            ((c.secondary_bank_register << 5) + c.selected_rom_bank) as int
        } else {
            c.selected_rom_bank as int
        };
        0x4000 * bank + (addr - 0x4000)
    }
}

/// The external-RAM offset a relative address reads: banked by the
/// secondary register when banking mode 1 is on and the cartridge
/// declares enough RAM.
pub open spec fn spec_ram_read_addr(c: Cartridge, addr: u16) -> int {
    if c.banking_mode_1 && c.data@[0x149] >= 0x03 {
        0x2000 * c.secondary_bank_register + addr
    } else {
        addr as int
    }
}

/// The cartridge-type name the header byte at 0x147 stands for.
pub open spec fn spec_cartridge_type_name(b: u8) -> Seq<char> {
    if b == 0x00 {
        "ROM ONLY"@
    } else if b == 0x01 {
        "MBC1"@
    } else if b == 0x02 {
        "MBC1+RAM"@
    } else if b == 0x03 {
        "MBC1+RAM+BATTERY"@
    } else if b == 0x05 {
        "MBC2"@
    } else if b == 0x06 {
        "MBC2+BATTERY"@
    } else if b == 0x08 {
        "ROM+RAM 1"@
    } else if b == 0x09 {
        "ROM+RAM+BATTERY 1"@
    } else if b == 0x0B {
        "MMM01"@
    } else if b == 0x0C {
        "MMM01+RAM"@
    } else if b == 0x0D {
        "MMM01+RAM+BATTERY"@
    } else if b == 0x0F {
        "MBC3+TIMER+BATTERY"@
    } else if b == 0x10 {
        "MBC3+TIMER+RAM+BATTERY 2"@
    } else if b == 0x11 {
        "MBC3"@
    } else if b == 0x12 {
        "MBC3+RAM 2"@
    } else if b == 0x13 {
        "MBC3+RAM+BATTERY 2"@
    } else if b == 0x19 {
        "MBC5"@
    } else if b == 0x1A {
        "MBC5+RAM"@
    } else if b == 0x1B {
        "MBC5+RAM+BATTERY"@
    } else if b == 0x1C {
        "MBC5+RUMBLE"@
    } else if b == 0x1D {
        "MBC5+RUMBLE+RAM"@
    } else if b == 0x1E {
        "MBC5+RUMBLE+RAM+BATTERY"@
    } else if b == 0x20 {
        "MBC6"@
    } else if b == 0x22 {
        "MBC7+SENSOR+RUMBLE+RAM+BATTERY"@
    } else if b == 0xFC {
        "POCKET CAMERA"@
    } else if b == 0xFD {
        "BANDAI TAMA5"@
    } else if b == 0xFE {
        "HuC3"@
    } else {
        "HuC1+RAM+BATTERY"@
    }
}

/// Whether the header byte at 0x147 is one this crate can name.
pub open spec fn spec_known_cartridge_type(b: u8) -> bool {
    b == 0x00 || b == 0x01 || b == 0x02 || b == 0x03 || b == 0x05 || b == 0x06 || b == 0x08
        || b == 0x09 || b == 0x0B || b == 0x0C || b == 0x0D || b == 0x0F || b == 0x10 || b
        == 0x11 || b == 0x12 || b == 0x13 || b == 0x19 || b == 0x1A || b == 0x1B || b == 0x1C
        || b == 0x1D || b == 0x1E || b == 0x20 || b == 0x22 || b == 0xFC || b == 0xFD || b
        == 0xFE || b == 0xFF
}

/// The index of the first zero byte of the 16-byte title field, or 16
/// when none of its bytes is zero.
pub open spec fn spec_title_end(d: Seq<u8>, i: int) -> int
    decreases 16 - i,
{
    if i >= 16 {
        16
    } else if d[0x134 + i] == 0 {
        i
    } else {
        spec_title_end(d, i + 1)
    }
}

/// Relies on `String::from_utf8_lossy` (with `into_owned` converting the
/// copy-on-write result): a slice of ASCII bytes decodes to exactly those
/// characters.
#[verifier::external_body]
fn bytes_to_string_lossy(bytes: &[u8]) -> (out: String)
    ensures
        (forall|i: int| 0 <= i < bytes@.len() ==> (#[trigger] bytes@[i]) < 0x80) ==> out@ == bytes@.map_values(
            |b: u8| b as char,
        ),
{
    String::from_utf8_lossy(bytes).into_owned()
}

/// Bank values are masked to five and to two bits.
proof fn lemma_bank_masks(b: u8)
    ensures
        b & 0x1F <= 0x1F,
        b & 0x03 <= 0x03,
{
    assert(b & 0x1F <= 0x1F && b & 0x03 <= 0x03) by (bit_vector);
}

/// A two-bit secondary register shifted into the upper bank bits stays
/// below 0x61, so adding a five-bit bank number cannot overflow a byte.
proof fn lemma_bank_shift(sec: u8)
    requires
        sec <= 0x03,
    ensures
        sec << 5 <= 0x60,
{
    assert(sec <= 0x03 ==> sec << 5 <= 0x60) by (bit_vector);
}

impl Cartridge {
    /// Wraps a ROM image; banking starts at bank one, mode zero, with the
    /// RAM cleared.
    pub fn new(data: Vec<u8>) -> (cart: Cartridge)
        ensures
            spec_cart_wf(cart),
            cart.data == data,
            cart.ram@ =~= Seq::<u8>::new(0x10000, |i: int| 0u8),
            cart.selected_rom_bank == 1,
            cart.secondary_bank_register == 0,
            !cart.banking_mode_1,
    {
        let mut ram: Vec<u8> = Vec::new();
        ram.resize(0x10000, 0u8);
        Cartridge {
            data,
            ram,
            selected_rom_bank: 0x01,
            secondary_bank_register: 0x00,
            banking_mode_1: false,
        }
    }

    /// The header's CGB flag: bit 7 of the byte at 0x143.
    pub fn cgb_flag(&self) -> (set: bool)
        requires
            self.data@.len() >= 0x150,
        ensures
            set == (self.data@[0x143] >> 7 != 0),
    {
        self.data[0x143] >> 7 != 0
    }

    /// The header's SGB flag: the byte at 0x146 equal to 0x03.
    pub fn sgb_flag(&self) -> (set: bool)
        requires
            self.data@.len() >= 0x150,
        ensures
            set == (self.data@[0x146] == 0x03),
    {
        self.data[0x146] == 0x03
    }

    /// The title field: the bytes at 0x134 up to the first zero, decoded
    /// as text (ASCII titles come back verbatim).
    pub fn title(&self) -> (out: String)
        requires
            self.data@.len() >= 0x150,
        ensures
            ({
                let end = spec_title_end(self.data@, 0);
                (forall|i: int| 0x134 <= i < 0x134 + end ==> (#[trigger] self.data@[i]) < 0x80)
                    ==> out@ == self.data@.subrange(0x134, 0x134 + end).map_values(
                    |b: u8| b as char,
                )
            }),
    {
        let mut end: usize = 0;
        while end < 16 && self.data[0x134 + end] != 0
            invariant
                end <= 16,
                self.data@.len() >= 0x150,
                forall|j: int| 0 <= j < end ==> (#[trigger] self.data@[0x134 + j]) != 0,
                spec_title_end(self.data@, 0) == spec_title_end(self.data@, end as int),
            decreases 16 - end,
        {
            end = end + 1;
        }
        proof {
            assert(spec_title_end(self.data@, 0) == end);
        }
        let bytes = vstd::slice::slice_subrange(self.data.as_slice(), 0x134, 0x134 + end);
        bytes_to_string_lossy(bytes)
    }

    /// The licensee code: the two-character new code at 0x144 when the
    /// old code is 33, else the old code as two hex digits plus " (OLD)".
    pub fn licensee_code(&self) -> (out: String)
        requires
            self.data@.len() >= 0x150,
        ensures
            self.data@[0x14B] != 33 ==> out@ == spec_hex2_lower(self.data@[0x14B]) + " (OLD)"@,
            (self.data@[0x14B] == 33 && self.data@[0x144] < 0x80 && self.data@[0x145] < 0x80)
                ==> out@ == self.data@.subrange(0x144, 0x146).map_values(|b: u8| b as char),
    {
        let code = self.data[0x14B];
        if code == 33 {
            let bytes = vstd::slice::slice_subrange(self.data.as_slice(), 0x144, 0x146);
            bytes_to_string_lossy(bytes)
        } else {
            let mut out = hex2_lower(code);
            out.append(" (OLD)");
            proof {
                assert(out@ =~= spec_hex2_lower(code) + " (OLD)"@);
            }
            out
        }
    }

    /// The name of the cartridge type the header declares.
    pub fn cartridge_type(&self) -> (name: &'static str)
        requires
            self.data@.len() >= 0x150,
            spec_known_cartridge_type(self.data@[0x147]),
        ensures
            name@ == spec_cartridge_type_name(self.data@[0x147]),
    {
        match self.data[0x147] {
            0x00 => "ROM ONLY",
            0x01 => "MBC1",
            0x02 => "MBC1+RAM",
            0x03 => "MBC1+RAM+BATTERY",
            0x05 => "MBC2",
            0x06 => "MBC2+BATTERY",
            0x08 => "ROM+RAM 1",
            0x09 => "ROM+RAM+BATTERY 1",
            0x0B => "MMM01",
            0x0C => "MMM01+RAM",
            0x0D => "MMM01+RAM+BATTERY",
            0x0F => "MBC3+TIMER+BATTERY",
            0x10 => "MBC3+TIMER+RAM+BATTERY 2",
            0x11 => "MBC3",
            0x12 => "MBC3+RAM 2",
            0x13 => "MBC3+RAM+BATTERY 2",
            0x19 => "MBC5",
            0x1A => "MBC5+RAM",
            0x1B => "MBC5+RAM+BATTERY",
            0x1C => "MBC5+RUMBLE",
            0x1D => "MBC5+RUMBLE+RAM",
            0x1E => "MBC5+RUMBLE+RAM+BATTERY",
            0x20 => "MBC6",
            0x22 => "MBC7+SENSOR+RUMBLE+RAM+BATTERY",
            0xFC => "POCKET CAMERA",
            0xFD => "BANDAI TAMA5",
            0xFE => "HuC3",
            _ => "HuC1+RAM+BATTERY",
        }
    }

    /// Whether the header declares an MBC1-family controller.
    pub fn has_mbc1(&self) -> (has: bool)
        requires
            self.data@.len() >= 0x150,
        ensures
            has == (0x01 <= self.data@[0x147] <= 0x03),
    {
        let b = self.data[0x147];
        0x01 <= b && b <= 0x03
    }

    /// Whether the header declares an MBC5-family controller.
    pub fn has_mbc5(&self) -> (has: bool)
        requires
            self.data@.len() >= 0x150,
        ensures
            has == (0x19 <= self.data@[0x147] <= 0x1E),
    {
        let b = self.data[0x147];
        0x19 <= b && b <= 0x1E
    }

    /// The header's ROM-size code.
    pub fn get_rom_size(&self) -> (size: u8)
        requires
            self.data@.len() >= 0x150,
        ensures
            size == self.data@[0x148],
    {
        self.data[0x148]
    }

    /// The header's RAM-size code.
    pub fn get_ram_size(&self) -> (size: u8)
        requires
            self.data@.len() >= 0x150,
        ensures
            size == self.data@[0x149],
    {
        self.data[0x149]
    }

    /// Writes the five-bit ROM-bank register. On MBC1 a write of zero
    /// selects bank one instead, as the controller does.
    pub fn select_rom_bank(&mut self, bank: u8)
        requires
            old(self).data@.len() >= 0x150,
        ensures
            *final(self) == (Cartridge {
                selected_rom_bank: if bank == 0 && 0x01 <= old(self).data@[0x147] <= 0x03 {
                    1u8
                } else {
                    bank & 0x1F
                },
                ..*old(self)
            }),
            final(self).selected_rom_bank <= 0x1F,
    {
        proof {
            lemma_bank_masks(bank);
        }
        if bank == 0 && self.has_mbc1() {
            self.selected_rom_bank = 0x01;
        } else {
            self.selected_rom_bank = bank & 0x1F;
        }
    }

    /// Writes the two-bit secondary bank register.
    pub fn set_secondary_bank_register(&mut self, bank: u8)
        ensures
            *final(self) == (Cartridge { secondary_bank_register: bank & 0x03, ..*old(self) }),
            final(self).secondary_bank_register <= 0x03,
    {
        proof {
            lemma_bank_masks(bank);
        }
        self.secondary_bank_register = bank & 0x03;
    }

    /// Selects the banking mode; any value other than zero or one leaves
    /// the mode as it was.
    pub fn select_banking_mode(&mut self, b: u8)
        ensures
            *final(self) == (Cartridge {
                banking_mode_1: if b == 0 {
                    false
                } else if b == 1 {
                    true
                } else {
                    old(self).banking_mode_1
                },
                ..*old(self)
            }),
    {
        if b == 0 {
            self.banking_mode_1 = false;
        } else if b == 1 {
            self.banking_mode_1 = true;
        }
    }

    /// Reads a byte of ROM through the current bank mapping. The caller
    /// keeps the mapped offset inside the image, as the bus does for the
    /// ROM sizes it accepts.
    pub fn read_rom(&self, addr: u16) -> (b: u8)
        requires
            spec_cart_wf(*self),
            self.data@.len() >= 0x150,
            spec_rom_addr(*self, addr) < self.data@.len(),
        ensures
            b == self.data@[spec_rom_addr(*self, addr)],
    {
        proof {
            lemma_bank_shift(self.secondary_bank_register);
        }
        let mapped: u32 = if addr < 0x4000 {
            if self.banking_mode_1 && self.get_rom_size() >= 0x05 {
                ((self.secondary_bank_register << 5) as u32) * 0x4000 + addr as u32
            } else {
                addr as u32
            }
        } else {
            let bank_num: u8 = if self.get_rom_size() >= 0x05 {
                (self.secondary_bank_register << 5) + self.selected_rom_bank
            } else {
                self.selected_rom_bank
            };
            0x4000 * (bank_num as u32) + (addr as u32 - 0x4000)
        };
        self.data[mapped as usize]
    }

    /// Reads a byte of external RAM; the address is relative to the
    /// 8 KiB window.
    pub fn read_ram(&self, addr: u16) -> (b: u8)
        requires
            spec_cart_wf(*self),
            self.data@.len() >= 0x150,
            addr < 0x2000,
        ensures
            b == self.ram@[spec_ram_read_addr(*self, addr)],
    {
        let mapped: u16 = if self.banking_mode_1 && self.get_ram_size() >= 0x03 {
            0x2000 * self.secondary_bank_register as u16 + addr
        } else {
            addr
        };
        self.ram[mapped as usize]
    }

    /// Writes a byte of external RAM into the bank the secondary register
    /// names; the address is relative to the 8 KiB window.
    pub fn write_ram(&mut self, addr: u16, b: u8)
        requires
            spec_cart_wf(*old(self)),
            addr < 0x2000,
        ensures
            *final(self) == (Cartridge {
                ram: final(self).ram,
                ..*old(self)
            }),
            final(self).ram@ == old(self).ram@.update(
                0x2000 * old(self).secondary_bank_register + addr,
                b,
            ),
            spec_cart_wf(*final(self)),
    {
        let mapped: u16 = 0x2000 * self.secondary_bank_register as u16 + addr;
        self.ram[mapped as usize] = b;
    }
}

} // verus!
