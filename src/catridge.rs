use vstd::prelude::*;

use crate::bits::lemma_mask_below;
use crate::bits::lemma_u8_masks;
use crate::io_device::IODevice;

verus! {

/// Why a cartridge image was refused.
#[derive(Clone, Copy, Debug, PartialEq, Eq, Structural)]
pub enum CartridgeError {
    /// The ROM size code at 0x0148 is not one the controller can address.
    InvalidRomSize,
    /// The RAM size code at 0x0149 is not one of the six defined codes.
    InvalidRamSize,
    /// The image is shorter than its header or its length differs from the
    /// ROM size that the header gives.
    SizeMismatch,
    /// The header checksum at 0x014D does not match the header bytes.
    ChecksumMismatch,
}

/// A game cartridge with an MBC1 bank controller.
pub struct Catridge {
    pub rom: Vec<u8>,
    pub ram: Vec<u8>,
    pub mbc_type: u8,
    pub ram_enable: bool,
    pub bank_no_upper: u8,
    pub bank_no_lower: u8,
    pub num_rom_banks: u16,
    pub mode: bool,
}

/// The mathematical state of a cartridge.
pub struct CartState {
    pub rom: Seq<u8>,
    pub ram: Seq<u8>,
    pub mbc_type: u8,
    pub ram_enable: bool,
    pub bank_no_upper: u8,
    pub bank_no_lower: u8,
    pub num_rom_banks: u16,
    pub mode: bool,
}

/// Number of 16 KiB ROM banks for a ROM size code (32 KiB << code in all).
pub open spec fn rom_banks_of(code: u8) -> u16 {
    if code == 0 {
        2
    } else if code == 1 {
        4
    } else if code == 2 {
        8
    } else if code == 3 {
        16
    } else if code == 4 {
        32
    } else if code == 5 {
        64
    } else if code == 6 {
        128
    } else if code == 7 {
        256
    } else {
        512
    }
}

/// External RAM size in bytes for a RAM size code; -1 for an undefined code.
pub open spec fn ram_size_of(code: u8) -> int {
    if code == 0 {
        0
    } else if code == 1 {
        0x800
    } else if code == 2 {
        0x2000
    } else if code == 3 {
        0x8000
    } else if code == 4 {
        0x20000
    } else if code == 5 {
        0x10000
    } else {
        -1
    }
}

/// Sum over the header bytes from 0x0134 up to `end` of (-byte - 1).
pub open spec fn header_sum(rom: Seq<u8>, end: int) -> int
    decreases end,
{
    if end <= 0x134 {
        0
    } else {
        header_sum(rom, end - 1) - rom[end - 1] - 1
    }
}

/// The header checksum that a cartridge image must hold at 0x014D.
pub open spec fn header_checksum(rom: Seq<u8>) -> u8 {
    (header_sum(rom, 0x14d) % 0x100) as u8
}

/// The first reason, if any, for which a cartridge image is refused.
pub open spec fn header_error(rom: Seq<u8>) -> Option<CartridgeError> {
    if rom.len() < 0x150 {
        Some(CartridgeError::SizeMismatch)
    } else if rom[0x148] > 8 {
        Some(CartridgeError::InvalidRomSize)
    } else if ram_size_of(rom[0x149]) < 0 {
        Some(CartridgeError::InvalidRamSize)
    } else if rom.len() != 0x4000 * rom_banks_of(rom[0x148]) {
        Some(CartridgeError::SizeMismatch)
    } else if header_checksum(rom) != rom[0x14d] {
        Some(CartridgeError::ChecksumMismatch)
    } else {
        None
    }
}

impl View for Catridge {
    type V = CartState;

    open spec fn view(&self) -> CartState {
        CartState {
            rom: self.rom@,
            ram: self.ram@,
            mbc_type: self.mbc_type,
            ram_enable: self.ram_enable,
            bank_no_upper: self.bank_no_upper,
            bank_no_lower: self.bank_no_lower,
            num_rom_banks: self.num_rom_banks,
            mode: self.mode,
        }
    }
}

impl CartState {
    /// Well formed: the ROM holds a power-of-two number of 16 KiB banks and
    /// the bank registers keep their widths.
    pub open spec fn wf(self) -> bool {
        &&& (self.num_rom_banks == 2 || self.num_rom_banks == 4 || self.num_rom_banks == 8
            || self.num_rom_banks == 16 || self.num_rom_banks == 32 || self.num_rom_banks == 64
            || self.num_rom_banks == 128 || self.num_rom_banks == 256 || self.num_rom_banks
            == 512)
        &&& self.rom.len() == 0x4000 * self.num_rom_banks
        &&& self.bank_no_lower <= 0x1f
        &&& self.bank_no_upper <= 3
    }

    /// The ROM bank seen at 0x4000-0x7FFF: banks 0, 0x20, 0x40 and 0x60 are
    /// replaced by the next one, then the number is masked to the ROM size.
    pub open spec fn rom_bank_no(self) -> u16 {
        let bank: u16 = if self.mode {
            self.bank_no_lower as u16
        } else {
            (self.bank_no_upper * 32 + self.bank_no_lower) as u16
        };
        let bank: u16 = if bank == 0 || bank == 0x20 || bank == 0x40 || bank == 0x60 {
            (bank + 1) as u16
        } else {
            bank
        };
        bank & ((self.num_rom_banks - 1) as u16)
    }

    /// The RAM bank seen at 0xA000-0xBFFF.
    pub open spec fn ram_bank_no(self) -> u8 {
        if self.mode {
            self.bank_no_upper
        } else {
            0
        }
    }

    /// Index into the RAM buffer of an address in 0xA000-0xBFFF.
    pub open spec fn ram_index(self, addr: u16) -> int {
        0x2000 * self.ram_bank_no() + (addr - 0xa000)
    }

    /// What the cartridge answers at an address it decodes. Disabled RAM, and
    /// RAM beyond what the cartridge has, read 0xFF.
    pub open spec fn read_spec(self, addr: u16) -> u8 {
        if addr <= 0x3fff {
            self.rom[addr as int]
        } else if addr <= 0x7fff {
            self.rom[0x4000 * self.rom_bank_no() + (addr - 0x4000)]
        } else if !self.ram_enable || self.ram_index(addr) >= self.ram.len() {
            0xff
        } else {
            self.ram[self.ram_index(addr)]
        }
    }

    /// What a write leaves: below 0x8000 it sets a controller register; in
    /// 0xA000-0xBFFF it stores into enabled RAM and is dropped otherwise.
    pub open spec fn write_spec(self, addr: u16, val: u8) -> CartState {
        if addr <= 0x1fff {
            CartState { ram_enable: val & 0x0f == 0x0a, ..self }
        } else if addr <= 0x3fff {
            CartState { bank_no_lower: val & 0x1f, ..self }
        } else if addr <= 0x5fff {
            CartState { bank_no_upper: val & 0x03, ..self }
        } else if addr <= 0x7fff {
            CartState { mode: val & 0x01 > 0, ..self }
        } else if !self.ram_enable || self.ram_index(addr) >= self.ram.len() {
            self
        } else {
            CartState { ram: self.ram.update(self.ram_index(addr), val), ..self }
        }
    }
}

impl Catridge {
    pub open spec fn wf(&self) -> bool {
        self@.wf()
    }

    /// Parses the header of a cartridge image and builds the cartridge, with
    /// its external RAM cleared and its bank registers at zero.
    pub fn new(rom: Vec<u8>) -> (r: Result<Self, CartridgeError>)
        ensures
            r is Err <==> header_error(rom@) is Some,
            r is Err ==> header_error(rom@) == Some(r->Err_0),
            r is Ok ==> ({
                let c = r->Ok_0;
                &&& c.wf()
                &&& c.rom@ == rom@
                &&& c.ram@.len() == ram_size_of(rom@[0x149])
                &&& forall|i: int| 0 <= i < c.ram@.len() ==> c.ram@[i] == 0
                &&& c.mbc_type == rom@[0x147]
                &&& !c.ram_enable && !c.mode
                &&& c.bank_no_upper == 0 && c.bank_no_lower == 0
                &&& c.num_rom_banks == rom_banks_of(rom@[0x148])
            }),
    {
        if rom.len() < 0x150 {
            return Err(CartridgeError::SizeMismatch);
        }
        let code = rom[0x148];
        if code > 8 {
            return Err(CartridgeError::InvalidRomSize);
        }
        let num_rom_banks: u16 = match code {
            0 => 2,
            1 => 4,
            2 => 8,
            3 => 16,
            4 => 32,
            5 => 64,
            6 => 128,
            7 => 256,
            _ => 512,
        };
        let ram_size: usize = match rom[0x149] {
            0 => 0,
            1 => 2 * 1024,
            2 => 8 * 1024,
            3 => 32 * 1024,
            4 => 128 * 1024,
            5 => 64 * 1024,
            _ => return Err(CartridgeError::InvalidRamSize),
        };
        if rom.len() != 0x4000 * num_rom_banks as usize {
            return Err(CartridgeError::SizeMismatch);
        }

        let mut chksum: u8 = 0;
        let mut i: usize = 0x134;
        while i < 0x14d
            invariant
                0x134 <= i <= 0x14d,
                rom@.len() >= 0x150,
                chksum as int == header_sum(rom@, i as int) % 0x100,
            decreases 0x14d - i,
        {
            let b = rom[i];
            proof {
                let s = header_sum(rom@, i as int);
                assert(header_sum(rom@, i + 1) == s - b - 1);
                vstd::arithmetic::div_mod::lemma_fundamental_div_mod(s, 0x100);
                vstd::arithmetic::div_mod::lemma_mod_multiples_vanish(s / 0x100, s - b - 1 - 0x100 * (s / 0x100), 0x100);
            }
            chksum = chksum.wrapping_sub(b).wrapping_sub(1);
            proof {
                let s = header_sum(rom@, i as int);
                let c0 = s % 0x100;
                // two wrapping steps equal one subtraction modulo 256
                assert((c0 - (b + 1)) % 0x100 == (s - b - 1) % 0x100);
                vstd::arithmetic::div_mod::lemma_mod_add_multiples_vanish(c0 - b - 1, 0x100);
                vstd::arithmetic::div_mod::lemma_mod_add_multiples_vanish(c0 - b - 1 + 0x100, 0x100);
                if c0 - b - 1 >= 0 {
                    vstd::arithmetic::div_mod::lemma_small_mod((c0 - b - 1) as nat, 0x100);
                } else if c0 - b - 1 + 0x100 >= 0 {
                    vstd::arithmetic::div_mod::lemma_small_mod((c0 - b - 1 + 0x100) as nat, 0x100);
                } else {
                    vstd::arithmetic::div_mod::lemma_small_mod((c0 - b - 1 + 0x200) as nat, 0x100);
                }
            }
            i += 1;
        }

        if chksum != rom[0x14d] {
            return Err(CartridgeError::ChecksumMismatch);
        }

        let mbc_type = rom[0x147];
        let ram = vec![0u8; ram_size];
        proof {
            assert forall|i: int| 0 <= i < ram@.len() implies ram@[i] == 0 by {
                assert(cloned(0u8, ram@[i]));
            }
        }
        Ok(
            Catridge {
                rom: rom,
                ram: ram,
                mbc_type: mbc_type,
                ram_enable: false,
                bank_no_upper: 0,
                bank_no_lower: 0,
                num_rom_banks: num_rom_banks,
                mode: false,
            },
        )
    }

    /// The ROM bank mapped at 0x4000-0x7FFF.
    fn rom_bank_no(&self) -> (r: u16)
        requires
            self.wf(),
        ensures
            r == self@.rom_bank_no(),
            r < self.num_rom_banks,
    {
        let bank_no: u16 = if self.mode {
            self.bank_no_lower as u16
        } else {
            self.bank_no_upper as u16 * 32 + self.bank_no_lower as u16
        };

        let bank_no: u16 = match bank_no {
            0 | 0x20 | 0x40 | 0x60 => bank_no + 1,
            _ => bank_no,
        };
        proof {
            lemma_mask_below(bank_no, self.num_rom_banks);
        }
        bank_no & (self.num_rom_banks - 1)
    }

    /// The RAM bank mapped at 0xA000-0xBFFF.
    fn ram_bank_no(&self) -> (r: u8)
        ensures
            r == self@.ram_bank_no(),
    {
        if self.mode {
            self.bank_no_upper
        } else {
            0
        }
    }

    /// Replaces the external RAM with the bytes of a save file, verbatim.
    pub fn load_ram(&mut self, data: Vec<u8>)
        ensures
            final(self)@ == (CartState { ram: data@, ..old(self)@ }),
    {
        self.ram = data;
    }

    /// The external RAM, verbatim, as a save file holds it.
    pub fn ram_image(&self) -> (r: &[u8])
        ensures
            r@ == self.ram@,
    {
        self.ram.as_slice()
    }
}

impl IODevice for Catridge {
    open spec fn io_wf(&self) -> bool {
        self.wf()
    }

    open spec fn maps(&self, addr: u16) -> bool {
        addr <= 0x7fff || (0xa000 <= addr <= 0xbfff)
    }

    fn write(&mut self, addr: u16, val: u8)
        ensures
            final(self)@ == old(self)@.write_spec(addr, val),
    {
        proof {
            lemma_u8_masks(val);
        }
        match addr {
            // RAM enable
            0x0000..=0x1fff => self.ram_enable = val & 0x0f == 0x0a,
            // ROM bank number (lower 5 bits)
            0x2000..=0x3fff => self.bank_no_lower = val & 0x1f,
            // RAM bank number or ROM bank number (upper 2 bits)
            0x4000..=0x5fff => self.bank_no_upper = val & 0x03,
            // ROM/RAM mode select
            0x6000..=0x7fff => self.mode = val & 0x01 > 0,
            // RAM bank 00-03
            _ => {
                if !self.ram_enable {
                    return;
                }
                let offset = (8 * 1024) * self.ram_bank_no() as usize;
                let idx = (addr - 0xa000) as usize + offset;
                if idx < self.ram.len() {
                    self.ram.set(idx, val);
                }
            },
        }
    }

    fn read(&self, addr: u16) -> (r: u8)
        ensures
            r == self@.read_spec(addr),
    {
        match addr {
            // ROM bank 00
            0x0000..=0x3fff => self.rom[addr as usize],
            // ROM bank 01-7f
            0x4000..=0x7fff => {
                let offset = (16 * 1024) * self.rom_bank_no() as usize;
                proof {
                    assert(0x4000 * self@.rom_bank_no() + 0x4000 <= self.rom@.len())
                        by (nonlinear_arith)
                        requires
                            self@.rom_bank_no() < self.num_rom_banks,
                            self.rom@.len() == 0x4000 * self.num_rom_banks,
                    ;
                }
                self.rom[(addr - 0x4000) as usize + offset]
            },
            // RAM bank 00-03
            _ => {
                if !self.ram_enable {
                    return 0xff;
                }
                let offset = (8 * 1024) * self.ram_bank_no() as usize;
                let idx = (addr - 0xa000) as usize + offset;
                if idx < self.ram.len() {
                    self.ram[idx]
                } else {
                    0xff
                }
            },
        }
    }

    fn update(&mut self, tick: u8)
        ensures
            *final(self) == *old(self),
    {
    }
}

} // verus!
