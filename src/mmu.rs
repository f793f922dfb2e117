use vstd::prelude::*;

use crate::bits::lemma_irq_bits;
use crate::bits::lemma_mask_irq;
use crate::catridge::CartState;
use crate::catridge::Catridge;
use crate::io_device::IODevice;
use crate::joypad::Joypad;
use crate::ppu::PpuState;
use crate::ppu::lemma_frame_timing;
use crate::ppu::PPU;
use crate::timer::Timer;

verus! {

/// A fatal condition that stops the emulated machine.
#[derive(Clone, Copy, Debug, PartialEq, Eq, Structural)]
pub enum Fault {
    /// The CPU fetched an opcode that it does not implement.
    UndefinedOpcode { opcode: u8, pc: u16 },
    /// An OAM DMA was started from a page above 0xDF.
    InvalidDmaSource(u8),
}

/// Memory space.
pub struct MMU {
    /// Catridge
    pub catridge: Catridge,
    /// RAM
    pub ram: Vec<u8>,
    /// High RAM
    pub hram: Vec<u8>,
    /// Joypad
    pub joypad: Joypad,
    /// Timer
    pub timer: Timer,
    /// Pixel Processing Unit
    pub ppu: PPU,
    /// Interrupt flag
    pub int_flag: u8,
    /// Interrupt enable
    pub int_enable: u8,
    /// The fault that stopped the machine, if any
    pub fault: Option<Fault>,
}

/// The mathematical state of the memory space and its peripherals.
pub struct MmuState {
    pub cart: CartState,
    pub ram: Seq<u8>,
    pub hram: Seq<u8>,
    pub joypad: Joypad,
    pub timer: Timer,
    pub ppu: PpuState,
    pub int_flag: u8,
    pub int_enable: u8,
    pub fault: Option<Fault>,
}

impl View for MMU {
    type V = MmuState;

    open spec fn view(&self) -> MmuState {
        MmuState {
            cart: self.catridge@,
            ram: self.ram@,
            hram: self.hram@,
            joypad: self.joypad,
            timer: self.timer,
            ppu: self.ppu@,
            int_flag: self.int_flag,
            int_enable: self.int_enable,
            fault: self.fault,
        }
    }
}

/// Addresses backed by work RAM (with its echo) or high RAM, where a byte
/// written is a byte read back.
pub open spec fn is_plain_ram(addr: u16) -> bool {
    (0xc000 <= addr <= 0xfdff) || (0xff80 <= addr <= 0xfffe)
}

/// The storage cell behind a plain RAM address: work RAM cells 0..0x2000,
/// high RAM cells after them. Echo addresses share the cells of work RAM.
pub open spec fn ram_cell(addr: u16) -> int {
    if addr <= 0xdfff {
        addr - 0xc000
    } else if addr <= 0xfdff {
        addr - 0xe000
    } else {
        0x2000 + (addr - 0xff80)
    }
}

impl MmuState {
    /// Well formed: memories have their sizes, every peripheral is well
    /// formed, and IF keeps its three unused bits clear.
    #[verifier::opaque]
    pub open spec fn wf(self) -> bool {
        &&& self.cart.wf()
        &&& self.ram.len() == 0x2000
        &&& self.hram.len() == 0x7f
        &&& self.joypad.wf()
        &&& self.timer.wf()
        &&& self.ppu.wf()
        &&& self.int_flag & 0xe0 == 0
    }

    /// What the bus reads at an address. Unmapped holes read 0xFF.
    #[verifier::opaque]
    pub open spec fn read_spec(self, addr: u16) -> u8 {
        if addr <= 0x7fff {
            self.cart.read_spec(addr)
        } else if addr <= 0x9fff {
            self.ppu.read_spec(addr)
        } else if addr <= 0xbfff {
            self.cart.read_spec(addr)
        } else if addr <= 0xdfff {
            self.ram[addr - 0xc000]
        } else if addr <= 0xfdff {
            self.ram[addr - 0xe000]
        } else if addr <= 0xfe9f {
            self.ppu.read_spec(addr)
        } else if addr == 0xff00 {
            self.joypad.read_spec(addr)
        } else if 0xff04 <= addr <= 0xff07 {
            self.timer.read_spec(addr)
        } else if addr == 0xff0f {
            self.int_flag
        } else if (0xff40 <= addr <= 0xff45) || (0xff47 <= addr <= 0xff4b) {
            self.ppu.read_spec(addr)
        } else if 0xff80 <= addr <= 0xfffe {
            self.hram[addr - 0xff80]
        } else if addr == 0xffff {
            self.int_enable
        } else {
            0xff
        }
    }

    /// The state stopped by a fault; a machine already stopped keeps the
    /// fault that stopped it first.
    pub open spec fn with_fault(self, fault: Fault) -> MmuState {
        if self.fault is Some {
            self
        } else {
            MmuState { fault: Some(fault), ..self }
        }
    }

    /// Whether this is the state at power-on around a cartridge: the
    /// cartridge as given, cleared RAM, VRAM, OAM and frame buffer, fresh
    /// timer and joypad, the LCD on at the start of line 0, and no interrupt
    /// flagged, enabled or pending in a peripheral.
    pub open spec fn is_power_on(self, cart: CartState) -> bool {
        &&& self.cart == cart
        &&& forall|i: int| 0 <= i < 0x2000 ==> self.ram[i] == 0
        &&& forall|i: int| 0 <= i < 0x7f ==> self.hram[i] == 0
        &&& self.timer == (Timer { tima: 0, tma: 0, tac: 0, counter: 0, irq: false })
        &&& self.joypad == (Joypad { joyp: 0xff, key_state: 0xff, irq: false })
        &&& self.ppu.regs == PPU::new_regs()
        &&& !self.ppu.irq_vblank && !self.ppu.irq_lcdc && self.ppu.counter == 0
        &&& forall|i: int| 0 <= i < 0x2000 ==> self.ppu.vram[i] == 0
        &&& forall|i: int| 0 <= i < 0xa0 ==> self.ppu.oam[i] == 0
        &&& forall|i: int| 0 <= i < 160 * 144 ==> self.ppu.frame_buffer[i] == 0
        &&& self.int_flag == 0 && self.int_enable == 0 && self.fault is None
    }

    /// OAM DMA from page `val`: the 160 bytes read at `val << 8` become the
    /// OAM; a page above 0xDF stops the machine instead.
    #[verifier::opaque]
    pub open spec fn dma_spec(self, val: u8) -> MmuState {
        if val > 0xdf {
            self.with_fault(Fault::InvalidDmaSource(val))
        } else {
            MmuState {
                ppu: PpuState {
                    oam: Seq::new(0xa0, |i: int| self.read_spec((256 * val + i) as u16)),
                    ..self.ppu
                },
                ..self
            }
        }
    }

    /// What a write to the bus leaves. Unmapped holes swallow writes.
    #[verifier::opaque]
    pub open spec fn write_spec(self, addr: u16, val: u8) -> MmuState {
        if addr <= 0x7fff {
            MmuState { cart: self.cart.write_spec(addr, val), ..self }
        } else if addr <= 0x9fff {
            MmuState { ppu: self.ppu.write_spec(addr, val), ..self }
        } else if addr <= 0xbfff {
            MmuState { cart: self.cart.write_spec(addr, val), ..self }
        } else if addr <= 0xdfff {
            MmuState { ram: self.ram.update(addr - 0xc000, val), ..self }
        } else if addr <= 0xfdff {
            MmuState { ram: self.ram.update(addr - 0xe000, val), ..self }
        } else if addr <= 0xfe9f {
            MmuState { ppu: self.ppu.write_spec(addr, val), ..self }
        } else if addr == 0xff00 {
            MmuState { joypad: self.joypad.write_spec(addr, val), ..self }
        } else if 0xff04 <= addr <= 0xff07 {
            MmuState { timer: self.timer.write_spec(addr, val), ..self }
        } else if addr == 0xff0f {
            MmuState { int_flag: val & 0x1f, ..self }
        } else if (0xff40 <= addr <= 0xff45) || (0xff47 <= addr <= 0xff4b) {
            MmuState { ppu: self.ppu.write_spec(addr, val), ..self }
        } else if addr == 0xff46 {
            self.dma_spec(val)
        } else if 0xff80 <= addr <= 0xfffe {
            MmuState { hram: self.hram.update(addr - 0xff80, val), ..self }
        } else if addr == 0xffff {
            MmuState { int_enable: val, ..self }
        } else {
            self
        }
    }

    /// The peripherals after `tick` T-cycles, with their interrupt requests
    /// moved into IF: V-Blank to bit 0, LCD to bit 1, timer to bit 2, joypad
    /// to bit 4.
    #[verifier::opaque]
    pub open spec fn update_spec(self, tick: u8) -> MmuState {
        let ppu = self.ppu.update_spec(tick);
        let timer = self.timer.update_spec(tick);
        let f0 = self.int_flag;
        let f1 = if ppu.irq_vblank {
            f0 | 0x1
        } else {
            f0
        };
        let f2 = if ppu.irq_lcdc {
            f1 | 0x2
        } else {
            f1
        };
        let f3 = if timer.irq {
            f2 | 0x4
        } else {
            f2
        };
        let f4 = if self.joypad.irq {
            f3 | 0x10
        } else {
            f3
        };
        MmuState {
            ppu: PpuState { irq_vblank: false, irq_lcdc: false, ..ppu },
            timer: Timer { irq: false, ..timer },
            joypad: Joypad { irq: false, ..self.joypad },
            int_flag: f4,
            ..self
        }
    }
}

impl MMU {
    pub open spec fn wf(&self) -> bool {
        self@.wf()
    }

    /// Creates a new `MMU` around a cartridge, with cleared RAM, fresh
    /// peripherals and no interrupt flagged or enabled.
    pub fn new(catridge: Catridge) -> (r: Self)
        requires
            catridge.wf(),
        ensures
            r.wf(),
            r@.is_power_on(catridge@),
    {
        reveal(MmuState::wf);
        let ram = vec![0u8; 0x2000];
        let hram = vec![0u8; 0x7f];
        proof {
            assert forall|i: int| 0 <= i < 0x2000 implies ram@[i] == 0 by {
                assert(cloned(0u8, ram@[i]));
            }
            assert forall|i: int| 0 <= i < 0x7f implies hram@[i] == 0 by {
                assert(cloned(0u8, hram@[i]));
            }
            assert(0u8 & 0xe0 == 0) by (bit_vector);
        }
        MMU {
            catridge,
            ram,
            hram,
            joypad: Joypad::new(),
            ppu: PPU::new(),
            timer: Timer::new(),
            int_flag: 0,
            int_enable: 0,
            fault: None,
        }
    }

    /// Starts a DMA transfer.
    fn do_dma(&mut self, val: u8)
        requires
            old(self).wf(),
        ensures
            final(self)@ == old(self)@.dma_spec(val),
            final(self).wf(),
    {
        reveal(MmuState::wf);
        reveal(MmuState::dma_spec);
        reveal(MmuState::read_spec);
        if val > 0xdf {
            self.stop(Fault::InvalidDmaSource(val));
            return;
        }
        let ghost s0 = self@;
        let src_base = (val as u16) * 256;

        let mut i: u16 = 0;
        while i < 0xa0
            invariant
                i <= 0xa0,
                s0.wf(),
                val <= 0xdf,
                src_base == 256 * val,
                self@ == (MmuState { ppu: PpuState { oam: self.ppu.oam@, ..s0.ppu }, ..s0 }),
                self.ppu.oam@.len() == 0xa0,
                forall|j: int|
                    0 <= j < 0xa0 ==> self.ppu.oam@[j] == if j < i {
                        s0.read_spec((256 * val + j) as u16)
                    } else {
                        s0.ppu.oam[j]
                    },
            decreases 0xa0 - i,
        {
            proof {
                reveal(MmuState::wf);
            }
            let tmp = self.read(src_base + i);
            proof {
                reveal(MmuState::wf);
                reveal(MmuState::read_spec);
                assert(self@.read_spec((src_base + i) as u16) == s0.read_spec((src_base + i) as u16));
            }
            self.ppu.oam.set(i as usize, tmp);
            i += 1;
        }
        proof {
            assert(self.ppu.oam@ =~= Seq::new(0xa0, |j: int| s0.read_spec((256 * val + j) as u16)));
        }
    }

    /// Writes a byte to an address.
    pub fn write(&mut self, addr: u16, val: u8)
        requires
            old(self).wf(),
        ensures
            final(self)@ == old(self)@.write_spec(addr, val),
            final(self).wf(),
    {
        reveal(MmuState::wf);
        reveal(MmuState::write_spec);
        match addr {
            // ROM
            0x0000..=0x7fff => self.catridge.write(addr, val),
            // VRAM
            0x8000..=0x9fff => self.ppu.write(addr, val),
            // External RAM
            0xa000..=0xbfff => self.catridge.write(addr, val),
            // RAM
            0xc000..=0xdfff => self.ram.set((addr - 0xc000) as usize, val),
            // Echo RAM
            0xe000..=0xfdff => self.ram.set((addr - 0xe000) as usize, val),
            // OAM
            0xfe00..=0xfe9f => self.ppu.write(addr, val),
            // Joypad
            0xff00 => self.joypad.write(addr, val),
            // Timer
            0xff04..=0xff07 => self.timer.write(addr, val),
            // Interrupt flag
            0xff0f => {
                self.int_flag = val & 0x1f;
                proof {
                    lemma_mask_irq(val);
                }
            },
            // PPU
            0xff40..=0xff45 | 0xff47..=0xff4b => self.ppu.write(addr, val),
            // OAM DMA
            0xff46 => self.do_dma(val),
            // HRAM
            0xff80..=0xfffe => self.hram.set((addr - 0xff80) as usize, val),
            // Interrupt enable
            0xffff => self.int_enable = val,
            _ => {},
        }
    }

    /// Reads a byte from an address.
    pub fn read(&self, addr: u16) -> (r: u8)
        requires
            self.wf(),
        ensures
            r == self@.read_spec(addr),
    {
        reveal(MmuState::wf);
        reveal(MmuState::read_spec);
        match addr {
            // ROM
            0x0000..=0x7fff => self.catridge.read(addr),
            // VRAM
            0x8000..=0x9fff => self.ppu.read(addr),
            // External RAM
            0xa000..=0xbfff => self.catridge.read(addr),
            // RAM
            0xc000..=0xdfff => self.ram[(addr - 0xc000) as usize],
            // Echo RAM
            0xe000..=0xfdff => self.ram[(addr - 0xe000) as usize],
            // OAM
            0xfe00..=0xfe9f => self.ppu.read(addr),
            // Joypad
            0xff00 => self.joypad.read(addr),
            // Timer
            0xff04..=0xff07 => self.timer.read(addr),
            // Interrupt flag
            0xff0f => self.int_flag,
            // PPU
            0xff40..=0xff45 | 0xff47..=0xff4b => self.ppu.read(addr),
            // HRAM
            0xff80..=0xfffe => self.hram[(addr - 0xff80) as usize],
            // Interrupt enable
            0xffff => self.int_enable,
            _ => 0xff,
        }
    }

    /// Progresses the clock for a given number of ticks.
    pub fn update(&mut self, tick: u8)
        requires
            old(self).wf(),
            tick <= 24,
        ensures
            final(self)@ == old(self)@.update_spec(tick),
            final(self).wf(),
            old(self)@.ppu.lcd_on() ==> final(self)@.ppu.frame_pos() == (old(self)@.ppu.frame_pos()
                + tick) % 70224,
    {
        reveal(MmuState::wf);
        reveal(MmuState::update_spec);
        proof {
            if self@.ppu.lcd_on() {
                lemma_frame_timing(self@.ppu, tick);
            }
        }
        self.catridge.update(tick);
        self.ppu.update(tick);
        self.timer.update(tick);
        self.joypad.update(tick);
        proof {
            lemma_irq_bits(self.int_flag, 0);
            lemma_irq_bits(self.int_flag | 1, 0);
            lemma_irq_bits(self.int_flag | 2, 0);
            lemma_irq_bits((self.int_flag | 1) | 2, 0);
        }

        if self.ppu.irq_vblank {
            self.int_flag = self.int_flag | 0x1;
            self.ppu.irq_vblank = false;
        }
        proof {
            lemma_irq_bits(self.int_flag, 0);
        }
        if self.ppu.irq_lcdc {
            self.int_flag = self.int_flag | 0x2;
            self.ppu.irq_lcdc = false;
        }
        proof {
            lemma_irq_bits(self.int_flag, 0);
        }
        if self.timer.irq {
            self.int_flag = self.int_flag | 0x4;
            self.timer.irq = false;
        }
        proof {
            lemma_irq_bits(self.int_flag, 0);
        }
        if self.joypad.irq {
            self.int_flag = self.int_flag | 0x10;
            self.joypad.irq = false;
        }
    }

    /// Stops the machine with a fault, unless a fault stopped it already.
    pub fn stop(&mut self, fault: Fault)
        requires
            old(self).wf(),
        ensures
            final(self)@ == old(self)@.with_fault(fault),
            final(self).wf(),
    {
        reveal(MmuState::wf);
        if self.fault.is_none() {
            self.fault = Some(fault);
        }
    }
}

/// Echo RAM: each address of 0xE000-0xFDFF reads what the work RAM address
/// 0x2000 below it reads, and a write to either leaves the same state.
pub proof fn lemma_echo_ram(m: MmuState, k: u16, v: u8)
    requires
        k < 0x1e00,
    ensures
        m.read_spec((0xe000 + k) as u16) == m.read_spec((0xc000 + k) as u16),
        m.write_spec((0xe000 + k) as u16, v) == m.write_spec((0xc000 + k) as u16, v),
{
    reveal(MmuState::read_spec);
    reveal(MmuState::write_spec);
}

/// A byte written to plain RAM is read back from every address of its cell,
/// other cells keep their bytes, and the state stays well formed.
pub proof fn lemma_ram_read_after_write(m: MmuState, a: u16, b: u16, v: u8)
    requires
        m.wf(),
        is_plain_ram(a),
        is_plain_ram(b),
    ensures
        m.write_spec(a, v).wf(),
        m.write_spec(a, v).read_spec(b) == if ram_cell(a) == ram_cell(b) {
            v
        } else {
            m.read_spec(b)
        },
        !is_plain_ram(b) ==> m.write_spec(a, v).read_spec(b) == m.read_spec(b),
{
    lemma_ram_write_keeps_others(m, a, b, v);
    reveal(MmuState::read_spec);
    reveal(MmuState::write_spec);
    reveal(MmuState::wf);
}

/// A write to plain RAM keeps every address outside plain RAM.
pub proof fn lemma_ram_write_keeps_others(m: MmuState, a: u16, b: u16, v: u8)
    requires
        is_plain_ram(a),
    ensures
        !is_plain_ram(b) ==> m.write_spec(a, v).read_spec(b) == m.read_spec(b),
{
    reveal(MmuState::read_spec);
    reveal(MmuState::write_spec);
}

/// Writing back the byte that plain RAM holds changes nothing.
pub proof fn lemma_ram_write_same(m: MmuState, a: u16)
    requires
        m.wf(),
        is_plain_ram(a),
    ensures
        m.write_spec(a, m.read_spec(a)) == m,
{
    reveal(MmuState::read_spec);
    reveal(MmuState::write_spec);
    reveal(MmuState::wf);
    if a <= 0xdfff {
        assert(m.ram.update(a - 0xc000, m.ram[a - 0xc000]) =~= m.ram);
    } else if a <= 0xfdff {
        assert(m.ram.update(a - 0xe000, m.ram[a - 0xe000]) =~= m.ram);
    } else {
        assert(m.hram.update(a - 0xff80, m.hram[a - 0xff80]) =~= m.hram);
    }
}

/// Only the five interrupt bits of IF are ever set: its three upper bits
/// read as zero in every well-formed state.
pub proof fn lemma_if_unused_bits(m: MmuState)
    requires
        m.wf(),
    ensures
        m.read_spec(0xff0f) & 0xe0 == 0,
{
    reveal(MmuState::read_spec);
    reveal(MmuState::wf);
}

} // verus!
