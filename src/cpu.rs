use vstd::prelude::*;

use crate::bits::flags_byte;
use crate::bits::lemma_flags_byte;
use crate::bits::lemma_flags_of_byte;
use crate::bits::lemma_irq_bits;
use crate::bits::lemma_low_bits;
use crate::catridge::Catridge;
use crate::mmu::Fault;
use crate::mmu::MmuState;
use crate::mmu::MMU;
use crate::mmu::is_plain_ram;
use crate::mmu::ram_cell;
use crate::mmu::lemma_ram_read_after_write;
use crate::mmu::lemma_ram_write_same;
use crate::mmu::lemma_ram_write_keeps_others;

verus! {

/// The processor: registers, flags, interrupt state and the memory space it
/// owns.
pub struct CPU {
    pub mmu: MMU,
    pub pc: u16,
    pub sp: u16,
    pub a: u8,
    pub b: u8,
    pub c: u8,
    pub d: u8,
    pub e: u8,
    pub h: u8,
    pub l: u8,
    /// Zero flag (bit 7 of F)
    pub zf: bool,
    /// Subtract flag (bit 6 of F)
    pub nf: bool,
    /// Half-carry flag (bit 5 of F)
    pub hf: bool,
    /// Carry flag (bit 4 of F)
    pub cf: bool,
    pub ime: bool,
    /// T-cycles (4.194304 MHz) spent by the instruction in flight
    pub tick: u8,
    pub halted: bool,
}

/// The mathematical state of the processor.
pub struct CpuState {
    pub mmu: MmuState,
    pub pc: u16,
    pub sp: u16,
    pub a: u8,
    pub b: u8,
    pub c: u8,
    pub d: u8,
    pub e: u8,
    pub h: u8,
    pub l: u8,
    pub zf: bool,
    pub nf: bool,
    pub hf: bool,
    pub cf: bool,
    pub ime: bool,
    pub tick: u8,
    pub halted: bool,
}

impl View for CPU {
    type V = CpuState;

    open spec fn view(&self) -> CpuState {
        CpuState {
            mmu: self.mmu@,
            pc: self.pc,
            sp: self.sp,
            a: self.a,
            b: self.b,
            c: self.c,
            d: self.d,
            e: self.e,
            h: self.h,
            l: self.l,
            zf: self.zf,
            nf: self.nf,
            hf: self.hf,
            cf: self.cf,
            ime: self.ime,
            tick: self.tick,
            halted: self.halted,
        }
    }
}

/// A 16-bit value from its high and low bytes.
pub open spec fn pair(hi: u8, lo: u8) -> u16 {
    (256 * hi + lo) as u16
}

pub open spec fn hi_byte(v: u16) -> u8 {
    (v / 256) as u8
}

pub open spec fn lo_byte(v: u16) -> u8 {
    (v % 256) as u8
}

/// 16-bit addition modulo 2^16.
pub open spec fn add16(x: u16, y: int) -> u16 {
    ((x + y) % 0x10000) as u16
}

/// 8-bit addition modulo 2^8.
pub open spec fn add8(x: u8, y: int) -> u8 {
    ((x + y) % 0x100) as u8
}

/// A signed 8-bit offset sign-extended to 16 bits.
pub open spec fn sext(d: u8) -> u16 {
    if d < 128 {
        d as u16
    } else {
        (d + 0xff00) as u16
    }
}

/// The interrupt vector of interrupt bit `id`.
pub open spec fn isr_vector(id: u8) -> u16 {
    if id == 0 {
        0x40
    } else if id == 1 {
        0x48
    } else if id == 2 {
        0x50
    } else if id == 3 {
        0x58
    } else {
        0x60
    }
}

/// What an 8-bit arithmetic or logic operation leaves in A and the flags.
pub struct AluOut {
    pub a: u8,
    pub z: bool,
    pub n: bool,
    pub h: bool,
    pub c: bool,
}

/// ADD A, v
pub open spec fn alu_add(a: u8, v: u8) -> AluOut {
    let r = add8(a, v as int);
    AluOut { a: r, z: r == 0, n: false, h: a % 16 + v % 16 > 15, c: a + v > 255 }
}

/// ADC A, v: the carry in takes part in both the nibble and the byte sum.
pub open spec fn alu_adc(a: u8, v: u8, cin: bool) -> AluOut {
    let ci: int = if cin {
        1
    } else {
        0
    };
    let r = add8(a, v + ci);
    AluOut { a: r, z: r == 0, n: false, h: a % 16 + v % 16 + ci > 15, c: a + v + ci > 255 }
}

/// SUB A, v
pub open spec fn alu_sub(a: u8, v: u8) -> AluOut {
    let r = add8(a, -v);
    AluOut { a: r, z: r == 0, n: true, h: a % 16 < v % 16, c: a < v }
}

/// SBC A, v: the borrow in takes part in both the nibble and the byte
/// difference.
pub open spec fn alu_sbc(a: u8, v: u8, cin: bool) -> AluOut {
    let ci: int = if cin {
        1
    } else {
        0
    };
    let r = add8(a, -v - ci);
    AluOut { a: r, z: r == 0, n: true, h: a % 16 < v % 16 + ci, c: a < v + ci }
}

/// AND A, v
pub open spec fn alu_and(a: u8, v: u8) -> AluOut {
    AluOut { a: a & v, z: a & v == 0, n: false, h: true, c: false }
}

/// OR A, v
pub open spec fn alu_or(a: u8, v: u8) -> AluOut {
    AluOut { a: a | v, z: a | v == 0, n: false, h: false, c: false }
}

/// XOR A, v
pub open spec fn alu_xor(a: u8, v: u8) -> AluOut {
    AluOut { a: a ^ v, z: a ^ v == 0, n: false, h: false, c: false }
}

/// CP v: the flags of SUB, A unchanged.
pub open spec fn alu_cp(a: u8, v: u8) -> AluOut {
    AluOut { a, ..alu_sub(a, v) }
}

/// SWAP: exchange the nibbles.
pub open spec fn swap_nibbles(v: u8) -> u8 {
    (16 * (v % 16) + v / 16) as u8
}

/// CPL: complement every bit.
pub open spec fn complement(v: u8) -> u8 {
    (255 - v) as u8
}

/// Result and carry out of a CB-prefixed rotate or shift (`kind` 0 RLC,
/// 1 RRC, 2 RL, 3 RR, 4 SLA, 5 SRA, 6 SWAP, 7 SRL) of `v` with carry in `cin`.
pub open spec fn shift_op(kind: u8, v: u8, cin: bool) -> (u8, bool) {
    let ci: int = if cin {
        1
    } else {
        0
    };
    if kind == 0 {
        ((2 * (v % 128) + v / 128) as u8, v >= 128)
    } else if kind == 1 {
        ((v / 2 + 128 * (v % 2)) as u8, v % 2 == 1)
    } else if kind == 2 {
        ((2 * (v % 128) + ci) as u8, v >= 128)
    } else if kind == 3 {
        ((v / 2 + 128 * ci) as u8, v % 2 == 1)
    } else if kind == 4 {
        ((2 * (v % 128)) as u8, v >= 128)
    } else if kind == 5 {
        ((v / 2 + 128 * (v / 128)) as u8, v % 2 == 1)
    } else if kind == 6 {
        (swap_nibbles(v), false)
    } else {
        ((v / 2) as u8, v % 2 == 1)
    }
}

impl CpuState {
    /// Well formed: the memory space is.
    pub open spec fn wf(self) -> bool {
        self.mmu.wf()
    }

    /// The flag register F.
    pub open spec fn f(self) -> u8 {
        flags_byte(self.zf, self.nf, self.hf, self.cf)
    }

    pub open spec fn af(self) -> u16 {
        pair(self.a, self.f())
    }

    pub open spec fn bc(self) -> u16 {
        pair(self.b, self.c)
    }

    pub open spec fn de(self) -> u16 {
        pair(self.d, self.e)
    }

    pub open spec fn hl(self) -> u16 {
        pair(self.h, self.l)
    }

    pub open spec fn with_flags(self, z: bool, n: bool, h: bool, c: bool) -> CpuState {
        CpuState { zf: z, nf: n, hf: h, cf: c, ..self }
    }

    /// The state after `n` more T-cycles of the instruction in flight.
    pub open spec fn ticked(self, n: int) -> CpuState {
        CpuState { tick: (self.tick + n) as u8, ..self }
    }

    /// A memory read cycle at `addr`: the value read.
    pub open spec fn rd8(self, addr: u16) -> u8 {
        self.mmu.read_spec(addr)
    }

    /// A memory write cycle.
    pub open spec fn wr8(self, addr: u16, val: u8) -> CpuState {
        CpuState { mmu: self.mmu.write_spec(addr, val), ..self.ticked(4) }
    }

    /// Two read cycles, low byte first.
    pub open spec fn rd16(self, addr: u16) -> u16 {
        pair(self.rd8(add16(addr, 1)), self.rd8(addr))
    }

    /// Two write cycles, low byte first.
    pub open spec fn wr16(self, addr: u16, val: u16) -> CpuState {
        self.wr8(addr, lo_byte(val)).wr8(add16(addr, 1), hi_byte(val))
    }

    /// The byte at PC, and the state after fetching it.
    pub open spec fn read_d8(self) -> (u8, CpuState) {
        (self.rd8(self.pc), CpuState { pc: add16(self.pc, 1), ..self.ticked(4) })
    }

    /// The 16-bit immediate at PC, and the state after fetching it.
    pub open spec fn read_d16(self) -> (u16, CpuState) {
        (self.rd16(self.pc), CpuState { pc: add16(self.pc, 2), ..self.ticked(8) })
    }

    /// Operand `idx` of an 8-bit operation (B, C, D, E, H, L, (HL), A), and
    /// the state after reading it: (HL) costs a read cycle.
    pub open spec fn read_r8(self, idx: u8) -> (u8, CpuState) {
        if idx == 0 {
            (self.b, self)
        } else if idx == 1 {
            (self.c, self)
        } else if idx == 2 {
            (self.d, self)
        } else if idx == 3 {
            (self.e, self)
        } else if idx == 4 {
            (self.h, self)
        } else if idx == 5 {
            (self.l, self)
        } else if idx == 6 {
            (self.rd8(self.hl()), self.ticked(4))
        } else {
            (self.a, self)
        }
    }

    /// Operand `idx` of an 8-bit operation set to `val`: (HL) costs a write
    /// cycle.
    pub open spec fn write_r8(self, idx: u8, val: u8) -> CpuState {
        if idx == 0 {
            CpuState { b: val, ..self }
        } else if idx == 1 {
            CpuState { c: val, ..self }
        } else if idx == 2 {
            CpuState { d: val, ..self }
        } else if idx == 3 {
            CpuState { e: val, ..self }
        } else if idx == 4 {
            CpuState { h: val, ..self }
        } else if idx == 5 {
            CpuState { l: val, ..self }
        } else if idx == 6 {
            self.wr8(self.hl(), val)
        } else {
            CpuState { a: val, ..self }
        }
    }

    /// Register pair `idx` (BC, DE, HL, SP).
    pub open spec fn read_r16(self, idx: u8) -> u16 {
        if idx == 0 {
            self.bc()
        } else if idx == 1 {
            self.de()
        } else if idx == 2 {
            self.hl()
        } else {
            self.sp
        }
    }

    /// Register pair `idx` (BC, DE, HL, SP) set to `val`.
    pub open spec fn write_r16(self, idx: u8, val: u16) -> CpuState {
        if idx == 0 {
            CpuState { b: hi_byte(val), c: lo_byte(val), ..self }
        } else if idx == 1 {
            CpuState { d: hi_byte(val), e: lo_byte(val), ..self }
        } else if idx == 2 {
            CpuState { h: hi_byte(val), l: lo_byte(val), ..self }
        } else {
            CpuState { sp: val, ..self }
        }
    }

    /// AF set from a 16-bit value: F keeps the four flag bits.
    pub open spec fn set_af(self, val: u16) -> CpuState {
        let f = lo_byte(val);
        CpuState {
            a: hi_byte(val),
            zf: f & 0x80 != 0,
            nf: f & 0x40 != 0,
            hf: f & 0x20 != 0,
            cf: f & 0x10 != 0,
            ..self
        }
    }

    /// Branch condition `idx` (NZ, Z, NC, C).
    pub open spec fn cc(self, idx: u8) -> bool {
        if idx == 0 {
            !self.zf
        } else if idx == 1 {
            self.zf
        } else if idx == 2 {
            !self.cf
        } else {
            self.cf
        }
    }

    /// A and the flags set from an ALU result.
    pub open spec fn apply(self, r: AluOut) -> CpuState {
        CpuState { a: r.a, ..self.with_flags(r.z, r.n, r.h, r.c) }
    }

    /// ALU operation `op` (ADD, ADC, SUB, SBC, AND, XOR, OR, CP) on A and `v`.
    pub open spec fn alu(self, op: u8, v: u8) -> CpuState {
        self.apply(
            if op == 0 {
                alu_add(self.a, v)
            } else if op == 1 {
                alu_adc(self.a, v, self.cf)
            } else if op == 2 {
                alu_sub(self.a, v)
            } else if op == 3 {
                alu_sbc(self.a, v, self.cf)
            } else if op == 4 {
                alu_and(self.a, v)
            } else if op == 5 {
                alu_xor(self.a, v)
            } else if op == 6 {
                alu_or(self.a, v)
            } else {
                alu_cp(self.a, v)
            },
        )
    }

    /// ALU operation `op` on A and operand `reg`.
    #[verifier::opaque]
    pub open spec fn alu_r8(self, op: u8, reg: u8) -> CpuState {
        let (v, s) = self.read_r8(reg);
        s.alu(op, v)
    }

    /// ALU operation `op` on A and the immediate byte.
    #[verifier::opaque]
    pub open spec fn alu_d8(self, op: u8) -> CpuState {
        let (v, s) = self.read_d8();
        s.alu(op, v)
    }

    /// ADD HL, rr: H from bit 11, C from bit 15, Z kept.
    #[verifier::opaque]
    pub open spec fn add_hl_r16(self, reg: u8) -> CpuState {
        let hl = self.hl();
        let v = self.read_r16(reg);
        let s = self.write_r16(2, add16(hl, v as int)).ticked(4);
        s.with_flags(self.zf, false, hl % 4096 + v % 4096 > 4095, hl + v > 0xffff)
    }

    /// SP plus a signed offset, with Z and N cleared and H and C from the
    /// low nibble and the low byte.
    #[verifier::opaque]
    pub open spec fn add_sp(self, d: u8) -> (u16, CpuState) {
        (
            add16(self.sp, sext(d) as int),
            self.with_flags(false, false, self.sp % 16 + d % 16 > 15, self.sp % 256 + d > 255),
        )
    }

    /// Jump to an absolute address.
    #[verifier::opaque]
    pub open spec fn jp(self, addr: u16) -> CpuState {
        CpuState { pc: addr, ..self.ticked(4) }
    }

    /// Jump by a signed offset.
    #[verifier::opaque]
    pub open spec fn jr(self, d: u8) -> CpuState {
        CpuState { pc: add16(self.pc, sext(d) as int), ..self.ticked(4) }
    }

    /// Push PC and jump.
    #[verifier::opaque]
    pub open spec fn call(self, addr: u16) -> CpuState {
        let sp = add16(self.sp, -2);
        let s = CpuState { sp, ..self.ticked(4) }.wr16(sp, self.pc);
        CpuState { pc: addr, ..s }
    }

    /// Pop PC.
    #[verifier::opaque]
    pub open spec fn ret(self) -> CpuState {
        CpuState { pc: self.rd16(self.sp), sp: add16(self.sp, 2), ..self.ticked(12) }
    }

    /// Push a register pair.
    #[verifier::opaque]
    pub open spec fn push(self, val: u16) -> CpuState {
        let sp = add16(self.sp, -2);
        CpuState { sp, ..self.ticked(4) }.wr16(sp, val)
    }

    /// Pop a 16-bit value: the value and the state with SP moved on.
    #[verifier::opaque]
    pub open spec fn pop(self) -> (u16, CpuState) {
        (self.rd16(self.sp), CpuState { sp: add16(self.sp, 2), ..self.ticked(8) })
    }

    /// INC r: Z and H from the result, N cleared, C kept.
    #[verifier::opaque]
    pub open spec fn inc_r8(self, reg: u8) -> CpuState {
        let (v, s) = self.read_r8(reg);
        let r = add8(v, 1);
        s.write_r8(reg, r).with_flags(r == 0, false, v % 16 == 15, self.cf)
    }

    /// DEC r: Z and H from the result, N set, C kept.
    #[verifier::opaque]
    pub open spec fn dec_r8(self, reg: u8) -> CpuState {
        let (v, s) = self.read_r8(reg);
        let r = add8(v, -1);
        s.write_r8(reg, r).with_flags(r == 0, true, v % 16 == 0, self.cf)
    }

    /// A CB-prefixed rotate or shift of operand `reg`: Z from the result,
    /// N and H cleared, C from the bit shifted out.
    #[verifier::opaque]
    pub open spec fn shift_r8(self, kind: u8, reg: u8) -> CpuState {
        let (v, s) = self.read_r8(reg);
        let (r, c) = shift_op(kind, v, self.cf);
        s.write_r8(reg, r).with_flags(r == 0, false, false, c)
    }

    /// RLCA, RRCA, RLA, RRA: the rotate on A with Z cleared.
    #[verifier::opaque]
    pub open spec fn rot_a(self, kind: u8) -> CpuState {
        let (r, c) = shift_op(kind, self.a, self.cf);
        CpuState { a: r, ..self.with_flags(false, false, false, c) }
    }

    /// BIT pos, r: Z from the bit, N cleared, H set, C kept.
    #[verifier::opaque]
    pub open spec fn bit(self, pos: u8, reg: u8) -> CpuState {
        let (v, s) = self.read_r8(reg);
        s.with_flags((v >> pos) & 1 == 0, false, true, self.cf)
    }

    /// DAA: decimal adjustment of A after an addition or a subtraction.
    #[verifier::opaque]
    pub open spec fn daa(self) -> CpuState {
        let a = self.a;
        let (r, c) = if !self.nf {
            let (a1, c1) = if self.cf || a > 0x99 {
                (add8(a, 0x60), true)
            } else {
                (a, self.cf)
            };
            (
                if self.hf || a % 16 > 9 {
                    add8(a1, 0x06)
                } else {
                    a1
                },
                c1,
            )
        } else {
            let a1 = if self.cf {
                add8(a, -0x60)
            } else {
                a
            };
            (
                if self.hf {
                    add8(a1, -0x06)
                } else {
                    a1
                },
                self.cf,
            )
        };
        CpuState { a: r, ..self.with_flags(r == 0, self.nf, false, c) }
    }

    /// Interrupt service for interrupt bit `id`: its IF bit cleared,
    /// interrupts disabled, halt left, and a call to its vector.
    pub open spec fn isr(self, id: u8) -> CpuState {
        let mmu = MmuState { int_flag: self.mmu.int_flag & !(1u8 << id), ..self.mmu };
        CpuState { mmu, ime: false, halted: false, ..self.ticked(8) }.call(isr_vector(id))
    }

    /// Interrupt dispatch from bit `i` upwards: the first bit both requested
    /// and enabled is served; bit 0 has the highest priority.
    pub open spec fn dispatch_from(self, i: u8) -> CpuState
        decreases 5 - i,
    {
        if i >= 5 {
            self
        } else if self.mmu.int_flag & (1u8 << i) > 0 && self.mmu.int_enable & (1u8 << i) > 0 {
            self.isr(i)
        } else {
            self.dispatch_from((i + 1) as u8)
        }
    }
}

impl CpuState {
    /// A CB-prefixed instruction: the second byte selects a rotate or shift
    /// (0x00-0x3F), BIT (0x40-0x7F), RES (0x80-0xBF) or SET (0xC0-0xFF) on
    /// operand `op & 7`, with bit position `(op >> 3) & 7`.
    #[verifier::opaque]
    pub open spec fn prefix_spec(self) -> CpuState {
        let (op, s) = self.read_d8();
        let reg = op % 8;
        let pos = (op / 8) % 8;
        if op < 0x40 {
            s.shift_r8(op / 8, reg)
        } else if op < 0x80 {
            s.bit(pos as u8, reg)
        } else if op < 0xc0 {
            let (v, s1) = s.read_r8(reg);
            s1.write_r8(reg, v & !(1u8 << pos))
        } else {
            let (v, s1) = s.read_r8(reg);
            s1.write_r8(reg, v | (1u8 << pos))
        }
    }

    /// One instruction fetched at PC and executed, with the T-cycles it
    /// took added to `tick`. An undefined opcode stops the machine with a
    /// fault naming the opcode and its address.
    #[verifier::opaque]
    pub open spec fn exec_spec(self) -> CpuState {
        let (opcode, s) = self.read_d8();
        s.execute(opcode, self.pc)
    }

    /// Opcode `opcode`, fetched at `pc`, executed on a state whose PC has
    /// moved past it.
    pub open spec fn execute(self, opcode: u8, pc: u16) -> CpuState {
        if opcode < 0x20 {
            self.execute_00(opcode, pc)
        } else if opcode < 0x40 {
            self.execute_20(opcode, pc)
        } else if opcode < 0xc0 {
            self.execute_40(opcode)
        } else if opcode < 0xe0 {
            self.execute_c0(opcode, pc)
        } else {
            self.execute_e0(opcode, pc)
        }
    }

    /// Opcodes 0x00-0x1F.
    #[verifier::opaque]
    pub open spec fn execute_00(self, opcode: u8, pc: u16) -> CpuState {
        let s = self;
        let reg = opcode % 8;
        let reg2 = (opcode / 8) % 8;
        match opcode {
            0x00 => s,
            0x01 | 0x11 => {
                let (v, s1) = s.read_d16();
                s1.write_r16(opcode / 16, v)
            },
            0x08 => {
                let (addr, s1) = s.read_d16();
                s1.wr16(addr, s1.sp)
            },
            0x02 => s.wr8(s.bc(), s.a),
            0x12 => s.wr8(s.de(), s.a),
            0x0a => CpuState { a: s.rd8(s.bc()), ..s.ticked(4) },
            0x1a => CpuState { a: s.rd8(s.de()), ..s.ticked(4) },
            0x18 => {
                let (d, s1) = s.read_d8();
                s1.jr(d)
            },
            0x07 => s.rot_a(0),
            0x17 => s.rot_a(2),
            0x0f => s.rot_a(1),
            0x1f => s.rot_a(3),
            0x09 | 0x19 => s.add_hl_r16(opcode / 16),
            0x06 | 0x0e | 0x16 | 0x1e => {
                let (d, s1) = s.read_d8();
                s1.write_r8(reg2, d)
            },
            0x04 | 0x0c | 0x14 | 0x1c => s.inc_r8(reg2),
            0x05 | 0x0d | 0x15 | 0x1d => s.dec_r8(reg2),
            0x03 | 0x13 => s.write_r16(
                opcode / 16,
                add16(s.read_r16(opcode / 16), 1),
            ).ticked(4),
            0x0b | 0x1b => s.write_r16(
                opcode / 16,
                add16(s.read_r16(opcode / 16), -1),
            ).ticked(4),
            _ => CpuState { mmu: s.mmu.with_fault(Fault::UndefinedOpcode { opcode, pc }), ..s },
        }
    }

    /// Opcodes 0x20-0x3F.
    #[verifier::opaque]
    pub open spec fn execute_20(self, opcode: u8, pc: u16) -> CpuState {
        let s = self;
        let reg = opcode % 8;
        let reg2 = (opcode / 8) % 8;
        match opcode {
            0x21 | 0x31 => {
                let (v, s1) = s.read_d16();
                s1.write_r16(opcode / 16, v)
            },
            0x20 | 0x30 | 0x28 | 0x38 => {
                let (d, s1) = s.read_d8();
                if s1.cc((reg2 - 4) as u8) {
                    s1.jr(d)
                } else {
                    s1
                }
            },
            0x29 | 0x39 => s.add_hl_r16(opcode / 16),
            0x27 => s.daa(),
            0x2f => CpuState { a: complement(s.a), nf: true, hf: true, ..s },
            0x37 => s.with_flags(s.zf, false, false, true),
            0x3f => s.with_flags(s.zf, false, false, !s.cf),
            0x22 => s.wr8(s.hl(), s.a).write_r16(2, add16(s.hl(), 1)),
            0x32 => s.wr8(s.hl(), s.a).write_r16(2, add16(s.hl(), -1)),
            0x2a => CpuState { a: s.rd8(s.hl()), ..s.ticked(4) }.write_r16(2, add16(s.hl(), 1)),
            0x3a => CpuState { a: s.rd8(s.hl()), ..s.ticked(4) }.write_r16(2, add16(s.hl(), -1)),
            0x26 | 0x2e | 0x36 | 0x3e => {
                let (d, s1) = s.read_d8();
                s1.write_r8(reg2, d)
            },
            0x24 | 0x2c | 0x34 | 0x3c => s.inc_r8(reg2),
            0x25 | 0x2d | 0x35 | 0x3d => s.dec_r8(reg2),
            0x23 | 0x33 => s.write_r16(
                opcode / 16,
                add16(s.read_r16(opcode / 16), 1),
            ).ticked(4),
            0x2b | 0x3b => s.write_r16(
                opcode / 16,
                add16(s.read_r16(opcode / 16), -1),
            ).ticked(4),
            _ => CpuState { mmu: s.mmu.with_fault(Fault::UndefinedOpcode { opcode, pc }), ..s },
        }
    }

    /// Opcodes 0xC0-0xDF.
    #[verifier::opaque]
    pub open spec fn execute_c0(self, opcode: u8, pc: u16) -> CpuState {
        let s = self;
        let reg = opcode % 8;
        let reg2 = (opcode / 8) % 8;
        match opcode {
            0xc5 => s.push(s.bc()),
            0xd5 => s.push(s.de()),
            0xc1 => {
                let (v, s1) = s.pop();
                s1.write_r16(0, v)
            },
            0xd1 => {
                let (v, s1) = s.pop();
                s1.write_r16(1, v)
            },
            0xc2 | 0xd2 | 0xca | 0xda => {
                let (addr, s1) = s.read_d16();
                if s1.cc(reg2) {
                    s1.jp(addr)
                } else {
                    s1
                }
            },
            0xc3 => {
                let (addr, s1) = s.read_d16();
                s1.jp(addr)
            },
            0xc6 | 0xce | 0xd6 | 0xde => s.alu_d8(reg2),
            0xcd => {
                let (addr, s1) = s.read_d16();
                s1.call(addr)
            },
            0xc4 | 0xd4 | 0xcc | 0xdc => {
                let (addr, s1) = s.read_d16();
                if s1.cc(reg2) {
                    s1.call(addr)
                } else {
                    s1
                }
            },
            0xc9 => s.ret(),
            0xc0 | 0xd0 | 0xc8 | 0xd8 => {
                let s1 = s.ticked(4);
                if s1.cc(reg2) {
                    s1.ret()
                } else {
                    s1
                }
            },
            0xd9 => CpuState { ime: true, ..s }.ret(),
            0xc7 | 0xcf | 0xd7 | 0xdf => s.call((opcode - 0xc7) as u16),
            0xcb => s.prefix_spec(),
            _ => CpuState { mmu: s.mmu.with_fault(Fault::UndefinedOpcode { opcode, pc }), ..s },
        }
    }

    /// Opcodes 0xE0-0xFF.
    #[verifier::opaque]
    pub open spec fn execute_e0(self, opcode: u8, pc: u16) -> CpuState {
        let s = self;
        let reg = opcode % 8;
        let reg2 = (opcode / 8) % 8;
        match opcode {
            0xf9 => CpuState { sp: s.hl(), ..s.ticked(4) },
            0xe5 => s.push(s.hl()),
            0xf5 => s.push(s.af()),
            0xe1 => {
                let (v, s1) = s.pop();
                s1.write_r16(2, v)
            },
            0xf1 => {
                let (v, s1) = s.pop();
                s1.set_af(v)
            },
            0xe9 => CpuState { pc: s.hl(), ..s },
            0xe8 => {
                let (d, s1) = s.read_d8();
                let (sp, s2) = s1.add_sp(d);
                CpuState { sp, ..s2.ticked(8) }
            },
            0xf8 => {
                let (d, s1) = s.read_d8();
                let (v, s2) = s1.ticked(4).add_sp(d);
                s2.write_r16(2, v)
            },
            0xe6 | 0xee | 0xf6 | 0xfe => s.alu_d8(reg2),
            0xe0 => {
                let (d, s1) = s.read_d8();
                s1.wr8((0xff00 + d) as u16, s1.a)
            },
            0xf0 => {
                let (d, s1) = s.read_d8();
                CpuState { a: s1.rd8((0xff00 + d) as u16), ..s1.ticked(4) }
            },
            0xe2 => s.wr8((0xff00 + s.c) as u16, s.a),
            0xf2 => CpuState { a: s.rd8((0xff00 + s.c) as u16), ..s.ticked(4) },
            0xea => {
                let (addr, s1) = s.read_d16();
                s1.wr8(addr, s1.a)
            },
            0xfa => {
                let (addr, s1) = s.read_d16();
                CpuState { a: s1.rd8(addr), ..s1.ticked(4) }
            },
            0xe7 | 0xef | 0xf7 | 0xff => s.call((opcode - 0xc7) as u16),
            0xf3 => CpuState { ime: false, ..s },
            0xfb => CpuState { ime: true, ..s },
            _ => CpuState { mmu: s.mmu.with_fault(Fault::UndefinedOpcode { opcode, pc }), ..s },
        }
    }

    /// Opcodes 0x40-0xBF: register loads, HALT (0x76) and 8-bit arithmetic.
    #[verifier::opaque]
    pub open spec fn execute_40(self, opcode: u8) -> CpuState {
        let s = self;
        let reg = opcode % 8;
        let reg2 = (opcode / 8) % 8;
        if 0x80 <= opcode {
            s.alu_r8(reg2, reg)
        } else if opcode != 0x76 {
            let (v, s1) = s.read_r8(reg);
            s1.write_r8(reg2, v)
        } else if s.ime {
            CpuState { halted: true, ..s }
        } else {
            s
        }
    }


    /// One call of `step`: the state it leaves and the T-cycles it returns.
    /// A halted CPU spends 4 cycles, otherwise one instruction runs; an
    /// instruction that stops the machine ends the step there. Then the
    /// peripherals then advance by those cycles, and with interrupts enabled
    /// one interrupt may be dispatched, its cycles handed to the peripherals
    /// too. A machine stopped by a fault does nothing.
    #[verifier::opaque]
    pub open spec fn step_spec(self) -> (CpuState, u8) {
        if self.mmu.fault is Some {
            (self, 0)
        } else {
            let s0 = CpuState { tick: 0, ..self };
            let s1 = if s0.halted {
                s0.ticked(4)
            } else {
                s0.exec_spec()
            };
            let s2 = CpuState { mmu: s1.mmu.update_spec(s1.tick), ..s1 };
            if s1.mmu.fault is Some {
                (s1, s1.tick)
            } else if s2.ime {
                let s3 = CpuState { tick: 0, ..s2 }.dispatch_from(0);
                let s4 = CpuState { mmu: s3.mmu.update_spec(s3.tick), ..s3 };
                (s4, (s1.tick + s3.tick) as u8)
            } else {
                (s2, s1.tick)
            }
        }
    }

    /// `run_frame` from a state after `elapsed` T-cycles of the frame: steps
    /// until at least 70224 T-cycles have passed or a fault stops the
    /// machine; the final state and the T-cycles spent in all.
    pub open spec fn run_spec(self, elapsed: int) -> (CpuState, int)
        decreases 70224 + 256 - elapsed,
    {
        if elapsed >= 70224 || self.mmu.fault is Some {
            (self, elapsed)
        } else {
            let r = self.step_spec();
            if r.1 == 0 {
                (r.0, elapsed)
            } else {
                r.0.run_spec(elapsed + r.1)
            }
        }
    }
}

impl CPU {
    pub open spec fn wf(&self) -> bool {
        self@.wf()
    }

    /// Creates a new `CPU` around a cartridge: PC at 0x0100 (the boot ROM is
    /// skipped), every other register zero, interrupts disabled.
    pub fn new(catridge: Catridge) -> (r: Self)
        requires
            catridge.wf(),
        ensures
            r.wf(),
            r.mmu@.is_power_on(catridge@),
            r.pc == 0x100 && r.sp == 0 && r.tick == 0,
            r.a == 0 && r.b == 0 && r.c == 0 && r.d == 0 && r.e == 0 && r.h == 0 && r.l == 0,
            !r.zf && !r.nf && !r.hf && !r.cf && !r.ime && !r.halted,
    {
        CPU {
            mmu: MMU::new(catridge),
            pc: 0x100,
            sp: 0,
            a: 0,
            b: 0,
            c: 0,
            d: 0,
            e: 0,
            h: 0,
            l: 0,
            zf: false,
            nf: false,
            hf: false,
            cf: false,
            ime: false,
            tick: 0,
            halted: false,
        }
    }

    /// Reads the flag register F: Z, N, H, C in bits 7..4, low nibble zero.
    pub fn f(&self) -> (r: u8)
        ensures
            r == self@.f(),
            r & 0x0f == 0,
    {
        proof {
            lemma_flags_byte(self.zf, self.nf, self.hf, self.cf);
        }
        (if self.zf {
            0x80u8
        } else {
            0u8
        }) | (if self.nf {
            0x40u8
        } else {
            0u8
        }) | (if self.hf {
            0x20u8
        } else {
            0u8
        }) | (if self.cf {
            0x10u8
        } else {
            0u8
        })
    }

    /// Reads AF register
    pub fn af(&self) -> (r: u16)
        ensures
            r == self@.af(),
    {
        (self.a as u16) * 256 + self.f() as u16
    }

    /// Writes AF register: F keeps the four flag bits of the low byte.
    fn set_af(&mut self, val: u16)
        ensures
            final(self)@ == old(self)@.set_af(val),
    {
        self.a = (val / 256) as u8;
        let f = (val % 256) as u8;
        self.zf = f & 0x80 != 0;
        self.nf = f & 0x40 != 0;
        self.hf = f & 0x20 != 0;
        self.cf = f & 0x10 != 0;
    }

    /// Reads BC register
    pub fn bc(&self) -> (r: u16)
        ensures
            r == self@.bc(),
    {
        (self.b as u16) * 256 + self.c as u16
    }

    /// Writes BC register
    fn set_bc(&mut self, val: u16)
        ensures
            final(self)@ == old(self)@.write_r16(0, val),
    {
        self.b = (val / 256) as u8;
        self.c = (val % 256) as u8;
    }

    /// Reads DE register
    pub fn de(&self) -> (r: u16)
        ensures
            r == self@.de(),
    {
        (self.d as u16) * 256 + self.e as u16
    }

    /// Writes DE register
    fn set_de(&mut self, val: u16)
        ensures
            final(self)@ == old(self)@.write_r16(1, val),
    {
        self.d = (val / 256) as u8;
        self.e = (val % 256) as u8;
    }

    /// Reads HL register
    pub fn hl(&self) -> (r: u16)
        ensures
            r == self@.hl(),
    {
        (self.h as u16) * 256 + self.l as u16
    }

    /// Writes HL register
    fn set_hl(&mut self, val: u16)
        ensures
            final(self)@ == old(self)@.write_r16(2, val),
    {
        self.h = (val / 256) as u8;
        self.l = (val % 256) as u8;
    }

    /// Sets all four flags.
    fn set_flags(&mut self, z: bool, n: bool, h: bool, c: bool)
        ensures
            final(self)@ == old(self)@.with_flags(z, n, h, c),
    {
        self.zf = z;
        self.nf = n;
        self.hf = h;
        self.cf = c;
    }

    /// Writes 8-bit operand
    fn write_r8(&mut self, idx: u8, val: u8)
        requires
            old(self).wf(),
            old(self).tick <= 240,
        ensures
            final(self)@ == old(self)@.write_r8(idx, val),
            final(self).wf(),
    {
        match idx {
            0 => self.b = val,
            1 => self.c = val,
            2 => self.d = val,
            3 => self.e = val,
            4 => self.h = val,
            5 => self.l = val,
            6 => {
                let hl = self.hl();
                self.write_mem8(hl, val);
            },
            _ => self.a = val,
        }
    }

    /// Reads 8-bit operand
    fn read_r8(&mut self, idx: u8) -> (r: u8)
        requires
            old(self).wf(),
            old(self).tick <= 240,
        ensures
            (r, final(self)@) == old(self)@.read_r8(idx),
            final(self).wf(),
    {
        match idx {
            0 => self.b,
            1 => self.c,
            2 => self.d,
            3 => self.e,
            4 => self.h,
            5 => self.l,
            6 => {
                let hl = self.hl();
                self.read_mem8(hl)
            },
            _ => self.a,
        }
    }

    /// Writes 16-bit operand
    fn write_r16(&mut self, idx: u8, val: u16)
        ensures
            final(self)@ == old(self)@.write_r16(idx, val),
    {
        match idx {
            0 => self.set_bc(val),
            1 => self.set_de(val),
            2 => self.set_hl(val),
            _ => self.sp = val,
        }
    }

    /// Reads 16-bit operand
    fn read_r16(&self, idx: u8) -> (r: u16)
        ensures
            r == self@.read_r16(idx),
    {
        match idx {
            0 => self.bc(),
            1 => self.de(),
            2 => self.hl(),
            _ => self.sp,
        }
    }

    /// Reads 8-bit immediate from memory
    fn read_d8(&mut self) -> (r: u8)
        requires
            old(self).wf(),
            old(self).tick <= 240,
        ensures
            (r, final(self)@) == old(self)@.read_d8(),
            final(self).wf(),
    {
        let pc = self.pc;
        let imm = self.read_mem8(pc);
        self.pc = self.pc.wrapping_add(1);

        imm
    }

    /// Reads 16-bit immediate from memory
    fn read_d16(&mut self) -> (r: u16)
        requires
            old(self).wf(),
            old(self).tick <= 232,
        ensures
            (r, final(self)@) == old(self)@.read_d16(),
            final(self).wf(),
    {
        let pc = self.pc;
        let imm = self.read_mem16(pc);
        self.pc = self.pc.wrapping_add(2);

        imm
    }

    /// Checks branch condition
    fn cc(&self, idx: u8) -> (r: bool)
        ensures
            r == self@.cc(idx),
    {
        match idx {
            0 => !self.zf,
            1 => self.zf,
            2 => !self.cf,
            _ => self.cf,
        }
    }

    /// Writes 8-bit value to memory
    fn write_mem8(&mut self, addr: u16, val: u8)
        requires
            old(self).wf(),
            old(self).tick <= 240,
        ensures
            final(self)@ == old(self)@.wr8(addr, val),
            final(self).wf(),
    {
        self.mmu.write(addr, val);

        self.tick += 4;
    }

    /// Reads 8-bit value from memory
    fn read_mem8(&mut self, addr: u16) -> (r: u8)
        requires
            old(self).wf(),
            old(self).tick <= 240,
        ensures
            r == old(self)@.rd8(addr),
            final(self)@ == old(self)@.ticked(4),
            final(self).wf(),
    {
        let ret = self.mmu.read(addr);

        self.tick += 4;

        ret
    }

    /// Writes 16-bit value to memory
    fn write_mem16(&mut self, addr: u16, val: u16)
        requires
            old(self).wf(),
            old(self).tick <= 232,
        ensures
            final(self)@ == old(self)@.wr16(addr, val),
            final(self).wf(),
    {
        self.write_mem8(addr, (val % 256) as u8);
        self.write_mem8(addr.wrapping_add(1), (val / 256) as u8);
    }

    /// Reads 16-bit value from memory
    fn read_mem16(&mut self, addr: u16) -> (r: u16)
        requires
            old(self).wf(),
            old(self).tick <= 232,
        ensures
            r == old(self)@.rd16(addr),
            final(self)@ == old(self)@.ticked(8),
            final(self).wf(),
    {
        let lo = self.read_mem8(addr);
        let hi = self.read_mem8(addr.wrapping_add(1));

        (hi as u16) * 256 + lo as u16
    }
}

impl CPU {
    /// NOP
    fn nop(&mut self)
        requires
            old(self).wf(),
            old(self).tick <= 200,
        ensures
            final(self)@ == old(self)@,
            final(self).wf(),
            final(self).tick <= old(self).tick + 0,
            old(self).tick <= final(self).tick,
    {

    }

    /// LD r16, d16
    fn ld_r16_d16(&mut self, reg: u8)
        requires
            old(self).wf(),
            old(self).tick <= 200,
        ensures
            final(self)@ == ({ let (v, s1) = old(self)@.read_d16(); s1.write_r16(reg, v) }),
            final(self).wf(),
            final(self).tick <= old(self).tick + 20,
            old(self).tick <= final(self).tick,
    {
        let val = self.read_d16();
        self.write_r16(reg, val);
    }

    /// LD (d16), SP
    fn ld_ind_d16_sp(&mut self)
        requires
            old(self).wf(),
            old(self).tick <= 200,
        ensures
            final(self)@ == ({ let (addr, s1) = old(self)@.read_d16(); s1.wr16(addr, s1.sp) }),
            final(self).wf(),
            final(self).tick <= old(self).tick + 20,
            old(self).tick <= final(self).tick,
    {
        let addr = self.read_d16();
        let sp = self.sp;
        self.write_mem16(addr, sp);
    }

    /// LD SP, HL
    fn ld_sp_hl(&mut self)
        requires
            old(self).wf(),
            old(self).tick <= 200,
        ensures
            final(self)@ == (CpuState { sp: old(self)@.hl(), ..old(self)@.ticked(4) }),
            final(self).wf(),
            final(self).tick <= old(self).tick + 20,
            old(self).tick <= final(self).tick,
    {
        self.tick += 4;
        self.sp = self.hl();
    }

    /// ADD HL, r16
    #[verifier::rlimit(50)]
    fn add_hl_r16(&mut self, reg: u8)
        requires
            old(self).wf(),
            old(self).tick <= 200,
        ensures
            final(self)@ == old(self)@.add_hl_r16(reg),
            final(self).wf(),
            final(self).tick <= old(self).tick + 20,
            old(self).tick <= final(self).tick,
    {
        reveal(CpuState::add_hl_r16);
        let hl = self.hl();
        let val = self.read_r16(reg);

        let half_carry = hl % 4096 + val % 4096 > 4095;
        let carry = hl as u32 + val as u32 > 0xffff;
        self.set_hl(hl.wrapping_add(val));

        self.tick += 4;

        let z = self.zf;
        self.set_flags(z, false, half_carry, carry);
    }

    /// SP plus a signed offset, setting the flags of ADD SP, e8.
    fn _add_sp(&mut self, offset: u8) -> (r: u16)
        ensures
            (r, final(self)@) == old(self)@.add_sp(offset),
            final(self).tick == old(self).tick,
            final(self).mmu@ == old(self).mmu@,
    {
        reveal(CpuState::add_sp);
        let val: u16 = if offset < 128 {
            offset as u16
        } else {
            offset as u16 + 0xff00
        };

        let half_carry = self.sp % 16 + (offset as u16) % 16 > 15;
        let carry = self.sp % 256 + offset as u16 > 255;

        self.set_flags(false, false, half_carry, carry);

        self.sp.wrapping_add(val)
    }

    /// ADD SP, d8
    fn add_sp_d8(&mut self)
        requires
            old(self).wf(),
            old(self).tick <= 200,
        ensures
            final(self)@ == ({ let (d, s1) = old(self)@.read_d8(); let (sp, s2) = s1.add_sp(d); CpuState { sp, ..s2.ticked(8) } }),
            final(self).wf(),
            final(self).tick <= old(self).tick + 20,
            old(self).tick <= final(self).tick,
    {
        let val = self.read_d8();
        self.sp = self._add_sp(val);
        self.tick += 8;
    }

    /// LD HL, SP+d8
    fn ld_hl_sp_d8(&mut self)
        requires
            old(self).wf(),
            old(self).tick <= 200,
        ensures
            final(self)@ == ({ let (d, s1) = old(self)@.read_d8(); let (v, s2) = s1.ticked(4).add_sp(d); s2.write_r16(2, v) }),
            final(self).wf(),
            final(self).tick <= old(self).tick + 20,
            old(self).tick <= final(self).tick,
    {
        let offset = self.read_d8();
        self.tick += 4;
        let res = self._add_sp(offset);
        self.set_hl(res);
    }

    /// AND r8
    fn and_r8(&mut self, reg: u8)
        requires
            old(self).wf(),
            old(self).tick <= 200,
        ensures
            final(self)@ == old(self)@.alu_r8(4, reg),
            final(self).wf(),
            final(self).tick <= old(self).tick + 20,
            old(self).tick <= final(self).tick,
    {
        reveal(CpuState::alu_r8);
        let val = self.read_r8(reg);
        self.alu(4, val);
    }

    /// AND d8
    fn and_d8(&mut self)
        requires
            old(self).wf(),
            old(self).tick <= 200,
        ensures
            final(self)@ == old(self)@.alu_d8(4),
            final(self).wf(),
            final(self).tick <= old(self).tick + 20,
            old(self).tick <= final(self).tick,
    {
        reveal(CpuState::alu_d8);
        let val = self.read_d8();
        self.alu(4, val);
    }

    /// OR r8
    fn or_r8(&mut self, reg: u8)
        requires
            old(self).wf(),
            old(self).tick <= 200,
        ensures
            final(self)@ == old(self)@.alu_r8(6, reg),
            final(self).wf(),
            final(self).tick <= old(self).tick + 20,
            old(self).tick <= final(self).tick,
    {
        reveal(CpuState::alu_r8);
        let val = self.read_r8(reg);
        self.alu(6, val);
    }

    /// OR d8
    fn or_d8(&mut self)
        requires
            old(self).wf(),
            old(self).tick <= 200,
        ensures
            final(self)@ == old(self)@.alu_d8(6),
            final(self).wf(),
            final(self).tick <= old(self).tick + 20,
            old(self).tick <= final(self).tick,
    {
        reveal(CpuState::alu_d8);
        let val = self.read_d8();
        self.alu(6, val);
    }

    /// XOR r8
    fn xor_r8(&mut self, reg: u8)
        requires
            old(self).wf(),
            old(self).tick <= 200,
        ensures
            final(self)@ == old(self)@.alu_r8(5, reg),
            final(self).wf(),
            final(self).tick <= old(self).tick + 20,
            old(self).tick <= final(self).tick,
    {
        reveal(CpuState::alu_r8);
        let val = self.read_r8(reg);
        self.alu(5, val);
    }

    /// XOR d8
    fn xor_d8(&mut self)
        requires
            old(self).wf(),
            old(self).tick <= 200,
        ensures
            final(self)@ == old(self)@.alu_d8(5),
            final(self).wf(),
            final(self).tick <= old(self).tick + 20,
            old(self).tick <= final(self).tick,
    {
        reveal(CpuState::alu_d8);
        let val = self.read_d8();
        self.alu(5, val);
    }

    /// CP r8
    fn cp_r8(&mut self, reg: u8)
        requires
            old(self).wf(),
            old(self).tick <= 200,
        ensures
            final(self)@ == old(self)@.alu_r8(7, reg),
            final(self).wf(),
            final(self).tick <= old(self).tick + 20,
            old(self).tick <= final(self).tick,
    {
        reveal(CpuState::alu_r8);
        let val = self.read_r8(reg);
        self.alu(7, val);
    }

    /// CP d8
    fn cp_d8(&mut self)
        requires
            old(self).wf(),
            old(self).tick <= 200,
        ensures
            final(self)@ == old(self)@.alu_d8(7),
            final(self).wf(),
            final(self).tick <= old(self).tick + 20,
            old(self).tick <= final(self).tick,
    {
        reveal(CpuState::alu_d8);
        let val = self.read_d8();
        self.alu(7, val);
    }

    /// ADD r8
    fn add_r8(&mut self, reg: u8)
        requires
            old(self).wf(),
            old(self).tick <= 200,
        ensures
            final(self)@ == old(self)@.alu_r8(0, reg),
            final(self).wf(),
            final(self).tick <= old(self).tick + 20,
            old(self).tick <= final(self).tick,
    {
        reveal(CpuState::alu_r8);
        let val = self.read_r8(reg);
        self.alu(0, val);
    }

    /// ADD d8
    fn add_d8(&mut self)
        requires
            old(self).wf(),
            old(self).tick <= 200,
        ensures
            final(self)@ == old(self)@.alu_d8(0),
            final(self).wf(),
            final(self).tick <= old(self).tick + 20,
            old(self).tick <= final(self).tick,
    {
        reveal(CpuState::alu_d8);
        let val = self.read_d8();
        self.alu(0, val);
    }

    /// ADC r8
    fn adc_r8(&mut self, reg: u8)
        requires
            old(self).wf(),
            old(self).tick <= 200,
        ensures
            final(self)@ == old(self)@.alu_r8(1, reg),
            final(self).wf(),
            final(self).tick <= old(self).tick + 20,
            old(self).tick <= final(self).tick,
    {
        reveal(CpuState::alu_r8);
        let val = self.read_r8(reg);
        self.alu(1, val);
    }

    /// ADC d8
    fn adc_d8(&mut self)
        requires
            old(self).wf(),
            old(self).tick <= 200,
        ensures
            final(self)@ == old(self)@.alu_d8(1),
            final(self).wf(),
            final(self).tick <= old(self).tick + 20,
            old(self).tick <= final(self).tick,
    {
        reveal(CpuState::alu_d8);
        let val = self.read_d8();
        self.alu(1, val);
    }

    /// SUB r8
    fn sub_r8(&mut self, reg: u8)
        requires
            old(self).wf(),
            old(self).tick <= 200,
        ensures
            final(self)@ == old(self)@.alu_r8(2, reg),
            final(self).wf(),
            final(self).tick <= old(self).tick + 20,
            old(self).tick <= final(self).tick,
    {
        reveal(CpuState::alu_r8);
        let val = self.read_r8(reg);
        self.alu(2, val);
    }

    /// SUB d8
    fn sub_d8(&mut self)
        requires
            old(self).wf(),
            old(self).tick <= 200,
        ensures
            final(self)@ == old(self)@.alu_d8(2),
            final(self).wf(),
            final(self).tick <= old(self).tick + 20,
            old(self).tick <= final(self).tick,
    {
        reveal(CpuState::alu_d8);
        let val = self.read_d8();
        self.alu(2, val);
    }

    /// SBC r8
    fn sbc_r8(&mut self, reg: u8)
        requires
            old(self).wf(),
            old(self).tick <= 200,
        ensures
            final(self)@ == old(self)@.alu_r8(3, reg),
            final(self).wf(),
            final(self).tick <= old(self).tick + 20,
            old(self).tick <= final(self).tick,
    {
        reveal(CpuState::alu_r8);
        let val = self.read_r8(reg);
        self.alu(3, val);
    }

    /// SBC d8
    fn sbc_d8(&mut self)
        requires
            old(self).wf(),
            old(self).tick <= 200,
        ensures
            final(self)@ == old(self)@.alu_d8(3),
            final(self).wf(),
            final(self).tick <= old(self).tick + 20,
            old(self).tick <= final(self).tick,
    {
        reveal(CpuState::alu_d8);
        let val = self.read_d8();
        self.alu(3, val);
    }

    /// Applies ALU operation `op` (ADD, ADC, SUB, SBC, AND, XOR, OR, CP) to A
    /// and a value.
    fn alu(&mut self, op: u8, val: u8)
        ensures
            final(self)@ == old(self)@.alu(op, val),
    {
        match op {
            0 => self._add(val),
            1 => self._adc(val),
            2 => self._sub(val),
            3 => self._sbc(val),
            4 => {
                let res = self.a & val;
                self.a = res;
                self.set_flags(res == 0, false, true, false);
            },
            5 => {
                let res = self.a ^ val;
                self.a = res;
                self.set_flags(res == 0, false, false, false);
            },
            6 => {
                let res = self.a | val;
                self.a = res;
                self.set_flags(res == 0, false, false, false);
            },
            _ => {
                let a = self.a;
                self.set_flags(a == val, true, a % 16 < val % 16, a < val);
            },
        }
    }

    fn _add(&mut self, val: u8)
        ensures
            final(self)@ == old(self)@.apply(alu_add(old(self).a, val)),
    {
        let half_carry = self.a % 16 + val % 16 > 15;
        let carry = self.a as u16 + val as u16 > 255;
        let res = self.a.wrapping_add(val);

        self.a = res;

        self.set_flags(res == 0, false, half_carry, carry);
    }

    fn _sub(&mut self, val: u8)
        ensures
            final(self)@ == old(self)@.apply(alu_sub(old(self).a, val)),
    {
        let half_carry = self.a % 16 < val % 16;
        let carry = self.a < val;
        let res = self.a.wrapping_sub(val);

        self.a = res;

        self.set_flags(res == 0, true, half_carry, carry);
    }

    fn _adc(&mut self, val: u8)
        ensures
            final(self)@ == old(self)@.apply(alu_adc(old(self).a, val, old(self).cf)),
    {
        let c: u8 = if self.cf {
            1
        } else {
            0
        };

        let res = self.a.wrapping_add(val).wrapping_add(c);
        let half_carry = self.a % 16 + val % 16 + c > 15;
        let carry = (self.a as u16) + (val as u16) + (c as u16) > 0xff;

        self.a = res;

        self.set_flags(res == 0, false, half_carry, carry);
    }

    fn _sbc(&mut self, val: u8)
        ensures
            final(self)@ == old(self)@.apply(alu_sbc(old(self).a, val, old(self).cf)),
    {
        let c: u8 = if self.cf {
            1
        } else {
            0
        };

        let res = self.a.wrapping_sub(val).wrapping_sub(c);
        let half_carry = (self.a % 16) < (val % 16) + c;
        let carry = (self.a as u16) < (val as u16) + (c as u16);

        self.a = res;

        self.set_flags(res == 0, true, half_carry, carry);
    }

    /// Decimal adjust register A
    #[verifier::rlimit(100)]
    fn daa(&mut self)
        requires
            old(self).wf(),
            old(self).tick <= 200,
        ensures
            final(self)@ == old(self)@.daa(),
            final(self).wf(),
            final(self).tick <= old(self).tick + 0,
            old(self).tick <= final(self).tick,
    {
        reveal(CpuState::daa);
        let a = self.a;

        let (res, c) = if !self.nf {
            let (a1, c1) = if self.cf || a > 0x99 {
                (a.wrapping_add(0x60), true)
            } else {
                (a, self.cf)
            };
            (
                if self.hf || a % 16 > 0x09 {
                    a1.wrapping_add(0x06)
                } else {
                    a1
                },
                c1,
            )
        } else {
            let a1 = if self.cf {
                a.wrapping_sub(0x60)
            } else {
                a
            };
            (
                if self.hf {
                    a1.wrapping_sub(0x06)
                } else {
                    a1
                },
                self.cf,
            )
        };

        self.a = res;

        let n = self.nf;
        self.set_flags(res == 0, n, false, c);
    }

    /// Complement A
    fn cpl(&mut self)
        requires
            old(self).wf(),
            old(self).tick <= 200,
        ensures
            final(self)@ == (CpuState { a: complement(old(self).a), nf: true, hf: true, ..old(self)@ }),
            final(self).wf(),
            final(self).tick <= old(self).tick + 0,
            old(self).tick <= final(self).tick,
    {
        self.a = 0xff - self.a;
        self.nf = true;
        self.hf = true;
    }

    /// Complement carry flag
    fn ccf(&mut self)
        requires
            old(self).wf(),
            old(self).tick <= 200,
        ensures
            final(self)@ == old(self)@.with_flags(old(self).zf, false, false, !old(self).cf),
            final(self).wf(),
            final(self).tick <= old(self).tick + 0,
            old(self).tick <= final(self).tick,
    {
        let z = self.zf;
        let c = self.cf;
        self.set_flags(z, false, false, !c);
    }

    /// Set carry flag
    fn scf(&mut self)
        requires
            old(self).wf(),
            old(self).tick <= 200,
        ensures
            final(self)@ == old(self)@.with_flags(old(self).zf, false, false, true),
            final(self).wf(),
            final(self).tick <= old(self).tick + 0,
            old(self).tick <= final(self).tick,
    {
        let z = self.zf;
        self.set_flags(z, false, false, true);
    }

    /// LD (HL+), A
    fn ldi_hl_a(&mut self)
        requires
            old(self).wf(),
            old(self).tick <= 200,
        ensures
            final(self)@ == old(self)@.wr8(old(self)@.hl(), old(self).a).write_r16(2, add16(old(self)@.hl(), 1)),
            final(self).wf(),
            final(self).tick <= old(self).tick + 20,
            old(self).tick <= final(self).tick,
    {
        let addr = self.hl();
        let a = self.a;
        self.write_mem8(addr, a);
        self.set_hl(addr.wrapping_add(1));
    }

    /// LD (HL-), A
    fn ldd_hl_a(&mut self)
        requires
            old(self).wf(),
            old(self).tick <= 200,
        ensures
            final(self)@ == old(self)@.wr8(old(self)@.hl(), old(self).a).write_r16(2, add16(old(self)@.hl(), -1)),
            final(self).wf(),
            final(self).tick <= old(self).tick + 20,
            old(self).tick <= final(self).tick,
    {
        let addr = self.hl();
        let a = self.a;
        self.write_mem8(addr, a);
        self.set_hl(addr.wrapping_sub(1));
    }

    /// LD A, (HL+)
    fn ldi_a_hl(&mut self)
        requires
            old(self).wf(),
            old(self).tick <= 200,
        ensures
            final(self)@ == (CpuState { a: old(self)@.rd8(old(self)@.hl()), ..old(self)@.ticked(4) }).write_r16(2, add16(old(self)@.hl(), 1)),
            final(self).wf(),
            final(self).tick <= old(self).tick + 20,
            old(self).tick <= final(self).tick,
    {
        let addr = self.hl();
        self.a = self.read_mem8(addr);
        self.set_hl(addr.wrapping_add(1));
    }

    /// LD A, (HL-)
    fn ldd_a_hl(&mut self)
        requires
            old(self).wf(),
            old(self).tick <= 200,
        ensures
            final(self)@ == (CpuState { a: old(self)@.rd8(old(self)@.hl()), ..old(self)@.ticked(4) }).write_r16(2, add16(old(self)@.hl(), -1)),
            final(self).wf(),
            final(self).tick <= old(self).tick + 20,
            old(self).tick <= final(self).tick,
    {
        let addr = self.hl();
        self.a = self.read_mem8(addr);
        self.set_hl(addr.wrapping_sub(1));
    }

    /// LD (BC), A
    fn ld_ind_bc_a(&mut self)
        requires
            old(self).wf(),
            old(self).tick <= 200,
        ensures
            final(self)@ == old(self)@.wr8(old(self)@.bc(), old(self).a),
            final(self).wf(),
            final(self).tick <= old(self).tick + 20,
            old(self).tick <= final(self).tick,
    {
        let addr = self.bc();
        let a = self.a;
        self.write_mem8(addr, a);
    }

    /// LD (DE), A
    fn ld_ind_de_a(&mut self)
        requires
            old(self).wf(),
            old(self).tick <= 200,
        ensures
            final(self)@ == old(self)@.wr8(old(self)@.de(), old(self).a),
            final(self).wf(),
            final(self).tick <= old(self).tick + 20,
            old(self).tick <= final(self).tick,
    {
        let addr = self.de();
        let a = self.a;
        self.write_mem8(addr, a);
    }

    /// LD A, (BC)
    fn ld_a_ind_bc(&mut self)
        requires
            old(self).wf(),
            old(self).tick <= 200,
        ensures
            final(self)@ == (CpuState { a: old(self)@.rd8(old(self)@.bc()), ..old(self)@.ticked(4) }),
            final(self).wf(),
            final(self).tick <= old(self).tick + 20,
            old(self).tick <= final(self).tick,
    {
        let bc = self.bc();
        self.a = self.read_mem8(bc);
    }

    /// LD A, (DE)
    fn ld_a_ind_de(&mut self)
        requires
            old(self).wf(),
            old(self).tick <= 200,
        ensures
            final(self)@ == (CpuState { a: old(self)@.rd8(old(self)@.de()), ..old(self)@.ticked(4) }),
            final(self).wf(),
            final(self).tick <= old(self).tick + 20,
            old(self).tick <= final(self).tick,
    {
        let de = self.de();
        self.a = self.read_mem8(de);
    }

    /// Test bit
    fn bit(&mut self, pos: u8, reg: u8)
        requires
            old(self).wf(),
            old(self).tick <= 216,
            pos < 8,
        ensures
            final(self)@ == old(self)@.bit(pos, reg),
            final(self).wf(),
            final(self).tick <= old(self).tick + 4,
            old(self).tick <= final(self).tick,
    {
        reveal(CpuState::bit);
        let v = self.read_r8(reg);
        let z = (v >> pos & 1) == 0;
        let c = self.cf;
        self.set_flags(z, false, true, c);
    }

    /// Set bit
    fn set(&mut self, pos: u8, reg: u8)
        requires
            old(self).wf(),
            old(self).tick <= 216,
            pos < 8,
        ensures
            final(self)@ == ({ let (v, s1) = old(self)@.read_r8(reg); s1.write_r8(reg, v | (1u8 << pos)) }),
            final(self).wf(),
            final(self).tick <= old(self).tick + 8,
            old(self).tick <= final(self).tick,
    {
        let val = self.read_r8(reg);
        self.write_r8(reg, val | (1 << pos));
    }

    /// Reset bit
    fn res(&mut self, pos: u8, reg: u8)
        requires
            old(self).wf(),
            old(self).tick <= 216,
            pos < 8,
        ensures
            final(self)@ == ({ let (v, s1) = old(self)@.read_r8(reg); s1.write_r8(reg, v & !(1u8 << pos)) }),
            final(self).wf(),
            final(self).tick <= old(self).tick + 8,
            old(self).tick <= final(self).tick,
    {
        let val = self.read_r8(reg);
        self.write_r8(reg, val & !(1 << pos));
    }

    /// Rotate left
    #[verifier::rlimit(50)]
    fn _rlc(&mut self, reg: u8)
        requires
            old(self).wf(),
            old(self).tick <= 216,
        ensures
            final(self)@ == old(self)@.shift_r8(0, reg),
            final(self).wf(),
            final(self).tick <= old(self).tick + 8,
            old(self).tick <= final(self).tick,
    {
        reveal(CpuState::shift_r8);
        let orig = self.read_r8(reg);
        let res = (orig % 128) * 2 + orig / 128;
        self.write_r8(reg, res);

        self.set_flags(res == 0, false, false, orig >= 128);
    }

    /// Rotate right
    #[verifier::rlimit(50)]
    fn _rrc(&mut self, reg: u8)
        requires
            old(self).wf(),
            old(self).tick <= 216,
        ensures
            final(self)@ == old(self)@.shift_r8(1, reg),
            final(self).wf(),
            final(self).tick <= old(self).tick + 8,
            old(self).tick <= final(self).tick,
    {
        reveal(CpuState::shift_r8);
        let orig = self.read_r8(reg);
        let res = orig / 2 + (orig % 2) * 128;
        self.write_r8(reg, res);

        self.set_flags(res == 0, false, false, orig % 2 == 1);
    }

    /// Rotate left through carry
    #[verifier::rlimit(50)]
    fn _rl(&mut self, reg: u8)
        requires
            old(self).wf(),
            old(self).tick <= 216,
        ensures
            final(self)@ == old(self)@.shift_r8(2, reg),
            final(self).wf(),
            final(self).tick <= old(self).tick + 8,
            old(self).tick <= final(self).tick,
    {
        reveal(CpuState::shift_r8);
        let orig = self.read_r8(reg);
        let cin: u8 = if self.cf {
            1
        } else {
            0
        };
        let res = (orig % 128) * 2 + cin;
        self.write_r8(reg, res);

        self.set_flags(res == 0, false, false, orig >= 128);
    }

    /// Rotate right through carry
    #[verifier::rlimit(50)]
    fn _rr(&mut self, reg: u8)
        requires
            old(self).wf(),
            old(self).tick <= 216,
        ensures
            final(self)@ == old(self)@.shift_r8(3, reg),
            final(self).wf(),
            final(self).tick <= old(self).tick + 8,
            old(self).tick <= final(self).tick,
    {
        reveal(CpuState::shift_r8);
        let orig = self.read_r8(reg);
        let cin: u8 = if self.cf {
            1
        } else {
            0
        };
        let res = orig / 2 + cin * 128;
        self.write_r8(reg, res);

        self.set_flags(res == 0, false, false, orig % 2 == 1);
    }

    /// Shift left into carry
    #[verifier::rlimit(50)]
    fn sla(&mut self, reg: u8)
        requires
            old(self).wf(),
            old(self).tick <= 216,
        ensures
            final(self)@ == old(self)@.shift_r8(4, reg),
            final(self).wf(),
            final(self).tick <= old(self).tick + 8,
            old(self).tick <= final(self).tick,
    {
        reveal(CpuState::shift_r8);
        let orig = self.read_r8(reg);
        let res = (orig % 128) * 2;
        self.write_r8(reg, res);

        self.set_flags(res == 0, false, false, orig >= 128);
    }

    /// Shift right into carry, keeping bit 7
    #[verifier::rlimit(50)]
    fn sra(&mut self, reg: u8)
        requires
            old(self).wf(),
            old(self).tick <= 216,
        ensures
            final(self)@ == old(self)@.shift_r8(5, reg),
            final(self).wf(),
            final(self).tick <= old(self).tick + 8,
            old(self).tick <= final(self).tick,
    {
        reveal(CpuState::shift_r8);
        let orig = self.read_r8(reg);
        let res = orig / 2 + (orig / 128) * 128;
        self.write_r8(reg, res);

        self.set_flags(res == 0, false, false, orig % 2 == 1);
    }

    /// Swap low/hi-nibble
    #[verifier::rlimit(50)]
    fn swap(&mut self, reg: u8)
        requires
            old(self).wf(),
            old(self).tick <= 216,
        ensures
            final(self)@ == old(self)@.shift_r8(6, reg),
            final(self).wf(),
            final(self).tick <= old(self).tick + 8,
            old(self).tick <= final(self).tick,
    {
        reveal(CpuState::shift_r8);
        let orig = self.read_r8(reg);
        let res = (orig % 16) * 16 + orig / 16;
        self.write_r8(reg, res);

        self.set_flags(res == 0, false, false, false);
    }

    /// Shift right through carry
    #[verifier::rlimit(50)]
    fn srl(&mut self, reg: u8)
        requires
            old(self).wf(),
            old(self).tick <= 216,
        ensures
            final(self)@ == old(self)@.shift_r8(7, reg),
            final(self).wf(),
            final(self).tick <= old(self).tick + 8,
            old(self).tick <= final(self).tick,
    {
        reveal(CpuState::shift_r8);
        let orig = self.read_r8(reg);
        let res = orig / 2;
        self.write_r8(reg, res);

        self.set_flags(res == 0, false, false, orig % 2 == 1);
    }

    /// Rotate left through carry
    fn rl(&mut self, reg: u8)
        requires
            old(self).wf(),
            old(self).tick <= 216,
        ensures
            final(self)@ == old(self)@.shift_r8(2, reg),
            final(self).wf(),
            final(self).tick <= old(self).tick + 8,
            old(self).tick <= final(self).tick,
    {
        self._rl(reg);
    }

    /// Rotate left
    fn rlc(&mut self, reg: u8)
        requires
            old(self).wf(),
            old(self).tick <= 216,
        ensures
            final(self)@ == old(self)@.shift_r8(0, reg),
            final(self).wf(),
            final(self).tick <= old(self).tick + 8,
            old(self).tick <= final(self).tick,
    {
        self._rlc(reg);
    }

    /// Rotate right through carry
    fn rr(&mut self, reg: u8)
        requires
            old(self).wf(),
            old(self).tick <= 216,
        ensures
            final(self)@ == old(self)@.shift_r8(3, reg),
            final(self).wf(),
            final(self).tick <= old(self).tick + 8,
            old(self).tick <= final(self).tick,
    {
        self._rr(reg);
    }

    /// Rotate right
    fn rrc(&mut self, reg: u8)
        requires
            old(self).wf(),
            old(self).tick <= 216,
        ensures
            final(self)@ == old(self)@.shift_r8(1, reg),
            final(self).wf(),
            final(self).tick <= old(self).tick + 8,
            old(self).tick <= final(self).tick,
    {
        self._rrc(reg);
    }

    /// Jumps to an absolute address.
    fn _jp(&mut self, addr: u16)
        requires
            old(self).wf(),
            old(self).tick <= 216,
        ensures
            final(self)@ == old(self)@.jp(addr),
            final(self).wf(),
            final(self).tick <= old(self).tick + 4,
            old(self).tick <= final(self).tick,
    {
        reveal(CpuState::jp);
        self.pc = addr;

        self.tick += 4;
    }

    /// Conditional jump to d16
    fn jp_cc_d8(&mut self, cci: u8)
        requires
            old(self).wf(),
            old(self).tick <= 200,
        ensures
            final(self)@ == ({ let (addr, s1) = old(self)@.read_d16(); if s1.cc(cci) { s1.jp(addr) } else { s1 } }),
            final(self).wf(),
            final(self).tick <= old(self).tick + 20,
            old(self).tick <= final(self).tick,
    {
        let addr = self.read_d16();

        if self.cc(cci) {
            self._jp(addr);
        }
    }

    /// Unconditional jump to d16
    fn jp_d16(&mut self)
        requires
            old(self).wf(),
            old(self).tick <= 200,
        ensures
            final(self)@ == ({ let (addr, s1) = old(self)@.read_d16(); s1.jp(addr) }),
            final(self).wf(),
            final(self).tick <= old(self).tick + 20,
            old(self).tick <= final(self).tick,
    {
        let address = self.read_d16();
        self._jp(address);
    }

    /// Unconditional jump to HL
    fn jp_hl(&mut self)
        requires
            old(self).wf(),
            old(self).tick <= 200,
        ensures
            final(self)@ == (CpuState { pc: old(self)@.hl(), ..old(self)@ }),
            final(self).wf(),
            final(self).tick <= old(self).tick + 0,
            old(self).tick <= final(self).tick,
    {
        self.pc = self.hl();
    }

    /// Jump to pc+d8 if CC
    fn jr_cc_d8(&mut self, cci: u8)
        requires
            old(self).wf(),
            old(self).tick <= 200,
        ensures
            final(self)@ == ({ let (d, s1) = old(self)@.read_d8(); if s1.cc(cci) { s1.jr(d) } else { s1 } }),
            final(self).wf(),
            final(self).tick <= old(self).tick + 20,
            old(self).tick <= final(self).tick,
    {
        let offset = self.read_d8();

        if self.cc(cci) {
            self._jr(offset);
        }
    }

    /// Jumps by a signed offset.
    fn _jr(&mut self, offset: u8)
        requires
            old(self).wf(),
            old(self).tick <= 216,
        ensures
            final(self)@ == old(self)@.jr(offset),
            final(self).wf(),
            final(self).tick <= old(self).tick + 4,
            old(self).tick <= final(self).tick,
    {
        reveal(CpuState::jr);
        let val: u16 = if offset < 128 {
            offset as u16
        } else {
            offset as u16 + 0xff00
        };
        self.pc = self.pc.wrapping_add(val);

        self.tick += 4;
    }

    /// Jump to pc+d8
    fn jr_d8(&mut self)
        requires
            old(self).wf(),
            old(self).tick <= 200,
        ensures
            final(self)@ == ({ let (d, s1) = old(self)@.read_d8(); s1.jr(d) }),
            final(self).wf(),
            final(self).tick <= old(self).tick + 20,
            old(self).tick <= final(self).tick,
    {
        let offset = self.read_d8();
        self._jr(offset);
    }

    /// LD (0xff00+d8), A
    fn ld_io_d8_a(&mut self)
        requires
            old(self).wf(),
            old(self).tick <= 200,
        ensures
            final(self)@ == ({ let (d, s1) = old(self)@.read_d8(); s1.wr8((0xff00 + d) as u16, s1.a) }),
            final(self).wf(),
            final(self).tick <= old(self).tick + 20,
            old(self).tick <= final(self).tick,
    {
        let offset = self.read_d8() as u16;
        let addr = 0xff00 + offset;
        let a = self.a;
        self.write_mem8(addr, a);
    }

    /// LD A, (0xff00+d8)
    fn ld_a_io_d8(&mut self)
        requires
            old(self).wf(),
            old(self).tick <= 200,
        ensures
            final(self)@ == ({ let (d, s1) = old(self)@.read_d8(); CpuState { a: s1.rd8((0xff00 + d) as u16), ..s1.ticked(4) } }),
            final(self).wf(),
            final(self).tick <= old(self).tick + 20,
            old(self).tick <= final(self).tick,
    {
        let offset = self.read_d8() as u16;
        let addr = 0xff00 + offset;
        self.a = self.read_mem8(addr);
    }

    /// LD (0xff00+C), A
    fn ld_io_c_a(&mut self)
        requires
            old(self).wf(),
            old(self).tick <= 200,
        ensures
            final(self)@ == old(self)@.wr8((0xff00 + old(self).c) as u16, old(self).a),
            final(self).wf(),
            final(self).tick <= old(self).tick + 20,
            old(self).tick <= final(self).tick,
    {
        let addr = 0xff00 + self.c as u16;
        let a = self.a;
        self.write_mem8(addr, a);
    }

    /// LD A, (0xff00+C)
    fn ld_a_io_c(&mut self)
        requires
            old(self).wf(),
            old(self).tick <= 200,
        ensures
            final(self)@ == (CpuState { a: old(self)@.rd8((0xff00 + old(self).c) as u16), ..old(self)@.ticked(4) }),
            final(self).wf(),
            final(self).tick <= old(self).tick + 20,
            old(self).tick <= final(self).tick,
    {
        let addr = 0xff00 + self.c as u16;
        self.a = self.read_mem8(addr);
    }

    /// LD r8, d8
    fn ld_r8_d8(&mut self, reg: u8)
        requires
            old(self).wf(),
            old(self).tick <= 200,
        ensures
            final(self)@ == ({ let (d, s1) = old(self)@.read_d8(); s1.write_r8(reg, d) }),
            final(self).wf(),
            final(self).tick <= old(self).tick + 20,
            old(self).tick <= final(self).tick,
    {
        let imm = self.read_d8();
        self.write_r8(reg, imm);
    }

    /// INC r8
    fn inc_r8(&mut self, reg: u8)
        requires
            old(self).wf(),
            old(self).tick <= 200,
        ensures
            final(self)@ == old(self)@.inc_r8(reg),
            final(self).wf(),
            final(self).tick <= old(self).tick + 20,
            old(self).tick <= final(self).tick,
    {
        reveal(CpuState::inc_r8);
        let orig = self.read_r8(reg);
        let res = orig.wrapping_add(1);
        self.write_r8(reg, res);

        let c = self.cf;
        self.set_flags(res == 0, false, orig % 16 == 0x0f, c);
    }

    /// DEC r8
    fn dec_r8(&mut self, reg: u8)
        requires
            old(self).wf(),
            old(self).tick <= 200,
        ensures
            final(self)@ == old(self)@.dec_r8(reg),
            final(self).wf(),
            final(self).tick <= old(self).tick + 20,
            old(self).tick <= final(self).tick,
    {
        reveal(CpuState::dec_r8);
        let orig = self.read_r8(reg);
        let res = orig.wrapping_sub(1);
        self.write_r8(reg, res);

        let c = self.cf;
        self.set_flags(res == 0, true, orig % 16 == 0x00, c);
    }

    /// LD r8, r8
    fn ld_r8_r8(&mut self, reg1: u8, reg2: u8)
        requires
            old(self).wf(),
            old(self).tick <= 200,
        ensures
            final(self)@ == ({ let (v, s1) = old(self)@.read_r8(reg2); s1.write_r8(reg1, v) }),
            final(self).wf(),
            final(self).tick <= old(self).tick + 20,
            old(self).tick <= final(self).tick,
    {
        let val = self.read_r8(reg2);
        self.write_r8(reg1, val);
    }

    /// Pushes PC and jumps.
    fn _call(&mut self, addr: u16)
        requires
            old(self).wf(),
            old(self).tick <= 216,
        ensures
            final(self)@ == old(self)@.call(addr),
            final(self).wf(),
            final(self).tick <= old(self).tick + 12,
            old(self).tick <= final(self).tick,
    {
        reveal(CpuState::call);
        self.sp = self.sp.wrapping_sub(2);
        let sp = self.sp;
        let pc = self.pc;

        self.tick += 4;

        self.write_mem16(sp, pc);
        self.pc = addr;
    }

    /// CALL d16
    fn call_d16(&mut self)
        requires
            old(self).wf(),
            old(self).tick <= 200,
        ensures
            final(self)@ == ({ let (addr, s1) = old(self)@.read_d16(); s1.call(addr) }),
            final(self).wf(),
            final(self).tick <= old(self).tick + 20,
            old(self).tick <= final(self).tick,
    {
        let addr = self.read_d16();
        self._call(addr);
    }

    /// CALL CC, d16
    fn call_cc_d16(&mut self, cci: u8)
        requires
            old(self).wf(),
            old(self).tick <= 200,
        ensures
            final(self)@ == ({ let (addr, s1) = old(self)@.read_d16(); if s1.cc(cci) { s1.call(addr) } else { s1 } }),
            final(self).wf(),
            final(self).tick <= old(self).tick + 20,
            old(self).tick <= final(self).tick,
    {
        let addr = self.read_d16();

        if self.cc(cci) {
            self._call(addr);
        }
    }

    /// RST
    fn rst(&mut self, addr: u8)
        requires
            old(self).wf(),
            old(self).tick <= 200,
        ensures
            final(self)@ == old(self)@.call(addr as u16),
            final(self).wf(),
            final(self).tick <= old(self).tick + 12,
            old(self).tick <= final(self).tick,
    {
        self._call(addr as u16);
    }

    /// Pops PC.
    fn _ret(&mut self)
        requires
            old(self).wf(),
            old(self).tick <= 216,
        ensures
            final(self)@ == old(self)@.ret(),
            final(self).wf(),
            final(self).tick <= old(self).tick + 12,
            old(self).tick <= final(self).tick,
    {
        reveal(CpuState::ret);
        let sp = self.sp;
        self.pc = self.read_mem16(sp);
        self.sp = self.sp.wrapping_add(2);

        self.tick += 4;
    }

    /// RET
    fn ret(&mut self)
        requires
            old(self).wf(),
            old(self).tick <= 200,
        ensures
            final(self)@ == old(self)@.ret(),
            final(self).wf(),
            final(self).tick <= old(self).tick + 20,
            old(self).tick <= final(self).tick,
    {
        self._ret();
    }

    /// RET CC
    fn ret_cc(&mut self, cci: u8)
        requires
            old(self).wf(),
            old(self).tick <= 200,
        ensures
            final(self)@ == ({ let s1 = old(self)@.ticked(4); if s1.cc(cci) { s1.ret() } else { s1 } }),
            final(self).wf(),
            final(self).tick <= old(self).tick + 20,
            old(self).tick <= final(self).tick,
    {
        self.tick += 4;

        if self.cc(cci) {
            self._ret();
        }
    }

    /// PUSH BC
    fn push_bc(&mut self)
        requires
            old(self).wf(),
            old(self).tick <= 200,
        ensures
            final(self)@ == old(self)@.push(old(self)@.bc()),
            final(self).wf(),
            final(self).tick <= old(self).tick + 12,
            old(self).tick <= final(self).tick,
    {
        reveal(CpuState::push);
        self.sp = self.sp.wrapping_sub(2);
        let val = self.bc();
        let sp = self.sp;

        self.tick += 4;

        self.write_mem16(sp, val);
    }

    /// PUSH DE
    fn push_de(&mut self)
        requires
            old(self).wf(),
            old(self).tick <= 200,
        ensures
            final(self)@ == old(self)@.push(old(self)@.de()),
            final(self).wf(),
            final(self).tick <= old(self).tick + 12,
            old(self).tick <= final(self).tick,
    {
        reveal(CpuState::push);
        self.sp = self.sp.wrapping_sub(2);
        let val = self.de();
        let sp = self.sp;

        self.tick += 4;

        self.write_mem16(sp, val);
    }

    /// PUSH HL
    fn push_hl(&mut self)
        requires
            old(self).wf(),
            old(self).tick <= 200,
        ensures
            final(self)@ == old(self)@.push(old(self)@.hl()),
            final(self).wf(),
            final(self).tick <= old(self).tick + 12,
            old(self).tick <= final(self).tick,
    {
        reveal(CpuState::push);
        self.sp = self.sp.wrapping_sub(2);
        let val = self.hl();
        let sp = self.sp;

        self.tick += 4;

        self.write_mem16(sp, val);
    }

    /// PUSH AF
    fn push_af(&mut self)
        requires
            old(self).wf(),
            old(self).tick <= 200,
        ensures
            final(self)@ == old(self)@.push(old(self)@.af()),
            final(self).wf(),
            final(self).tick <= old(self).tick + 12,
            old(self).tick <= final(self).tick,
    {
        reveal(CpuState::push);
        self.sp = self.sp.wrapping_sub(2);
        let val = self.af();
        let sp = self.sp;

        self.tick += 4;

        self.write_mem16(sp, val);
    }

    /// POP BC
    fn pop_bc(&mut self)
        requires
            old(self).wf(),
            old(self).tick <= 200,
        ensures
            final(self)@ == ({ let (v, s1) = old(self)@.pop(); s1.write_r16(0, v) }),
            final(self).wf(),
            final(self).tick <= old(self).tick + 8,
            old(self).tick <= final(self).tick,
    {
        reveal(CpuState::pop);
        let sp = self.sp;
        let val = self.read_mem16(sp);
        self.set_bc(val);
        self.sp = self.sp.wrapping_add(2);
    }

    /// POP DE
    fn pop_de(&mut self)
        requires
            old(self).wf(),
            old(self).tick <= 200,
        ensures
            final(self)@ == ({ let (v, s1) = old(self)@.pop(); s1.write_r16(1, v) }),
            final(self).wf(),
            final(self).tick <= old(self).tick + 8,
            old(self).tick <= final(self).tick,
    {
        reveal(CpuState::pop);
        let sp = self.sp;
        let val = self.read_mem16(sp);
        self.set_de(val);
        self.sp = self.sp.wrapping_add(2);
    }

    /// POP HL
    fn pop_hl(&mut self)
        requires
            old(self).wf(),
            old(self).tick <= 200,
        ensures
            final(self)@ == ({ let (v, s1) = old(self)@.pop(); s1.write_r16(2, v) }),
            final(self).wf(),
            final(self).tick <= old(self).tick + 8,
            old(self).tick <= final(self).tick,
    {
        reveal(CpuState::pop);
        let sp = self.sp;
        let val = self.read_mem16(sp);
        self.set_hl(val);
        self.sp = self.sp.wrapping_add(2);
    }

    /// POP AF
    fn pop_af(&mut self)
        requires
            old(self).wf(),
            old(self).tick <= 200,
        ensures
            final(self)@ == ({ let (v, s1) = old(self)@.pop(); s1.set_af(v) }),
            final(self).wf(),
            final(self).tick <= old(self).tick + 8,
            old(self).tick <= final(self).tick,
    {
        reveal(CpuState::pop);
        let sp = self.sp;
        // lower nibble of F is always zero: only the four flag bits are kept
        let val = self.read_mem16(sp);
        self.set_af(val);
        self.sp = self.sp.wrapping_add(2);
    }

    /// RLCA
    fn rlca(&mut self)
        requires
            old(self).wf(),
            old(self).tick <= 200,
        ensures
            final(self)@ == old(self)@.rot_a(0),
            final(self).wf(),
            final(self).tick <= old(self).tick + 20,
            old(self).tick <= final(self).tick,
    {
        reveal(CpuState::rot_a);
        reveal(CpuState::shift_r8);
        self._rlc(7);
        self.zf = false;
    }

    /// RLA
    fn rla(&mut self)
        requires
            old(self).wf(),
            old(self).tick <= 200,
        ensures
            final(self)@ == old(self)@.rot_a(2),
            final(self).wf(),
            final(self).tick <= old(self).tick + 20,
            old(self).tick <= final(self).tick,
    {
        reveal(CpuState::rot_a);
        reveal(CpuState::shift_r8);
        self._rl(7);
        self.zf = false;
    }

    /// RRCA
    fn rrca(&mut self)
        requires
            old(self).wf(),
            old(self).tick <= 200,
        ensures
            final(self)@ == old(self)@.rot_a(1),
            final(self).wf(),
            final(self).tick <= old(self).tick + 20,
            old(self).tick <= final(self).tick,
    {
        reveal(CpuState::rot_a);
        reveal(CpuState::shift_r8);
        self._rrc(7);
        self.zf = false;
    }

    /// RRA
    fn rra(&mut self)
        requires
            old(self).wf(),
            old(self).tick <= 200,
        ensures
            final(self)@ == old(self)@.rot_a(3),
            final(self).wf(),
            final(self).tick <= old(self).tick + 20,
            old(self).tick <= final(self).tick,
    {
        reveal(CpuState::rot_a);
        reveal(CpuState::shift_r8);
        self._rr(7);
        self.zf = false;
    }

    /// INC r16
    fn inc_r16(&mut self, reg: u8)
        requires
            old(self).wf(),
            old(self).tick <= 200,
        ensures
            final(self)@ == old(self)@.write_r16(reg, add16(old(self)@.read_r16(reg), 1)).ticked(4),
            final(self).wf(),
            final(self).tick <= old(self).tick + 20,
            old(self).tick <= final(self).tick,
    {
        let val = self.read_r16(reg);
        self.write_r16(reg, val.wrapping_add(1));

        self.tick += 4;
    }

    /// DEC r16
    fn dec_r16(&mut self, reg: u8)
        requires
            old(self).wf(),
            old(self).tick <= 200,
        ensures
            final(self)@ == old(self)@.write_r16(reg, add16(old(self)@.read_r16(reg), -1)).ticked(4),
            final(self).wf(),
            final(self).tick <= old(self).tick + 20,
            old(self).tick <= final(self).tick,
    {
        let val = self.read_r16(reg);
        self.write_r16(reg, val.wrapping_sub(1));

        self.tick += 4;
    }

    /// LD (d16), A
    fn ld_ind_d16_a(&mut self)
        requires
            old(self).wf(),
            old(self).tick <= 200,
        ensures
            final(self)@ == ({ let (addr, s1) = old(self)@.read_d16(); s1.wr8(addr, s1.a) }),
            final(self).wf(),
            final(self).tick <= old(self).tick + 20,
            old(self).tick <= final(self).tick,
    {
        let addr = self.read_d16();
        let a = self.a;
        self.write_mem8(addr, a);
    }

    /// LD A, (d16)
    fn ld_a_ind_d16(&mut self)
        requires
            old(self).wf(),
            old(self).tick <= 200,
        ensures
            final(self)@ == ({ let (addr, s1) = old(self)@.read_d16(); CpuState { a: s1.rd8(addr), ..s1.ticked(4) } }),
            final(self).wf(),
            final(self).tick <= old(self).tick + 20,
            old(self).tick <= final(self).tick,
    {
        let addr = self.read_d16();
        self.a = self.read_mem8(addr);
    }

    /// Disable interrupt
    fn di(&mut self)
        requires
            old(self).wf(),
            old(self).tick <= 200,
        ensures
            final(self)@ == (CpuState { ime: false, ..old(self)@ }),
            final(self).wf(),
            final(self).tick <= old(self).tick + 0,
            old(self).tick <= final(self).tick,
    {
        self.ime = false;
    }

    /// Enable interrupt
    fn ei(&mut self)
        requires
            old(self).wf(),
            old(self).tick <= 200,
        ensures
            final(self)@ == (CpuState { ime: true, ..old(self)@ }),
            final(self).wf(),
            final(self).tick <= old(self).tick + 0,
            old(self).tick <= final(self).tick,
    {
        self.ime = true;
    }

    /// Enable interrupt and return
    fn reti(&mut self)
        requires
            old(self).wf(),
            old(self).tick <= 200,
        ensures
            final(self)@ == (CpuState { ime: true, ..old(self)@ }).ret(),
            final(self).wf(),
            final(self).tick <= old(self).tick + 20,
            old(self).tick <= final(self).tick,
    {
        self.ime = true;

        self._ret();
    }

    /// Prefixed instructions
    fn prefix(&mut self)
        requires
            old(self).wf(),
            old(self).tick <= 200,
        ensures
            final(self)@ == old(self)@.prefix_spec(),
            final(self).wf(),
            final(self).tick <= old(self).tick + 20,
            old(self).tick <= final(self).tick,
    {
        reveal(CpuState::prefix_spec);
        let opcode = self.read_d8();
        let pos = (opcode / 8) % 8;
        let reg = opcode % 8;

        match opcode {
            0x00..=0x07 => self.rlc(reg),
            0x08..=0x0f => self.rrc(reg),
            0x10..=0x17 => self.rl(reg),
            0x18..=0x1f => self.rr(reg),
            0x20..=0x27 => self.sla(reg),
            0x28..=0x2f => self.sra(reg),
            0x30..=0x37 => self.swap(reg),
            0x38..=0x3f => self.srl(reg),
            0x40..=0x7f => self.bit(pos, reg),
            0x80..=0xbf => self.res(pos, reg),
            _ => self.set(pos, reg),
        }
    }

    /// HALT
    fn halt(&mut self)
        requires
            old(self).wf(),
            old(self).tick <= 200,
        ensures
            final(self)@ == (if old(self).ime { CpuState { halted: true, ..old(self)@ } } else { old(self)@ }),
            final(self).wf(),
            final(self).tick <= old(self).tick + 0,
            old(self).tick <= final(self).tick,
    {
        if self.ime {
            self.halted = true;
        }
    }

}

impl CPU {
    /// Executes a single instruction and handles IRQs. Returns the T-cycles
    /// spent.
    #[verifier::rlimit(100)]
    pub fn step(&mut self) -> (r: u8)
        requires
            old(self).wf(),
        ensures
            (final(self)@, r) == old(self)@.step_spec(),
            final(self).wf(),
            final(self)@.f() & 0x0f == 0,
            old(self).mmu.fault is None ==> r >= 4,
    {
        reveal(CpuState::step_spec);
        let ghost s = self@;
        if let Some(_) = self.mmu.fault {
            proof {
                lemma_flags_byte(self.zf, self.nf, self.hf, self.cf);
            }
            return 0;
        }
        self.tick = 0;
        let ghost s0 = self@;

        if self.halted {
            self.tick += 4;
        } else {
            self.fetch_and_exec();
        }
        let ghost s1 = self@;
        assert(s1 == (if s0.halted {
            s0.ticked(4)
        } else {
            s0.exec_spec()
        }));

        let mut total_tick: u8 = self.tick;

        // An instruction that stopped the machine ends the step
        if self.mmu.fault.is_some() {
            proof {
                lemma_flags_byte(self.zf, self.nf, self.hf, self.cf);
            }
            return total_tick;
        }

        self.mmu.update(self.tick);

        if self.ime {
            total_tick += self.service_irq();
        }
        proof {
            lemma_flags_byte(self.zf, self.nf, self.hf, self.cf);
        }

        total_tick
    }

    /// Dispatches at most one interrupt and hands its T-cycles to the
    /// peripherals. Returns those T-cycles.
    fn service_irq(&mut self) -> (r: u8)
        requires
            old(self).wf(),
        ensures
            ({
                let s3 = (CpuState { tick: 0, ..old(self)@ }).dispatch_from(0);
                final(self)@ == (CpuState { mmu: s3.mmu.update_spec(s3.tick), ..s3 }) && r
                    == s3.tick
            }),
            final(self).wf(),
            r <= 20,
    {
        self.tick = 0;
        self.check_irqs();
        self.mmu.update(self.tick);
        self.tick
    }

    /// Runs instructions until at least one frame (70224 T-cycles) has
    /// elapsed, or until a fault stops the machine. Returns the T-cycles
    /// spent.
    pub fn run_frame(&mut self) -> (r: u32)
        requires
            old(self).wf(),
        ensures
            (final(self)@, r as int) == old(self)@.run_spec(0),
            final(self).wf(),
            final(self).mmu.fault is None ==> r >= 70224,
            r < 70224 + 256,
    {
        let mut elapsed_tick: u32 = 0;
        while elapsed_tick < 456 * (144 + 10)
            invariant
                self.wf(),
                elapsed_tick < 70224 + 256,
                self@.run_spec(elapsed_tick as int) == old(self)@.run_spec(0),
            ensures
                self.wf(),
                (self@, elapsed_tick as int) == old(self)@.run_spec(0),
                self.mmu.fault is None ==> elapsed_tick >= 70224,
                elapsed_tick < 70224 + 256,
            decreases 70224 + 256 - elapsed_tick,
        {
            if self.mmu.fault.is_some() {
                break;
            }
            let ghost before = self@;
            let t = self.step();
            assert(before.mmu.fault is None);
            assert(t >= 4);
            assert(before.run_spec(elapsed_tick as int) == self@.run_spec(elapsed_tick + t));
            elapsed_tick += t as u32;
        }
        elapsed_tick
    }

    /// Checks IRQs and execute ISRs if requested.
    fn check_irqs(&mut self)
        requires
            old(self).wf(),
            old(self).tick == 0,
        ensures
            final(self)@ == old(self)@.dispatch_from(0),
            final(self).wf(),
            final(self).tick <= 20,
    {
        let ghost s0 = self@;
        // Bit 0 has the highest priority
        let mut i: u8 = 0;
        while i < 5
            invariant_except_break
                self@ == s0,
                self.tick == 0,
                s0.dispatch_from(i) == s0.dispatch_from(0),
            invariant
                i <= 5,
                self.wf(),
                self.tick <= 20,
            ensures
                self@ == s0.dispatch_from(0),
            decreases 5 - i,
        {
            let irq = self.mmu.int_flag & (1 << i) > 0;
            let ie = self.mmu.int_enable & (1 << i) > 0;

            // If interrupt is requested and enabled
            if irq && ie {
                self.call_isr(i);
                break;
            }
            i += 1;
        }
    }

    /// Calls requested interrupt service routine.
    fn call_isr(&mut self, id: u8)
        requires
            old(self).wf(),
            old(self).tick == 0,
            id < 5,
        ensures
            final(self)@ == old(self)@.isr(id),
            final(self).wf(),
            final(self).tick <= 20,
    {
        proof {
            reveal(MmuState::wf);
            lemma_irq_bits(self.mmu.int_flag, id);
        }
        // Reset corresponding bit in IF
        self.mmu.int_flag = self.mmu.int_flag & !(1 << id);
        // Clear IME (disable any further interrupts)
        self.ime = false;
        self.halted = false;

        let isr: u16 = match id {
            0 => 0x40,
            1 => 0x48,
            2 => 0x50,
            3 => 0x58,
            _ => 0x60,
        };

        self.tick += 8;

        self._call(isr);
    }

    /// Fetches and executes a single instructions.
    fn fetch_and_exec(&mut self)
        requires
            old(self).wf(),
            old(self).tick == 0,
        ensures
            final(self)@ == old(self)@.exec_spec(),
            final(self).wf(),
            4 <= final(self).tick <= 24,
    {
        proof {
            reveal(CpuState::exec_spec);
        }
        let pc = self.pc;
        let opcode = self.read_d8();
        if opcode < 0x20 {
            self.exec_00(opcode, pc);
        } else if opcode < 0x40 {
            self.exec_20(opcode, pc);
        } else if opcode < 0xc0 {
            self.exec_40(opcode);
        } else if opcode < 0xe0 {
            self.exec_c0(opcode, pc);
        } else {
            self.exec_e0(opcode, pc);
        }
    }

    /// Executes an opcode in 0x00-0x1F.
    fn exec_00(&mut self, opcode: u8, pc: u16)
        requires
            old(self).wf(),
            old(self).tick == 4,
            opcode < 0x20,
        ensures
            final(self)@ == old(self)@.execute_00(opcode, pc),
            final(self).wf(),
            4 <= final(self).tick <= 24,
    {
        reveal(CpuState::execute_00);
        let reg = opcode % 8;
        let reg2 = (opcode / 8) % 8;

        match opcode {
            // NOP
            0x00 => self.nop(),
            // LD r16, d16
            0x01 | 0x11 => self.ld_r16_d16(opcode / 16),
            // LD (d16), SP
            0x08 => self.ld_ind_d16_sp(),
            // LD A, (r16)
            0x02 => self.ld_ind_bc_a(),
            0x12 => self.ld_ind_de_a(),
            0x0a => self.ld_a_ind_bc(),
            0x1a => self.ld_a_ind_de(),
            // Unconditional relative jump
            0x18 => self.jr_d8(),
            // Bit rotate on A
            0x07 => self.rlca(),
            0x17 => self.rla(),
            0x0f => self.rrca(),
            0x1f => self.rra(),
            // Arithmethic/logical operation on 16-bit register
            0x09 | 0x19 => self.add_hl_r16(opcode / 16),
            // LD r8, d8
            0x06 | 0x0e | 0x16 | 0x1e => self.ld_r8_d8(reg2),
            // INC r8
            0x04 | 0x0c | 0x14 | 0x1c => self.inc_r8(reg2),
            // DEC r8
            0x05 | 0x0d | 0x15 | 0x1d => self.dec_r8(reg2),
            // INC, DEC r16
            0x03 | 0x13 => self.inc_r16(opcode / 16),
            0x0b | 0x1b => self.dec_r16(opcode / 16),
            // Undefined opcode: the machine stops
            _ => self.mmu.stop(Fault::UndefinedOpcode { opcode, pc }),
        }
    }

    /// Executes an opcode in 0x20-0x3F.
    fn exec_20(&mut self, opcode: u8, pc: u16)
        requires
            old(self).wf(),
            old(self).tick == 4,
            0x20 <= opcode < 0x40,
        ensures
            final(self)@ == old(self)@.execute_20(opcode, pc),
            final(self).wf(),
            4 <= final(self).tick <= 24,
    {
        reveal(CpuState::execute_20);
        let reg = opcode % 8;
        let reg2 = (opcode / 8) % 8;

        match opcode {
            // LD r16, d16
            0x21 | 0x31 => self.ld_r16_d16(opcode / 16),
            // Conditional relative jump
            0x20 | 0x30 | 0x28 | 0x38 => self.jr_cc_d8(reg2 - 4),
            // Arithmethic/logical operation on 16-bit register
            0x29 | 0x39 => self.add_hl_r16(opcode / 16),
            // DAA
            0x27 => self.daa(),
            // CPL
            0x2f => self.cpl(),
            // SCF, CCF
            0x37 => self.scf(),
            0x3f => self.ccf(),
            // LDI, LDD
            0x22 => self.ldi_hl_a(),
            0x32 => self.ldd_hl_a(),
            0x2a => self.ldi_a_hl(),
            0x3a => self.ldd_a_hl(),
            // LD r8, d8
            0x26 | 0x2e | 0x36 | 0x3e => self.ld_r8_d8(reg2),
            // INC r8
            0x24 | 0x2c | 0x34 | 0x3c => self.inc_r8(reg2),
            // DEC r8
            0x25 | 0x2d | 0x35 | 0x3d => self.dec_r8(reg2),
            // INC, DEC r16
            0x23 | 0x33 => self.inc_r16(opcode / 16),
            0x2b | 0x3b => self.dec_r16(opcode / 16),
            // Undefined opcode: the machine stops
            _ => self.mmu.stop(Fault::UndefinedOpcode { opcode, pc }),
        }
    }


    /// Executes an opcode in 0x40-0xBF: register loads, HALT and 8-bit
    /// arithmetic.
    #[verifier::rlimit(100)]
    fn exec_40(&mut self, opcode: u8)
        requires
            old(self).wf(),
            old(self).tick == 4,
            0x40 <= opcode < 0xc0,
        ensures
            final(self)@ == old(self)@.execute_40(opcode),
            final(self).wf(),
            4 <= final(self).tick <= 24,
    {
        reveal(CpuState::execute_40);
        let reg = opcode % 8;
        let reg2 = (opcode / 8) % 8;

        match opcode {
            // Arithmethic/logical operation on 8-bit register
            0x80..=0x87 => self.add_r8(reg),
            0x88..=0x8f => self.adc_r8(reg),
            0x90..=0x97 => self.sub_r8(reg),
            0x98..=0x9f => self.sbc_r8(reg),
            0xa0..=0xa7 => self.and_r8(reg),
            0xb0..=0xb7 => self.or_r8(reg),
            0xa8..=0xaf => self.xor_r8(reg),
            0xb8..=0xbf => self.cp_r8(reg),
            // LD r8, r8
            0x40..=0x75 | 0x77..=0x7f => self.ld_r8_r8(reg2, reg),
            // HALT (0x76)
            _ => self.halt(),
        }
    }

    /// Executes an opcode in 0xC0-0xDF.
    fn exec_c0(&mut self, opcode: u8, pc: u16)
        requires
            old(self).wf(),
            old(self).tick == 4,
            0xc0 <= opcode < 0xe0,
        ensures
            final(self)@ == old(self)@.execute_c0(opcode, pc),
            final(self).wf(),
            4 <= final(self).tick <= 24,
    {
        reveal(CpuState::execute_c0);
        let reg = opcode % 8;
        let reg2 = (opcode / 8) % 8;

        match opcode {
            // PUSH r16
            0xc5 => self.push_bc(),
            0xd5 => self.push_de(),
            // POP r16
            0xc1 => self.pop_bc(),
            0xd1 => self.pop_de(),
            // Conditional absolute jump
            0xc2 | 0xd2 | 0xca | 0xda => self.jp_cc_d8(reg2),
            // Unconditional absolute jump
            0xc3 => self.jp_d16(),
            // Arithmethic/logical operation on A
            0xc6 => self.add_d8(),
            0xd6 => self.sub_d8(),
            0xce => self.adc_d8(),
            0xde => self.sbc_d8(),
            // Unconditional call
            0xcd => self.call_d16(),
            // Conditional call
            0xc4 | 0xd4 | 0xcc | 0xdc => self.call_cc_d16(reg2),
            // Unconditional ret
            0xc9 => self.ret(),
            // Conditional ret
            0xc0 | 0xd0 | 0xc8 | 0xd8 => self.ret_cc(reg2),
            // RETI
            0xd9 => self.reti(),
            // RST
            0xc7 | 0xcf | 0xd7 | 0xdf => self.rst(opcode - 0xc7),
            // CB prefixed
            0xcb => self.prefix(),
            // Undefined opcode: the machine stops
            _ => self.mmu.stop(Fault::UndefinedOpcode { opcode, pc }),
        }
    }

    /// Executes an opcode in 0xE0-0xFF.
    fn exec_e0(&mut self, opcode: u8, pc: u16)
        requires
            old(self).wf(),
            old(self).tick == 4,
            0xe0 <= opcode,
        ensures
            final(self)@ == old(self)@.execute_e0(opcode, pc),
            final(self).wf(),
            4 <= final(self).tick <= 24,
    {
        reveal(CpuState::execute_e0);
        let reg = opcode % 8;
        let reg2 = (opcode / 8) % 8;

        match opcode {
            // LD SP, HL
            0xf9 => self.ld_sp_hl(),
            0xe5 => self.push_hl(),
            0xf5 => self.push_af(),
            0xe1 => self.pop_hl(),
            0xf1 => self.pop_af(),
            0xe9 => self.jp_hl(),
            0xe8 => self.add_sp_d8(),
            0xf8 => self.ld_hl_sp_d8(),
            0xe6 => self.and_d8(),
            0xf6 => self.or_d8(),
            0xee => self.xor_d8(),
            0xfe => self.cp_d8(),
            // LD IO port
            0xe0 => self.ld_io_d8_a(),
            0xf0 => self.ld_a_io_d8(),
            0xe2 => self.ld_io_c_a(),
            0xf2 => self.ld_a_io_c(),
            // LD (d16), A
            0xea => self.ld_ind_d16_a(),
            // LD A, (d16)
            0xfa => self.ld_a_ind_d16(),
            // RST
            0xe7 | 0xef | 0xf7 | 0xff => self.rst(opcode - 0xc7),
            // DI, EI
            0xf3 => self.di(),
            0xfb => self.ei(),
            // Undefined opcode: the machine stops
            _ => self.mmu.stop(Fault::UndefinedOpcode { opcode, pc }),
        }
    }

}

/// The flag register always has a zero low nibble.
pub proof fn lemma_f_low_nibble(s: CpuState)
    ensures
        s.f() & 0x0f == 0,
{
    lemma_flags_byte(s.zf, s.nf, s.hf, s.cf);
}

/// ADD A, n followed by SUB A, n restores A; Z then tells whether A is zero
/// and C repeats the carry of the addition. So Z and C are back to their
/// first values whenever those already described A and that carry.
pub proof fn lemma_add_sub(s: CpuState, n: u8)
    ensures
        s.alu(0, n).alu(2, n).a == s.a,
        s.alu(0, n).alu(2, n).zf == (s.a == 0),
        s.alu(0, n).alu(2, n).cf == s.alu(0, n).cf,
        s.zf == (s.a == 0) && s.cf == (s.a + n > 255) ==> s.alu(0, n).alu(2, n).zf == s.zf
            && s.alu(0, n).alu(2, n).cf == s.cf,
{
}

/// SWAP twice gives back the value.
pub proof fn lemma_swap_swap(v: u8)
    ensures
        swap_nibbles(swap_nibbles(v)) == v,
{
    assert((16 * ((16 * (v % 16) + v / 16) as u8 % 16) + (16 * (v % 16) + v / 16) as u8 / 16) as u8
        == v) by (bit_vector);
}

/// SWAP twice on a register gives back the register; Z then tells whether
/// it is zero, and N, H and C are clear.
pub proof fn lemma_swap_swap_r8(s: CpuState, reg: u8)
    requires
        reg < 8,
        reg != 6,
    ensures
        s.shift_r8(6, reg).shift_r8(6, reg).read_r8(reg).0 == s.read_r8(reg).0,
        s.shift_r8(6, reg).shift_r8(6, reg).zf == (s.read_r8(reg).0 == 0),
        !s.shift_r8(6, reg).shift_r8(6, reg).nf,
        !s.shift_r8(6, reg).shift_r8(6, reg).hf,
        !s.shift_r8(6, reg).shift_r8(6, reg).cf,
{
    reveal(CpuState::shift_r8);
    lemma_swap_swap(s.read_r8(reg).0);
}

/// CPL twice gives back A.
pub proof fn lemma_cpl_cpl(s: CpuState)
    ensures
        complement(complement(s.a)) == s.a,
        (CpuState { a: complement(complement(s.a)), ..s }) == s,
{
}

/// PUSH then POP of a 16-bit value gives the value back and restores SP,
/// when the two stack bytes lie in RAM.
pub proof fn lemma_push_pop(s: CpuState, v: u16)
    requires
        s.wf(),
        is_plain_ram(add16(s.sp, -2)),
        is_plain_ram(add16(s.sp, -1)),
    ensures
        s.push(v).pop().0 == v,
        s.push(v).pop().1.sp == s.sp,
        s.push(v).pop().1.wf(),
{
    reveal(CpuState::push);
    reveal(CpuState::pop);
    let sp = add16(s.sp, -2);
    let t = CpuState { sp, ..s.ticked(4) };
    let m1 = t.mmu.write_spec(sp, lo_byte(v));
    lemma_ram_read_after_write(t.mmu, sp, sp, lo_byte(v));
    lemma_ram_read_after_write(t.mmu, sp, add16(sp, 1), lo_byte(v));
    lemma_ram_read_after_write(m1, add16(sp, 1), add16(sp, 1), hi_byte(v));
    lemma_ram_read_after_write(m1, add16(sp, 1), sp, hi_byte(v));
}

/// PUSH BC, DE or HL then POP of the same pair gives the pair back.
pub proof fn lemma_push_pop_r16(s: CpuState, reg: u8)
    requires
        s.wf(),
        reg < 3,
        is_plain_ram(add16(s.sp, -2)),
        is_plain_ram(add16(s.sp, -1)),
    ensures
        ({
            let (v, t) = s.push(s.read_r16(reg)).pop();
            t.write_r16(reg, v).read_r16(reg) == s.read_r16(reg)
        }),
{
    lemma_push_pop(s, s.read_r16(reg));
}

/// PUSH AF then POP AF gives back A and every flag.
pub proof fn lemma_push_pop_af(s: CpuState)
    requires
        s.wf(),
        is_plain_ram(add16(s.sp, -2)),
        is_plain_ram(add16(s.sp, -1)),
    ensures
        ({
            let (v, t) = s.push(s.af()).pop();
            let u = t.set_af(v);
            u.a == s.a && u.zf == s.zf && u.nf == s.nf && u.hf == s.hf && u.cf == s.cf && u.af()
                == s.af()
        }),
{
    lemma_push_pop(s, s.af());
    lemma_flags_byte(s.zf, s.nf, s.hf, s.cf);
}

/// POP AF then PUSH AF leaves the stack as it was, when the two stack
/// bytes lie in RAM and the byte popped into F has a zero low nibble.
pub proof fn lemma_pop_push_af(s: CpuState)
    requires
        s.wf(),
        is_plain_ram(s.sp),
        is_plain_ram(add16(s.sp, 1)),
        s.rd8(s.sp) & 0x0f == 0,
    ensures
        ({
            let (v, t) = s.pop();
            let u = t.set_af(v);
            u.push(u.af()).mmu == s.mmu && u.push(u.af()).sp == s.sp
        }),
{
    reveal(CpuState::push);
    reveal(CpuState::pop);
    let (v, t) = s.pop();
    let u = t.set_af(v);
    let lo = s.rd8(s.sp);
    let hi = s.rd8(add16(s.sp, 1));
    lemma_flags_of_byte(lo);
    assert(lo & 0xf0 == lo) by (bit_vector)
        requires
            lo & 0x0f == 0,
    ;
    assert(lo_byte(v) == lo && hi_byte(v) == hi);
    assert(u.af() == v);
    let sp = add16(u.sp, -2);
    assert(sp == s.sp);
    lemma_ram_write_same(s.mmu, s.sp);
    lemma_ram_write_same(s.mmu, add16(s.sp, 1));
}

/// A 16-bit value is rebuilt from its two bytes.
pub proof fn lemma_pair_bytes(v: u16)
    ensures
        pair(hi_byte(v), lo_byte(v)) == v,
{
}

/// Executing from memory is decoding the byte at PC.
proof fn lemma_fetch(s: CpuState)
    ensures
        s.exec_spec() == s.read_d8().1.execute(s.rd8(s.pc), s.pc),
{
    reveal(CpuState::exec_spec);
}

/// The decoded meaning of CPL, ADD A, B, SUB B and the CB prefix.
#[verifier::spinoff_prover]
proof fn lemma_execute_misc(s: CpuState, pc: u16)
    ensures
        s.execute(0x2f, pc) == (CpuState { a: complement(s.a), nf: true, hf: true, ..s }),
        s.execute(0x80, pc) == s.alu_r8(0, 0),
        s.execute(0x90, pc) == s.alu_r8(2, 0),
        s.execute(0xcb, pc) == s.prefix_spec(),
{
    reveal(CpuState::execute_20);
    reveal(CpuState::execute_40);
    reveal(CpuState::execute_c0);
}

/// The decoded meaning of PUSH and POP.
#[verifier::spinoff_prover]
proof fn lemma_execute_stack(s: CpuState, pc: u16)
    ensures
        s.execute(0xc5, pc) == s.push(s.bc()),
        s.execute(0xd5, pc) == s.push(s.de()),
        s.execute(0xe5, pc) == s.push(s.hl()),
        s.execute(0xf5, pc) == s.push(s.af()),
        s.execute(0xc1, pc) == s.pop().1.write_r16(0, s.pop().0),
        s.execute(0xd1, pc) == s.pop().1.write_r16(1, s.pop().0),
        s.execute(0xe1, pc) == s.pop().1.write_r16(2, s.pop().0),
        s.execute(0xf1, pc) == s.pop().1.set_af(s.pop().0),
{
    reveal(CpuState::execute_c0);
    reveal(CpuState::execute_e0);
}

/// CPL; CPL run from memory gives back A, sets N and H, keeps Z and C and
/// memory.
#[verifier::spinoff_prover]
pub proof fn lemma_exec_cpl_cpl(s: CpuState)
    requires
        s.rd8(s.pc) == 0x2f,
        s.rd8(add16(s.pc, 1)) == 0x2f,
    ensures
        ({
            let t = s.exec_spec().exec_spec();
            &&& t.a == s.a
            &&& t.nf && t.hf
            &&& t.zf == s.zf && t.cf == s.cf
            &&& t.pc == add16(s.pc, 2)
            &&& t.mmu == s.mmu
        }),
{
    lemma_fetch(s);
    let s1 = s.exec_spec();
    lemma_execute_misc(s.read_d8().1, s.pc);
    lemma_fetch(s1);
    lemma_execute_misc(s1.read_d8().1, s1.pc);
}

/// ADD A, B; SUB B run from memory gives back A; Z then tells whether A is
/// zero, N is set, and C repeats the carry of the addition. So Z and C are
/// back to their first values whenever those already described A and that
/// carry.
#[verifier::spinoff_prover]
pub proof fn lemma_exec_add_sub(s: CpuState)
    requires
        s.rd8(s.pc) == 0x80,
        s.rd8(add16(s.pc, 1)) == 0x90,
    ensures
        ({
            let t = s.exec_spec().exec_spec();
            &&& t.a == s.a
            &&& t.zf == (s.a == 0)
            &&& t.nf
            &&& t.cf == (s.a + s.b > 255)
            &&& (s.zf == (s.a == 0) && s.cf == (s.a + s.b > 255) ==> t.zf == s.zf && t.cf == s.cf)
            &&& t.mmu == s.mmu
        }),
{
    reveal(CpuState::alu_r8);
    lemma_fetch(s);
    let s1 = s.exec_spec();
    lemma_execute_misc(s.read_d8().1, s.pc);
    lemma_fetch(s1);
    lemma_execute_misc(s1.read_d8().1, s1.pc);
}

/// SWAP r; SWAP r run from memory on a register gives back the register; Z
/// then tells whether it is zero, and N, H and C are clear.
#[verifier::spinoff_prover]
#[verifier::rlimit(100)]
pub proof fn lemma_exec_swap_swap(s: CpuState, reg: u8)
    requires
        reg < 8,
        reg != 6,
        s.rd8(s.pc) == 0xcb,
        s.rd8(add16(s.pc, 1)) == 0x30 + reg,
        s.rd8(add16(s.pc, 2)) == 0xcb,
        s.rd8(add16(s.pc, 3)) == 0x30 + reg,
    ensures
        ({
            let t = s.exec_spec().exec_spec();
            &&& t.read_r8(reg).0 == s.read_r8(reg).0
            &&& t.zf == (s.read_r8(reg).0 == 0)
            &&& !t.nf && !t.hf && !t.cf
            &&& t.mmu == s.mmu
        }),
{
    reveal(CpuState::prefix_spec);
    reveal(CpuState::shift_r8);
    lemma_swap_swap(s.read_r8(reg).0);
    lemma_fetch(s);
    lemma_execute_misc(s.read_d8().1, s.pc);
    let s1 = s.exec_spec();
    assert(s1.mmu == s.mmu && s1.pc == add16(s.pc, 2));
    lemma_fetch(s1);
    lemma_execute_misc(s1.read_d8().1, s1.pc);
}

/// Whether the byte at `addr` survives writes to the two stack bytes below
/// `sp`.
pub open spec fn apart_from_push(addr: u16, sp: u16) -> bool {
    !is_plain_ram(addr) || (ram_cell(addr) != ram_cell(add16(sp, -2)) && ram_cell(addr) != ram_cell(
        add16(sp, -1),
    ))
}

/// A push keeps every byte apart from the two it writes.
proof fn lemma_push_keeps(s: CpuState, v: u16, b: u16)
    requires
        s.wf(),
        is_plain_ram(add16(s.sp, -2)),
        is_plain_ram(add16(s.sp, -1)),
        apart_from_push(b, s.sp),
    ensures
        s.push(v).rd8(b) == s.rd8(b),
{
    reveal(CpuState::push);
    let sp = add16(s.sp, -2);
    let t = CpuState { sp, ..s.ticked(4) };
    let m1 = t.mmu.write_spec(sp, lo_byte(v));
    lemma_ram_read_after_write(t.mmu, sp, sp, lo_byte(v));
    if is_plain_ram(b) {
        lemma_ram_read_after_write(t.mmu, sp, b, lo_byte(v));
        lemma_ram_read_after_write(m1, add16(sp, 1), b, hi_byte(v));
    } else {
        lemma_ram_write_keeps_others(t.mmu, sp, b, lo_byte(v));
        lemma_ram_write_keeps_others(m1, add16(sp, 1), b, hi_byte(v));
    }
}

/// PUSH rr; POP rr run from memory gives back BC, DE or HL and SP, when the
/// stack bytes lie in RAM apart from the POP opcode.
#[verifier::spinoff_prover]
#[verifier::rlimit(100)]
pub proof fn lemma_exec_push_pop(s: CpuState, reg: u8)
    requires
        s.wf(),
        reg < 3,
        s.rd8(s.pc) == 0xc5 + 16 * reg,
        s.rd8(add16(s.pc, 1)) == 0xc1 + 16 * reg,
        is_plain_ram(add16(s.sp, -2)),
        is_plain_ram(add16(s.sp, -1)),
        apart_from_push(add16(s.pc, 1), s.sp),
    ensures
        ({
            let t = s.exec_spec().exec_spec();
            t.read_r16(reg) == s.read_r16(reg) && t.sp == s.sp
        }),
{
    lemma_fetch(s);
    lemma_execute_stack(s.read_d8().1, s.pc);
    lemma_fetch(s.exec_spec());
    lemma_execute_stack(s.exec_spec().read_d8().1, s.exec_spec().pc);
    let s1 = s.read_d8().1;
    lemma_push_keeps(s1, s1.read_r16(reg), add16(s.pc, 1));
    lemma_push_pop(s1, s1.read_r16(reg));
    lemma_push_pop_r16(s1, reg);
    reveal(CpuState::push);
    let s2 = s.exec_spec();
    assert(s2.pc == add16(s.pc, 1));
    assert(s2.rd8(s2.pc) == s.rd8(add16(s.pc, 1)));
    reveal(CpuState::pop);
    let v = s1.read_r16(reg);
    assert(s2 == s1.push(v));
    let s3 = s2.read_d8().1;
    assert(s3.pop().0 == s2.pop().0);
    assert(s3.pop().1.sp == s2.pop().1.sp);
    lemma_pair_bytes(v);
}

/// PUSH AF; POP AF run from memory gives back A, every flag and SP, when the
/// stack bytes lie in RAM apart from the POP opcode.
#[verifier::spinoff_prover]
#[verifier::rlimit(100)]
pub proof fn lemma_exec_push_pop_af(s: CpuState)
    requires
        s.wf(),
        s.rd8(s.pc) == 0xf5,
        s.rd8(add16(s.pc, 1)) == 0xf1,
        is_plain_ram(add16(s.sp, -2)),
        is_plain_ram(add16(s.sp, -1)),
        apart_from_push(add16(s.pc, 1), s.sp),
    ensures
        ({
            let t = s.exec_spec().exec_spec();
            &&& t.af() == s.af()
            &&& t.a == s.a && t.zf == s.zf && t.nf == s.nf && t.hf == s.hf && t.cf == s.cf
            &&& t.sp == s.sp
        }),
{
    lemma_fetch(s);
    lemma_execute_stack(s.read_d8().1, s.pc);
    lemma_fetch(s.exec_spec());
    lemma_execute_stack(s.exec_spec().read_d8().1, s.exec_spec().pc);
    let s1 = s.read_d8().1;
    lemma_push_keeps(s1, s1.af(), add16(s.pc, 1));
    lemma_push_pop(s1, s1.af());
    lemma_push_pop_af(s1);
    reveal(CpuState::push);
    let s2 = s.exec_spec();
    assert(s2.pc == add16(s.pc, 1));
    assert(s2.rd8(s2.pc) == s.rd8(add16(s.pc, 1)));
    reveal(CpuState::pop);
    let v = s1.af();
    assert(s2 == s1.push(v));
    let s3 = s2.read_d8().1;
    assert(s3.pop().0 == s2.pop().0);
    assert(s3.pop().1.sp == s2.pop().1.sp);
    lemma_pair_bytes(v);
}

/// POP AF; PUSH AF run from memory leaves the stack and SP as they were,
/// when the stack bytes lie in RAM and the byte popped into F has a zero low
/// nibble.
#[verifier::spinoff_prover]
pub proof fn lemma_exec_pop_push_af(s: CpuState)
    requires
        s.wf(),
        s.rd8(s.pc) == 0xf1,
        s.rd8(add16(s.pc, 1)) == 0xf5,
        is_plain_ram(s.sp),
        is_plain_ram(add16(s.sp, 1)),
        s.rd8(s.sp) & 0x0f == 0,
    ensures
        ({
            let t = s.exec_spec().exec_spec();
            t.mmu == s.mmu && t.sp == s.sp
        }),
{
    lemma_fetch(s);
    lemma_execute_stack(s.read_d8().1, s.pc);
    lemma_fetch(s.exec_spec());
    lemma_execute_stack(s.exec_spec().read_d8().1, s.exec_spec().pc);
    reveal(CpuState::pop);
    let s1 = s.read_d8().1;
    let (v, u0) = s1.pop();
    let u = u0.set_af(v);
    assert(u.rd8(u.pc) == 0xf5);
    let u1 = u.read_d8().1;
    lemma_pop_push_af(s1);
    assert(u1 == CpuState { pc: u1.pc, tick: u1.tick, ..u });
    reveal(CpuState::push);
}

} // verus!
