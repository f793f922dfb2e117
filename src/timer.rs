use vstd::prelude::*;

use crate::bits::lemma_u8_masks;
use crate::io_device::IODevice;

verus! {

/// The divider and timer counters.
pub struct Timer {
    /// Timer counter
    pub tima: u8,
    /// Timer modulo
    pub tma: u8,
    /// Timer control
    pub tac: u8,
    /// Internal 16-bit counter
    pub counter: u16,
    /// Interrupt request
    pub irq: bool,
}

/// T-cycles per TIMA increment, selected by TAC bits 1..0.
pub open spec fn timer_divider(tac: u8) -> int {
    if tac & 3 == 0 {
        1024
    } else if tac & 3 == 1 {
        16
    } else if tac & 3 == 2 {
        64
    } else {
        256
    }
}

impl Timer {
    /// Well formed: TAC keeps only its three meaningful bits.
    pub open spec fn wf(&self) -> bool {
        self.tac <= 7
    }

    /// What a timer register reads: DIV is the high byte of the counter.
    pub open spec fn read_spec(&self, addr: u16) -> u8 {
        if addr == 0xff04 {
            (self.counter / 256) as u8
        } else if addr == 0xff05 {
            self.tima
        } else if addr == 0xff06 {
            self.tma
        } else {
            self.tac
        }
    }

    /// What a write to a timer register leaves: a write to DIV clears the
    /// counter.
    pub open spec fn write_spec(&self, addr: u16, val: u8) -> Timer {
        if addr == 0xff04 {
            Timer { counter: 0, ..*self }
        } else if addr == 0xff05 {
            Timer { tima: val, ..*self }
        } else if addr == 0xff06 {
            Timer { tma: val, ..*self }
        } else {
            Timer { tac: val & 7, ..*self }
        }
    }

    /// How many TIMA increments fall due when the counter moves on by `tick`.
    pub open spec fn increments(&self, tick: u8) -> int {
        let counter: int = (self.counter + tick) % 0x10000;
        let d = timer_divider(self.tac);
        (counter / d - self.counter as int / d) % (0x10000int / d)
    }

    /// The timer after `tick` T-cycles: the counter moves on; when enabled,
    /// TIMA counts the increments that fell due, and on overflow restarts
    /// from TMA and requests the timer interrupt.
    pub open spec fn update_spec(&self, tick: u8) -> Timer {
        let counter = ((self.counter + tick) % 0x10000) as u16;
        let diff = self.increments(tick);
        if self.tac & 4 == 0 || diff == 0 {
            Timer { counter, ..*self }
        } else if self.tima + diff > 0xff {
            Timer { counter, tima: ((self.tma + diff - 1) % 0x100) as u8, irq: true, ..*self }
        } else {
            Timer { counter, tima: (self.tima + diff) as u8, ..*self }
        }
    }

    /// Creates a new `Timer`, stopped, with every register zero.
    pub fn new() -> (r: Self)
        ensures
            r.tima == 0 && r.tma == 0 && r.tac == 0 && r.counter == 0 && !r.irq,
            r.wf(),
    {
        Timer { tima: 0, tma: 0, tac: 0, counter: 0, irq: false }
    }
}

impl IODevice for Timer {
    open spec fn io_wf(&self) -> bool {
        self.wf()
    }

    open spec fn maps(&self, addr: u16) -> bool {
        0xff04 <= addr <= 0xff07
    }

    fn write(&mut self, addr: u16, val: u8)
        ensures
            *final(self) == old(self).write_spec(addr, val),
    {
        match addr {
            // DIV
            0xff04 => self.counter = 0,
            // TIMA
            0xff05 => self.tima = val,
            // TMA
            0xff06 => self.tma = val,
            // TAC
            _ => {
                self.tac = val & 0x7;
                proof {
                    lemma_u8_masks(val);
                }
            },
        }
    }

    fn read(&self, addr: u16) -> (r: u8)
        ensures
            r == self.read_spec(addr),
    {
        match addr {
            // DIV
            0xff04 => (self.counter / 256) as u8,
            // TIMA
            0xff05 => self.tima,
            // TMA
            0xff06 => self.tma,
            // TAC
            _ => self.tac,
        }
    }

    fn update(&mut self, tick: u8)
        ensures
            *final(self) == old(self).update_spec(tick),
    {
        let counter_prev = self.counter;
        self.counter = self.counter.wrapping_add(tick as u16);

        if self.tac & 4 > 0 {
            let (divider, period): (u16, u16) = match self.tac & 3 {
                0 => (1024, 64),
                1 => (16, 4096),
                2 => (64, 1024),
                _ => (256, 256),
            };
            let x = self.counter / divider;
            let y = counter_prev / divider;
            let diff: u16 = if x >= y {
                x - y
            } else {
                x + period - y
            };
            proof {
                let d = timer_divider(self.tac);
                assert(d == divider as int && period as int == 0x10000int / d) by {
                    if self.tac & 3 == 0 {
                    } else if self.tac & 3 == 1 {
                    } else if self.tac & 3 == 2 {
                    } else {
                    }
                }
                assert(self.counter == (counter_prev + tick) % 0x10000);
                assert(x < period && y < period) by (nonlinear_arith)
                    requires
                        x == self.counter / divider,
                        y == counter_prev / divider,
                        divider * period == 0x10000,
                        divider > 0,
                ;
                assert(diff as int == (x - y) % (period as int)) by {
                    if x >= y {
                        vstd::arithmetic::div_mod::lemma_small_mod((x - y) as nat, period as nat);
                    } else {
                        vstd::arithmetic::div_mod::lemma_mod_add_multiples_vanish(x - y, period as int);
                        vstd::arithmetic::div_mod::lemma_small_mod((x + period - y) as nat, period as nat);
                    }
                }
            }

            if diff > 0 {
                if self.tima as u16 + diff > 0xff {
                    self.tima = ((self.tma as u16 + diff - 1) % 0x100) as u8;
                    self.irq = true;
                } else {
                    self.tima = self.tima + diff as u8;
                }
            }
        }
    }
}

} // verus!
