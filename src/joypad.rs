use vstd::prelude::*;

use crate::io_device::IODevice;

verus! {

/// The button matrix register.
pub struct Joypad {
    /// Select lines (bits 5..4) as last written; the other bits read as 1.
    pub joyp: u8,
    /// One bit per key, 0 while the key is pressed: Down, Up, Left, Right in
    /// bits 7..4, Start, Select, B, A in bits 3..0.
    pub key_state: u8,
    /// Interrupt request
    pub irq: bool,
}

/// The eight inputs of the console.
#[derive(Clone, Copy, Debug, PartialEq, Eq, Hash, Structural)]
pub enum Key {
    Down,
    Up,
    Left,
    Right,
    Start,
    Select,
    B,
    A,
}

/// The bit of `key_state` that belongs to a key.
pub open spec fn key_mask(key: Key) -> u8 {
    match key {
        Key::Down => 0x80,
        Key::Up => 0x40,
        Key::Left => 0x20,
        Key::Right => 0x10,
        Key::Start => 0x08,
        Key::Select => 0x04,
        Key::B => 0x02,
        Key::A => 0x01,
    }
}

impl Joypad {
    /// Well formed: the bits of JOYP that are not select lines read as 1.
    pub open spec fn wf(&self) -> bool {
        self.joyp & 0xcf == 0xcf
    }

    /// What JOYP reads: the row of the selected line, or all ones when neither
    /// line is selected.
    pub open spec fn read_spec(&self, addr: u16) -> u8 {
        if self.joyp & 0x10 == 0 {
            (self.joyp & 0xf0) | (self.key_state >> 4) & 0x0f
        } else if self.joyp & 0x20 == 0 {
            (self.joyp & 0xf0) | self.key_state & 0x0f
        } else {
            self.joyp
        }
    }

    /// What a write to JOYP leaves: only the two select lines change.
    pub open spec fn write_spec(&self, addr: u16, val: u8) -> Joypad {
        Joypad { joyp: (self.joyp & 0xcf) | (val & 0x30), ..*self }
    }

    /// Creates a new `Joypad` with no key pressed and no line selected.
    pub fn new() -> (r: Self)
        ensures
            r.joyp == 0xff,
            r.key_state == 0xff,
            !r.irq,
            r.wf(),
    {
        let r = Joypad { joyp: 0xff, key_state: 0xff, irq: false };
        assert(0xffu8 & 0xcf == 0xcf) by (bit_vector);
        r
    }

    /// Presses a key and requests the joypad interrupt.
    pub fn keydown(&mut self, key: Key)
        ensures
            final(self).key_state == old(self).key_state & !key_mask(key),
            final(self).joyp == old(self).joyp,
            final(self).irq,
    {
        match key {
            Key::Down => self.key_state &= !0x80,
            Key::Up => self.key_state &= !0x40,
            Key::Left => self.key_state &= !0x20,
            Key::Right => self.key_state &= !0x10,
            Key::Start => self.key_state &= !0x08,
            Key::Select => self.key_state &= !0x04,
            Key::B => self.key_state &= !0x02,
            Key::A => self.key_state &= !0x01,
        }
        self.irq = true;
    }

    /// Releases a key.
    pub fn keyup(&mut self, key: Key)
        ensures
            final(self).key_state == old(self).key_state | key_mask(key),
            final(self).joyp == old(self).joyp,
            final(self).irq == old(self).irq,
    {
        match key {
            Key::Down => self.key_state |= 0x80,
            Key::Up => self.key_state |= 0x40,
            Key::Left => self.key_state |= 0x20,
            Key::Right => self.key_state |= 0x10,
            Key::Start => self.key_state |= 0x08,
            Key::Select => self.key_state |= 0x04,
            Key::B => self.key_state |= 0x02,
            Key::A => self.key_state |= 0x01,
        }
    }
}

impl IODevice for Joypad {
    open spec fn io_wf(&self) -> bool {
        self.wf()
    }

    open spec fn maps(&self, addr: u16) -> bool {
        addr == 0xff00
    }

    fn write(&mut self, addr: u16, val: u8)
        ensures
            *final(self) == old(self).write_spec(addr, val),
    {
        let joyp = self.joyp;
        self.joyp = (self.joyp & 0xcf) | (val & 0x30);
        assert(((joyp & 0xcf) | (val & 0x30)) & 0xcf == 0xcf) by (bit_vector)
            requires
                joyp & 0xcf == 0xcf,
        ;
    }

    fn read(&self, addr: u16) -> (r: u8)
        ensures
            r == self.read_spec(addr),
    {
        // Direction keys selected
        if self.joyp & 0x10 == 0 {
            (self.joyp & 0xf0) | (self.key_state >> 4) & 0x0f
        // Button keys selected
        } else if self.joyp & 0x20 == 0 {
            (self.joyp & 0xf0) | self.key_state & 0x0f
        } else {
            self.joyp
        }
    }

    fn update(&mut self, tick: u8)
        ensures
            *final(self) == *old(self),
    {
    }
}

} // verus!
