use vstd::prelude::*;

use crate::bits::lemma_low_bits;
use crate::io_device::IODevice;

verus! {

/// Width of screen in pixels.
pub const SCREEN_W: u8 = 160;

/// Height of screen in pixels.
pub const SCREEN_H: u8 = 144;

/// Whether the background pixel under a sprite has colour number 0.
#[derive(Clone, Copy, Debug, PartialEq, Eq, Structural)]
pub enum BGPriority {
    Color0,
    Color123,
}

/// The LCD registers at 0xFF40-0xFF4B.
#[derive(Clone, Copy, Debug, PartialEq, Eq, Structural)]
pub struct LcdRegs {
    /// LCD Control
    pub lcdc: u8,
    /// Status
    pub stat: u8,
    /// Scroll Y
    pub scy: u8,
    /// Scroll X
    pub scx: u8,
    /// Y-Coordinate
    pub ly: u8,
    /// LY Compare
    pub lyc: u8,
    /// DMA Transfer and Start Address
    pub dma: u8,
    /// Background Palette Data
    pub bgp: u8,
    /// Object Palette 0 Data
    pub obp0: u8,
    /// Object Palette 1 Data
    pub obp1: u8,
    /// Window Y Position
    pub wy: u8,
    /// Window X Position minus 7
    pub wx: u8,
}

/// Pixel Processing Unit.
pub struct PPU {
    /// VRAM
    pub vram: Vec<u8>,
    /// OAM
    pub oam: Vec<u8>,
    /// LCD registers
    pub regs: LcdRegs,
    /// V-Blank interrupt request
    pub irq_vblank: bool,
    /// LCDC interrupt request
    pub irq_lcdc: bool,
    /// Elapsed clocks in current mode
    pub counter: u16,
    /// Frame buffer
    pub frame_buffer: Vec<u8>,
    /// Current scanline
    pub scanline: Vec<u8>,
    /// Background priority
    pub bg_prio: Vec<BGPriority>,
}

/// The mathematical state of the PPU.
pub struct PpuState {
    pub vram: Seq<u8>,
    pub oam: Seq<u8>,
    pub regs: LcdRegs,
    pub irq_vblank: bool,
    pub irq_lcdc: bool,
    pub counter: u16,
    pub frame_buffer: Seq<u8>,
    pub scanline: Seq<u8>,
    pub bg_prio: Seq<BGPriority>,
}

impl View for PPU {
    type V = PpuState;

    open spec fn view(&self) -> PpuState {
        PpuState {
            vram: self.vram@,
            oam: self.oam@,
            regs: self.regs,
            irq_vblank: self.irq_vblank,
            irq_lcdc: self.irq_lcdc,
            counter: self.counter,
            frame_buffer: self.frame_buffer@,
            scanline: self.scanline@,
            bg_prio: self.bg_prio@,
        }
    }
}

/// A tile number read as a signed offset.
pub open spec fn signed8(v: u8) -> int {
    if v < 128 {
        v as int
    } else {
        v - 256
    }
}

/// VRAM offset of row `offset_y` of a tile: unsigned numbering from 0x8000,
/// or signed numbering around 0x9000.
pub open spec fn tile_row_addr(tile_no: u8, offset_y: int, unsigned_sel: bool) -> int {
    (if unsigned_sel {
        16 * tile_no
    } else {
        0x1000 + 16 * signed8(tile_no)
    }) + 2 * offset_y
}

/// Colour number (0-3) of the pixel at bit `bitpos` of a tile row.
pub open spec fn color_no_of(lo: u8, hi: u8, bitpos: u8) -> u8 {
    (2 * ((hi >> bitpos) & 1) + ((lo >> bitpos) & 1)) as u8
}

/// Shade of a colour number through a palette.
pub open spec fn shade_of(color_no: u8, palette: u8) -> u8 {
    let v = (palette >> (2 * color_no) as u8) & 3;
    if v == 0 {
        0xff
    } else if v == 1 {
        0xaa
    } else if v == 2 {
        0x55
    } else {
        0x00
    }
}

/// The frame buffer with row `ly` replaced by a scanline.
pub open spec fn with_line(fb: Seq<u8>, ly: u8, line: Seq<u8>) -> Seq<u8> {
    Seq::new(
        fb.len(),
        |i: int|
            if 160 * ly <= i < 160 * ly + 160 {
                line[i - 160 * ly]
            } else {
                fb[i]
            },
    )
}

impl PpuState {
    /// The LCD mode held in STAT bits 1..0.
    pub open spec fn mode(self) -> u8 {
        self.regs.stat & 3
    }

    pub open spec fn lcd_on(self) -> bool {
        self.regs.lcdc & 0x80 != 0
    }

    /// Well formed: the buffers have their sizes, and the mode, line and
    /// clock agree with the state machine (a switched-off LCD rests in mode 0
    /// on line 0).
    pub open spec fn wf(self) -> bool {
        &&& self.vram.len() == 0x2000
        &&& self.oam.len() == 0xa0
        &&& self.frame_buffer.len() == 160 * 144
        &&& self.scanline.len() == 160
        &&& self.bg_prio.len() == 160
        &&& if self.lcd_on() {
            ||| (self.mode() == 2 && self.counter < 80 && self.regs.ly < 144)
            ||| (self.mode() == 3 && self.counter < 172 && self.regs.ly < 144)
            ||| (self.mode() == 0 && self.counter < 204 && self.regs.ly < 144)
            ||| (self.mode() == 1 && self.counter < 456 && 144 <= self.regs.ly < 154)
        } else {
            self.mode() == 0 && self.regs.ly == 0 && self.counter == 0
        }
    }

    /// Position within the frame in T-cycles, counted from the start of line 0.
    pub open spec fn frame_pos(self) -> int {
        456 * self.regs.ly + if self.mode() == 3 {
            80 + self.counter
        } else if self.mode() == 0 {
            252 + self.counter
        } else {
            self.counter as int
        }
    }

    /// What a PPU address reads: VRAM is hidden in mode 3, OAM in modes 2
    /// and 3.
    pub open spec fn read_spec(self, addr: u16) -> u8 {
        if 0x8000 <= addr <= 0x9fff {
            if self.mode() != 3 {
                self.vram[addr - 0x8000]
            } else {
                0xff
            }
        } else if 0xfe00 <= addr <= 0xfe9f {
            if self.mode() == 0 || self.mode() == 1 {
                self.oam[addr - 0xfe00]
            } else {
                0xff
            }
        } else if addr == 0xff40 {
            self.regs.lcdc
        } else if addr == 0xff41 {
            self.regs.stat
        } else if addr == 0xff42 {
            self.regs.scy
        } else if addr == 0xff43 {
            self.regs.scx
        } else if addr == 0xff44 {
            self.regs.ly
        } else if addr == 0xff45 {
            self.regs.lyc
        } else if addr == 0xff46 {
            self.regs.dma
        } else if addr == 0xff47 {
            self.regs.bgp
        } else if addr == 0xff48 {
            self.regs.obp0
        } else if addr == 0xff49 {
            self.regs.obp1
        } else if addr == 0xff4a {
            self.regs.wy
        } else {
            self.regs.wx
        }
    }

    /// The LYC=LY coincidence bit set or cleared, with an LCD interrupt
    /// request when it is set and its source is enabled.
    pub open spec fn lyc_check(self) -> PpuState {
        if self.regs.ly == self.regs.lyc {
            PpuState {
                regs: LcdRegs { stat: self.regs.stat | 4, ..self.regs },
                irq_lcdc: if self.regs.stat & 0x40 > 0 {
                    true
                } else {
                    self.irq_lcdc
                },
                ..self
            }
        } else {
            PpuState { regs: LcdRegs { stat: self.regs.stat & !4u8, ..self.regs }, ..self }
        }
    }

    /// An LCD interrupt request when the STAT source of the current mode is
    /// enabled.
    pub open spec fn mode_check(self) -> PpuState {
        let m = self.mode();
        let s = self.regs.stat;
        if (m == 0 && s & 0x8 > 0) || (m == 1 && s & 0x10 > 0) || (m == 2 && s & 0x20 > 0) {
            PpuState { irq_lcdc: true, ..self }
        } else {
            self
        }
    }

    /// What a write leaves. VRAM ignores writes in mode 3, OAM in modes 2 and
    /// 3, LY all writes; switching the LCD on or off restarts line 0 in mode
    /// 2 or rests in mode 0.
    pub open spec fn write_spec(self, addr: u16, val: u8) -> PpuState {
        let r = self.regs;
        if 0x8000 <= addr <= 0x9fff {
            if self.mode() != 3 {
                PpuState { vram: self.vram.update(addr - 0x8000, val), ..self }
            } else {
                self
            }
        } else if 0xfe00 <= addr <= 0xfe9f {
            if self.mode() == 0 || self.mode() == 1 {
                PpuState { oam: self.oam.update(addr - 0xfe00, val), ..self }
            } else {
                self
            }
        } else if addr == 0xff40 {
            let s = if r.lcdc & 0x80 != val & 0x80 {
                let mode: u8 = if val & 0x80 > 0 {
                    2
                } else {
                    0
                };
                PpuState {
                    regs: LcdRegs { ly: 0, stat: (r.stat & 0xf8) | mode, ..r },
                    counter: 0,
                    ..self
                }.mode_check()
            } else {
                self
            };
            PpuState { regs: LcdRegs { lcdc: val, ..s.regs }, ..s }
        } else if addr == 0xff41 {
            PpuState { regs: LcdRegs { stat: (val & 0xf8) | (r.stat & 0x3), ..r }, ..self }
        } else if addr == 0xff42 {
            PpuState { regs: LcdRegs { scy: val, ..r }, ..self }
        } else if addr == 0xff43 {
            PpuState { regs: LcdRegs { scx: val, ..r }, ..self }
        } else if addr == 0xff44 {
            self
        } else if addr == 0xff45 {
            if r.lyc != val {
                PpuState { regs: LcdRegs { lyc: val, ..r }, ..self }.lyc_check()
            } else {
                self
            }
        } else if addr == 0xff46 {
            PpuState { regs: LcdRegs { dma: val, ..r }, ..self }
        } else if addr == 0xff47 {
            PpuState { regs: LcdRegs { bgp: val, ..r }, ..self }
        } else if addr == 0xff48 {
            PpuState { regs: LcdRegs { obp0: val, ..r }, ..self }
        } else if addr == 0xff49 {
            PpuState { regs: LcdRegs { obp1: val, ..r }, ..self }
        } else if addr == 0xff4a {
            PpuState { regs: LcdRegs { wy: val, ..r }, ..self }
        } else {
            PpuState { regs: LcdRegs { wx: val, ..r }, ..self }
        }
    }

    /// Colour number of a tile pixel: map base and tile coordinates select
    /// the tile, offsets the pixel within it.
    pub open spec fn tile_pixel(self, map_base: int, tile_x: int, tile_y: int, offset_x: int, offset_y: int) -> u8 {
        let tile_no = self.vram[map_base + 32 * tile_y + tile_x];
        let row = tile_row_addr(tile_no, offset_y, self.regs.lcdc & 0x10 > 0);
        color_no_of(self.vram[row], self.vram[row + 1], (7 - offset_x) as u8)
    }

    /// Whether pixel `x` of the current line shows the window.
    pub open spec fn in_window(self, x: int) -> bool {
        let r = self.regs;
        r.lcdc & 0x20 > 0 && r.wy <= r.ly && 7 <= r.wx && r.wx <= x + 7
    }

    /// Colour number of background or window at pixel `x` of line LY.
    pub open spec fn bg_color_no(self, x: int) -> u8 {
        let r = self.regs;
        if self.in_window(x) {
            let wx = x + 7 - r.wx;
            let wy = r.ly - r.wy;
            let map_base = if r.lcdc & 0x40 > 0 {
                0x1c00
            } else {
                0x1800
            };
            self.tile_pixel(map_base, wx / 8, wy / 8, wx % 8, wy % 8)
        } else {
            let px = (r.scx + x) % 256;
            let py = (r.scy + r.ly) % 256;
            let map_base = if r.lcdc & 0x8 > 0 {
                0x1c00
            } else {
                0x1800
            };
            self.tile_pixel(map_base, px / 8, py / 8, px % 8, py % 8)
        }
    }

    /// The background and window layer of line LY, in shades.
    pub open spec fn bg_line(self) -> Seq<u8> {
        Seq::new(160, |x: int| shade_of(self.bg_color_no(x), self.regs.bgp))
    }

    /// Which pixels of line LY have background colour 0.
    pub open spec fn bg_prio_line(self) -> Seq<BGPriority> {
        Seq::new(
            160,
            |x: int|
                if self.bg_color_no(x) == 0 {
                    BGPriority::Color0
                } else {
                    BGPriority::Color123
                },
        )
    }

    pub open spec fn sprite_height(self) -> int {
        if self.regs.lcdc & 0x4 > 0 {
            16
        } else {
            8
        }
    }

    /// Whether OAM entry `i` crosses line LY.
    pub open spec fn sprite_on_line(self, i: int) -> bool {
        let y = self.oam[4 * i];
        self.regs.ly + 16 - self.sprite_height() < y && y <= self.regs.ly + 16
    }

    /// Whether OAM entry `i` lies within the screen horizontally.
    pub open spec fn sprite_x_ok(self, i: int) -> bool {
        let x = self.oam[4 * i + 1];
        x != 0 && x < 168
    }

    /// Tile number drawn for OAM entry `i` on line LY: a tall sprite uses its
    /// even tile for the upper half and the odd one for the lower, swapped when
    /// flipped vertically.
    pub open spec fn sprite_tile_no(self, i: int) -> u8 {
        let y = self.oam[4 * i];
        let t = self.oam[4 * i + 2];
        let flip_y = self.oam[4 * i + 3] & 0x40 > 0;
        if self.regs.lcdc & 0x4 > 0 {
            if (self.regs.ly + 8 < y) != flip_y {
                t & 0xfe
            } else {
                t | 0x01
            }
        } else {
            t
        }
    }

    /// Row of the tile of OAM entry `i` drawn on line LY.
    pub open spec fn sprite_offset_y(self, i: int) -> int {
        let o = (self.regs.ly + 16 - self.oam[4 * i]) % 8;
        if self.oam[4 * i + 3] & 0x40 > 0 {
            7 - o
        } else {
            o
        }
    }

    /// Colour number of pixel `offset_x` (0-7, left to right on screen) of
    /// OAM entry `i` on line LY.
    pub open spec fn sprite_color_no(self, i: int, offset_x: int) -> u8 {
        let flip_x = self.oam[4 * i + 3] & 0x20 > 0;
        let bitpos = if flip_x {
            offset_x
        } else {
            7 - offset_x
        };
        let row = tile_row_addr(self.sprite_tile_no(i), self.sprite_offset_y(i), true);
        color_no_of(self.vram[row], self.vram[row + 1], bitpos as u8)
    }

    /// Pixel `x` of `line` after drawing OAM entry `i` over it: colour 0 is
    /// transparent, and a sprite behind the background shows only over
    /// background colour 0.
    pub open spec fn sprite_pixel(self, i: int, line: Seq<u8>, x: int) -> u8 {
        let ox = x + 8 - self.oam[4 * i + 1];
        let flags = self.oam[4 * i + 3];
        let palette = if flags & 0x10 > 0 {
            self.regs.obp1
        } else {
            self.regs.obp0
        };
        if 0 <= ox < 8 {
            let c = self.sprite_color_no(i, ox);
            if c == 0 || (flags & 0x80 > 0 && self.bg_prio[x] == BGPriority::Color123) {
                line[x]
            } else {
                shade_of(c, palette)
            }
        } else {
            line[x]
        }
    }

    /// `line` with OAM entry `i` drawn over it.
    pub open spec fn draw_sprite(self, i: int, line: Seq<u8>) -> Seq<u8> {
        Seq::new(160, |x: int| self.sprite_pixel(i, line, x))
    }

    /// `line` with OAM entries `i..40` drawn over it in order, `n` sprites of
    /// line LY having been met before entry `i`: at most ten are met, and
    /// those off screen horizontally count but are not drawn.
    pub open spec fn sprites_from(self, i: int, n: int, line: Seq<u8>) -> Seq<u8>
        decreases 40 - i,
    {
        if i >= 40 || i < 0 {
            line
        } else if !self.sprite_on_line(i) {
            self.sprites_from(i + 1, n, line)
        } else if n + 1 > 10 {
            line
        } else if !self.sprite_x_ok(i) {
            self.sprites_from(i + 1, n + 1, line)
        } else {
            self.sprites_from(i + 1, n + 1, self.draw_sprite(i, line))
        }
    }

    /// Line LY rendered into the frame buffer: background and window when
    /// LCDC bit 0 is set, then sprites when LCDC bit 1 is set.
    pub open spec fn render_spec(self) -> PpuState {
        let s1 = if self.regs.lcdc & 0x1 > 0 {
            PpuState { scanline: self.bg_line(), bg_prio: self.bg_prio_line(), ..self }
        } else {
            self
        };
        let s2 = if self.regs.lcdc & 0x2 > 0 {
            PpuState { scanline: s1.sprites_from(0, 0, s1.scanline), ..s1 }
        } else {
            s1
        };
        PpuState { frame_buffer: with_line(s2.frame_buffer, s2.regs.ly, s2.scanline), ..s2 }
    }

    /// The PPU after `tick` T-cycles: OAM search (80), pixel transfer (172,
    /// rendering the line on entry), H-Blank (204), then the next line; after
    /// line 143 ten V-Blank lines of 456 cycles each.
    pub open spec fn update_spec(self, tick: u8) -> PpuState {
        let r = self.regs;
        let c = self.counter + tick;
        if !self.lcd_on() {
            self
        } else if self.mode() == 2 {
            if c >= 80 {
                PpuState {
                    regs: LcdRegs { stat: (r.stat & 0xf8) | 3, ..r },
                    counter: (c - 80) as u16,
                    ..self
                }.render_spec()
            } else {
                PpuState { counter: c as u16, ..self }
            }
        } else if self.mode() == 3 {
            if c >= 172 {
                PpuState {
                    regs: LcdRegs { stat: r.stat & 0xf8, ..r },
                    counter: (c - 172) as u16,
                    ..self
                }.mode_check()
            } else {
                PpuState { counter: c as u16, ..self }
            }
        } else if self.mode() == 0 {
            if c >= 204 {
                let ly = (r.ly + 1) as u8;
                if ly >= 144 {
                    PpuState {
                        regs: LcdRegs { stat: (r.stat & 0xf8) | 1, ly, ..r },
                        irq_vblank: true,
                        counter: (c - 204) as u16,
                        ..self
                    }.lyc_check().mode_check()
                } else {
                    PpuState {
                        regs: LcdRegs { stat: (r.stat & 0xf8) | 2, ly, ..r },
                        counter: (c - 204) as u16,
                        ..self
                    }.lyc_check().mode_check()
                }
            } else {
                PpuState { counter: c as u16, ..self }
            }
        } else {
            if c >= 456 {
                let ly = (r.ly + 1) as u8;
                if ly >= 154 {
                    PpuState {
                        regs: LcdRegs { stat: (r.stat & 0xf8) | 2, ly: 0, ..r },
                        counter: (c - 456) as u16,
                        ..self
                    }.mode_check().lyc_check()
                } else {
                    PpuState {
                        regs: LcdRegs { ly, ..r },
                        counter: (c - 456) as u16,
                        ..self
                    }.lyc_check()
                }
            } else {
                PpuState { counter: c as u16, ..self }
            }
        }
    }
}

/// The coincidence and mode checks change only STAT bit 2 and the LCD
/// interrupt request.
pub proof fn lemma_checks(s: PpuState)
    ensures
        s.lyc_check().mode() == s.mode(),
        s.lyc_check() == (PpuState {
            regs: LcdRegs { stat: s.lyc_check().regs.stat, ..s.regs },
            irq_lcdc: s.lyc_check().irq_lcdc,
            ..s
        }),
        s.mode_check() == (PpuState { irq_lcdc: s.mode_check().irq_lcdc, ..s }),
{
    lemma_low_bits(0, s.regs.stat, 0, 0);
}

/// Drawing sprites keeps a scanline's length.
pub proof fn lemma_sprites_len(s: PpuState, i: int, n: int, line: Seq<u8>)
    requires
        line.len() == 160,
    ensures
        s.sprites_from(i, n, line).len() == 160,
    decreases 40 - i,
{
    if i >= 40 || i < 0 {
    } else if !s.sprite_on_line(i) {
        lemma_sprites_len(s, i + 1, n, line);
    } else if n + 1 > 10 {
    } else if !s.sprite_x_ok(i) {
        lemma_sprites_len(s, i + 1, n + 1, line);
    } else {
        lemma_sprites_len(s, i + 1, n + 1, s.draw_sprite(i, line));
    }
}

/// Rendering a line changes only the scanline, the background priorities
/// and the frame buffer, and keeps their sizes.
pub proof fn lemma_render(s: PpuState)
    requires
        s.wf(),
    ensures
        s.render_spec() == (PpuState {
            scanline: s.render_spec().scanline,
            bg_prio: s.render_spec().bg_prio,
            frame_buffer: s.render_spec().frame_buffer,
            ..s
        }),
        s.render_spec().wf(),
{
    let s1 = if s.regs.lcdc & 0x1 > 0 {
        PpuState { scanline: s.bg_line(), bg_prio: s.bg_prio_line(), ..s }
    } else {
        s
    };
    lemma_sprites_len(s1, 0, 0, s1.scanline);
}

/// Frame timing: with the LCD on, every update moves the position within
/// the frame on by exactly the T-cycles given, modulo one frame of 70224
/// cycles, and LY returns to 0 exactly when that position wraps. So the
/// cycles handed to the PPU between two returns to line 0 add up to one frame.
pub proof fn lemma_frame_timing(s: PpuState, tick: u8)
    requires
        s.wf(),
        s.lcd_on(),
        tick <= 24,
    ensures
        s.update_spec(tick).wf(),
        s.update_spec(tick).lcd_on(),
        s.update_spec(tick).frame_pos() == (s.frame_pos() + tick) % 70224,
        (s.update_spec(tick).regs.ly < s.regs.ly) <==> s.frame_pos() + tick >= 70224,
        0 <= s.frame_pos() < 70224,
{
    let r = s.regs;
    let c = s.counter + tick;
    lemma_low_bits(0, r.stat, 3, 0);
    lemma_low_bits(0, r.stat, 2, 0);
    lemma_low_bits(0, r.stat, 1, 0);
    if s.mode() == 2 {
        if c >= 80 {
            let t = PpuState {
                regs: LcdRegs { stat: (r.stat & 0xf8) | 3, ..r },
                counter: (c - 80) as u16,
                ..s
            };
            lemma_render(t);
        }
    } else if s.mode() == 3 {
        if c >= 172 {
            let t = PpuState {
                regs: LcdRegs { stat: r.stat & 0xf8, ..r },
                counter: (c - 172) as u16,
                ..s
            };
            lemma_checks(t);
        }
    } else if s.mode() == 0 {
        if c >= 204 {
            let ly = (r.ly + 1) as u8;
            if ly >= 144 {
                let t = PpuState {
                    regs: LcdRegs { stat: (r.stat & 0xf8) | 1, ly, ..r },
                    irq_vblank: true,
                    counter: (c - 204) as u16,
                    ..s
                };
                lemma_checks(t);
                lemma_checks(t.lyc_check());
            } else {
                let t = PpuState {
                    regs: LcdRegs { stat: (r.stat & 0xf8) | 2, ly, ..r },
                    counter: (c - 204) as u16,
                    ..s
                };
                lemma_checks(t);
                lemma_checks(t.lyc_check());
            }
        }
    } else {
        if c >= 456 {
            let ly = (r.ly + 1) as u8;
            if ly >= 154 {
                let t = PpuState {
                    regs: LcdRegs { stat: (r.stat & 0xf8) | 2, ly: 0, ..r },
                    counter: (c - 456) as u16,
                    ..s
                };
                lemma_checks(t);
                lemma_checks(t.mode_check());
            } else {
                let t = PpuState { regs: LcdRegs { ly, ..r }, counter: (c - 456) as u16, ..s };
                lemma_checks(t);
            }
        }
    }
}

impl PPU {
    pub open spec fn wf(&self) -> bool {
        self@.wf()
    }

    // VRAM map
    // 0x0000-0x07ff: Tile set #1
    // 0x0800-0x0fff: Tile set #2
    // 0x1000-0x17ff: Tile set #3
    // 0x1800-0x1bff: Tile map #1
    // 0x1c00-0x1fff: Tile map #2
    /// The LCD registers at power-on: LCD on, OAM search mode, the rest zero.
    pub open spec fn new_regs() -> LcdRegs {
        LcdRegs {
            lcdc: 0x80,
            stat: 0x02,
            scy: 0,
            scx: 0,
            ly: 0,
            lyc: 0,
            dma: 0,
            bgp: 0,
            obp0: 0,
            obp1: 0,
            wy: 0,
            wx: 0,
        }
    }

    /// Creates a new `PPU`: LCD on, line 0 in OAM search, memories cleared.
    pub fn new() -> (r: Self)
        ensures
            r.wf(),
            r.regs == PPU::new_regs(),
            !r.irq_vblank && !r.irq_lcdc && r.counter == 0,
            forall|i: int| 0 <= i < 0x2000 ==> r.vram@[i] == 0,
            forall|i: int| 0 <= i < 0xa0 ==> r.oam@[i] == 0,
            forall|i: int| 0 <= i < 160 * 144 ==> r.frame_buffer@[i] == 0,
    {
        let vram = vec![0u8; 0x2000];
        let oam = vec![0u8; 0xa0];
        let frame_buffer = vec![0u8; (SCREEN_W as usize) * (SCREEN_H as usize)];
        proof {
            assert forall|i: int| 0 <= i < 0x2000 implies vram@[i] == 0 by {
                assert(cloned(0u8, vram@[i]));
            }
            assert forall|i: int| 0 <= i < 0xa0 implies oam@[i] == 0 by {
                assert(cloned(0u8, oam@[i]));
            }
            assert forall|i: int| 0 <= i < 160 * 144 implies frame_buffer@[i] == 0 by {
                assert(cloned(0u8, frame_buffer@[i]));
            }
            assert(0x80u8 & 0x80 != 0 && 0x02u8 & 3 == 2) by (bit_vector);
        }
        PPU {
            vram,
            oam,
            regs: LcdRegs {
                lcdc: 0x80,
                stat: 0x02,
                scy: 0,
                scx: 0,
                ly: 0,
                lyc: 0,
                dma: 0,
                bgp: 0,
                obp0: 0,
                obp1: 0,
                wy: 0,
                wx: 0,
            },
            irq_vblank: false,
            irq_lcdc: false,
            counter: 0,
            scanline: vec![0; SCREEN_W as usize],
            frame_buffer,
            bg_prio: vec![BGPriority::Color0; SCREEN_W as usize],
        }
    }

    /// Fetches tile data from VRAM.
    fn fetch_tile(&self, tile_no: u8, offset_y: u8, tile_data_sel: bool) -> (r: (u8, u8))
        requires
            self.wf(),
            offset_y < 8,
        ensures
            r.0 == self.vram@[tile_row_addr(tile_no, offset_y as int, tile_data_sel)],
            r.1 == self.vram@[tile_row_addr(tile_no, offset_y as int, tile_data_sel) + 1],
    {
        // Fetch tile data from tile set
        let tile_data_addr: u16 = if tile_data_sel {
            // Use tile set #1 (0x0000-0x07ff) and #2 (0x0800-0x0fff)
            (tile_no as u16) * 16
        } else if tile_no < 128 {
            // Use tile set #2 (0x0800-0x0fff) and #3 (0x1000-0x17ff)
            0x1000 + (tile_no as u16) * 16
        } else {
            // 0x1000 + 16 * (tile_no - 256)
            (tile_no as u16) * 16
        };
        let row_addr = tile_data_addr + (offset_y as u16) * 2;

        let tile0 = self.vram[row_addr as usize];
        let tile1 = self.vram[(row_addr + 1) as usize];

        (tile0, tile1)
    }

    /// Fetches BG or Window tile data from VRAM.
    fn fetch_bg_window_tile(&self, tile_x: u8, tile_y: u8, offset_y: u8, tile_map_base: u16) -> (r: (
        u8,
        u8,
    ))
        requires
            self.wf(),
            tile_x < 32,
            tile_y < 32,
            offset_y < 8,
            tile_map_base == 0x1800 || tile_map_base == 0x1c00,
        ensures
            ({
                let tile_no = self.vram@[tile_map_base + 32 * tile_y + tile_x];
                let row = tile_row_addr(tile_no, offset_y as int, self.regs.lcdc & 0x10 > 0);
                r == (self.vram@[row], self.vram@[row + 1])
            }),
    {
        // Fetch tile index from tile map
        let tile_map_addr = tile_map_base + (tile_y as u16) * 32 + tile_x as u16;
        let tile_no = self.vram[tile_map_addr as usize];

        self.fetch_tile(tile_no, offset_y, self.regs.lcdc & 0x10 > 0)
    }

    /// Fetches BG tile data from VRAM.
    fn fetch_bg_tile(&self, tile_x: u8, tile_y: u8, offset_y: u8) -> (r: (u8, u8))
        requires
            self.wf(),
            tile_x < 32,
            tile_y < 32,
            offset_y < 8,
        ensures
            ({
                let base: int = if self.regs.lcdc & 0x8 > 0 {
                    0x1c00
                } else {
                    0x1800
                };
                let tile_no = self.vram@[base + 32 * tile_y + tile_x];
                let row = tile_row_addr(tile_no, offset_y as int, self.regs.lcdc & 0x10 > 0);
                r == (self.vram@[row], self.vram@[row + 1])
            }),
    {
        // Fetch tile index from tile map
        let tile_map_base = if self.regs.lcdc & 0x8 > 0 {
            0x1c00
        } else {
            0x1800
        };

        self.fetch_bg_window_tile(tile_x, tile_y, offset_y, tile_map_base)
    }

    /// Fetches Window tile data from VRAM.
    fn fetch_window_tile(&self, tile_x: u8, tile_y: u8, offset_y: u8) -> (r: (u8, u8))
        requires
            self.wf(),
            tile_x < 32,
            tile_y < 32,
            offset_y < 8,
        ensures
            ({
                let base: int = if self.regs.lcdc & 0x40 > 0 {
                    0x1c00
                } else {
                    0x1800
                };
                let tile_no = self.vram@[base + 32 * tile_y + tile_x];
                let row = tile_row_addr(tile_no, offset_y as int, self.regs.lcdc & 0x10 > 0);
                r == (self.vram@[row], self.vram@[row + 1])
            }),
    {
        // Fetch tile index from tile map
        let tile_map_base = if self.regs.lcdc & 0x40 > 0 {
            0x1c00
        } else {
            0x1800
        };

        self.fetch_bg_window_tile(tile_x, tile_y, offset_y, tile_map_base)
    }

    /// Converts color number to brightness using palette.
    fn map_color(&self, color_no: u8, palette: u8) -> (r: u8)
        requires
            color_no <= 3,
        ensures
            r == shade_of(color_no, palette),
    {
        match (palette >> (color_no * 2)) & 0x3 {
            0 => 0xff,
            1 => 0xaa,
            2 => 0x55,
            _ => 0x00,
        }
    }

    /// Returns the color number at a given position from tile data.
    fn get_color_no(&self, tile: (u8, u8), bitpos: u8) -> (r: u8)
        requires
            bitpos < 8,
        ensures
            r == color_no_of(tile.0, tile.1, bitpos),
            r <= 3,
    {
        proof {
            lemma_low_bits(0, tile.0, 0, bitpos);
            lemma_low_bits(0, tile.1, 0, bitpos);
        }
        let lo_bit = tile.0 >> bitpos & 1;
        let hi_bit = tile.1 >> bitpos & 1;

        hi_bit * 2 + lo_bit
    }

    /// Colour number of background or window at pixel `x` of line LY.
    fn bg_color_no(&self, x: u8) -> (r: u8)
        requires
            self.wf(),
            x < 160,
        ensures
            r == self@.bg_color_no(x as int),
            r <= 3,
    {
        // Check if window is enabled and has started on this line
        if self.regs.lcdc & 0x20 > 0 && self.regs.wy <= self.regs.ly && 7 <= self.regs.wx
            && self.regs.wx as u16 <= x as u16 + 7 {
            let wx = x + 7 - self.regs.wx;
            let wy = self.regs.ly - self.regs.wy;
            let tile = self.fetch_window_tile(wx / 8, wy / 8, wy % 8);
            self.get_color_no(tile, 7 - wx % 8)
        } else {
            let px = self.regs.scx.wrapping_add(x);
            let py = self.regs.scy.wrapping_add(self.regs.ly);
            proof {
                assert(px as int == (self.regs.scx + x) % 256);
                assert(py as int == (self.regs.scy + self.regs.ly) % 256);
            }
            let tile = self.fetch_bg_tile(px / 8, py / 8, py % 8);
            self.get_color_no(tile, 7 - px % 8)
        }
    }

    /// Renders BG.
    fn render_bg(&mut self)
        requires
            old(self).wf(),
        ensures
            final(self)@ == (PpuState {
                scanline: old(self)@.bg_line(),
                bg_prio: old(self)@.bg_prio_line(),
                ..old(self)@
            }),
    {
        let ghost s0 = self@;
        let mut x: u8 = 0;
        while x < SCREEN_W
            invariant
                x <= 160,
                s0.wf(),
                self@ == (PpuState { scanline: self.scanline@, bg_prio: self.bg_prio@, ..s0 }),
                self.scanline@.len() == 160,
                self.bg_prio@.len() == 160,
                forall|i: int| 0 <= i < x ==> self.scanline@[i] == s0.bg_line()[i],
                forall|i: int| 0 <= i < x ==> self.bg_prio@[i] == s0.bg_prio_line()[i],
            decreases 160 - x,
        {
            let color_no = self.bg_color_no(x);
            let color = self.map_color(color_no, self.regs.bgp);

            self.bg_prio.set(
                x as usize,
                if color_no == 0 {
                    BGPriority::Color0
                } else {
                    BGPriority::Color123
                },
            );
            self.scanline.set(x as usize, color);
            x += 1;
        }
        proof {
            assert(self.scanline@ =~= s0.bg_line());
            assert(self.bg_prio@ =~= s0.bg_prio_line());
        }
    }

    /// Renders sprites.
    fn render_sprites(&mut self)
        requires
            old(self).wf(),
            old(self).regs.ly < 144,
        ensures
            final(self)@ == (PpuState {
                scanline: old(self)@.sprites_from(0, 0, old(self)@.scanline),
                ..old(self)@
            }),
    {
        let ghost s0 = self@;
        let mut n_sprites: u8 = 0;
        let height: u16 = if self.regs.lcdc & 0x4 > 0 {
            16
        } else {
            8
        };
        let ly = self.regs.ly;

        let mut i: usize = 0;
        while i < 40
            invariant
                i <= 40,
                n_sprites <= 10,
                s0.wf(),
                ly == s0.regs.ly,
                ly < 144,
                height == s0.sprite_height(),
                self@ == (PpuState { scanline: self.scanline@, ..s0 }),
                self.scanline@.len() == 160,
                s0.sprites_from(i as int, n_sprites as int, self.scanline@) == s0.sprites_from(
                    0,
                    0,
                    s0.scanline,
                ),
            ensures
                self@ == (PpuState { scanline: s0.sprites_from(0, 0, s0.scanline), ..s0 }),
            decreases 40 - i,
        {
            // Parse OAM entry
            let entry_addr = i * 4;
            let sprite_y = self.oam[entry_addr];
            let sprite_x = self.oam[entry_addr + 1];
            let flags = self.oam[entry_addr + 3];

            let obj_prio = flags & 0x80 > 0;
            let flip_y = flags & 0x40 > 0;
            let flip_x = flags & 0x20 > 0;
            let palette = if flags & 0x10 > 0 {
                self.regs.obp1
            } else {
                self.regs.obp0
            };

            // Check if sprite is visible on this scanline
            if sprite_y as u16 <= ly as u16 + 16 - height || sprite_y as u16 > ly as u16 + 16 {
                i += 1;
                continue;
            }
            // Up to 10 sprites can be rendered on one scanline
            if n_sprites >= 10 {
                break;
            }
            n_sprites += 1;

            // Check if sprite is within the screen
            if sprite_x == 0 || sprite_x > SCREEN_W + 8 - 1 {
                i += 1;
                continue;
            }
            // Tile number
            let tile_no = if self.regs.lcdc & 0x4 > 0 {
                // 8x16 sprite
                if (ly as u16 + 8 < sprite_y as u16) != flip_y {
                    self.oam[entry_addr + 2] & 0xfe
                } else {
                    self.oam[entry_addr + 2] | 0x01
                }
            } else {
                // 8x8 sprite
                self.oam[entry_addr + 2]
            };

            // Y-offset within the tile
            let row = (ly + 16 - sprite_y) % 8;
            let offset_y = if flip_y {
                7 - row
            } else {
                row
            };

            // Fetch tile data
            let tile = self.fetch_tile(tile_no, offset_y, true);
            let ghost line0 = self.scanline@;
            proof {
                assert(tile_no == s0.sprite_tile_no(i as int));
                assert(offset_y == s0.sprite_offset_y(i as int));
            }

            let mut offset_x: u8 = 0;
            while offset_x < 8
                invariant
                    offset_x <= 8,
                    s0.wf(),
                    i < 40,
                    sprite_x == s0.oam[4 * i + 1],
                    sprite_x < 168,
                    flags == s0.oam[4 * i + 3],
                    obj_prio == (flags & 0x80 > 0),
                    flip_x == (flags & 0x20 > 0),
                    palette == (if flags & 0x10 > 0 {
                        s0.regs.obp1
                    } else {
                        s0.regs.obp0
                    }),
                    tile.0 == s0.vram[tile_row_addr(s0.sprite_tile_no(i as int), s0.sprite_offset_y(i as int), true)],
                    tile.1 == s0.vram[tile_row_addr(s0.sprite_tile_no(i as int), s0.sprite_offset_y(i as int), true) + 1],
                    line0.len() == 160,
                    self@ == (PpuState { scanline: self.scanline@, ..s0 }),
                    self.scanline@ == Seq::new(
                        160,
                        |x: int|
                            if x + 8 - sprite_x < offset_x {
                                s0.sprite_pixel(i as int, line0, x)
                            } else {
                                line0[x]
                            },
                    ),
                decreases 8 - offset_x,
            {
                if offset_x + sprite_x >= 8 {
                    let x = offset_x + sprite_x - 8;
                    // Pixels past the right edge are not drawn
                    if x < SCREEN_W {
                        let bitpos = if flip_x {
                            offset_x
                        } else {
                            7 - offset_x
                        };
                        let color_no = self.get_color_no(tile, bitpos);
                        if color_no != 0 && !(self.bg_prio[x as usize] == BGPriority::Color123
                            && obj_prio) {
                            let color = self.map_color(color_no, palette);
                            self.scanline.set(x as usize, color);
                        }
                    }
                }
                proof {
                    assert(self.scanline@ =~= Seq::new(
                        160,
                        |x: int|
                            if x + 8 - sprite_x < offset_x + 1 {
                                s0.sprite_pixel(i as int, line0, x)
                            } else {
                                line0[x]
                            },
                    ));
                }
                offset_x += 1;
            }
            proof {
                assert(self.scanline@ =~= s0.draw_sprite(i as int, line0));
            }
            i += 1;
        }
    }
}

impl PPU {
    /// Renders a scanline.
    fn render_scanline(&mut self)
        requires
            old(self).wf(),
            old(self).regs.ly < 144,
        ensures
            final(self)@ == old(self)@.render_spec(),
    {
        if self.regs.lcdc & 0x1 > 0 {
            self.render_bg();
        }
        if self.regs.lcdc & 0x2 > 0 {
            proof {
                lemma_sprites_len(self@, 0, 0, self.scanline@);
            }
            self.render_sprites();
        }
        let ghost s2 = self@;
        let base: usize = (self.regs.ly as usize) * (SCREEN_W as usize);
        let mut x: usize = 0;
        while x < SCREEN_W as usize
            invariant
                x <= 160,
                base == 160 * s2.regs.ly,
                s2.regs.ly < 144,
                s2.frame_buffer.len() == 160 * 144,
                s2.scanline.len() == 160,
                self@ == (PpuState { frame_buffer: self.frame_buffer@, ..s2 }),
                self.frame_buffer@.len() == 160 * 144,
                forall|i: int|
                    0 <= i < 160 * 144 ==> self.frame_buffer@[i] == if base <= i < base + x {
                        s2.scanline[i - base]
                    } else {
                        s2.frame_buffer[i]
                    },
            decreases 160 - x,
        {
            let ix = x + base;
            let v = self.scanline[x];
            self.frame_buffer.set(ix, v);
            x += 1;
        }
        proof {
            assert(self.frame_buffer@ =~= with_line(s2.frame_buffer, s2.regs.ly, s2.scanline));
        }
    }

    /// Returns the current contents of the frame buffer: 144 rows of 160
    /// shades.
    pub fn frame_buffer(&self) -> (r: &[u8])
        ensures
            r@ == self.frame_buffer@,
    {
        self.frame_buffer.as_slice()
    }

    /// The LCD mode: 0 H-Blank, 1 V-Blank, 2 OAM search, 3 pixel transfer.
    pub fn mode(&self) -> (r: u8)
        ensures
            r == self@.mode(),
            r <= 3,
    {
        proof {
            lemma_low_bits(0, self.regs.stat, 0, 0);
        }
        self.regs.stat & 0x3
    }

    /// Checks LYC interrupt.
    fn update_lyc_interrupt(&mut self)
        ensures
            final(self)@ == old(self)@.lyc_check(),
    {
        // LYC=LY coincidence interrupt
        if self.regs.ly == self.regs.lyc {
            self.regs.stat = self.regs.stat | 0x4;
            if self.regs.stat & 0x40 > 0 {
                self.irq_lcdc = true;
            }
            proof {
                let st = old(self).regs.stat;
                assert((st | 4) & 0x40 == st & 0x40) by (bit_vector);
            }
        } else {
            self.regs.stat = self.regs.stat & !0x4;
        }
    }

    /// Checks LCD mode interrupt.
    fn update_mode_interrupt(&mut self)
        ensures
            final(self)@ == old(self)@.mode_check(),
    {
        // Mode interrupts
        match self.regs.stat & 0x3 {
            // H-Blank interrupt
            0 => {
                if self.regs.stat & 0x8 > 0 {
                    self.irq_lcdc = true;
                }
            },
            // V-Blank interrupt
            1 => {
                if self.regs.stat & 0x10 > 0 {
                    self.irq_lcdc = true;
                }
            },
            // OAM Search interrupt
            2 => {
                if self.regs.stat & 0x20 > 0 {
                    self.irq_lcdc = true;
                }
            },
            _ => {},
        }
    }
}

impl IODevice for PPU {
    open spec fn io_wf(&self) -> bool {
        self.wf()
    }

    open spec fn maps(&self, addr: u16) -> bool {
        (0x8000 <= addr <= 0x9fff) || (0xfe00 <= addr <= 0xfe9f) || (0xff40 <= addr <= 0xff4b)
    }

    fn write(&mut self, addr: u16, val: u8)
        ensures
            final(self)@ == old(self)@.write_spec(addr, val),
    {
        let ghost s0 = self@;
        proof {
            lemma_low_bits(val, s0.regs.stat, 2, 0);
            lemma_low_bits(val, s0.regs.stat, 0, 0);
            lemma_checks(s0);
        }
        match addr {
            // VRAM
            0x8000..=0x9fff => {
                // VRAM is inaccessible during pixel transfer
                if self.regs.stat & 0x3 != 3 {
                    self.vram.set((addr - 0x8000) as usize, val);
                }
            },
            // OAM
            0xfe00..=0xfe9f => {
                // OAM is only accessible during H-Blank and V-Blank
                if self.regs.stat & 0x3 == 0 || self.regs.stat & 0x3 == 1 {
                    self.oam.set((addr - 0xfe00) as usize, val);
                }
            },
            // IO registers
            0xff40 => {
                if self.regs.lcdc & 0x80 != val & 0x80 {
                    self.regs.ly = 0;
                    self.counter = 0;

                    let mode: u8 = if val & 0x80 > 0 {
                        2
                    } else {
                        0
                    };
                    self.regs.stat = (self.regs.stat & 0xf8) | mode;
                    self.update_mode_interrupt();
                }
                self.regs.lcdc = val;
            },
            0xff41 => self.regs.stat = (val & 0xf8) | (self.regs.stat & 0x3),
            0xff42 => self.regs.scy = val,
            0xff43 => self.regs.scx = val,
            0xff44 => {},
            0xff45 => {
                if self.regs.lyc != val {
                    self.regs.lyc = val;
                    self.update_lyc_interrupt();
                }
            },
            0xff46 => self.regs.dma = val,
            0xff47 => self.regs.bgp = val,
            0xff48 => self.regs.obp0 = val,
            0xff49 => self.regs.obp1 = val,
            0xff4a => self.regs.wy = val,
            _ => self.regs.wx = val,
        }
        proof {
            if addr == 0xff40 && s0.regs.lcdc & 0x80 != val & 0x80 {
                let mode: u8 = if val & 0x80 > 0 {
                    2
                } else {
                    0
                };
                let t = PpuState {
                    regs: LcdRegs { ly: 0, stat: (s0.regs.stat & 0xf8) | mode, ..s0.regs },
                    counter: 0,
                    ..s0
                };
                lemma_checks(t);
                assert(val & 0x80 > 0 <==> val & 0x80 != 0);
            }
            if addr == 0xff45 && s0.regs.lyc != val {
                lemma_checks(PpuState { regs: LcdRegs { lyc: val, ..s0.regs }, ..s0 });
            }
        }
    }

    fn read(&self, addr: u16) -> (r: u8)
        ensures
            r == self@.read_spec(addr),
    {
        match addr {
            // VRAM
            0x8000..=0x9fff => {
                // VRAM is inaccessible during pixel transfer
                if self.regs.stat & 0x3 != 3 {
                    self.vram[(addr - 0x8000) as usize]
                } else {
                    0xff
                }
            },
            // OAM
            0xfe00..=0xfe9f => {
                // OAM is only accessible during H-Blank and V-Blank
                if self.regs.stat & 0x3 == 0 || self.regs.stat & 0x3 == 1 {
                    self.oam[(addr - 0xfe00) as usize]
                } else {
                    0xff
                }
            },
            // IO registers
            0xff40 => self.regs.lcdc,
            0xff41 => self.regs.stat,
            0xff42 => self.regs.scy,
            0xff43 => self.regs.scx,
            0xff44 => self.regs.ly,
            0xff45 => self.regs.lyc,
            0xff46 => self.regs.dma,
            0xff47 => self.regs.bgp,
            0xff48 => self.regs.obp0,
            0xff49 => self.regs.obp1,
            0xff4a => self.regs.wy,
            _ => self.regs.wx,
        }
    }

    fn update(&mut self, tick: u8)
        ensures
            final(self)@ == old(self)@.update_spec(tick),
            old(self)@.lcd_on() ==> final(self)@.frame_pos() == (old(self)@.frame_pos() + tick)
                % 70224,
    {
        let ghost s0 = self@;
        if self.regs.lcdc & 0x80 == 0 {
            return;
        }
        proof {
            lemma_frame_timing(s0, tick);
            lemma_low_bits(0, s0.regs.stat, 3, 0);
            lemma_low_bits(0, s0.regs.stat, 2, 0);
            lemma_low_bits(0, s0.regs.stat, 1, 0);
        }
        self.counter += tick as u16;

        match self.regs.stat & 0x3 {
            // OAM Search (80 clocks)
            2 => {
                if self.counter >= 80 {
                    self.counter -= 80;
                    // Transition to Pixel Transfer mode
                    self.regs.stat = (self.regs.stat & 0xf8) | 3;
                    self.render_scanline();
                }
            },
            // Pixel Transfer (172 clocks)
            3 => {
                if self.counter >= 172 {
                    self.counter -= 172;
                    // Transition to H-Blank mode
                    self.regs.stat = self.regs.stat & 0xf8;
                    self.update_mode_interrupt();
                }
            },
            // H-Blank (204 clocks)
            0 => {
                if self.counter >= 204 {
                    self.counter -= 204;
                    self.regs.ly += 1;

                    if self.regs.ly >= SCREEN_H {
                        // Transition to V-Blank mode
                        self.regs.stat = (self.regs.stat & 0xf8) | 1;
                        self.irq_vblank = true;
                    } else {
                        // Transition to OAM Search mode
                        self.regs.stat = (self.regs.stat & 0xf8) | 2;
                    }

                    self.update_lyc_interrupt();
                    self.update_mode_interrupt();
                }
            },
            // V-Blank (4560 clocks or 10 lines)
            _ => {
                if self.counter >= 456 {
                    self.counter -= 456;
                    self.regs.ly += 1;

                    if self.regs.ly >= 154 {
                        // Transition to OAM Search mode
                        self.regs.stat = (self.regs.stat & 0xf8) | 2;
                        self.regs.ly = 0;

                        self.update_mode_interrupt();
                    }

                    self.update_lyc_interrupt();
                }
            },
        }
    }
}

/// The PPU after a run of updates, one per entry of `ticks`, in order.
pub open spec fn run_updates(s: PpuState, ticks: Seq<u8>) -> PpuState
    decreases ticks.len(),
{
    if ticks.len() == 0 {
        s
    } else {
        run_updates(s, ticks.drop_last()).update_spec(ticks.last())
    }
}

/// The T-cycles of a run of updates in all.
pub open spec fn total_ticks(ticks: Seq<u8>) -> int
    decreases ticks.len(),
{
    if ticks.len() == 0 {
        0
    } else {
        total_ticks(ticks.drop_last()) + ticks.last()
    }
}

/// Frame length over a run of updates: with the LCD on, the position within
/// the frame moves on by the T-cycles of the whole run, modulo one frame of
/// 70224 cycles. A run that starts and ends at the same position of the
/// frame, such as two successive starts of line 0, spends a whole number of
/// frames.
pub proof fn lemma_frame_length(s: PpuState, ticks: Seq<u8>)
    requires
        s.wf(),
        s.lcd_on(),
        forall|i: int| 0 <= i < ticks.len() ==> ticks[i] <= 24,
    ensures
        run_updates(s, ticks).wf(),
        run_updates(s, ticks).lcd_on(),
        run_updates(s, ticks).frame_pos() == (s.frame_pos() + total_ticks(ticks)) % 70224,
    decreases ticks.len(),
{
    if ticks.len() == 0 {
        lemma_frame_timing(s, 0);
        vstd::arithmetic::div_mod::lemma_small_mod(s.frame_pos() as nat, 70224);
    } else {
        let init = ticks.drop_last();
        assert forall|i: int| 0 <= i < init.len() implies init[i] <= 24 by {
            assert(init[i] == ticks[i]);
        }
        lemma_frame_length(s, init);
        let p = run_updates(s, init);
        let t = ticks.last();
        assert(t <= 24) by {
            assert(t == ticks[ticks.len() - 1]);
        }
        lemma_frame_timing(p, t);
        vstd::arithmetic::div_mod::lemma_add_mod_noop(
            s.frame_pos() + total_ticks(init),
            t as int,
            70224,
        );
        vstd::arithmetic::div_mod::lemma_small_mod(t as nat, 70224);
        vstd::arithmetic::div_mod::lemma_mod_twice(s.frame_pos() + total_ticks(init), 70224);
    }
}

} // verus!
