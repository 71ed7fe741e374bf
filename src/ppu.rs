//! The pixel processing unit: VRAM, OAM, the LCD registers, the per-line
//! mode state machine and the scanline renderer.
use vstd::prelude::*;

use crate::cpu::Cycles;
use crate::utils::{bit, is_set, reset_bit, set_bit};

verus! {

pub const OAM_BASE_ADDRESS: u16 = 0xFE00;

pub const OAM_SIZE: usize = 160;

pub const VRAM_SIZE: usize = 0x2000;

pub const GB_SCREEN_HEIGHT: usize = 144;

pub const GB_SCREEN_WIDTH: usize = 160;

/// Pixels on the screen.
pub const SCREEN_PIXELS: usize = 23040;

const OAM_CYCLE_LENGTH: usize = 80;

const VRAM_CYCLE_LENGTH: usize = 172;

const HBLANK_CYCLE_LENGTH: usize = 204;

const VBLANK_CYCLE_LENGTH: usize = 456;

const TOTAL_SCANLINES: u8 = 154;

#[derive(Clone, Copy, Debug, PartialEq, Eq, Structural)]
pub enum PPUMode {
    HBlank,
    VBlank,
    OAM,
    VRAM,
}

impl PPUMode {
    /// The mode number shown in the low bits of STAT.
    pub open spec fn spec_number(self) -> u8 {
        match self {
            PPUMode::HBlank => 0,
            PPUMode::VBlank => 1,
            PPUMode::OAM => 2,
            PPUMode::VRAM => 3,
        }
    }

    pub fn number(self) -> (r: u8)
        ensures
            r == self.spec_number(),
    {
        match self {
            PPUMode::HBlank => 0,
            PPUMode::VBlank => 1,
            PPUMode::OAM => 2,
            PPUMode::VRAM => 3,
        }
    }
}

/// The shade (0 white to 3 black) that `palette` gives to color index `index`.
pub open spec fn shade(palette: u8, index: u8) -> u8 {
    (palette >> (index * 2)) & 3
}

/// The RGBA color of a shade.
pub open spec fn shade_rgba(id: u8) -> Seq<u8> {
    if id == 0 {
        seq![0xFFu8, 0xFF, 0xFF, 0xFF]
    } else if id == 1 {
        seq![0xAAu8, 0xAA, 0xAA, 0xFF]
    } else if id == 2 {
        seq![0x55u8, 0x55, 0x55, 0xFF]
    } else {
        seq![0x00u8, 0x00, 0x00, 0xFF]
    }
}

/// The RGBA color of a shade.
pub fn shade_color(id: u8) -> (r: [u8; 4])
    ensures
        r@ == shade_rgba(id),
{
    let r = if id == 0 {
        [0xFFu8, 0xFF, 0xFF, 0xFF]
    } else if id == 1 {
        [0xAAu8, 0xAA, 0xAA, 0xFF]
    } else if id == 2 {
        [0x55u8, 0x55, 0x55, 0xFF]
    } else {
        [0x00u8, 0x00, 0x00, 0xFF]
    };
    assert(r@ =~= shade_rgba(id));
    r
}

/// The color index of pixel `i` (0 leftmost) of a composed tile row.
pub open spec fn pixel_at(pixels: u16, i: int) -> u8 {
    ((pixels >> ((2 * (7 - i)) as u16)) & 3) as u8
}

/// The color index of pixel `i` (0 leftmost) of the tile row `(low, high)`.
pub open spec fn tile_pixel(low: u8, high: u8, i: int) -> u8 {
    (((high >> ((7 - i) as u8)) & 1) * 2 + ((low >> ((7 - i) as u8)) & 1)) as u8
}

/// The shade a pixel of the frame takes when a tile pixel of color index
/// `index` is drawn over it. With `priority` (sprites), color index 0 is
/// transparent, and a sprite with the priority bit set is hidden where the
/// background color index `bg_index` is not 0.
pub open spec fn drawn_shade(old: u8, index: u8, palette: u8, priority: Option<bool>, bg_index: u8) -> u8 {
    match priority {
        None => shade(palette, index),
        Some(p) => if index == 0 || (p && bg_index != 0) {
            old
        } else {
            shade(palette, index)
        },
    }
}

pub struct PPU {
    pub mode_clock: usize,
    pub mode: PPUMode,
    pub vram: Vec<u8>,
    pub oam: Vec<u8>,
    /// LCD control.
    pub lcdc: u8,
    /// The line being drawn, 0..=153.
    pub ly: u8,
    pub lyc: u8,
    /// LCD status.
    pub stat: u8,
    pub scy: u8,
    pub scx: u8,
    pub wy: u8,
    pub wx: u8,
    /// The window line drawn next.
    pub window_line_counter: u8,
    pub bgp: u8,
    pub obp0: u8,
    pub obp1: u8,
    /// The frame being drawn, one shade per pixel, row by row.
    pub frame: Vec<u8>,
    /// The last finished frame, four RGBA bytes per pixel.
    pub display: Vec<u8>,
    /// The background or window color index of each column of the line
    /// being drawn; sprite priority is decided on it.
    pub bg_line: Vec<u8>,
}

impl PPU {
    pub open spec fn wf(self) -> bool {
        &&& self.vram@.len() == VRAM_SIZE
        &&& self.oam@.len() == OAM_SIZE
        &&& self.frame@.len() == SCREEN_PIXELS
        &&& self.display@.len() == SCREEN_PIXELS * 4
        &&& self.bg_line@.len() == GB_SCREEN_WIDTH
        &&& self.ly < 154
        &&& self.mode_clock < 456
    }

    pub open spec fn lcd_enabled(self) -> bool {
        bit(self.lcdc, 7)
    }

    /// The value read at a PPU address.
    pub open spec fn spec_read(self, address: u16) -> u8 {
        if 0x8000 <= address <= 0x9FFF {
            self.vram@[address - 0x8000]
        } else if 0xFE00 <= address <= 0xFE9F {
            self.oam@[address - 0xFE00]
        } else if address == 0xFF40 {
            self.lcdc
        } else if address == 0xFF41 {
            if self.lcd_enabled() {
                self.stat
            } else {
                self.stat & 0xFC
            }
        } else if address == 0xFF42 {
            self.scy
        } else if address == 0xFF43 {
            self.scx
        } else if address == 0xFF44 {
            self.ly
        } else if address == 0xFF45 {
            self.lyc
        } else if address == 0xFF47 {
            self.bgp
        } else if address == 0xFF48 {
            self.obp0
        } else if address == 0xFF49 {
            self.obp1
        } else if address == 0xFF4A {
            self.wy
        } else {
            self.wx
        }
    }

    pub fn new() -> (r: PPU)
        ensures
            r.wf(),
            r.mode == PPUMode::OAM,
            r.mode_clock == 0,
            r.ly == 0 && r.lcdc == 0 && r.stat == 0,
            forall|i: int| 0 <= i < VRAM_SIZE ==> r.vram@[i] == 0,
            forall|i: int| 0 <= i < OAM_SIZE ==> r.oam@[i] == 0,
            forall|i: int| 0 <= i < SCREEN_PIXELS ==> r.frame@[i] == 0,
            forall|i: int| 0 <= i < SCREEN_PIXELS * 4 ==> r.display@[i] == 0xFF,
    {
        PPU {
            mode_clock: 0,
            mode: PPUMode::OAM,
            vram: vec![0u8; VRAM_SIZE],
            oam: vec![0u8; OAM_SIZE],
            lcdc: 0,
            ly: 0,
            lyc: 0,
            stat: 0,
            scy: 0,
            scx: 0,
            wy: 0,
            wx: 0,
            window_line_counter: 0,
            bgp: 0,
            obp0: 0,
            obp1: 0,
            frame: vec![0u8; SCREEN_PIXELS],
            display: vec![0xFFu8; SCREEN_PIXELS * 4],
            bg_line: vec![0u8; GB_SCREEN_WIDTH],
        }
    }

    pub open spec fn ppu_address(address: u16) -> bool {
        (0x8000 <= address <= 0x9FFF) || (0xFE00 <= address <= 0xFE9F) || (0xFF40 <= address
            <= 0xFF4B && address != 0xFF46)
    }

    pub fn read_byte(&self, address: u16) -> (r: u8)
        requires
            self.wf(),
            PPU::ppu_address(address),
        ensures
            r == self.spec_read(address),
    {
        if 0x8000 <= address && address <= 0x9FFF {
            self.vram[(address - 0x8000) as usize]
        } else if 0xFE00 <= address && address <= 0xFE9F {
            self.oam[(address - 0xFE00) as usize]
        } else if address == 0xFF40 {
            self.lcdc
        } else if address == 0xFF41 {
            if is_set(self.lcdc, 7) {
                self.stat
            } else {
                self.stat & 0xFC
            }
        } else if address == 0xFF42 {
            self.scy
        } else if address == 0xFF43 {
            self.scx
        } else if address == 0xFF44 {
            self.ly
        } else if address == 0xFF45 {
            self.lyc
        } else if address == 0xFF47 {
            self.bgp
        } else if address == 0xFF48 {
            self.obp0
        } else if address == 0xFF49 {
            self.obp1
        } else if address == 0xFF4A {
            self.wy
        } else {
            self.wx
        }
    }

    /// The PPU with the register at `address` (0xFF40..=0xFF4B, not LY)
    /// holding `byte`.
    pub open spec fn with_register(self, address: u16, byte: u8) -> PPU {
        if address == 0xFF40 {
            PPU { lcdc: byte, ..self }
        } else if address == 0xFF41 {
            PPU { stat: byte, ..self }
        } else if address == 0xFF42 {
            PPU { scy: byte, ..self }
        } else if address == 0xFF43 {
            PPU { scx: byte, ..self }
        } else if address == 0xFF45 {
            PPU { lyc: byte, ..self }
        } else if address == 0xFF47 {
            PPU { bgp: byte, ..self }
        } else if address == 0xFF48 {
            PPU { obp0: byte, ..self }
        } else if address == 0xFF49 {
            PPU { obp1: byte, ..self }
        } else if address == 0xFF4A {
            PPU { wy: byte, ..self }
        } else {
            PPU { wx: byte, ..self }
        }
    }

    /// Writes a PPU address. A write to LY goes through the LY=LYC compare;
    /// a line past the last (153) is stored as 0.
    pub fn write_byte(&mut self, address: u16, byte: u8, interrupt_flag: &mut u8)
        requires
            old(self).wf(),
            PPU::ppu_address(address),
        ensures
            final(self).wf(),
            0x8000 <= address <= 0x9FFF ==> final(self).vram@ == old(self).vram@.update(
                address - 0x8000,
                byte,
            ),
            0xFE00 <= address <= 0xFE9F ==> final(self).oam@ == old(self).oam@.update(
                address - 0xFE00,
                byte,
            ),
            address != 0xFF44 ==> *final(interrupt_flag) == *old(interrupt_flag),
            address == 0xFF44 ==> ({
                let v: u8 = if byte < 154 { byte } else { 0 };
                &&& *final(self) == (PPU {
                    ly: v,
                    stat: if v == old(self).lyc {
                        old(self).stat | 4
                    } else {
                        old(self).stat & !4u8
                    },
                    ..*old(self)
                })
                &&& *final(interrupt_flag) == (if v == old(self).lyc && bit(old(self).stat, 6) {
                    *old(interrupt_flag) | 2
                } else {
                    *old(interrupt_flag)
                })
            }),
            0xFF40 <= address && address != 0xFF44 ==> *final(self) == old(self).with_register(
                address,
                byte,
            ),
            0x8000 <= address <= 0x9FFF ==> *final(self) == (PPU { vram: final(self).vram, ..*old(self) }),
            0xFE00 <= address <= 0xFE9F ==> *final(self) == (PPU { oam: final(self).oam, ..*old(self) }),
    {
        if 0x8000 <= address && address <= 0x9FFF {
            self.vram.set((address - 0x8000) as usize, byte);
        } else if 0xFE00 <= address && address <= 0xFE9F {
            self.oam.set((address - 0xFE00) as usize, byte);
        } else if address == 0xFF40 {
            self.lcdc = byte;
        } else if address == 0xFF41 {
            self.stat = byte;
        } else if address == 0xFF42 {
            self.scy = byte;
        } else if address == 0xFF43 {
            self.scx = byte;
        } else if address == 0xFF44 {
            self.set_ly(if byte < 154 { byte } else { 0 }, interrupt_flag);
        } else if address == 0xFF45 {
            self.lyc = byte;
        } else if address == 0xFF47 {
            self.bgp = byte;
        } else if address == 0xFF48 {
            self.obp0 = byte;
        } else if address == 0xFF49 {
            self.obp1 = byte;
        } else if address == 0xFF4A {
            self.wy = byte;
        } else {
            self.wx = byte;
        }
    }

    /// Sets LY and runs the LY=LYC compare: STAT bit 2 follows it, and when
    /// it holds with STAT bit 6 set the LCD bit (1) of `interrupt_flag` is set.
    fn set_ly(&mut self, val: u8, interrupt_flag: &mut u8)
        requires
            old(self).wf(),
            val < 154,
        ensures
            final(self).wf(),
            *final(self) == (PPU {
                ly: val,
                stat: if val == old(self).lyc {
                    old(self).stat | 4
                } else {
                    old(self).stat & !4u8
                },
                ..*old(self)
            }),
            *final(interrupt_flag) == (if val == old(self).lyc && bit(old(self).stat, 6) {
                *old(interrupt_flag) | 2
            } else {
                *old(interrupt_flag)
            }),
    {
        self.ly = val;
        assert(1u8 << 2u8 == 4 && 1u8 << 1u8 == 2) by (bit_vector);
        if val == self.lyc {
            self.stat = set_bit(self.stat, 2);
            if is_set(self.stat, 6) {
                *interrupt_flag = set_bit(*interrupt_flag, 1);
            }
            assert(bit(self.stat, 6) == bit(old(self).stat, 6));
        } else {
            self.stat = reset_bit(self.stat, 2);
        }
    }

    /// Copies the frame into the display as RGBA.
    fn publish_frame(&mut self)
        requires
            old(self).wf(),
        ensures
            final(self).wf(),
            *final(self) == (PPU { display: final(self).display, ..*old(self) }),
            forall|j: int|
                0 <= j < SCREEN_PIXELS * 4 ==> #[trigger] final(self).display@[j] == shade_rgba(
                    old(self).frame@[j / 4],
                )[j % 4],
    {
        let mut i: usize = 0;
        while i < SCREEN_PIXELS
            invariant
                i <= SCREEN_PIXELS,
                self.wf(),
                *self == (PPU { display: self.display, ..*old(self) }),
                forall|j: int|
                    0 <= j < 4 * i ==> #[trigger] self.display@[j] == shade_rgba(
                        old(self).frame@[j / 4],
                    )[j % 4],
            decreases SCREEN_PIXELS - i,
        {
            let color = shade_color(self.frame[i]);
            let mut k: usize = 0;
            while k < 4
                invariant
                    i < SCREEN_PIXELS,
                    k <= 4,
                    self.wf(),
                    *self == (PPU { display: self.display, ..*old(self) }),
                    color@ == shade_rgba(old(self).frame@[i as int]),
                    forall|j: int|
                        0 <= j < 4 * i + k ==> #[trigger] self.display@[j] == shade_rgba(
                            old(self).frame@[j / 4],
                        )[j % 4],
                decreases 4 - k,
            {
                self.display.set(4 * i + k, color[k]);
                k = k + 1;
            }
            i = i + 1;
        }
    }

    /// Enters a new mode: updates the mode bits of STAT (left 0 while the LCD
    /// is off), and raises the interrupts the mode asks for. Entering VBlank
    /// publishes the frame, restarts the window line counter and raises the
    /// VBlank bit (0); entering HBlank, VBlank or OAM raises the LCD bit (1)
    /// when STAT bit 3, 4 or 5 selects it.
    fn change_mode(&mut self, new_mode: PPUMode, interrupt_flag: &mut u8)
        requires
            old(self).wf(),
        ensures
            final(self).wf(),
            final(self).mode == new_mode,
            final(self).stat == (old(self).stat & 0xFC) | (if old(self).lcd_enabled() {
                new_mode.spec_number()
            } else {
                0
            }),
            new_mode == PPUMode::VBlank ==> final(self).window_line_counter == 0,
            new_mode != PPUMode::VBlank ==> final(self).window_line_counter == old(
                self).window_line_counter,
            new_mode == PPUMode::VBlank ==> forall|j: int|
                0 <= j < SCREEN_PIXELS * 4 ==> #[trigger] final(self).display@[j] == shade_rgba(
                    old(self).frame@[j / 4],
                )[j % 4],
            new_mode != PPUMode::VBlank ==> final(self).display@ == old(self).display@,
            *final(self) == (PPU {
                mode: final(self).mode,
                stat: final(self).stat,
                window_line_counter: final(self).window_line_counter,
                display: final(self).display,
                ..*old(self)
            }),
            *final(interrupt_flag) == *old(interrupt_flag) | (if new_mode == PPUMode::VBlank {
                1u8
            } else {
                0u8
            }) | (if new_mode != PPUMode::VRAM && bit(final(self).stat, (new_mode.spec_number() + 3) as u8) {
                2u8
            } else {
                0u8
            }),
    {
        let number = new_mode.number();
        let shown: u8 = if is_set(self.lcdc, 7) {
            number
        } else {
            0
        };
        self.stat = (self.stat & 0xFC) | shown;
        self.mode = new_mode;
        let mut requested: u8 = 0;
        if number == 1 {
            self.publish_frame();
            self.window_line_counter = 0;
            requested = 1;
        }
        if number != 3 && is_set(self.stat, number + 3) {
            requested = requested | 2;
        }
        proof {
            let old_if = *old(interrupt_flag);
            let v: u8 = if new_mode == PPUMode::VBlank { 1u8 } else { 0u8 };
            let l: u8 = if new_mode != PPUMode::VRAM && bit(self.stat, (new_mode.spec_number() + 3) as u8) {
                2u8
            } else {
                0u8
            };
            assert(requested == v | l) by {
                assert(0u8 | 2u8 == 2u8 && 1u8 | 2u8 == 3u8 && 1u8 | 0u8 == 1u8 && 0u8 | 0u8 == 0u8)
                    by (bit_vector);
            }
            assert(old_if | (v | l) == old_if | v | l) by (bit_vector);
        }
        *interrupt_flag = *interrupt_flag | requested;
    }

    /// `self` is the PPU `before` after `cycles` T-cycles, with IF going from
    /// `if_before` to `if_after`.
    pub open spec fn stepped(self, before: PPU, cycles: Cycles, if_before: u8, if_after: u8) -> bool {
        &&& !before.lcd_enabled() ==> self == before && if_after == if_before
        &&& before.lcd_enabled() ==> self.lcdc == before.lcdc && self.vram@ == before.vram@
            && self.oam@ == before.oam@
        &&& before.lcd_enabled() ==> next_mode(before.mode, before.ly, before.mode_clock + cycles)
            == (self.mode, self.ly, self.mode_clock as int)
        &&& before.lcd_enabled() && before.mode == PPUMode::HBlank && self.mode
            == PPUMode::VBlank ==> if_after & 1 == 1 && forall|j: int|
            0 <= j < SCREEN_PIXELS * 4 ==> #[trigger] self.display@[j] == shade_rgba(
                self.frame@[j / 4],
            )[j % 4]
        &&& before.lcd_enabled() && self.mode != before.mode ==> self.stat & 3
            == self.mode.spec_number()
        &&& before.lcd_enabled() && self.ly != before.ly ==> ((self.stat & 4 != 0) == (self.ly
            == before.lyc))
        &&& before.lcd_enabled() && before.mode == PPUMode::HBlank && self.mode
            != PPUMode::HBlank && before.ly < 144 ==> self.frame@ == before.scanline_frame()
        &&& before.lcd_enabled() && before.mode != PPUMode::VBlank && self.mode
            == PPUMode::VBlank ==> self.window_line_counter == 0
        &&& before.lcd_enabled() && self.mode != before.mode && self.mode
            != PPUMode::VRAM && bit(self.stat, (self.mode.spec_number() + 3) as u8)
            ==> if_after & 2 == 2
    }

    /// Advances the mode state machine by `cycles` T-cycles: OAM (80) ->
    /// VRAM (172) -> HBlank (204) -> next line; after line 143, VBlank for ten
    /// lines of 456. The line is drawn as HBlank ends. While the LCD is off
    /// (LCDC bit 7 clear) nothing moves.
    pub fn tick(&mut self, cycles: Cycles, interrupt_flag: &mut u8)
        requires
            old(self).wf(),
        ensures
            final(self).wf(),
            final(self).stepped(*old(self), cycles, *old(interrupt_flag), *final(interrupt_flag)),
    {
        if !is_set(self.lcdc, 7) {
            return;
        }
        proof {
            lemma_stat_bits();
        }
        let total = self.mode_clock as u128 + cycles as u128;
        match self.mode {
            PPUMode::OAM => {
                if total >= OAM_CYCLE_LENGTH as u128 {
                    self.mode_clock = (total % OAM_CYCLE_LENGTH as u128) as usize;
                    self.change_mode(PPUMode::VRAM, interrupt_flag);
                } else {
                    self.mode_clock = total as usize;
                }
            },
            PPUMode::VRAM => {
                if total >= VRAM_CYCLE_LENGTH as u128 {
                    self.mode_clock = (total % VRAM_CYCLE_LENGTH as u128) as usize;
                    self.change_mode(PPUMode::HBlank, interrupt_flag);
                } else {
                    self.mode_clock = total as usize;
                }
            },
            PPUMode::HBlank => {
                if total >= HBLANK_CYCLE_LENGTH as u128 {
                    if (self.ly as usize) < GB_SCREEN_HEIGHT {
                        self.draw_scanline();
                    }
                    self.mode_clock = (total % HBLANK_CYCLE_LENGTH as u128) as usize;
                    let next: u8 = if self.ly + 1 >= TOTAL_SCANLINES {
                        0
                    } else {
                        self.ly + 1
                    };
                    self.set_ly(next, interrupt_flag);
                    if next as usize == GB_SCREEN_HEIGHT {
                        self.change_mode(PPUMode::VBlank, interrupt_flag);
                        assert(forall|x: u8, y: u8| #[trigger] ((x | 1u8) | y) & 1u8 == 1u8)
                            by (bit_vector);
                    } else {
                        self.change_mode(PPUMode::OAM, interrupt_flag);
                    }
                } else {
                    self.mode_clock = total as usize;
                }
            },
            PPUMode::VBlank => {
                if total >= VBLANK_CYCLE_LENGTH as u128 {
                    self.mode_clock = (total % VBLANK_CYCLE_LENGTH as u128) as usize;
                    if self.ly + 1 >= TOTAL_SCANLINES {
                        self.set_ly(0, interrupt_flag);
                        self.change_mode(PPUMode::OAM, interrupt_flag);
                    } else {
                        self.set_ly(self.ly + 1, interrupt_flag);
                    }
                } else {
                    self.mode_clock = total as usize;
                }
            },
        }
    }

    /// Draws line LY: the background and window when LCDC bit 0 is set (the
    /// window only with bit 5), then the sprites when bit 1 is set.
    fn draw_scanline(&mut self)
        requires
            old(self).wf(),
            old(self).ly < 144,
        ensures
            final(self).wf(),
            final(self).same_but_frame(*old(self)),
            final(self).frame@ == old(self).scanline_frame(),
            final(self).bg_line@ == old(self).line_indices(),
            final(self).window_line_counter == (if bit(old(self).lcdc, 0) && bit(old(self).lcdc, 5)
                && old(self).window_visible() {
                ((old(self).window_line_counter + 1) % 256) as u8
            } else {
                old(self).window_line_counter
            }),
    {
        let mut c: usize = 0;
        while c < GB_SCREEN_WIDTH
            invariant
                c <= 160,
                self.wf(),
                *self == (PPU { bg_line: self.bg_line, ..*old(self) }),
                forall|k: int| 0 <= k < c ==> #[trigger] self.bg_line@[k] == 0,
            decreases 160 - c,
        {
            self.bg_line.set(c, 0);
            c = c + 1;
        }
        let ghost start = *self;
        if is_set(self.lcdc, 0) {
            self.draw_bg();
            if is_set(self.lcdc, 5) {
                self.draw_window();
            }
        }
        let ghost mid = *self;
        proof {
            let o = *old(self);
            assert(mid.frame@ =~= o.background_frame()) by {
                assert forall|j: int| 0 <= j < mid.frame@.len() implies #[trigger] mid.frame@[j]
                    == o.background_frame()[j] by {
                    if bit(o.lcdc, 0) && o.ly * 160 <= j < o.ly * 160 + 160 {
                        let x = j - o.ly * 160;
                        assert(j == o.ly * 160 + x);
                    }
                }
            }
            assert(mid.bg_line@ =~= o.line_indices());
        }
        if is_set(self.lcdc, 1) {
            self.draw_sprites();
            proof {
                let o = *old(self);
                assert(mid.sprites_from(0, 0, mid.frame@, mid.bg_line@) == o.sprites_from(
                    0,
                    0,
                    mid.frame@,
                    mid.bg_line@,
                )) by {
                    lemma_sprites_same(mid, o, 0, 0, mid.frame@, mid.bg_line@);
                }
            }
        }
    }
}

/// The sprites drawn depend on OAM, VRAM, LCDC, LY and the palettes alone.
proof fn lemma_sprites_same(a: PPU, b: PPU, s: int, count: int, frame: Seq<u8>, line: Seq<u8>)
    requires
        a.oam == b.oam,
        a.vram == b.vram,
        a.lcdc == b.lcdc,
        a.ly == b.ly,
        a.obp0 == b.obp0,
        a.obp1 == b.obp1,
    ensures
        a.sprites_from(s, count, frame, line) == b.sprites_from(s, count, frame, line),
    decreases 40 - s,
{
    if s >= 40 || count >= 10 || s < 0 {
    } else {
        assert(a.draw_sprite(s, frame, line) == b.draw_sprite(s, frame, line));
        if a.sprite_selected(s) {
            let next = if a.sprite_on_screen(s) {
                a.draw_sprite(s, frame, line)
            } else {
                frame
            };
            lemma_sprites_same(a, b, s + 1, count + 1, next, line);
        } else {
            lemma_sprites_same(a, b, s + 1, count, frame, line);
        }
    }
}

/// Mode bits written into STAT read back, and leave the LY=LYC bit alone;
/// setting or clearing that bit reads back.
proof fn lemma_stat_bits()
    by (bit_vector)
    ensures
        forall|x: u8, n: u8| n < 4 ==> #[trigger] ((x & 0xFC) | n) & 3 == n,
        forall|x: u8, n: u8| n < 4 ==> ((#[trigger] ((x & 0xFC) | n) & 4) != 0) == ((x & 4) != 0),
        forall|x: u8| #[trigger] ((x | 4) & 4) != 0,
        forall|x: u8| #[trigger] ((x & !4u8) & 4) == 0,
        forall|x: u8, y: u8| #[trigger] (((x | y) | 2u8) & 2u8) == 2u8,
{
}

/// Mode, line and mode clock after a tick that brings the mode clock to
/// `total`.
pub open spec fn next_mode(mode: PPUMode, ly: u8, total: int) -> (PPUMode, u8, int) {
    match mode {
        PPUMode::OAM => if total >= 80 {
            (PPUMode::VRAM, ly, total % 80)
        } else {
            (PPUMode::OAM, ly, total)
        },
        PPUMode::VRAM => if total >= 172 {
            (PPUMode::HBlank, ly, total % 172)
        } else {
            (PPUMode::VRAM, ly, total)
        },
        PPUMode::HBlank => if total >= 204 {
            let next: u8 = if ly + 1 >= 154 { 0 } else { (ly + 1) as u8 };
            (if next == 144 { PPUMode::VBlank } else { PPUMode::OAM }, next, total % 204)
        } else {
            (PPUMode::HBlank, ly, total)
        },
        PPUMode::VBlank => if total >= 456 {
            if ly + 1 >= 154 {
                (PPUMode::OAM, 0u8, total % 456)
            } else {
                (PPUMode::VBlank, (ly + 1) as u8, total % 456)
            }
        } else {
            (PPUMode::VBlank, ly, total)
        },
    }
}

/// A tile map entry read as a signed offset from tile 256 (LCDC bit 4 clear).
pub open spec fn signed_tile(idx: u8) -> int {
    if idx < 128 {
        idx as int
    } else {
        idx - 256
    }
}

impl PPU {
    /// The sprite height: 16 with LCDC bit 2 set, else 8.
    pub open spec fn sprite_height(self) -> int {
        if bit(self.lcdc, 2) {
            16
        } else {
            8
        }
    }

    /// Whether the Y range of OAM entry `s` covers line LY: such an entry
    /// counts toward the ten of a line.
    pub open spec fn sprite_selected(self, s: int) -> bool {
        let y = self.oam@[4 * s] as int;
        y <= self.ly + 16 && self.ly + 16 < y + self.sprite_height()
    }

    /// Whether OAM entry `s` has a column on screen.
    pub open spec fn sprite_on_screen(self, s: int) -> bool {
        let x = self.oam@[4 * s + 1] as int;
        x > 0 && self.sprite_x_start(s) < 160
    }

    /// The first column that OAM entry `s` covers.
    pub open spec fn sprite_x_start(self, s: int) -> int {
        let x = self.oam@[4 * s + 1] as int;
        if x >= 8 {
            x - 8
        } else {
            0
        }
    }

    /// The two bytes of the tile row that OAM entry `s` shows on line LY,
    /// mirrored when its X-flip bit is set.
    pub open spec fn sprite_row(self, s: int) -> (u8, u8) {
        let y = self.oam@[4 * s] as int;
        let idx = self.oam@[4 * s + 2];
        let flags = self.oam@[4 * s + 3];
        let tile = if self.sprite_height() == 16 { idx & 0xFE } else { idx };
        let line0 = self.ly + 16 - y;
        let line = if bit(flags, 6) { self.sprite_height() - line0 - 1 } else { line0 };
        let address = tile * 16 + line * 2;
        let p1 = self.vram@[address];
        let p2 = self.vram@[address + 1];
        if bit(flags, 5) {
            (rev8(p1), rev8(p2))
        } else {
            (p1, p2)
        }
    }

    /// `frame` with OAM entry `s` drawn over line LY, whose background color
    /// indices are `line`.
    pub open spec fn draw_sprite(self, s: int, frame: Seq<u8>, line: Seq<u8>) -> Seq<u8> {
        let x = self.oam@[4 * s + 1] as int;
        let flags = self.oam@[4 * s + 3];
        let palette = if bit(flags, 4) { self.obp1 } else { self.obp0 };
        let base = self.ly * 160 + self.sprite_x_start(s);
        let count = (if x < 160 { x } else { 160 }) - self.sprite_x_start(s);
        let start = if x < 8 { 8 - x } else { 0 };
        let (p1, p2) = self.sprite_row(s);
        Seq::new(
            frame.len(),
            |j: int|
                if base <= j < base + count {
                    drawn_shade(
                        frame[j],
                        tile_pixel(p1, p2, start + j - base),
                        palette,
                        Some(bit(flags, 7)),
                        line[j - self.ly * 160],
                    )
                } else {
                    frame[j]
                },
        )
    }

    /// `frame` with the sprites from OAM entry `s` on drawn over a line whose
    /// background color indices are `line`, `count` entries having been
    /// selected already: the first ten entries whose Y range covers the line
    /// are selected, and those of them with a column on screen are drawn.
    pub open spec fn sprites_from(self, s: int, count: int, frame: Seq<u8>, line: Seq<u8>) -> Seq<u8>
        decreases 40 - s,
    {
        if s >= 40 || count >= 10 || s < 0 {
            frame
        } else if self.sprite_selected(s) {
            self.sprites_from(
                s + 1,
                count + 1,
                if self.sprite_on_screen(s) {
                    self.draw_sprite(s, frame, line)
                } else {
                    frame
                },
                line,
            )
        } else {
            self.sprites_from(s + 1, count, frame, line)
        }
    }

    /// The background or window color index of column `x` of line LY, 0
    /// where LCDC bit 0 turns both off.
    pub open spec fn line_index(self, x: int) -> u8 {
        if !bit(self.lcdc, 0) {
            0
        } else if bit(self.lcdc, 5) && self.window_visible() && x >= self.window_start() {
            self.window_index(x)
        } else {
            self.bg_index(x)
        }
    }

    /// The background color indices of line LY.
    pub open spec fn line_indices(self) -> Seq<u8> {
        Seq::new(160, |x: int| self.line_index(x))
    }

    /// The frame with the background and window of line LY drawn.
    pub open spec fn background_frame(self) -> Seq<u8> {
        Seq::new(
            self.frame@.len(),
            |j: int|
                if bit(self.lcdc, 0) && self.ly * 160 <= j < self.ly * 160 + 160 {
                    shade(self.bgp, self.line_index(j - self.ly * 160))
                } else {
                    self.frame@[j]
                },
        )
    }

    /// The frame with line LY drawn: background and window, then sprites
    /// when LCDC bit 1 is set.
    pub open spec fn scanline_frame(self) -> Seq<u8> {
        if bit(self.lcdc, 1) {
            self.sprites_from(0, 0, self.background_frame(), self.line_indices())
        } else {
            self.background_frame()
        }
    }
}

impl PPU {
    /// Everything but the frame, the line's color indices and the window
    /// line counter is as in `other`.
    pub open spec fn same_but_frame(self, other: PPU) -> bool {
        self == (PPU {
            frame: self.frame,
            bg_line: self.bg_line,
            window_line_counter: self.window_line_counter,
            ..other
        })
    }

    /// The VRAM offset of the tile map chosen by LCDC bit `select`.
    pub open spec fn map_base(self, select: u8) -> int {
        if bit(self.lcdc, select) {
            0x1C00
        } else {
            0x1800
        }
    }

    /// The VRAM offset of row `row` of the tile that the map entry at VRAM
    /// offset `entry` names, by the addressing mode of LCDC bit 4.
    pub open spec fn tile_row_offset(self, entry: int, row: int) -> int {
        let idx = self.vram@[entry];
        if bit(self.lcdc, 4) {
            idx * 16 + row * 2
        } else {
            0x1000 + signed_tile(idx) * 16 + row * 2
        }
    }

    /// The color index of pixel (`px`, `py`) of the 256x256 plane of the tile
    /// map chosen by LCDC bit `select`.
    pub open spec fn plane_index(self, select: u8, px: int, py: int) -> u8 {
        let entry = self.map_base(select) + (py / 8) * 32 + px / 8;
        let off = self.tile_row_offset(entry, py % 8);
        tile_pixel(self.vram@[off], self.vram@[off + 1], px % 8)
    }

    /// The background color index at column `x` of line LY.
    pub open spec fn bg_index(self, x: int) -> u8 {
        self.plane_index(3, (self.scx + x) % 256, (self.scy + self.ly) % 256)
    }

    /// The window color index at column `x` of the current window line.
    pub open spec fn window_index(self, x: int) -> u8 {
        self.plane_index(6, x + 7 - self.wx, self.window_line_counter as int)
    }

    /// Whether the window covers line LY.
    pub open spec fn window_visible(self) -> bool {
        self.wy <= self.ly && self.wx <= 160
    }

    /// The first column the window covers.
    pub open spec fn window_start(self) -> int {
        if self.wx >= 7 {
            self.wx - 7
        } else {
            0
        }
    }

    fn plane_pixel(&self, select: u8, px: usize, py: usize) -> (r: u8)
        requires
            self.wf(),
            select < 8,
            px < 256,
            py < 256,
        ensures
            r == self.plane_index(select, px as int, py as int),
            r < 4,
    {
        let base: usize = if is_set(self.lcdc, select) {
            0x1C00
        } else {
            0x1800
        };
        let entry = base + (py / 8) * 32 + px / 8;
        let idx = self.vram[entry];
        let row = py % 8;
        let off: usize = if is_set(self.lcdc, 4) {
            idx as usize * 16 + row * 2
        } else if idx < 128 {
            0x1000 + idx as usize * 16 + row * 2
        } else {
            0x1000 - (256 - idx as usize) * 16 + row * 2
        };
        let low = self.vram[off];
        let high = self.vram[off + 1];
        let col = (7 - px % 8) as u8;
        let hb = (high >> col) & 1;
        let lb = (low >> col) & 1;
        assert(hb <= 1 && lb <= 1) by (bit_vector)
            requires
                hb == (high >> col) & 1,
                lb == (low >> col) & 1,
        ;
        hb * 2 + lb
    }

    fn draw_bg(&mut self)
        requires
            old(self).wf(),
            old(self).ly < 144,
        ensures
            final(self).wf(),
            *final(self) == (PPU { frame: final(self).frame, bg_line: final(self).bg_line, ..*old(self) }),
            forall|j: int|
                0 <= j < SCREEN_PIXELS && !(old(self).ly * 160 <= j < old(self).ly * 160 + 160)
                    ==> #[trigger] final(self).frame@[j] == old(self).frame@[j],
            forall|x: int|
                0 <= x < 160 ==> #[trigger] final(self).frame@[old(self).ly * 160 + x] == shade(
                    old(self).bgp,
                    old(self).bg_index(x),
                ),
            forall|x: int| 0 <= x < 160 ==> #[trigger] final(self).bg_line@[x] == old(self).bg_index(x),
    {
        let row_base = self.ly as usize * GB_SCREEN_WIDTH;
        let py = (self.scy as usize + self.ly as usize) % 256;
        let mut x: usize = 0;
        while x < GB_SCREEN_WIDTH
            invariant
                x <= 160,
                row_base == old(self).ly * 160,
                py == (old(self).scy + old(self).ly) % 256,
                old(self).wf(),
                old(self).ly < 144,
                self.wf(),
                *self == (PPU { frame: self.frame, bg_line: self.bg_line, ..*old(self) }),
                forall|j: int|
                    0 <= j < SCREEN_PIXELS && !(row_base <= j < row_base + x) ==> #[trigger] self.frame@[j]
                        == old(self).frame@[j],
                forall|k: int|
                    0 <= k < x ==> #[trigger] self.frame@[row_base + k] == shade(
                        old(self).bgp,
                        old(self).bg_index(k),
                    ),
                forall|k: int| 0 <= k < x ==> #[trigger] self.bg_line@[k] == old(self).bg_index(k),
            decreases 160 - x,
        {
            let px = (self.scx as usize + x) % 256;
            let index = self.plane_pixel(3, px, py);
            let color = self.get_color_from_palette(self.bgp, index);
            self.frame.set(row_base + x, color);
            self.bg_line.set(x, index);
            x = x + 1;
        }
    }

    fn draw_window(&mut self)
        requires
            old(self).wf(),
            old(self).ly < 144,
        ensures
            final(self).wf(),
            !old(self).window_visible() ==> *final(self) == *old(self),
            old(self).window_visible() ==> *final(self) == (PPU {
                frame: final(self).frame,
                bg_line: final(self).bg_line,
                window_line_counter: ((old(self).window_line_counter + 1) % 256) as u8,
                ..*old(self)
            }),
            old(self).window_visible() ==> forall|x: int|
                0 <= x < 160 ==> #[trigger] final(self).bg_line@[x] == (if x >= old(
                    self).window_start() {
                    old(self).window_index(x)
                } else {
                    old(self).bg_line@[x]
                }),
            old(self).window_visible() ==> forall|j: int|
                0 <= j < SCREEN_PIXELS && !(old(self).ly * 160 + old(self).window_start() <= j
                    < old(self).ly * 160 + 160) ==> #[trigger] final(self).frame@[j] == old(
                    self).frame@[j],
            old(self).window_visible() ==> forall|x: int|
                old(self).window_start() <= x < 160 ==> #[trigger] final(self).frame@[old(self).ly
                    * 160 + x] == shade(old(self).bgp, old(self).window_index(x)),
    {
        if self.wy > self.ly || self.wx > 160 {
            return;
        }
        let row_base = self.ly as usize * GB_SCREEN_WIDTH;
        let py = self.window_line_counter as usize;
        let start: usize = if self.wx >= 7 {
            self.wx as usize - 7
        } else {
            0
        };
        let mut x: usize = start;
        while x < GB_SCREEN_WIDTH
            invariant
                start <= x <= 160,
                start == old(self).window_start(),
                row_base == old(self).ly * 160,
                py == old(self).window_line_counter,
                old(self).wf(),
                old(self).window_visible(),
                old(self).ly < 144,
                self.wf(),
                *self == (PPU { frame: self.frame, bg_line: self.bg_line, ..*old(self) }),
                forall|j: int|
                    0 <= j < SCREEN_PIXELS && !(row_base + start <= j < row_base + x)
                        ==> #[trigger] self.frame@[j] == old(self).frame@[j],
                forall|k: int|
                    0 <= k < 160 ==> #[trigger] self.bg_line@[k] == (if start <= k < x {
                        old(self).window_index(k)
                    } else {
                        old(self).bg_line@[k]
                    }),
                forall|k: int|
                    start <= k < x ==> #[trigger] self.frame@[row_base + k] == shade(
                        old(self).bgp,
                        old(self).window_index(k),
                    ),
            decreases 160 - x,
        {
            let px = x + 7 - self.wx as usize;
            let index = self.plane_pixel(6, px, py);
            let color = self.get_color_from_palette(self.bgp, index);
            self.frame.set(row_base + x, color);
            self.bg_line.set(x, index);
            x = x + 1;
        }
        self.window_line_counter = if self.window_line_counter == 255 {
            0
        } else {
            self.window_line_counter + 1
        };
    }

    /// Draws the sprites of line LY: the first ten OAM entries whose Y range
    /// covers the line are selected, and those with a column on screen drawn.
    #[verifier::spinoff_prover]
    fn draw_sprites(&mut self)
        requires
            old(self).wf(),
            old(self).ly < 144,
        ensures
            final(self).wf(),
            *final(self) == (PPU { frame: final(self).frame, ..*old(self) }),
            final(self).frame@ == old(self).sprites_from(0, 0, old(self).frame@, old(self).bg_line@),
    {
        let relative_ly: u16 = self.ly as u16 + 16;
        let obj_size: u16 = if is_set(self.lcdc, 2) {
            16
        } else {
            8
        };
        let row_base = self.ly as usize * GB_SCREEN_WIDTH;
        let mut num_sprites: usize = 0;
        let mut sprite: usize = 0;
        while sprite < 40 && num_sprites < 10
            invariant
                sprite <= 40,
                num_sprites <= 10,
                row_base == old(self).ly * 160,
                relative_ly == old(self).ly + 16,
                old(self).ly < 144,
                old(self).wf(),
                obj_size == old(self).sprite_height(),
                self.wf(),
                *self == (PPU { frame: self.frame, ..*old(self) }),
                old(self).sprites_from(sprite as int, num_sprites as int, self.frame@, old(self).bg_line@)
                    == old(self).sprites_from(0, 0, old(self).frame@, old(self).bg_line@),
            decreases 40 - sprite,
        {
            let base = sprite * 4;
            let y = self.oam[base] as u16;
            let x = self.oam[base + 1];
            let x_start: u8 = if x >= 8 {
                x - 8
            } else {
                0
            };
            if y <= relative_ly && relative_ly < y + obj_size {
                num_sprites = num_sprites + 1;
                if x > 0 && (x_start as usize) < GB_SCREEN_WIDTH {
                    let ghost before = self.frame@;
                    let tile_index = if obj_size == 16 {
                        self.oam[base + 2] & 0xFE
                    } else {
                        self.oam[base + 2]
                    };
                    let flags = self.oam[base + 3];
                    let priority = is_set(flags, 7);
                    let palette = if is_set(flags, 4) {
                        self.obp1
                    } else {
                        self.obp0
                    };
                    let mut line = relative_ly - y;
                    if is_set(flags, 6) {
                        line = obj_size - line - 1;
                    }
                    let address = tile_index as usize * 16 + line as usize * 2;
                    let mut p1 = self.vram[address];
                    let mut p2 = self.vram[address + 1];
                    if is_set(flags, 5) {
                        p1 = reverse_bits(p1);
                        p2 = reverse_bits(p2);
                    }
                    let pixels = PPU::compose_pixels(p1, p2);
                    let start: usize = if x < 8 {
                        8 - x as usize
                    } else {
                        0
                    };
                    let end: u8 = if x < 160 {
                        x
                    } else {
                        160
                    };
                    proof {
                        assert((p1, p2) == old(self).sprite_row(sprite as int));
                    }
                    self.draw_pixels(
                        row_base + x_start as usize,
                        pixels,
                        start,
                        (end - x_start) as usize,
                        palette,
                        Some(priority),
                    );
                    proof {
                        let fb = row_base + x_start as int;
                        let cnt = (end - x_start) as int;
                        assert(fb == old(self).ly * 160 + old(self).sprite_x_start(sprite as int));
                        assert(fb % 160 == x_start as int);
                        assert forall|j: int| 0 <= j < self.frame@.len() implies #[trigger] self.frame@[j]
                            == old(self).draw_sprite(sprite as int, before, old(self).bg_line@)[j] by {
                            if fb <= j < fb + cnt {
                                let k = j - fb;
                                assert(self.frame@[fb + k] == drawn_shade(
                                    before[fb + k],
                                    pixel_at(pixels, start + k),
                                    palette,
                                    Some(priority),
                                    old(self).bg_line@[fb % 160 + k],
                                ));
                                assert(pixel_at(pixels, start + k) == tile_pixel(p1, p2, start + k));
                            }
                        }
                        assert(self.frame@ =~= old(self).draw_sprite(sprite as int, before, old(self).bg_line@));
                    }
                }
            }
            sprite = sprite + 1;
        }
    }

    /// Draws `pixels_to_draw` pixels of a composed tile row, from pixel
    /// `pixels_start_offset` on, into the frame from `frame_base` on, within
    /// one line. Without `priority` (background) the color indices are kept
    /// as the line's; with it (sprites) color index 0 is transparent, and
    /// `Some(true)` hides the pixel where the line's color index is not 0.
    pub fn draw_pixels(
        &mut self,
        frame_base: usize,
        pixels: u16,
        pixels_start_offset: usize,
        pixels_to_draw: usize,
        palette: u8,
        priority: Option<bool>,
    )
        requires
            old(self).wf(),
            pixels_start_offset + pixels_to_draw <= 8,
            frame_base + pixels_to_draw <= SCREEN_PIXELS,
            frame_base % 160 + pixels_to_draw <= 160,
        ensures
            final(self).wf(),
            *final(self) == (PPU { frame: final(self).frame, bg_line: final(self).bg_line, ..*old(self) }),
            forall|j: int|
                0 <= j < SCREEN_PIXELS && !(frame_base <= j < frame_base + pixels_to_draw)
                    ==> #[trigger] final(self).frame@[j] == old(self).frame@[j],
            forall|k: int|
                0 <= k < pixels_to_draw ==> #[trigger] final(self).frame@[frame_base + k]
                    == drawn_shade(
                    old(self).frame@[frame_base + k],
                    pixel_at(pixels, pixels_start_offset + k),
                    palette,
                    priority,
                    old(self).bg_line@[frame_base % 160 + k],
                ),
            priority is Some ==> *final(self) == (PPU { frame: final(self).frame, ..*old(self) }),
            priority is None ==> forall|c: int|
                0 <= c < 160 ==> #[trigger] final(self).bg_line@[c] == (if frame_base % 160 <= c
                    < frame_base % 160 + pixels_to_draw {
                    pixel_at(pixels, pixels_start_offset + c - frame_base % 160)
                } else {
                    old(self).bg_line@[c]
                }),
    {
        let col0 = frame_base % 160;
        let mut k: usize = 0;
        while k < pixels_to_draw
            invariant
                k <= pixels_to_draw,
                col0 == frame_base % 160,
                pixels_start_offset + pixels_to_draw <= 8,
                frame_base + pixels_to_draw <= SCREEN_PIXELS,
                col0 + pixels_to_draw <= 160,
                self.wf(),
                *self == (PPU { frame: self.frame, bg_line: self.bg_line, ..*old(self) }),
                forall|j: int|
                    0 <= j < SCREEN_PIXELS && !(frame_base <= j < frame_base + k) ==> #[trigger] self.frame@[j]
                        == old(self).frame@[j],
                forall|m: int|
                    0 <= m < k ==> #[trigger] self.frame@[frame_base + m] == drawn_shade(
                        old(self).frame@[frame_base + m],
                        pixel_at(pixels, pixels_start_offset + m),
                        palette,
                        priority,
                        old(self).bg_line@[col0 + m],
                    ),
                priority is Some ==> *self == (PPU { frame: self.frame, ..*old(self) }),
                priority is None ==> forall|c: int|
                    0 <= c < 160 ==> #[trigger] self.bg_line@[c] == (if col0 <= c < col0 + k {
                        pixel_at(pixels, pixels_start_offset + c - col0)
                    } else {
                        old(self).bg_line@[c]
                    }),
            decreases pixels_to_draw - k,
        {
            let i = pixels_start_offset + k;
            let shift = (2 * (7 - i)) as u16;
            let color_index = ((pixels >> shift) & 3) as u8;
            assert(((pixels >> shift) & 3) < 4) by (bit_vector);
            let current = self.frame[frame_base + k];
            let behind = self.bg_line[col0 + k];
            let color = self.get_color_from_palette(palette, color_index);
            match priority {
                None => {
                    self.frame.set(frame_base + k, color);
                    self.bg_line.set(col0 + k, color_index);
                },
                Some(p) => {
                    if !(color_index == 0 || (p && behind != 0)) {
                        self.frame.set(frame_base + k, color);
                    }
                },
            }
            k = k + 1;
        }
    }

    /// The shade that `palette` gives to a color index.
    pub fn get_color_from_palette(&self, palette: u8, color_index: u8) -> (r: u8)
        requires
            color_index < 4,
        ensures
            r == shade(palette, color_index),
    {
        (palette >> (color_index * 2)) & 3
    }

    /// The last finished frame: 160 x 144 pixels, four RGBA bytes each, row by row.
    pub fn pixel_data(&self) -> (r: &[u8])
        ensures
            r@ == self.display@,
    {
        self.display.as_slice()
    }

    /// The color of pixel `i` of the frame being drawn.
    pub fn frame_pixel(&self, i: usize) -> (r: [u8; 4])
        requires
            self.wf(),
            i < SCREEN_PIXELS,
        ensures
            r@ == shade_rgba(self.frame@[i as int]),
    {
        shade_color(self.frame[i])
    }
}

proof fn lemma_reverse_bits(b: u8, r: u8)
    by (bit_vector)
    requires
        r == ((b & 1) << 7) | ((b & 2) << 5) | ((b & 4) << 3) | ((b & 8) << 1) | ((b & 16) >> 1)
            | ((b & 32) >> 3) | ((b & 64) >> 5) | ((b & 128) >> 7),
    ensures
        forall|i: u8| i < 8 ==> #[trigger] ((r >> i) & 1u8) == ((b >> (7 - i) as u8) & 1u8),
{
}

/// The bits of a byte in reverse order.
pub open spec fn rev8(b: u8) -> u8 {
    ((b & 1) << 7) | ((b & 2) << 5) | ((b & 4) << 3) | ((b & 8) << 1) | ((b & 16) >> 1) | ((b & 32)
        >> 3) | ((b & 64) >> 5) | ((b & 128) >> 7)
}

/// The bits of a byte in reverse order: bit `i` of the result is bit `7 - i`
/// of `b`.
fn reverse_bits(b: u8) -> (r: u8)
    ensures
        r == rev8(b),
        forall|i: u8| i < 8 ==> bit(r, i) == bit(b, (7 - i) as u8),
{
    let r = ((b & 1) << 7) | ((b & 2) << 5) | ((b & 4) << 3) | ((b & 8) << 1) | ((b & 16) >> 1) | ((
    b & 32) >> 3) | ((b & 64) >> 5) | ((b & 128) >> 7);
    proof {
        lemma_reverse_bits(b, r);
    }
    r
}

pub open spec fn spread(v: u16) -> u16 {
    (v & 1) | ((v & 2) << 1) | ((v & 4) << 2) | ((v & 8) << 3) | ((v & 16) << 4) | ((v & 32) << 5)
        | ((v & 64) << 6) | ((v & 128) << 7)
}

proof fn lemma_compose(first: u8, second: u8, r: u16)
    by (bit_vector)
    requires
        r == spread(first as u16) | (spread(second as u16) << 1),
    ensures
        pixel_at(r, 0) == tile_pixel(first, second, 0),
        pixel_at(r, 1) == tile_pixel(first, second, 1),
        pixel_at(r, 2) == tile_pixel(first, second, 2),
        pixel_at(r, 3) == tile_pixel(first, second, 3),
        pixel_at(r, 4) == tile_pixel(first, second, 4),
        pixel_at(r, 5) == tile_pixel(first, second, 5),
        pixel_at(r, 6) == tile_pixel(first, second, 6),
        pixel_at(r, 7) == tile_pixel(first, second, 7),
{
}

impl PPU {
    /// Interleaves the two bit planes of a tile row: bits 2i and 2i+1 of the
    /// result are bit i of `first` (the low plane) and of `second` (the high
    /// plane), so that pixel `i` (0 leftmost) sits at bits 2(7-i)..2(7-i)+1.
    pub fn compose_pixels(first: u8, second: u8) -> (r: u16)
        ensures
            forall|i: int| 0 <= i < 8 ==> #[trigger] pixel_at(r, i) == tile_pixel(first, second, i),
    {
        let f = first as u16;
        let s = second as u16;
        let low = (f & 1) | ((f & 2) << 1) | ((f & 4) << 2) | ((f & 8) << 3) | ((f & 16) << 4) | ((f
            & 32) << 5) | ((f & 64) << 6) | ((f & 128) << 7);
        let high = (s & 1) | ((s & 2) << 1) | ((s & 4) << 2) | ((s & 8) << 3) | ((s & 16) << 4) | ((s
            & 32) << 5) | ((s & 64) << 6) | ((s & 128) << 7);
        let r = low | (high << 1);
        proof {
            lemma_compose(first, second, r);
            assert forall|i: int| 0 <= i < 8 implies #[trigger] pixel_at(r, i) == tile_pixel(
                first,
                second,
                i,
            ) by {
                if i == 0 {
                } else if i == 1 {
                } else if i == 2 {
                } else if i == 3 {
                } else if i == 4 {
                } else if i == 5 {
                } else if i == 6 {
                } else {
                }
            }
        }
        r
    }
}

} // verus!
