//! The memory bus: decodes the 16-bit address space and routes each access
//! to the component that owns it.
use vstd::prelude::*;

use crate::cartridge::{cartridge_address, Cartridge};
use crate::cpu::Cycles;
use crate::joypad::Joypad;
use crate::ppu::{OAM_SIZE, PPU};
use crate::serial::Serial;
use crate::timer::Timer;
use crate::utils::{bit, word_of};

verus! {

pub const WRAM_SIZE: usize = 0x2000;

pub const HRAM_SIZE: usize = 0x7F;

pub const AUDIO_SIZE: usize = 0x17;

/// The five interrupt sources, by bit of IF and IE.
#[derive(Clone, Copy, Debug, PartialEq, Eq, Structural)]
pub enum InterruptFlag {
    VBlank,
    LCD,
    Timer,
    Serial,
    Joypad,
}

impl InterruptFlag {
    pub open spec fn spec_bit(self) -> u8 {
        match self {
            InterruptFlag::VBlank => 0,
            InterruptFlag::LCD => 1,
            InterruptFlag::Timer => 2,
            InterruptFlag::Serial => 3,
            InterruptFlag::Joypad => 4,
        }
    }

    /// The bit of the source in IF and IE.
    pub fn bit(self) -> (r: u8)
        ensures
            r == self.spec_bit(),
    {
        match self {
            InterruptFlag::VBlank => 0,
            InterruptFlag::LCD => 1,
            InterruptFlag::Timer => 2,
            InterruptFlag::Serial => 3,
            InterruptFlag::Joypad => 4,
        }
    }

    /// The address the CPU jumps to when servicing the source.
    pub open spec fn spec_vector(self) -> u16 {
        (0x40 + 8 * self.spec_bit()) as u16
    }

    pub fn vector(self) -> (r: u16)
        ensures
            r == self.spec_vector(),
    {
        match self {
            InterruptFlag::VBlank => 0x40,
            InterruptFlag::LCD => 0x48,
            InterruptFlag::Timer => 0x50,
            InterruptFlag::Serial => 0x58,
            InterruptFlag::Joypad => 0x60,
        }
    }

    /// The sources in order of priority, highest first.
    pub fn iter() -> (r: Vec<InterruptFlag>)
        ensures
            r@ == seq![
                InterruptFlag::VBlank,
                InterruptFlag::LCD,
                InterruptFlag::Timer,
                InterruptFlag::Serial,
                InterruptFlag::Joypad,
            ],
    {
        let r = vec![
            InterruptFlag::VBlank,
            InterruptFlag::LCD,
            InterruptFlag::Timer,
            InterruptFlag::Serial,
            InterruptFlag::Joypad,
        ];
        assert(r@ =~= seq![
            InterruptFlag::VBlank,
            InterruptFlag::LCD,
            InterruptFlag::Timer,
            InterruptFlag::Serial,
            InterruptFlag::Joypad,
        ]);
        r
    }
}

pub struct MMU {
    pub wram: Vec<u8>,
    pub hram: Vec<u8>,
    /// The last OAM DMA source page written.
    pub dma: u8,
    /// The sound registers, held but not played.
    pub stub_audio: Vec<u8>,
    pub interrupt_enable: u8,
    pub interrupt_flag: u8,
    pub ppu: PPU,
    pub joypad: Joypad,
    pub timer: Timer,
    pub cartridge: Cartridge,
    pub serial: Serial,
}

/// Whether an address is plain RAM: work RAM, its echo, or high RAM.
pub open spec fn is_ram(address: u16) -> bool {
    (0xC000 <= address <= 0xFDFF) || (0xFF80 <= address <= 0xFFFE)
}

impl MMU {
    pub open spec fn wf(self) -> bool {
        &&& self.wram@.len() == WRAM_SIZE
        &&& self.hram@.len() == HRAM_SIZE
        &&& self.stub_audio@.len() == AUDIO_SIZE
        &&& self.ppu.wf()
        &&& self.timer.wf()
        &&& self.cartridge.wf()
    }

    /// The byte read at an address.
    pub open spec fn spec_read(self, address: u16) -> u8 {
        if address <= 0x7FFF || (0xA000 <= address <= 0xBFFF) {
            self.cartridge.mbc.spec_read(address)
        } else if address <= 0x9FFF {
            self.ppu.spec_read(address)
        } else if address <= 0xDFFF {
            self.wram@[address - 0xC000]
        } else if address <= 0xFDFF {
            self.wram@[address - 0xE000]
        } else if address <= 0xFE9F {
            self.ppu.spec_read(address)
        } else if address <= 0xFEFF {
            0xFF
        } else if address == 0xFF00 {
            self.joypad.spec_read()
        } else if address == 0xFF01 || address == 0xFF02 {
            self.serial.spec_read(address)
        } else if 0xFF04 <= address <= 0xFF07 {
            self.timer.spec_read(address)
        } else if address == 0xFF0F {
            self.interrupt_flag | 0xE0
        } else if 0xFF10 <= address <= 0xFF26 {
            self.stub_audio@[address - 0xFF10]
        } else if address == 0xFF46 {
            self.dma
        } else if 0xFF40 <= address <= 0xFF4B {
            self.ppu.spec_read(address)
        } else if 0xFF80 <= address <= 0xFFFE {
            self.hram@[address - 0xFF80]
        } else if address == 0xFFFF {
            self.interrupt_enable
        } else {
            0xFF
        }
    }

    /// The word read little-endian at an address.
    pub open spec fn spec_read_word(self, address: u16) -> u16 {
        word_of(self.spec_read(((address + 1) % 65536) as u16), self.spec_read(address))
    }

    /// This bus is `before` with a byte of RAM written and nothing else changed.
    pub open spec fn wrote_ram(self, before: MMU, address: u16, byte: u8) -> bool {
        if address <= 0xDFFF {
            &&& self == (MMU { wram: self.wram, ..before })
            &&& self.wram@ == before.wram@.update(address - 0xC000, byte)
        } else if address <= 0xFDFF {
            &&& self == (MMU { wram: self.wram, ..before })
            &&& self.wram@ == before.wram@.update(address - 0xE000, byte)
        } else {
            &&& self == (MMU { hram: self.hram, ..before })
            &&& self.hram@ == before.hram@.update(address - 0xFF80, byte)
        }
    }

    pub fn new(cartridge: Cartridge, print_serial: bool) -> (r: MMU)
        requires
            cartridge.wf(),
        ensures
            r.wf(),
            r.interrupt_flag == 0xE1,
            r.interrupt_enable == 0,
            r.dma == 0xFF,
            r.cartridge == cartridge,
    {
        MMU {
            wram: vec![0u8; WRAM_SIZE],
            hram: vec![0u8; HRAM_SIZE],
            dma: 0xFF,
            stub_audio: vec![0u8; AUDIO_SIZE],
            interrupt_enable: 0,
            interrupt_flag: 0xE1,
            ppu: PPU::new(),
            joypad: Joypad::new(),
            timer: Timer::new(),
            cartridge,
            serial: Serial::new(print_serial),
        }
    }

    pub fn read_byte(&self, address: u16) -> (r: u8)
        requires
            self.wf(),
        ensures
            r == self.spec_read(address),
    {
        if address <= 0x7FFF || (0xA000 <= address && address <= 0xBFFF) {
            self.cartridge.mbc.read_byte(address)
        } else if address <= 0x9FFF {
            self.ppu.read_byte(address)
        } else if address <= 0xDFFF {
            self.wram[(address - 0xC000) as usize]
        } else if address <= 0xFDFF {
            self.wram[(address - 0xE000) as usize]
        } else if address <= 0xFE9F {
            self.ppu.read_byte(address)
        } else if address <= 0xFEFF {
            0xFF
        } else if address == 0xFF00 {
            self.joypad.read()
        } else if address == 0xFF01 || address == 0xFF02 {
            self.serial.read_byte(address)
        } else if 0xFF04 <= address && address <= 0xFF07 {
            self.timer.read_byte(address)
        } else if address == 0xFF0F {
            self.interrupt_flag | 0xE0
        } else if 0xFF10 <= address && address <= 0xFF26 {
            self.stub_audio[(address - 0xFF10) as usize]
        } else if address == 0xFF46 {
            self.dma
        } else if 0xFF40 <= address && address <= 0xFF4B {
            self.ppu.read_byte(address)
        } else if 0xFF80 <= address && address <= 0xFFFE {
            self.hram[(address - 0xFF80) as usize]
        } else if address == 0xFFFF {
            self.interrupt_enable
        } else {
            0xFF
        }
    }

    /// Reads a word little-endian: the low byte at `address`, the high byte
    /// at the next address.
    pub fn read_word(&self, address: u16) -> (r: u16)
        requires
            self.wf(),
        ensures
            r == self.spec_read_word(address),
    {
        let low = self.read_byte(address);
        let high = self.read_byte(if address == 0xFFFF { 0 } else { address + 1 });
        crate::utils::compose_bytes(high, low)
    }

    /// Whether nothing is mapped at an address: writes there are ignored.
    pub open spec fn unmapped(address: u16) -> bool {
        address == 0xFF03 || (0xFF08 <= address <= 0xFF0E) || (0xFF27 <= address <= 0xFF3F) || (
        0xFF4C <= address <= 0xFF7F) || (0xFEA0 <= address <= 0xFEFF)
    }

    /// `self` is the bus `before` after `byte` is written at `address`.
    pub open spec fn wrote_byte(self, before: MMU, address: u16, byte: u8) -> bool {
        &&& is_ram(address) ==> self.wrote_ram(before, address, byte)
        &&& address == 0xFFFF ==> self == (MMU { interrupt_enable: byte, ..before })
        &&& address == 0xFF0F ==> self == (MMU { interrupt_flag: byte, ..before })
        &&& 0xFF10 <= address <= 0xFF26 ==> self == (MMU { stub_audio: self.stub_audio, ..before })
            && self.stub_audio@ == before.stub_audio@.update(address - 0xFF10, byte)
        &&& MMU::unmapped(address) ==> self == before
        &&& cartridge_address(address) ==> self == (MMU {
            cartridge: Cartridge { mbc: self.cartridge.mbc, ..before.cartridge },
            ..before
        }) && self.cartridge.mbc.wrote(before.cartridge.mbc, address, byte)
        &&& 0x8000 <= address <= 0x9FFF ==> self == (MMU {
            ppu: PPU { vram: self.ppu.vram, ..before.ppu },
            ..before
        }) && self.ppu.vram@ == before.ppu.vram@.update(address - 0x8000, byte)
        &&& 0xFE00 <= address <= 0xFE9F ==> self == (MMU {
            ppu: PPU { oam: self.ppu.oam, ..before.ppu },
            ..before
        }) && self.ppu.oam@ == before.ppu.oam@.update(address - 0xFE00, byte)
        &&& 0xFF40 <= address <= 0xFF4B && address != 0xFF46 && address != 0xFF44 ==> self == (MMU {
            ppu: before.ppu.with_register(address, byte),
            ..before
        })
        &&& address == 0xFF44 ==> ({
            let v: u8 = if byte < 154 { byte } else { 0 };
            self == (MMU {
                ppu: PPU {
                    ly: v,
                    stat: if v == before.ppu.lyc {
                        before.ppu.stat | 4
                    } else {
                        before.ppu.stat & !4u8
                    },
                    ..before.ppu
                },
                interrupt_flag: if v == before.ppu.lyc && bit(before.ppu.stat, 6) {
                    before.interrupt_flag | 2
                } else {
                    before.interrupt_flag
                },
                ..before
            })
        })
        &&& 0xFF04 <= address <= 0xFF07 ==> self == (MMU {
            timer: before.timer.written(address, byte),
            ..before
        })
        &&& address == 0xFF00 ==> self == (MMU {
            joypad: Joypad {
                select_buttons: !bit(byte, 5),
                select_dpad: !bit(byte, 4),
                ..before.joypad
            },
            ..before
        })
        &&& (address == 0xFF01 || address == 0xFF02) ==> self == (MMU { serial: self.serial, ..before })
            && self.serial.wrote(before.serial, address, byte)
        &&& address == 0xFF46 ==> self == (MMU {
            dma: byte,
            ppu: PPU { oam: self.ppu.oam, ..before.ppu },
            ..before
        })
        &&& address == 0xFF46 && byte <= 0xDF ==> forall|i: int|
            0 <= i < OAM_SIZE ==> #[trigger] self.ppu.oam@[i] == before.spec_read(
                (byte * 0x100 + i) as u16,
            )
    }

    /// Writes a byte to the component that owns the address. A write to
    /// 0xFF46 copies 160 bytes from `byte * 0x100` into OAM.
    pub fn write_byte(&mut self, address: u16, byte: u8)
        requires
            old(self).wf(),
        ensures
            final(self).wf(),
            final(self).wrote_byte(*old(self), address, byte),
    {
        if address <= 0x7FFF || (0xA000 <= address && address <= 0xBFFF) {
            self.cartridge.mbc.write_byte(address, byte);
        } else if address <= 0x9FFF {
            self.ppu.write_byte(address, byte, &mut self.interrupt_flag);
        } else if address <= 0xDFFF {
            self.wram.set((address - 0xC000) as usize, byte);
        } else if address <= 0xFDFF {
            self.wram.set((address - 0xE000) as usize, byte);
        } else if address <= 0xFE9F {
            self.ppu.write_byte(address, byte, &mut self.interrupt_flag);
        } else if address <= 0xFEFF {
        } else if address == 0xFF46 {
            self.dma = byte;
            self.oam_dma(byte);
        } else if 0xFF40 <= address && address <= 0xFF4B {
            self.ppu.write_byte(address, byte, &mut self.interrupt_flag);
        } else if address == 0xFF0F {
            self.interrupt_flag = byte;
        } else if address == 0xFF00 {
            self.joypad.write(byte);
        } else if address == 0xFF01 || address == 0xFF02 {
            self.serial.write_byte(address, byte);
        } else if 0xFF04 <= address && address <= 0xFF07 {
            self.timer.write_byte(address, byte);
        } else if 0xFF10 <= address && address <= 0xFF26 {
            self.stub_audio.set((address - 0xFF10) as usize, byte);
        } else if 0xFF80 <= address && address <= 0xFFFE {
            self.hram.set((address - 0xFF80) as usize, byte);
        } else if address == 0xFFFF {
            self.interrupt_enable = byte;
        }
    }

    /// Copies 160 bytes from page `page` into OAM.
    fn oam_dma(&mut self, page: u8)
        requires
            old(self).wf(),
        ensures
            final(self).wf(),
            *final(self) == (MMU { ppu: final(self).ppu, ..*old(self) }),
            final(self).ppu == (PPU { oam: final(self).ppu.oam, ..old(self).ppu }),
            page <= 0xDF ==> forall|i: int|
                0 <= i < OAM_SIZE ==> #[trigger] final(self).ppu.oam@[i] == old(self).spec_read(
                    (page * 0x100 + i) as u16,
                ),
    {
        let source: u16 = page as u16 * 0x100;
        let mut i: usize = 0;
        while i < OAM_SIZE
            invariant
                i <= OAM_SIZE,
                source == page * 0x100,
                self.wf(),
                *self == (MMU { ppu: self.ppu, ..*old(self) }),
                self.ppu == (PPU { oam: self.ppu.oam, ..old(self).ppu }),
                page <= 0xDF ==> forall|a: u16| a < 0xE000 ==> #[trigger] self.spec_read(a) == old(self).spec_read(a),
                page <= 0xDF ==> forall|k: int|
                    0 <= k < i ==> #[trigger] self.ppu.oam@[k] == old(self).spec_read(
                        (page * 0x100 + k) as u16,
                    ),
            decreases OAM_SIZE - i,
        {
            let address: u16 = if source as usize + i <= 0xFFFF {
                (source as usize + i) as u16
            } else {
                (source as usize + i - 0x10000) as u16
            };
            let copied = self.read_byte(address);
            self.ppu.oam.set(i, copied);
            i = i + 1;
        }
    }

    /// Writes a word little-endian: the low byte at `address`, the high byte
    /// at the next address.
    pub fn write_word(&mut self, address: u16, word: u16)
        requires
            old(self).wf(),
        ensures
            final(self).wf(),
            exists|mid: MMU|
                #[trigger] mid.wrote_byte(*old(self), address, (word % 256) as u8) && final(self).wrote_byte(
                    mid,
                    ((address + 1) % 65536) as u16,
                    (word / 256) as u8,
                ),
    {
        self.write_byte(address, (word % 256) as u8);
        let ghost mid = *self;
        self.write_byte(if address == 0xFFFF { 0 } else { address + 1 }, (word / 256) as u8);
        proof {
            assert(mid.wrote_byte(*old(self), address, (word % 256) as u8));
        }
    }

    /// `self` is `before` after the PPU, then the timer, ran for `cycles`
    /// T-cycles, each raising its interrupt bits in IF.
    pub open spec fn ticked(self, before: MMU, cycles: Cycles) -> bool {
        &&& self == (MMU {
            ppu: self.ppu,
            timer: self.timer,
            interrupt_flag: self.interrupt_flag,
            ..before
        })
        &&& exists|mid: u8|
            #[trigger] self.ppu.stepped(before.ppu, cycles, before.interrupt_flag, mid)
                && self.timer.stepped(before.timer, cycles, mid, self.interrupt_flag)
    }

    /// Runs the PPU, then the timer, for `cycles` T-cycles.
    pub fn tick(&mut self, cycles: Cycles)
        requires
            old(self).wf(),
        ensures
            final(self).wf(),
            final(self).ticked(*old(self), cycles),
    {
        let ghost before = *self;
        self.ppu.tick(cycles, &mut self.interrupt_flag);
        let ghost mid = self.interrupt_flag;
        self.timer.tick(cycles, &mut self.interrupt_flag);
        proof {
            assert(self.ppu.stepped(before.ppu, cycles, before.interrupt_flag, mid));
        }
    }
}

} // verus!
