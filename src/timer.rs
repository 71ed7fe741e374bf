//! DIV, TIMA, TMA and TAC.
use vstd::prelude::*;

use crate::cpu::Cycles;
use crate::utils::{bit, is_set, set_bit};

verus! {

/// T-cycles per TIMA step for the clock-select bits of TAC.
pub open spec fn frequency_of(select: u8) -> usize {
    if select == 0 {
        1024
    } else if select == 1 {
        16
    } else if select == 2 {
        64
    } else {
        256
    }
}

/// The clock-select bits of TAC for a TIMA period.
pub open spec fn select_of(frequency: usize) -> u8 {
    if frequency == 1024 {
        0
    } else if frequency == 16 {
        1
    } else if frequency == 64 {
        2
    } else {
        3
    }
}

pub struct Timer {
    /// The internal 16-bit counter; DIV is its high byte.
    pub clock: u16,
    /// T-cycles accumulated towards the next TIMA step.
    pub tima_clock: usize,
    pub div: u8,
    pub tima: u8,
    pub tma: u8,
    pub enable: bool,
    /// T-cycles per TIMA step.
    pub frequency: usize,
}

impl Timer {
    pub open spec fn wf(self) -> bool {
        &&& self.frequency == 1024 || self.frequency == 16 || self.frequency == 64
            || self.frequency == 256
        &&& self.tima_clock < 1024
        &&& self.div as int == self.clock / 256
    }

    /// The number of TIMA steps that `cycles` more T-cycles make.
    pub open spec fn steps(self, cycles: Cycles) -> int {
        if self.enable {
            (self.tima_clock + cycles) / (self.frequency as int)
        } else {
            0
        }
    }

    /// The value read at a timer address.
    pub open spec fn spec_read(self, address: u16) -> u8 {
        if address == 0xFF04 {
            self.div
        } else if address == 0xFF05 {
            self.tima
        } else if address == 0xFF06 {
            self.tma
        } else {
            (select_of(self.frequency) + (if self.enable { 4u8 } else { 0u8 })) as u8
        }
    }

    pub fn new() -> (r: Timer)
        ensures
            r.wf(),
            r.clock == 0 && r.tima_clock == 0 && r.div == 0,
            r.tima == 0 && r.tma == 0,
            r.enable && r.frequency == 1024,
    {
        Timer { clock: 0, tima_clock: 0, div: 0, tima: 0, tma: 0, enable: true, frequency: 1024 }
    }

    pub fn read_byte(&self, address: u16) -> (r: u8)
        requires
            self.wf(),
            0xFF04 <= address <= 0xFF07,
        ensures
            address == 0xFF04 ==> r == self.div,
            address == 0xFF05 ==> r == self.tima,
            address == 0xFF06 ==> r == self.tma,
            address == 0xFF07 ==> r == select_of(self.frequency) + (if self.enable { 4u8 } else { 0u8 }),
            r == self.spec_read(address),
    {
        if address == 0xFF04 {
            self.div
        } else if address == 0xFF05 {
            self.tima
        } else if address == 0xFF06 {
            self.tma
        } else {
            let select: u8 = if self.frequency == 1024 {
                0
            } else if self.frequency == 16 {
                1
            } else if self.frequency == 64 {
                2
            } else {
                3
            };
            if self.enable {
                select + 4
            } else {
                select
            }
        }
    }

    /// The timer after `byte` is written at `address`: DIV is reset whatever
    /// the byte, TAC sets the enable bit and the TIMA period.
    pub open spec fn written(self, address: u16, byte: u8) -> Timer {
        if address == 0xFF04 {
            Timer { clock: 0, div: 0, ..self }
        } else if address == 0xFF05 {
            Timer { tima: byte, ..self }
        } else if address == 0xFF06 {
            Timer { tma: byte, ..self }
        } else {
            Timer { enable: bit(byte, 2), frequency: frequency_of(byte % 4), ..self }
        }
    }

    pub fn write_byte(&mut self, address: u16, byte: u8)
        requires
            old(self).wf(),
            0xFF04 <= address <= 0xFF07,
        ensures
            final(self).wf(),
            *final(self) == old(self).written(address, byte),
    {
        if address == 0xFF04 {
            self.clock = 0;
            self.div = 0;
        } else if address == 0xFF05 {
            self.tima = byte;
        } else if address == 0xFF06 {
            self.tma = byte;
        } else {
            self.enable = is_set(byte, 2);
            let select = byte % 4;
            self.frequency = if select == 0 {
                1024
            } else if select == 1 {
                16
            } else if select == 2 {
                64
            } else {
                256
            };
        }
    }

    fn increment_clock(&mut self, amount: Cycles)
        requires
            old(self).wf(),
        ensures
            final(self).wf(),
            *final(self) == (Timer {
                clock: ((old(self).clock + amount) % 65536) as u16,
                div: (((old(self).clock + amount) % 65536) / 256) as u8,
                ..*old(self)
            }),
    {
        self.clock = ((self.clock as u128 + amount as u128) % 65536) as u16;
        self.div = (self.clock / 256) as u8;
    }

    /// `self` is the timer `before` after `cycles` T-cycles, with IF going from
    /// `if_before` to `if_after`.
    pub open spec fn stepped(self, before: Timer, cycles: Cycles, if_before: u8, if_after: u8) -> bool {
        &&& self.clock == (before.clock + cycles) % 65536
        &&& self.tma == before.tma
        &&& self.enable == before.enable
        &&& self.frequency == before.frequency
        &&& before.enable ==> self.tima_clock == (before.tima_clock + cycles)
            % (before.frequency as int)
        &&& !before.enable ==> self.tima_clock == before.tima_clock
        &&& before.tima + before.steps(cycles) <= 255 ==> {
            &&& self.tima == before.tima + before.steps(cycles)
            &&& if_after == if_before
        }
        &&& before.tima + before.steps(cycles) > 255 ==> {
            &&& self.tima == before.tma
            &&& if_after == if_before | 4
        }
    }

    /// Advances the timer by `cycles` T-cycles. When TIMA steps past 0xFF it
    /// is reloaded from TMA and the Timer bit (2) of `interrupt_flag` is set.
    pub fn tick(&mut self, cycles: Cycles, interrupt_flag: &mut u8)
        requires
            old(self).wf(),
        ensures
            final(self).wf(),
            final(self).stepped(*old(self), cycles, *old(interrupt_flag), *final(interrupt_flag)),
    {
        self.increment_clock(cycles);
        if self.enable {
            let total = self.tima_clock as u128 + cycles as u128;
            let frequency = self.frequency as u128;
            let steps = total / frequency;
            self.tima_clock = (total % frequency) as usize;
            if self.tima as u128 + steps > 255 {
                self.tima = self.tma;
                *interrupt_flag = set_bit(*interrupt_flag, 2);
                assert(1u8 << 2u8 == 4) by (bit_vector);
            } else {
                self.tima = (self.tima as u128 + steps) as u8;
            }
        }
    }
}

} // verus!
