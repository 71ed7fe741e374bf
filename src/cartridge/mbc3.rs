//! The MBC3 controller: up to 128 ROM banks, 8 RAM banks and a real-time
//! clock whose registers are latched from the wall clock.
use vstd::prelude::*;

use crate::cartridge::{byte_at, cartridge_address, read_or_ff, store, write_if_present};

verus! {

#[verifier::external_type_specification]
#[verifier::external_body]
pub struct ExInstant(std::time::Instant);

/// Relies on `Instant::now`: a reading of the monotonic clock. Nothing is
/// stated of it.
pub assume_specification[ std::time::Instant::now ]() -> std::time::Instant;

/// Relies on `Instant::elapsed`: the time since an earlier reading. Nothing
/// is stated of it.
pub assume_specification[ std::time::Instant::elapsed ](i: &std::time::Instant) -> core::time::Duration;

/// Relies on `Duration::as_secs`: the whole seconds of a duration. Nothing is
/// stated of it, the duration being opaque.
pub assume_specification[ core::time::Duration::as_secs ](d: &core::time::Duration) -> u64;

/// The latched clock registers.
#[derive(Clone, Copy, Debug, PartialEq, Eq, Structural)]
pub struct RTCRegs {
    pub seconds: u8,
    pub minutes: u8,
    pub hours: u8,
    pub day_counter_low: u8,
    /// Bit 0: bit 8 of the day counter; bit 6: halt; bit 7: day overflow.
    pub day_counter_high: u8,
}

pub struct MBC3 {
    pub rom: Vec<u8>,
    pub ram: Vec<u8>,
    /// 7 bits.
    pub rom_bank_number: u8,
    pub ram_rtc_enable: bool,
    /// 0x00-0x07 select a RAM bank, 0x08-0x0C a clock register.
    pub ram_rtc_select: u8,
    pub rtc: RTCRegs,
    /// The last byte written to 0x6000..=0x7FFF.
    pub latch: u8,
    pub init_time: std::time::Instant,
}

/// The clock registers after latching `secs` seconds since start.
pub open spec fn latched(rtc: RTCRegs, secs: u64) -> RTCRegs {
    if rtc.day_counter_high & 0x40 != 0 {
        rtc
    } else {
        let days = secs / 86400;
        let dh0 = rtc.day_counter_high & 0xFE;
        let dh1 = if (days / 256) % 2 == 1 { dh0 | 0x01 } else { dh0 };
        RTCRegs {
            seconds: (secs % 60) as u8,
            minutes: ((secs / 60) % 60) as u8,
            hours: ((secs / 3600) % 24) as u8,
            day_counter_low: (days % 256) as u8,
            day_counter_high: if days > 0x1FF { dh1 | 0x80 } else { dh1 },
        }
    }
}

/// The ROM bank seen at 0x4000..=0x7FFF: bank 0 is read as bank 1.
pub open spec fn effective_bank(bank: u8) -> int {
    if bank == 0 {
        1
    } else {
        bank as int
    }
}

impl MBC3 {
    pub open spec fn wf(self) -> bool {
        self.rom_bank_number < 128
    }

    pub open spec fn spec_read(self, address: u16) -> u8 {
        if address <= 0x3FFF {
            byte_at(self.rom@, address as int)
        } else if address <= 0x7FFF {
            byte_at(self.rom@, effective_bank(self.rom_bank_number) * 0x4000 + address - 0x4000)
        } else if !self.ram_rtc_enable {
            0xFF
        } else if self.ram_rtc_select <= 0x07 {
            byte_at(self.ram@, self.ram_rtc_select * 0x2000 + address - 0xA000)
        } else if self.ram_rtc_select == 0x08 {
            self.rtc.seconds
        } else if self.ram_rtc_select == 0x09 {
            self.rtc.minutes
        } else if self.ram_rtc_select == 0x0A {
            self.rtc.hours
        } else if self.ram_rtc_select == 0x0B {
            self.rtc.day_counter_low
        } else if self.ram_rtc_select == 0x0C {
            self.rtc.day_counter_high
        } else {
            0xFF
        }
    }

    pub fn new(rom: Vec<u8>, ram_size: usize) -> (r: MBC3)
        ensures
            r.wf(),
            r.rom@ == rom@,
            r.ram@ == Seq::new(ram_size as nat, |i: int| 0u8),
            !r.ram_rtc_enable,
            r.rom_bank_number == 0,
            r.ram_rtc_select == 0,
            r.latch == 0xFF,
            r.rtc == (RTCRegs {
                seconds: 0,
                minutes: 0,
                hours: 0,
                day_counter_low: 0,
                day_counter_high: 0,
            }),
    {
        let ram = vec![0u8; ram_size];
        proof {
            assert(ram@ =~= Seq::new(ram_size as nat, |i: int| 0u8));
        }
        MBC3 {
            rom,
            ram,
            rom_bank_number: 0,
            ram_rtc_enable: false,
            ram_rtc_select: 0,
            rtc: RTCRegs {
                seconds: 0,
                minutes: 0,
                hours: 0,
                day_counter_low: 0,
                day_counter_high: 0,
            },
            latch: 0xFF,
            init_time: std::time::Instant::now(),
        }
    }

    /// Latches `secs` seconds since start into the clock registers, unless
    /// the clock is halted (bit 6 of DH).
    pub fn latch_clock(&mut self, secs: u64)
        ensures
            final(self).rtc == latched(old(self).rtc, secs),
            final(self).rom@ == old(self).rom@,
            final(self).ram@ == old(self).ram@,
            final(self).rom_bank_number == old(self).rom_bank_number,
            final(self).ram_rtc_enable == old(self).ram_rtc_enable,
            final(self).ram_rtc_select == old(self).ram_rtc_select,
            final(self).latch == old(self).latch,
    {
        if self.rtc.day_counter_high & 0x40 != 0 {
            return;
        }
        let days = secs / 86400;
        self.rtc.seconds = (secs % 60) as u8;
        self.rtc.minutes = ((secs / 60) % 60) as u8;
        self.rtc.hours = ((secs / 3600) % 24) as u8;
        self.rtc.day_counter_low = (days % 256) as u8;
        let dh0 = self.rtc.day_counter_high & 0xFE;
        let dh1 = if (days / 256) % 2 == 1 {
            dh0 | 0x01
        } else {
            dh0
        };
        self.rtc.day_counter_high = if days > 0x1FF {
            dh1 | 0x80
        } else {
            dh1
        };
    }

    /// Latches the time elapsed since the cartridge was made. What the clock
    /// reads is not known in advance: only that the registers hold some
    /// latched reading.
    fn refresh_clock(&mut self)
        ensures
            exists|secs: u64| final(self).rtc == #[trigger] latched(old(self).rtc, secs),
            final(self).rom@ == old(self).rom@,
            final(self).ram@ == old(self).ram@,
            final(self).rom_bank_number == old(self).rom_bank_number,
            final(self).ram_rtc_enable == old(self).ram_rtc_enable,
            final(self).ram_rtc_select == old(self).ram_rtc_select,
            final(self).latch == old(self).latch,
    {
        let elapsed = self.init_time.elapsed();
        let secs = elapsed.as_secs();
        self.latch_clock(secs);
    }

    pub fn read_byte(&self, address: u16) -> (r: u8)
        requires
            cartridge_address(address),
        ensures
            r == self.spec_read(address),
    {
        if address <= 0x3FFF {
            read_or_ff(&self.rom, address as usize)
        } else if address <= 0x7FFF {
            let bank: usize = if self.rom_bank_number == 0 {
                1
            } else {
                self.rom_bank_number as usize
            };
            read_or_ff(&self.rom, bank * 0x4000 + (address - 0x4000) as usize)
        } else if !self.ram_rtc_enable {
            0xFF
        } else if self.ram_rtc_select <= 0x07 {
            read_or_ff(&self.ram, self.ram_rtc_select as usize * 0x2000 + (address - 0xA000) as usize)
        } else if self.ram_rtc_select == 0x08 {
            self.rtc.seconds
        } else if self.ram_rtc_select == 0x09 {
            self.rtc.minutes
        } else if self.ram_rtc_select == 0x0A {
            self.rtc.hours
        } else if self.ram_rtc_select == 0x0B {
            self.rtc.day_counter_low
        } else if self.ram_rtc_select == 0x0C {
            self.rtc.day_counter_high
        } else {
            0xFF
        }
    }

    /// `self` is `before` after a write of `byte` at `address`. A write of
    /// 1 after 0 to 0x6000..=0x7FFF latches some reading of the clock.
    pub open spec fn wrote(self, before: MBC3, address: u16, byte: u8) -> bool {
        let sel = before.ram_rtc_select;
        let on = before.ram_rtc_enable;
        &&& self.wf()
        &&& self.rom@ == before.rom@
        &&& address <= 0x1FFF ==> self.ram_rtc_enable == (byte % 16 == 0x0A)
        &&& !(address <= 0x1FFF) ==> self.ram_rtc_enable == before.ram_rtc_enable
        &&& 0x2000 <= address <= 0x3FFF ==> self.rom_bank_number == byte % 128
        &&& !(0x2000 <= address <= 0x3FFF) ==> self.rom_bank_number == before.rom_bank_number
        &&& 0x4000 <= address <= 0x5FFF ==> self.ram_rtc_select == byte
        &&& !(0x4000 <= address <= 0x5FFF) ==> self.ram_rtc_select == before.ram_rtc_select
        &&& 0x6000 <= address <= 0x7FFF ==> self.latch == byte
        &&& !(0x6000 <= address <= 0x7FFF) ==> self.latch == before.latch
        &&& 0x6000 <= address <= 0x7FFF && before.latch == 0 && byte == 1 ==> exists|secs: u64|
            self.rtc == #[trigger] latched(before.rtc, secs)
        &&& 0x6000 <= address <= 0x7FFF && !(before.latch == 0 && byte == 1) ==> self.rtc
            == before.rtc
        &&& address <= 0x5FFF ==> self.rtc == before.rtc
        &&& address <= 0x7FFF ==> self.ram@ == before.ram@
        &&& address >= 0xA000 && on && sel <= 0x07 ==> self.ram@ == store(
            before.ram@,
            sel * 0x2000 + address - 0xA000,
            byte,
        )
        &&& address >= 0xA000 && !(on && sel <= 0x07) ==> self.ram@ == before.ram@
        &&& address >= 0xA000 && on && sel == 0x08 ==> self.rtc == (RTCRegs {
            seconds: byte,
            ..before.rtc
        })
        &&& address >= 0xA000 && on && sel == 0x09 ==> self.rtc == (RTCRegs {
            minutes: byte,
            ..before.rtc
        })
        &&& address >= 0xA000 && on && sel == 0x0A ==> self.rtc == (RTCRegs {
            hours: byte,
            ..before.rtc
        })
        &&& address >= 0xA000 && on && sel == 0x0B ==> self.rtc == (RTCRegs {
            day_counter_low: byte,
            ..before.rtc
        })
        &&& address >= 0xA000 && on && sel == 0x0C ==> self.rtc == (RTCRegs {
            day_counter_high: byte,
            ..before.rtc
        })
        &&& address >= 0xA000 && !(on && 0x08 <= sel <= 0x0C) ==> self.rtc == before.rtc
    }

    pub fn write_byte(&mut self, address: u16, byte: u8)
        requires
            old(self).wf(),
            cartridge_address(address),
        ensures
            final(self).wrote(*old(self), address, byte),
    {
        if address <= 0x1FFF {
            self.ram_rtc_enable = byte % 16 == 0x0A;
        } else if address <= 0x3FFF {
            self.rom_bank_number = byte % 128;
        } else if address <= 0x5FFF {
            self.ram_rtc_select = byte;
        } else if address <= 0x7FFF {
            if self.latch == 0x00 && byte == 0x01 {
                self.refresh_clock();
            }
            self.latch = byte;
        } else if self.ram_rtc_enable {
            let select = self.ram_rtc_select;
            if select <= 0x07 {
                let i = select as usize * 0x2000 + (address - 0xA000) as usize;
                write_if_present(&mut self.ram, i, byte);
            } else if select == 0x08 {
                self.rtc.seconds = byte;
            } else if select == 0x09 {
                self.rtc.minutes = byte;
            } else if select == 0x0A {
                self.rtc.hours = byte;
            } else if select == 0x0B {
                self.rtc.day_counter_low = byte;
            } else if select == 0x0C {
                self.rtc.day_counter_high = byte;
            }
        }
    }
}

} // verus!
