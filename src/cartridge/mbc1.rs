//! The MBC1 controller: up to 32 ROM banks and 4 RAM banks.
use vstd::prelude::*;

use crate::cartridge::{byte_at, cartridge_address, read_or_ff, store, write_if_present};

verus! {

#[derive(Clone, Copy, Debug, PartialEq, Eq, Structural)]
pub enum MBC1BankingMode {
    Simple,
    Advanced,
}

pub struct MBC1 {
    pub ram_enable: bool,
    /// 5 bits.
    pub rom_bank_number: u8,
    /// 2 bits.
    pub ram_bank_number: u8,
    pub banking_mode: MBC1BankingMode,
    pub rom: Vec<u8>,
    pub ram: Vec<u8>,
}

/// The ROM bank seen at 0x4000..=0x7FFF: bank 0 is read as bank 1.
pub open spec fn effective_bank(bank: u8) -> int {
    if bank == 0 {
        1
    } else {
        bank as int
    }
}

impl MBC1 {
    pub open spec fn wf(self) -> bool {
        self.rom_bank_number < 32 && self.ram_bank_number < 4
    }

    /// The offset into RAM of an address of the external RAM window.
    pub open spec fn ram_offset(self, address: u16) -> int {
        match self.banking_mode {
            MBC1BankingMode::Simple => address - 0xA000,
            MBC1BankingMode::Advanced => self.ram_bank_number * 0x2000 + address - 0xA000,
        }
    }

    pub open spec fn spec_read(self, address: u16) -> u8 {
        if address <= 0x3FFF {
            byte_at(self.rom@, address as int)
        } else if address <= 0x7FFF {
            byte_at(self.rom@, effective_bank(self.rom_bank_number) * 0x4000 + address - 0x4000)
        } else if self.ram_enable {
            byte_at(self.ram@, self.ram_offset(address))
        } else {
            0xFF
        }
    }

    pub fn new(rom: Vec<u8>, ram_size: usize) -> (r: MBC1)
        ensures
            r.wf(),
            r.rom@ == rom@,
            r.ram@ == Seq::new(ram_size as nat, |i: int| 0u8),
            !r.ram_enable,
            r.rom_bank_number == 0,
            r.ram_bank_number == 0,
            r.banking_mode == MBC1BankingMode::Simple,
    {
        let ram = vec![0u8; ram_size];
        proof {
            assert(ram@ =~= Seq::new(ram_size as nat, |i: int| 0u8));
        }
        MBC1 {
            rom,
            ram,
            ram_enable: false,
            rom_bank_number: 0,
            ram_bank_number: 0,
            banking_mode: MBC1BankingMode::Simple,
        }
    }

    fn ram_index(&self, address: u16) -> (r: usize)
        requires
            self.wf(),
            0xA000 <= address <= 0xBFFF,
        ensures
            r as int == self.ram_offset(address),
    {
        match self.banking_mode {
            MBC1BankingMode::Simple => (address - 0xA000) as usize,
            MBC1BankingMode::Advanced => self.ram_bank_number as usize * 0x2000 + (address
                - 0xA000) as usize,
        }
    }

    pub fn read_byte(&self, address: u16) -> (r: u8)
        requires
            self.wf(),
            cartridge_address(address),
        ensures
            r == self.spec_read(address),
    {
        if address <= 0x3FFF {
            read_or_ff(&self.rom, address as usize)
        } else if address <= 0x7FFF {
            let bank: usize = if self.rom_bank_number == 0 {
                1
            } else {
                self.rom_bank_number as usize
            };
            read_or_ff(&self.rom, bank * 0x4000 + (address - 0x4000) as usize)
        } else if self.ram_enable {
            read_or_ff(&self.ram, self.ram_index(address))
        } else {
            0xFF
        }
    }

    /// `self` is `before` after a write of `byte` at `address`.
    pub open spec fn wrote(self, before: MBC1, address: u16, byte: u8) -> bool {
        &&& self.wf()
        &&& self.rom@ == before.rom@
        &&& address <= 0x1FFF ==> self.ram_enable == (byte % 16 == 0x0A)
        &&& 0x2000 <= address <= 0x3FFF ==> self.rom_bank_number == byte % 32
        &&& 0x4000 <= address <= 0x5FFF ==> self.ram_bank_number == byte % 4
        &&& 0x6000 <= address <= 0x7FFF ==> self.banking_mode == (if byte % 2 == 1 {
            MBC1BankingMode::Advanced
        } else {
            MBC1BankingMode::Simple
        })
        &&& address <= 0x7FFF ==> self.ram@ == before.ram@
        &&& !(address <= 0x1FFF) ==> self.ram_enable == before.ram_enable
        &&& !(0x2000 <= address <= 0x3FFF) ==> self.rom_bank_number == before.rom_bank_number
        &&& !(0x4000 <= address <= 0x5FFF) ==> self.ram_bank_number == before.ram_bank_number
        &&& !(0x6000 <= address <= 0x7FFF) ==> self.banking_mode == before.banking_mode
        &&& address >= 0xA000 && before.ram_enable ==> self.ram@ == store(
            before.ram@,
            before.ram_offset(address),
            byte,
        )
        &&& address >= 0xA000 && !before.ram_enable ==> self.ram@ == before.ram@
    }

    pub fn write_byte(&mut self, address: u16, byte: u8)
        requires
            old(self).wf(),
            cartridge_address(address),
        ensures
            final(self).wrote(*old(self), address, byte),
    {
        if address <= 0x1FFF {
            self.ram_enable = byte % 16 == 0x0A;
        } else if address <= 0x3FFF {
            self.rom_bank_number = byte % 32;
        } else if address <= 0x5FFF {
            self.ram_bank_number = byte % 4;
        } else if address <= 0x7FFF {
            self.banking_mode = if byte % 2 == 1 {
                MBC1BankingMode::Advanced
            } else {
                MBC1BankingMode::Simple
            };
        } else if self.ram_enable {
            let i = self.ram_index(address);
            write_if_present(&mut self.ram, i, byte);
        }
    }
}

} // verus!
