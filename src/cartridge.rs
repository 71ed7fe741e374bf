//! Cartridges: the header, and the bank controllers that map ROM and RAM
//! banks into the CPU's address space.
use vstd::prelude::*;

pub mod mbc1;
pub mod mbc3;

use crate::cartridge::mbc1::MBC1;
use crate::cartridge::mbc3::MBC3;

verus! {

pub const ROM_BANK_SIZE: usize = 0x4000;

pub const RAM_BANK_SIZE: usize = 0x2000;

/// The byte at `i`, or 0xFF past the end.
pub open spec fn byte_at(v: Seq<u8>, i: int) -> u8 {
    if 0 <= i < v.len() {
        v[i]
    } else {
        0xFF
    }
}

/// `v` with the byte at `i` replaced, or unchanged past the end.
pub open spec fn store(v: Seq<u8>, i: int, b: u8) -> Seq<u8> {
    if 0 <= i < v.len() {
        v.update(i, b)
    } else {
        v
    }
}

pub fn read_or_ff(v: &Vec<u8>, i: usize) -> (r: u8)
    ensures
        r == byte_at(v@, i as int),
{
    if i < v.len() {
        v[i]
    } else {
        0xFF
    }
}

pub fn write_if_present(v: &mut Vec<u8>, i: usize, b: u8)
    ensures
        final(v)@ == store(old(v)@, i as int, b),
{
    if i < v.len() {
        v.set(i, b);
    }
}

/// Whether an address lies in the ROM window or the external RAM window.
pub open spec fn cartridge_address(address: u16) -> bool {
    address <= 0x7FFF || 0xA000 <= address <= 0xBFFF
}

/// A cartridge without a bank controller: 32 KiB of ROM and 8 KiB of RAM.
pub struct NoMBC {
    pub rom: Vec<u8>,
    pub ram: Vec<u8>,
}

impl NoMBC {
    pub open spec fn wf(self) -> bool {
        self.rom@.len() == 0x8000 && self.ram@.len() == 0x2000
    }

    pub open spec fn spec_read(self, address: u16) -> u8 {
        if address <= 0x7FFF {
            byte_at(self.rom@, address as int)
        } else {
            byte_at(self.ram@, address - 0xA000)
        }
    }

    pub fn new() -> (r: NoMBC)
        ensures
            r.wf(),
            forall|i: int| 0 <= i < 0x8000 ==> r.rom@[i] == 0,
            forall|i: int| 0 <= i < 0x2000 ==> r.ram@[i] == 0,
    {
        NoMBC { rom: vec![0u8; 0x8000], ram: vec![0u8; 0x2000] }
    }

    /// Copies the start of `data` (up to 32 KiB) into ROM.
    pub fn load_rom(&mut self, data: &[u8])
        requires
            old(self).wf(),
        ensures
            final(self).wf(),
            final(self).ram@ == old(self).ram@,
            forall|i: int|
                0 <= i < 0x8000 ==> #[trigger] final(self).rom@[i] == (if i < data@.len() {
                    data@[i]
                } else {
                    old(self).rom@[i]
                }),
    {
        let n = if data.len() < 0x8000 {
            data.len()
        } else {
            0x8000
        };
        let mut i: usize = 0;
        while i < n
            invariant
                n <= data@.len(),
                n <= 0x8000,
                i <= n,
                self.rom@.len() == 0x8000,
                self.ram@ == old(self).ram@,
                self.ram@.len() == 0x2000,
                forall|j: int|
                    0 <= j < 0x8000 ==> #[trigger] self.rom@[j] == (if j < i {
                        data@[j]
                    } else {
                        old(self).rom@[j]
                    }),
            decreases n - i,
        {
            self.rom.set(i, data[i]);
            i = i + 1;
        }
    }

    pub fn read_byte(&self, address: u16) -> (r: u8)
        requires
            cartridge_address(address),
        ensures
            r == self.spec_read(address),
    {
        if address <= 0x7FFF {
            read_or_ff(&self.rom, address as usize)
        } else {
            read_or_ff(&self.ram, (address - 0xA000) as usize)
        }
    }

    /// `self` is `before` after a write of `byte` at `address`: writes to
    /// the ROM window are ignored.
    pub open spec fn wrote(self, before: NoMBC, address: u16, byte: u8) -> bool {
        &&& self.rom@ == before.rom@
        &&& address <= 0x7FFF ==> self.ram@ == before.ram@
        &&& address >= 0xA000 ==> self.ram@ == store(before.ram@, address - 0xA000, byte)
    }

    pub fn write_byte(&mut self, address: u16, byte: u8)
        requires
            cartridge_address(address),
        ensures
            final(self).wrote(*old(self), address, byte),
    {
        if address >= 0xA000 {
            write_if_present(&mut self.ram, (address - 0xA000) as usize, byte);
        }
    }
}

/// The bank controller of a cartridge.
pub enum MBC {
    NoMBC(NoMBC),
    MBC1(MBC1),
    MBC3(MBC3),
}

impl MBC {
    pub open spec fn wf(self) -> bool {
        match self {
            MBC::NoMBC(m) => m.wf(),
            MBC::MBC1(m) => m.wf(),
            MBC::MBC3(m) => m.wf(),
        }
    }

    pub open spec fn spec_read(self, address: u16) -> u8 {
        match self {
            MBC::NoMBC(m) => m.spec_read(address),
            MBC::MBC1(m) => m.spec_read(address),
            MBC::MBC3(m) => m.spec_read(address),
        }
    }

    pub fn read_byte(&self, address: u16) -> (r: u8)
        requires
            self.wf(),
            cartridge_address(address),
        ensures
            r == self.spec_read(address),
    {
        match self {
            MBC::NoMBC(m) => m.read_byte(address),
            MBC::MBC1(m) => m.read_byte(address),
            MBC::MBC3(m) => m.read_byte(address),
        }
    }

    /// `self` is `before` after a write of `byte` at `address`, by the
    /// controller's own rules.
    pub open spec fn wrote(self, before: MBC, address: u16, byte: u8) -> bool {
        match (before, self) {
            (MBC::NoMBC(b), MBC::NoMBC(a)) => a.wrote(b, address, byte),
            (MBC::MBC1(b), MBC::MBC1(a)) => a.wrote(b, address, byte),
            (MBC::MBC3(b), MBC::MBC3(a)) => a.wrote(b, address, byte),
            _ => false,
        }
    }

    pub fn write_byte(&mut self, address: u16, byte: u8)
        requires
            old(self).wf(),
            cartridge_address(address),
        ensures
            final(self).wf(),
            final(self).wrote(*old(self), address, byte),
    {
        match self {
            MBC::NoMBC(m) => m.write_byte(address, byte),
            MBC::MBC1(m) => m.write_byte(address, byte),
            MBC::MBC3(m) => m.write_byte(address, byte),
        }
    }
}

/// Why a ROM image cannot be loaded.
#[derive(Clone, Copy, Debug, PartialEq, Eq, Structural)]
pub enum CartridgeError {
    /// The image ends before its header does.
    TooShort,
    /// The RAM-size byte (0x0149) holds an undefined code.
    InvalidRamSize(u8),
    /// The cartridge-type byte (0x0147) names a controller that is not supported.
    UnsupportedType(u8),
}

/// The number of 8 KiB RAM banks for the RAM-size code of the header.
pub open spec fn ram_banks(code: u8) -> Option<usize> {
    if code == 0x00 {
        Some(0)
    } else if code == 0x02 {
        Some(1)
    } else if code == 0x03 {
        Some(4)
    } else if code == 0x04 {
        Some(16)
    } else if code == 0x05 {
        Some(64)
    } else {
        None
    }
}

/// Which controller a cartridge-type code names: 0 none, 1 MBC1, 3 MBC3.
pub open spec fn controller_of(code: u8) -> Option<u8> {
    if code == 0x00 {
        Some(0)
    } else if 0x01 <= code <= 0x03 {
        Some(1)
    } else if 0x0F <= code <= 0x13 {
        Some(3)
    } else {
        None
    }
}

/// The title bytes of the header (0x0134..=0x0142) decoded as text.
pub uninterp spec fn title_text(bytes: Seq<u8>) -> Seq<char>;

/// Relies on `String::from_utf8_lossy`: the bytes decoded as UTF-8, with
/// each invalid sequence replaced; the text depends on the bytes alone.
#[verifier::external_body]
fn decode_title(bytes: &[u8]) -> (r: String)
    ensures
        r@ == title_text(bytes@),
{
    String::from_utf8_lossy(bytes).into_owned()
}

pub struct Cartridge {
    pub title: String,
    pub mbc: MBC,
}

impl Cartridge {
    pub open spec fn wf(self) -> bool {
        self.mbc.wf()
    }

    /// Reads the header of a ROM image and builds the matching controller.
    pub fn from_rom(rom: Vec<u8>) -> (r: Result<Cartridge, CartridgeError>)
        ensures
            rom@.len() < 0x150 <==> r == Err::<Cartridge, CartridgeError>(CartridgeError::TooShort),
            rom@.len() >= 0x150 && ram_banks(rom@[0x149]) is None <==> r == Err::<
                Cartridge,
                CartridgeError,
            >(CartridgeError::InvalidRamSize(rom@[0x149])),
            rom@.len() >= 0x150 && ram_banks(rom@[0x149]) is Some && controller_of(rom@[0x147]) is None
                <==> r == Err::<Cartridge, CartridgeError>(
                CartridgeError::UnsupportedType(rom@[0x147]),
            ),
            rom@.len() >= 0x150 && ram_banks(rom@[0x149]) is Some && controller_of(rom@[0x147]) is Some
                <==> r is Ok,
            r is Ok ==> {
                let c = r->Ok_0;
                &&& c.wf()
                &&& c.title@ == title_text(rom@.subrange(0x134, 0x143))
                &&& controller_of(rom@[0x147]) == Some(0u8) ==> c.mbc is NoMBC && forall|i: int|
                    0 <= i < 0x8000 ==> #[trigger] c.mbc->NoMBC_0.rom@[i] == (if i < rom@.len() {
                        rom@[i]
                    } else {
                        0u8
                    })
                &&& controller_of(rom@[0x147]) == Some(1u8) ==> c.mbc is MBC1 && c.mbc->MBC1_0.rom@
                    == rom@ && c.mbc->MBC1_0.ram@.len() == ram_banks(rom@[0x149])->Some_0
                    * RAM_BANK_SIZE
                &&& controller_of(rom@[0x147]) == Some(3u8) ==> c.mbc is MBC3 && c.mbc->MBC3_0.rom@
                    == rom@ && c.mbc->MBC3_0.ram@.len() == ram_banks(rom@[0x149])->Some_0
                    * RAM_BANK_SIZE
            },
    {
        if rom.len() < 0x150 {
            return Err(CartridgeError::TooShort);
        }
        let mut title_bytes: Vec<u8> = Vec::new();
        let mut i: usize = 0x134;
        while i < 0x143
            invariant
                0x134 <= i <= 0x143,
                rom@.len() >= 0x150,
                title_bytes@ == rom@.subrange(0x134, i as int),
            decreases 0x143 - i,
        {
            title_bytes.push(rom[i]);
            i = i + 1;
        }
        let title = decode_title(title_bytes.as_slice());
        let ram_code = rom[0x149];
        let banks: usize = if ram_code == 0x00 {
            0
        } else if ram_code == 0x02 {
            1
        } else if ram_code == 0x03 {
            4
        } else if ram_code == 0x04 {
            16
        } else if ram_code == 0x05 {
            64
        } else {
            return Err(CartridgeError::InvalidRamSize(ram_code));
        };
        let ram_size = banks * RAM_BANK_SIZE;
        let cart_type = rom[0x147];
        let mbc = if cart_type == 0x00 {
            let mut m = NoMBC::new();
            m.load_rom(rom.as_slice());
            MBC::NoMBC(m)
        } else if 0x01 <= cart_type && cart_type <= 0x03 {
            MBC::MBC1(MBC1::new(rom, ram_size))
        } else if 0x0F <= cart_type && cart_type <= 0x13 {
            MBC::MBC3(MBC3::new(rom, ram_size))
        } else {
            return Err(CartridgeError::UnsupportedType(cart_type));
        };
        Ok(Cartridge { title, mbc })
    }
}

} // verus!
