//! The cartridge: ROM image, battery RAM and a simple bank controller.
use vstd::prelude::*;
use crate::device::Device;
use crate::error::{GBError, GBResult};
use crate::mem::ram::Ram;
use crate::mem::rom::Rom;
use crate::mem::{store_read, store_write, OPEN_BUS};

verus! {

/// Size of one switchable ROM bank.
pub const ROM_BANK_SIZE: usize = 0x4000;
/// Size of one switchable RAM bank.
pub const RAM_BANK_SIZE: usize = 0x2000;

/// What a cartridge holds, as plain values.
pub struct CartState {
    pub rom: Seq<u8>,
    pub ram: Seq<u8>,
    /// Whether the cartridge has a bank controller (else it is ROM-only).
    pub mbc: bool,
    /// Banking mode of the controller: RAM banking when set.
    pub mode: bool,
    pub ram_enabled: bool,
    /// Low ROM-bank bits (only the low five count).
    pub rom_bank: u8,
    /// RAM bank, or high ROM-bank bits (only the low two count).
    pub ram_bank: u8,
}

impl CartState {
    /// The ROM bank seen at 0x4000-0x7FFF.
    pub open spec fn rom_bank_index(self) -> int {
        if !self.mbc {
            1
        } else if self.mode {
            (self.rom_bank % 32) as int
        } else {
            (self.ram_bank % 4) as int * 32 + (self.rom_bank % 32) as int
        }
    }

    /// The RAM bank seen at 0xA000-0xBFFF.
    pub open spec fn ram_bank_index(self) -> int {
        if self.mbc && self.mode {
            (self.ram_bank % 4) as int
        } else {
            0
        }
    }

    pub open spec fn read(self, addr: u16) -> u8 {
        if addr < 0x4000 {
            store_read(self.rom, addr as int)
        } else if addr < 0x8000 {
            store_read(self.rom, self.rom_bank_index() * 0x4000 + (addr - 0x4000))
        } else if 0xa000 <= addr < 0xc000 {
            if self.ram_enabled {
                store_read(self.ram, self.ram_bank_index() * 0x2000 + (addr - 0xa000))
            } else {
                OPEN_BUS
            }
        } else {
            OPEN_BUS
        }
    }

    /// A write: control registers in the ROM range for a banked cartridge,
    /// data in the RAM range while RAM is enabled, nothing elsewhere.
    pub open spec fn write(self, addr: u16, val: u8) -> CartState {
        if addr < 0x8000 {
            if !self.mbc {
                self
            } else if addr < 0x2000 {
                CartState { ram_enabled: val % 16 == 0x0a, ..self }
            } else if addr < 0x4000 {
                CartState { rom_bank: if val % 32 == 0 { 1 } else { val % 32 }, ..self }
            } else if addr < 0x6000 {
                CartState { ram_bank: val % 4, ..self }
            } else {
                CartState { mode: val % 2 == 1, ..self }
            }
        } else if 0xa000 <= addr < 0xc000 && self.ram_enabled {
            CartState {
                ram: store_write(self.ram, self.ram_bank_index() * 0x2000 + (addr - 0xa000), val),
                ..self
            }
        } else {
            self
        }
    }
}

/// Whether a ROM image is well formed: at least two banks, a whole number of
/// banks, and exactly two banks for a cartridge without bank controller.
pub open spec fn rom_image_ok(len: nat, mbc_type: bool) -> bool {
    len >= 0x8000 && len % 0x4000 == 0 && (mbc_type || len == 0x8000)
}

#[derive(Debug)]
pub struct Cartridge {
    rom: Rom,
    ram: Ram,
    mbc_type: bool,
    mode: bool,
    ram_enabled: bool,
    rom_bank: u8,
    ram_bank: u8,
}

impl View for Cartridge {
    type V = CartState;

    closed spec fn view(&self) -> CartState {
        CartState {
            rom: self.rom@,
            ram: self.ram@,
            mbc: self.mbc_type,
            mode: self.mode,
            ram_enabled: self.ram_enabled,
            rom_bank: self.rom_bank,
            ram_bank: self.ram_bank,
        }
    }
}

impl Cartridge {
    /// A cartridge over a ROM and a RAM, banked when `mbc_type` is set, in
    /// RAM-banking mode when `mode` is set. A ROM-only cartridge's RAM is
    /// always enabled; a banked one starts with RAM disabled and ROM bank 1.
    /// Fails on a malformed ROM image.
    pub fn new(rom: Rom, ram: Ram, mbc_type: bool, mode: bool) -> (r: GBResult<Cartridge>)
        ensures
            r is Err <==> !rom_image_ok(rom@.len(), mbc_type),
            r is Err ==> r == Err::<Cartridge, GBError>(GBError::MalformedCartridgeImage),
            r is Ok ==> r->Ok_0@ == (CartState {
                rom: rom@,
                ram: ram@,
                mbc: mbc_type,
                mode: mode,
                ram_enabled: !mbc_type,
                rom_bank: 1,
                ram_bank: 0,
            }),
    {
        let len = rom.len();
        if len < 2 * ROM_BANK_SIZE || len % ROM_BANK_SIZE != 0 || (!mbc_type && len != 2
            * ROM_BANK_SIZE) {
            return Err(GBError::MalformedCartridgeImage);
        }
        Ok(Cartridge { rom, ram, mbc_type, mode, ram_enabled: !mbc_type, rom_bank: 1, ram_bank: 0 })
    }

    /// Loads a cartridge from a raw ROM image and an optional saved RAM image.
    pub fn from_image(rom: Vec<u8>, ram: Option<Vec<u8>>, mbc_type: bool) -> (r: GBResult<
        Cartridge,
    >)
        ensures
            r is Err <==> !rom_image_ok(rom@.len(), mbc_type),
            r is Err ==> r == Err::<Cartridge, GBError>(GBError::MalformedCartridgeImage),
            r is Ok ==> r->Ok_0@ == (CartState {
                rom: rom@,
                ram: match ram {
                    Some(v) => v@,
                    None => Seq::empty(),
                },
                mbc: mbc_type,
                mode: false,
                ram_enabled: !mbc_type,
                rom_bank: 1,
                ram_bank: 0,
            }),
    {
        let ram_bytes = match ram {
            Some(v) => v,
            None => Vec::new(),
        };
        Cartridge::new(Rom::new(rom), Ram::new(ram_bytes), mbc_type, false)
    }

    fn rom_bank_index(&self) -> (r: usize)
        ensures
            r == self@.rom_bank_index(),
            r < 128,
    {
        if !self.mbc_type {
            1
        } else if self.mode {
            (self.rom_bank % 32) as usize
        } else {
            (self.ram_bank % 4) as usize * 32 + (self.rom_bank % 32) as usize
        }
    }

    fn ram_bank_index(&self) -> (r: usize)
        ensures
            r == self@.ram_bank_index(),
            r < 4,
    {
        if self.mbc_type && self.mode {
            (self.ram_bank % 4) as usize
        } else {
            0
        }
    }
}

impl Device for Cartridge {
    open spec fn read_spec(v: CartState, addr: u16) -> u8 {
        v.read(addr)
    }

    open spec fn write_spec(v: CartState, addr: u16, val: u8) -> CartState {
        v.write(addr, val)
    }

    fn read(&self, addr: u16) -> (r: u8) {
        if addr < 0x4000 {
            self.rom.read_at(addr as usize)
        } else if addr < 0x8000 {
            let bank = self.rom_bank_index();
            self.rom.read_at(bank * ROM_BANK_SIZE + (addr - 0x4000) as usize)
        } else if 0xa000 <= addr && addr < 0xc000 {
            if self.ram_enabled {
                let bank = self.ram_bank_index();
                self.ram.read((bank * RAM_BANK_SIZE) as u16 + (addr - 0xa000))
            } else {
                OPEN_BUS
            }
        } else {
            OPEN_BUS
        }
    }

    fn write(&mut self, addr: u16, val: u8) {
        if addr < 0x8000 {
            if !self.mbc_type {
            } else if addr < 0x2000 {
                self.ram_enabled = val % 16 == 0x0a;
            } else if addr < 0x4000 {
                self.rom_bank = if val % 32 == 0 {
                    1
                } else {
                    val % 32
                };
            } else if addr < 0x6000 {
                self.ram_bank = val % 4;
            } else {
                self.mode = val % 2 == 1;
            }
        } else if 0xa000 <= addr && addr < 0xc000 && self.ram_enabled {
            let bank = self.ram_bank_index();
            self.ram.write((bank * RAM_BANK_SIZE) as u16 + (addr - 0xa000), val);
        }
    }
}

} // verus!
