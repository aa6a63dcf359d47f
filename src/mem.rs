//! Plain memories and the fixed address map.
use vstd::prelude::*;

pub mod ram;
pub mod rom;

verus! {

pub const ROM_ADDR_TOP: u16 = 0x0000;
pub const ROM_ADDR_TAIL: u16 = 0x3fff;
pub const ROM_BANK_ADDR_TOP: u16 = 0x4000;
pub const ROM_BANK_ADDR_TAIL: u16 = 0x7fff;
pub const VRAM_ADDR_TOP: u16 = 0x8000;
pub const VRAM_ADDR_TAIL: u16 = 0x9fff;
pub const CART_RAM_ADDR_TOP: u16 = 0xa000;
pub const CART_RAM_ADDR_TAIL: u16 = 0xbfff;
pub const WRAM_BANK_0_ADDR_TOP: u16 = 0xc000;
pub const WRAM_BANK_0_ADDR_TAIL: u16 = 0xcfff;
pub const WRAM_BANK_1_ADDR_TOP: u16 = 0xd000;
pub const WRAM_BANK_1_ADDR_TAIL: u16 = 0xdfff;
pub const ECHO_RAM_ADDR_TOP: u16 = 0xe000;
pub const ECHO_RAM_ADDR_TAIL: u16 = 0xfdff;
pub const OAM_ADDR_TOP: u16 = 0xfe00;
pub const OAM_ADDR_TAIL: u16 = 0xfe9f;
pub const IO_PORTS_ADDR_TOP: u16 = 0xff00;
pub const IO_PORTS_ADDR_TAIL: u16 = 0xff7f;
pub const HRAM_ADDR_TOP: u16 = 0xff80;
pub const HRAM_ADDR_TAIL: u16 = 0xfffe;
pub const INTERRUPT_ENABLE_REG_ADDR: u16 = 0xffff;

/// The byte conventionally read where nothing drives the bus.
pub const OPEN_BUS: u8 = 0xff;

/// A read of a byte store: the byte at `addr`, or the open-bus value past its end.
pub open spec fn store_read(s: Seq<u8>, addr: int) -> u8 {
    if 0 <= addr < s.len() {
        s[addr]
    } else {
        OPEN_BUS
    }
}

/// A write to a byte store: the byte at `addr` replaced, or nothing past its end.
pub open spec fn store_write(s: Seq<u8>, addr: int, val: u8) -> Seq<u8> {
    if 0 <= addr < s.len() {
        s.update(addr, val)
    } else {
        s
    }
}

} // verus!
