//! The bus: owns every device and routes each address to exactly one of them.
use vstd::prelude::*;
use crate::cartridge::{CartState, Cartridge};
use crate::device::Device;
use crate::mem::ram::Ram;
use crate::mem::{store_read, store_write, OPEN_BUS};
use crate::timer::{Timer, TimerState, pending_mask, with_pending, without_pending};

verus! {

/// What the bus owns, as plain values.
pub struct BusState {
    pub cart: CartState,
    /// Working RAM, both banks, from 0xC000.
    pub wram: Seq<u8>,
    /// High RAM, from 0xFF80.
    pub hram: Seq<u8>,
    pub timer: TimerState,
}

impl BusState {
    /// The byte a read at `addr` returns. Video RAM and object memory belong
    /// to devices outside this core and read as open bus.
    #[verifier::opaque]
    pub open spec fn read(self, addr: u16) -> u8 {
        if addr < 0x8000 {
            self.cart.read(addr)
        } else if addr < 0xa000 {
            OPEN_BUS
        } else if addr < 0xc000 {
            self.cart.read(addr)
        } else if addr < 0xe000 {
            store_read(self.wram, addr - 0xc000)
        } else if addr < 0xfe00 {
            store_read(self.wram, addr - 0xe000)
        } else if addr < 0xff00 {
            OPEN_BUS
        } else if addr < 0xff80 {
            self.timer.read(addr)
        } else if addr < 0xffff {
            store_read(self.hram, addr - 0xff80)
        } else {
            self.timer.read(addr)
        }
    }

    /// The bus after a write of `val` at `addr`.
    #[verifier::opaque]
    pub open spec fn write(self, addr: u16, val: u8) -> BusState {
        if addr < 0x8000 {
            BusState { cart: self.cart.write(addr, val), ..self }
        } else if addr < 0xa000 {
            self
        } else if addr < 0xc000 {
            BusState { cart: self.cart.write(addr, val), ..self }
        } else if addr < 0xe000 {
            BusState { wram: store_write(self.wram, addr - 0xc000, val), ..self }
        } else if addr < 0xfe00 {
            BusState { wram: store_write(self.wram, addr - 0xe000, val), ..self }
        } else if addr < 0xff00 {
            self
        } else if addr < 0xff80 {
            BusState { timer: self.timer.write(addr, val), ..self }
        } else if addr < 0xffff {
            BusState { hram: store_write(self.hram, addr - 0xff80, val), ..self }
        } else {
            BusState { timer: self.timer.write(addr, val), ..self }
        }
    }

    /// The enabled and pending interrupt sources.
    pub open spec fn pending(self) -> u8 {
        pending_mask(self.timer.ie, self.timer.iflag)
    }

    /// The bus after `n` machine cycles of the timer.
    pub open spec fn ticks(self, n: nat) -> BusState {
        BusState { timer: self.timer.ticks(n), ..self }
    }

    pub open spec fn with_request(self, source: u8) -> BusState {
        BusState { timer: TimerState { iflag: with_pending(self.timer.iflag, source), ..self.timer }, ..self }
    }

    pub open spec fn with_ack(self, source: u8) -> BusState {
        BusState {
            timer: TimerState { iflag: without_pending(self.timer.iflag, source), ..self.timer },
            ..self
        }
    }
}

/// Echo RAM holds no bytes of its own: reading or writing 0xE000-0xFDFF is
/// reading or writing working RAM 0x2000 lower.
pub proof fn lemma_echo_mirrors_wram(s: BusState, addr: u16, val: u8)
    requires
        0xe000 <= addr <= 0xfdff,
    ensures
        s.read(addr) == s.read((addr - 0x2000) as u16),
        s.write(addr, val) == s.write((addr - 0x2000) as u16, val),
{
    reveal(BusState::read);
    reveal(BusState::write);
}

#[derive(Debug)]
pub struct Bus {
    cartridge: Cartridge,
    ram: Ram,
    hram: Ram,
    timer: Timer,
}

impl View for Bus {
    type V = BusState;

    closed spec fn view(&self) -> BusState {
        BusState { cart: self.cartridge@, wram: self.ram@, hram: self.hram@, timer: self.timer@ }
    }
}

impl Bus {
    pub fn new(ram: Ram, hram: Ram, cart: Cartridge, timer: Timer) -> (r: Bus)
        ensures
            r@ == (BusState { cart: cart@, wram: ram@, hram: hram@, timer: timer@ }),
    {
        Bus { cartridge: cart, ram: ram, hram: hram, timer: timer }
    }

    /// Runs the timer for `cycles` machine cycles.
    pub fn tick(&mut self, cycles: usize)
        ensures
            final(self)@ == old(self)@.ticks(cycles as nat),
    {
        self.timer.tick(cycles);
    }

    /// Marks interrupt `source` pending.
    pub fn request_interrupt(&mut self, source: u8)
        requires
            source < 5,
        ensures
            final(self)@ == old(self)@.with_request(source),
    {
        self.timer.request(source);
    }

    /// Clears the pending bit of interrupt `source`.
    pub fn acknowledge_interrupt(&mut self, source: u8)
        requires
            source < 5,
        ensures
            final(self)@ == old(self)@.with_ack(source),
    {
        self.timer.acknowledge(source);
    }

    /// The interrupt sources that are both enabled and pending.
    pub fn pending_interrupts(&self) -> (r: u8)
        ensures
            r == self@.pending(),
    {
        self.timer.pending()
    }

    /// The interrupt sources that are pending, enabled or not.
    pub fn requested_interrupts(&self) -> (r: u8)
        ensures
            r == self@.timer.iflag & 0x1f,
    {
        self.timer.requested()
    }
}

impl Device for Bus {
    open spec fn read_spec(v: BusState, addr: u16) -> u8 {
        v.read(addr)
    }

    open spec fn write_spec(v: BusState, addr: u16, val: u8) -> BusState {
        v.write(addr, val)
    }

    fn read(&self, addr: u16) -> (r: u8) {
        proof {
            reveal(BusState::read);
        }
        if addr < 0x8000 {
            self.cartridge.read(addr)
        } else if addr < 0xa000 {
            OPEN_BUS
        } else if addr < 0xc000 {
            self.cartridge.read(addr)
        } else if addr < 0xe000 {
            self.ram.read(addr - 0xc000)
        } else if addr < 0xfe00 {
            self.ram.read(addr - 0xe000)
        } else if addr < 0xff00 {
            OPEN_BUS
        } else if addr < 0xff80 {
            self.timer.read(addr)
        } else if addr < 0xffff {
            self.hram.read(addr - 0xff80)
        } else {
            self.timer.read(addr)
        }
    }

    fn write(&mut self, addr: u16, val: u8) {
        proof {
            reveal(BusState::write);
        }
        if addr < 0x8000 {
            self.cartridge.write(addr, val);
        } else if addr < 0xa000 {
        } else if addr < 0xc000 {
            self.cartridge.write(addr, val);
        } else if addr < 0xe000 {
            self.ram.write(addr - 0xc000, val);
        } else if addr < 0xfe00 {
            self.ram.write(addr - 0xe000, val);
        } else if addr < 0xff00 {
        } else if addr < 0xff80 {
            self.timer.write(addr, val);
        } else if addr < 0xffff {
            self.hram.write(addr - 0xff80, val);
        } else {
            self.timer.write(addr, val);
        }
    }
}

} // verus!
