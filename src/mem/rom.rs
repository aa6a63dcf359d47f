//! Read-only memory.
use vstd::prelude::*;
use crate::device::Device;
use crate::mem::{store_read, OPEN_BUS};

verus! {

/// An immutable block of bytes, addressed from zero; writes are ignored.
#[derive(Debug)]
pub struct Rom {
    inner: Vec<u8>,
}

impl View for Rom {
    type V = Seq<u8>;

    closed spec fn view(&self) -> Seq<u8> {
        self.inner@
    }
}

impl Rom {
    pub fn new(v: Vec<u8>) -> (r: Rom)
        ensures
            r@ == v@,
    {
        Rom { inner: v }
    }

    pub fn len(&self) -> (r: usize)
        ensures
            r == self@.len(),
    {
        self.inner.len()
    }

    /// The byte at a full-width offset, or the open-bus value past the end.
    pub fn read_at(&self, i: usize) -> (r: u8)
        ensures
            r == store_read(self@, i as int),
    {
        if i < self.inner.len() {
            self.inner[i]
        } else {
            OPEN_BUS
        }
    }
}

impl Device for Rom {
    open spec fn read_spec(v: Seq<u8>, addr: u16) -> u8 {
        store_read(v, addr as int)
    }

    open spec fn write_spec(v: Seq<u8>, addr: u16, val: u8) -> Seq<u8> {
        v
    }

    fn read(&self, addr: u16) -> (r: u8) {
        self.read_at(addr as usize)
    }

    fn write(&mut self, addr: u16, val: u8) {
    }
}

} // verus!
