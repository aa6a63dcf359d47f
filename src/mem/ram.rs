//! Read/write memory.
use vstd::prelude::*;
use crate::device::Device;
use crate::mem::{store_read, store_write, OPEN_BUS};

verus! {

/// A block of writable bytes, addressed from zero.
#[derive(Debug)]
pub struct Ram {
    inner: Vec<u8>,
}

impl View for Ram {
    type V = Seq<u8>;

    closed spec fn view(&self) -> Seq<u8> {
        self.inner@
    }
}

impl Ram {
    pub fn new(v: Vec<u8>) -> (r: Ram)
        ensures
            r@ == v@,
    {
        Ram { inner: v }
    }

    pub fn len(&self) -> (r: usize)
        ensures
            r == self@.len(),
    {
        self.inner.len()
    }
}

impl Device for Ram {
    open spec fn read_spec(v: Seq<u8>, addr: u16) -> u8 {
        store_read(v, addr as int)
    }

    open spec fn write_spec(v: Seq<u8>, addr: u16, val: u8) -> Seq<u8> {
        store_write(v, addr as int, val)
    }

    fn read(&self, addr: u16) -> (r: u8) {
        let i = addr as usize;
        if i < self.inner.len() {
            self.inner[i]
        } else {
            OPEN_BUS
        }
    }

    fn write(&mut self, addr: u16, val: u8) {
        let i = addr as usize;
        if i < self.inner.len() {
            self.inner.set(i, val);
        }
    }
}

} // verus!
