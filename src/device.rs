//! The read/write capability that every device on the bus offers.
use vstd::prelude::*;

verus! {

/// A device answering byte reads and writes at 16-bit addresses. Reads never
/// fail and never change the device; a write changes it as `write_spec` says.
pub trait Device: View {
    /// The byte a read at `addr` returns from a device in state `v`.
    spec fn read_spec(v: Self::V, addr: u16) -> u8;

    /// The state of a device in state `v` after `val` is written at `addr`.
    spec fn write_spec(v: Self::V, addr: u16, val: u8) -> Self::V;

    fn read(&self, addr: u16) -> (r: u8)
        ensures
            r == Self::read_spec(self@, addr),
    ;

    fn write(&mut self, addr: u16, val: u8)
        ensures
            final(self)@ == Self::write_spec(old(self)@, addr, val),
    ;
}

} // verus!
