//! The per-cycle bus interface between the core and its host.

use vstd::prelude::*;

verus! {

/// One bus transaction, emitted by the core on every clock cycle.
///
/// A `Read` obliges the host to hand the byte at `addr` to the next call
/// of `clock`; a `Write` obliges it to store the byte.
#[derive(Debug, Clone, Copy, PartialEq, Eq, Structural)]
pub enum BusEvent {
    Read(u16),
    Write(u16, u8),
}

/// A device the host hangs on the bus: a flat memory, a peripheral, an
/// observer.  The core itself never calls it; the host services each
/// [`BusEvent`] against whatever devices it models.
pub trait BusDevice {
    fn read(&self, addr: u16) -> u8;

    fn write(&mut self, addr: u16, data: u8);
}

} // verus!
