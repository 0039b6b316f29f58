//! The pin-level record a host keeps between cycles: the address and
//! data buses, the read/write line, and the three interrupt inputs.
//!
//! On the real part these lines carry arbitrary levels until the reset
//! sequence has run; a fresh record therefore powers up with random
//! noise on every pin, and nothing is promised of those values.

use vstd::prelude::*;

verus! {

/// One cycle's worth of bus pins, host side: where the last
/// transaction went (`addr`, `data`, `write`) and which interrupt
/// lines the host is driving.
#[derive(Debug, Clone, Copy, PartialEq, Eq, Structural)]
pub struct Pins {
    pub addr: u16,
    pub data: u8,
    pub write: bool,
    pub rst: bool,
    pub nmi: bool,
    pub irq: bool,
}

/// Relies on rand::random: a value drawn from thread-local randomness.
/// Nothing can be promised of the result.
pub assume_specification<T>[ rand::random::<T> ]() -> (r: T)
    where
        rand::distr::StandardUniform: rand::distr::Distribution<T>,
;

impl Pins {
    /// A pin record in its power-up state: every line at an arbitrary
    /// level, as on unpowered silicon.  The host gives the lines
    /// meaning by driving them before the first clock.
    pub fn new() -> Pins {
        Pins {
            addr: rand::random(),
            data: rand::random(),
            write: rand::random(),
            rst: rand::random(),
            nmi: rand::random(),
            irq: rand::random(),
        }
    }
}

} // verus!
