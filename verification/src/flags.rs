//! The six-flag processor status word.
//!
//! The status register keeps N, V, D, I, Z and C as independent booleans.
//! Packing into a byte places them at bits 7, 6, 3, 2, 1 and 0; bit 5
//! always reads as 1 and bit 4 ("B") is never stored, only synthesised at
//! the moment a push happens.  Unpacking ignores bits 5 and 4.

use vstd::prelude::*;

verus! {

/// Processor status: negative, overflow, decimal, interrupt-disable,
/// zero and carry.
#[derive(Debug, Clone, Copy, PartialEq, Eq, Structural)]
pub struct Flags {
    pub n: bool,
    pub v: bool,
    pub d: bool,
    pub i: bool,
    pub z: bool,
    pub c: bool,
}

/// The byte a push presents for status `p`, with bit 4 ("B") set to `b`.
/// Bit 5 is always 1.
pub open spec fn spec_pack(p: Flags, b: bool) -> u8 {
    ((if p.n { 128int } else { 0int }) + (if p.v { 64int } else { 0int }) + 32int
        + (if b { 16int } else { 0int }) + (if p.d { 8int } else { 0int })
        + (if p.i { 4int } else { 0int }) + (if p.z { 2int } else { 0int })
        + (if p.c { 1int } else { 0int })) as u8
}

/// The status a pull recovers from byte `v`.  Bits 5 and 4 are ignored.
pub open spec fn spec_unpack(v: u8) -> Flags {
    Flags {
        n: v / 128 % 2 == 1,
        v: v / 64 % 2 == 1,
        d: v / 8 % 2 == 1,
        i: v / 4 % 2 == 1,
        z: v / 2 % 2 == 1,
        c: v % 2 == 1,
    }
}

/// `p` with N and Z reflecting the byte `m`.
pub open spec fn spec_set_nz(p: Flags, m: u8) -> Flags {
    Flags { n: m >= 128, z: m == 0, ..p }
}

/// The signed value of `x` read as an 8-bit two's-complement number.
pub open spec fn spec_signed(x: u8) -> int {
    if x >= 128 {
        x - 256
    } else {
        x as int
    }
}

/// Whether the 9-bit signed sum of `a`, `m` and carry-in `c` falls
/// outside the range an 8-bit two's-complement register can hold.
pub open spec fn spec_overflow(a: u8, m: u8, c: u8) -> bool {
    spec_signed(a) + spec_signed(m) + c < -128 || spec_signed(a) + spec_signed(m) + c > 127
}

impl Flags {
    /// Pack into a byte, with bit 4 ("B") as `b` and bit 5 fixed at 1.
    pub fn pack(self, b: bool) -> (r: u8)
        ensures
            r == spec_pack(self, b),
    {
        let n: u8 = if self.n { 128 } else { 0 };
        let v: u8 = if self.v { 64 } else { 0 };
        let u: u8 = 32;
        let bb: u8 = if b { 16 } else { 0 };
        let d: u8 = if self.d { 8 } else { 0 };
        let i: u8 = if self.i { 4 } else { 0 };
        let z: u8 = if self.z { 2 } else { 0 };
        let c: u8 = if self.c { 1 } else { 0 };
        n + v + u + bb + d + i + z + c
    }

    /// Unpack from a byte; bits 5 and 4 carry no state and are ignored.
    pub fn unpack(v: u8) -> (r: Flags)
        ensures
            r == spec_unpack(v),
    {
        Flags {
            n: v / 128 % 2 == 1,
            v: v / 64 % 2 == 1,
            d: v / 8 % 2 == 1,
            i: v / 4 % 2 == 1,
            z: v / 2 % 2 == 1,
            c: v % 2 == 1,
        }
    }

    /// Z reflects whether `m` is zero.
    pub fn set_z(&mut self, m: u8)
        ensures
            *final(self) == (Flags { z: m == 0, ..*old(self) }),
    {
        self.z = m == 0;
    }

    /// N reflects bit 7 of `m`.
    pub fn set_n(&mut self, m: u8)
        ensures
            *final(self) == (Flags { n: m >= 128, ..*old(self) }),
    {
        self.n = m >= 128;
    }

    /// C reflects a carry out of the low 8 bits of the 16-bit sum `m`.
    pub fn set_c(&mut self, m: u16)
        ensures
            *final(self) == (Flags { c: m > 0xFF, ..*old(self) }),
    {
        self.c = m > 0xFF;
    }

    /// V reflects signed overflow of `a + m + c`.
    pub fn set_v(&mut self, a: u8, m: u8, c: u8)
        ensures
            *final(self) == (Flags { v: spec_overflow(a, m, c), ..*old(self) }),
    {
        let sa: i16 = if a >= 128 { a as i16 - 256 } else { a as i16 };
        let sm: i16 = if m >= 128 { m as i16 - 256 } else { m as i16 };
        let isum: i16 = sa + sm + c as i16;
        self.v = isum < -128 || isum > 127;
    }
}

} // verus!
