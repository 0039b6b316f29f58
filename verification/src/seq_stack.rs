//! Micro-sequences of the stack-driven instructions: the shared
//! seven-cycle BRK/IRQ/NMI/RST frame, RTI, RTS, the pushes and pulls,
//! and JSR.
//!
//! Each `step_*` method performs one micro-step, taking the echoed
//! address and data byte of the previous transaction, and is proved
//! equal to its specification function.  The incoming `step` is the
//! already-incremented micro-step, 2 or more; a step outside the
//! instruction's schedule freezes the core.

use vstd::prelude::*;

use crate::bus::BusEvent;
use crate::cpu::{
    add1_16, add1_8, hi8, lo8, mk16, spec_dec8, spec_halt, spec_hi, spec_inc16, spec_inc8,
    spec_lo, spec_mk16, spec_stack_addr, stack_addr, sub1_8, Cpu,
};
use crate::flags::{spec_pack, spec_set_nz, spec_unpack, Flags};
use crate::instruction::Interrupt;

verus! {

/// The low vector byte's address for an interrupt source.
pub open spec fn spec_vector_lo(src: Interrupt) -> u16 {
    match src {
        Interrupt::Brk => 0xFFFEu16,
        Interrupt::Irq => 0xFFFEu16,
        Interrupt::Nmi => 0xFFFAu16,
        Interrupt::Rst => 0xFFFCu16,
    }
}

/// The high vector byte's address for an interrupt source.
pub open spec fn spec_vector_hi(src: Interrupt) -> u16 {
    match src {
        Interrupt::Brk => 0xFFFFu16,
        Interrupt::Irq => 0xFFFFu16,
        Interrupt::Nmi => 0xFFFBu16,
        Interrupt::Rst => 0xFFFDu16,
    }
}

/// One micro-step of the shared BRK-form frame.  BRK and RST advance
/// the program counter past the signature byte; the three stack cycles
/// write the return address and the status (with B set only for BRK),
/// except under RST, where the bus reads instead and memory is left
/// untouched; the status byte is packed before I is forced on; the two
/// vector bytes then load the program counter, and the serviced RST or
/// NMI latch is cleared.
pub open spec fn spec_step_brk(c: Cpu, addr: u16, data: u8, src: Interrupt) -> (Cpu, BusEvent) {
    if c.step == 2 {
        let pc1 = if src == Interrupt::Brk || src == Interrupt::Rst {
            spec_inc16(c.pc)
        } else {
            c.pc
        };
        let adr = spec_stack_addr(c.s);
        let c2 = Cpu { pc: pc1, s: spec_dec8(c.s), ..c };
        if src == Interrupt::Rst {
            (c2, BusEvent::Read(adr))
        } else {
            (c2, BusEvent::Write(adr, spec_hi(pc1)))
        }
    } else if c.step == 3 {
        let adr = spec_stack_addr(c.s);
        let c2 = Cpu { s: spec_dec8(c.s), ..c };
        if src == Interrupt::Rst {
            (c2, BusEvent::Read(adr))
        } else {
            (c2, BusEvent::Write(adr, spec_lo(c.pc)))
        }
    } else if c.step == 4 {
        let adr = spec_stack_addr(c.s);
        let c2 = Cpu { s: spec_dec8(c.s), p: Flags { i: true, ..c.p }, ..c };
        if src == Interrupt::Rst {
            (c2, BusEvent::Read(adr))
        } else {
            (c2, BusEvent::Write(adr, spec_pack(c.p, src == Interrupt::Brk)))
        }
    } else if c.step == 5 {
        (c, BusEvent::Read(spec_vector_lo(src)))
    } else if c.step == 6 {
        (Cpu { temp: data, ..c }, BusEvent::Read(spec_vector_hi(src)))
    } else if c.step == 7 {
        let pc1 = spec_mk16(data, c.temp);
        let c2 = Cpu {
            pc: pc1,
            step: 0,
            rst: if src == Interrupt::Rst {
                false
            } else {
                c.rst
            },
            nmi: if src == Interrupt::Nmi {
                false
            } else {
                c.nmi
            },
            ..c
        };
        (c2, BusEvent::Read(pc1))
    } else {
        spec_halt(c)
    }
}

/// One micro-step of RTI: pull the status (bits 5 and 4 ignored), then
/// the return address, without the extra increment RTS performs.
pub open spec fn spec_step_rti(c: Cpu, data: u8) -> (Cpu, BusEvent) {
    if c.step == 2 {
        (c, BusEvent::Read(spec_stack_addr(c.s)))
    } else if c.step == 3 {
        let s1 = spec_inc8(c.s);
        (Cpu { s: s1, ..c }, BusEvent::Read(spec_stack_addr(s1)))
    } else if c.step == 4 {
        let s1 = spec_inc8(c.s);
        (Cpu { s: s1, p: spec_unpack(data), ..c }, BusEvent::Read(spec_stack_addr(s1)))
    } else if c.step == 5 {
        let s1 = spec_inc8(c.s);
        (Cpu { s: s1, temp: data, ..c }, BusEvent::Read(spec_stack_addr(s1)))
    } else if c.step == 6 {
        let pc1 = spec_mk16(data, c.temp);
        (Cpu { pc: pc1, step: 0, ..c }, BusEvent::Read(pc1))
    } else {
        spec_halt(c)
    }
}

/// One micro-step of RTS: pull the return address and step past it.
pub open spec fn spec_step_rts(c: Cpu, data: u8) -> (Cpu, BusEvent) {
    if c.step == 2 {
        (c, BusEvent::Read(spec_stack_addr(c.s)))
    } else if c.step == 3 {
        let s1 = spec_inc8(c.s);
        (Cpu { s: s1, ..c }, BusEvent::Read(spec_stack_addr(s1)))
    } else if c.step == 4 {
        let s1 = spec_inc8(c.s);
        (Cpu { s: s1, temp: data, ..c }, BusEvent::Read(spec_stack_addr(s1)))
    } else if c.step == 5 {
        let pc1 = spec_mk16(data, c.temp);
        (Cpu { pc: pc1, ..c }, BusEvent::Read(pc1))
    } else if c.step == 6 {
        let pc1 = spec_inc16(c.pc);
        (Cpu { pc: pc1, step: 0, ..c }, BusEvent::Read(pc1))
    } else {
        spec_halt(c)
    }
}

/// One micro-step of PHA: write the accumulator at the stack cell,
/// then decrement S.
pub open spec fn spec_step_pha(c: Cpu) -> (Cpu, BusEvent) {
    if c.step == 2 {
        (c, BusEvent::Write(spec_stack_addr(c.s), c.a))
    } else if c.step == 3 {
        (Cpu { s: spec_dec8(c.s), step: 0, ..c }, BusEvent::Read(c.pc))
    } else {
        spec_halt(c)
    }
}

/// One micro-step of PHP: as PHA, but pushing the packed status with
/// the B bit asserted.
pub open spec fn spec_step_php(c: Cpu) -> (Cpu, BusEvent) {
    if c.step == 2 {
        (c, BusEvent::Write(spec_stack_addr(c.s), spec_pack(c.p, true)))
    } else if c.step == 3 {
        (Cpu { s: spec_dec8(c.s), step: 0, ..c }, BusEvent::Read(c.pc))
    } else {
        spec_halt(c)
    }
}

/// One micro-step of PLA: a dummy stack read, the pull, then the byte
/// lands in the accumulator with N and Z set.
pub open spec fn spec_step_pla(c: Cpu, data: u8) -> (Cpu, BusEvent) {
    if c.step == 2 {
        (c, BusEvent::Read(spec_stack_addr(c.s)))
    } else if c.step == 3 {
        let s1 = spec_inc8(c.s);
        (Cpu { s: s1, ..c }, BusEvent::Read(spec_stack_addr(s1)))
    } else if c.step == 4 {
        (Cpu { a: data, p: spec_set_nz(c.p, data), step: 0, ..c }, BusEvent::Read(c.pc))
    } else {
        spec_halt(c)
    }
}

/// One micro-step of PLP: as PLA, but the byte unpacks into the status
/// word, bits 5 and 4 ignored.
pub open spec fn spec_step_plp(c: Cpu, data: u8) -> (Cpu, BusEvent) {
    if c.step == 2 {
        (c, BusEvent::Read(spec_stack_addr(c.s)))
    } else if c.step == 3 {
        let s1 = spec_inc8(c.s);
        (Cpu { s: s1, ..c }, BusEvent::Read(spec_stack_addr(s1)))
    } else if c.step == 4 {
        (Cpu { p: spec_unpack(data), step: 0, ..c }, BusEvent::Read(c.pc))
    } else {
        spec_halt(c)
    }
}

/// One micro-step of JSR: latch the target's low byte, push the
/// current program counter high then low, fetch the high byte, jump.
pub open spec fn spec_step_jsr(c: Cpu, data: u8) -> (Cpu, BusEvent) {
    if c.step == 2 {
        (
            Cpu { pc: spec_inc16(c.pc), temp: data, ..c },
            BusEvent::Read(spec_stack_addr(c.s)),
        )
    } else if c.step == 3 {
        (c, BusEvent::Write(spec_stack_addr(c.s), spec_hi(c.pc)))
    } else if c.step == 4 {
        let s1 = spec_dec8(c.s);
        (Cpu { s: s1, ..c }, BusEvent::Write(spec_stack_addr(s1), spec_lo(c.pc)))
    } else if c.step == 5 {
        (Cpu { s: spec_dec8(c.s), ..c }, BusEvent::Read(c.pc))
    } else if c.step == 6 {
        let pc1 = spec_mk16(data, c.temp);
        (Cpu { pc: pc1, step: 0, ..c }, BusEvent::Read(pc1))
    } else {
        spec_halt(c)
    }
}

impl Cpu {
    pub(crate) fn step_brk(&mut self, addr: u16, data: u8, src: Interrupt) -> (r: BusEvent)
        ensures
            ((*final(self), r) == spec_step_brk(*old(self), addr, data, src)),
    {
        if self.step == 2 {
            match src {
                Interrupt::Brk | Interrupt::Rst => {
                    self.pc = add1_16(self.pc);
                },
                Interrupt::Nmi | Interrupt::Irq => {},
            }
            let adr = stack_addr(self.s);
            self.s = sub1_8(self.s);
            match src {
                Interrupt::Rst => BusEvent::Read(adr),
                Interrupt::Irq | Interrupt::Nmi | Interrupt::Brk => BusEvent::Write(
                    adr,
                    hi8(self.pc),
                ),
            }
        } else if self.step == 3 {
            let adr = stack_addr(self.s);
            self.s = sub1_8(self.s);
            match src {
                Interrupt::Rst => BusEvent::Read(adr),
                Interrupt::Irq | Interrupt::Nmi | Interrupt::Brk => BusEvent::Write(
                    adr,
                    lo8(self.pc),
                ),
            }
        } else if self.step == 4 {
            let adr = stack_addr(self.s);
            self.s = sub1_8(self.s);
            let pushed = self.p.pack(matches!(src, Interrupt::Brk));
            self.p.i = true;
            match src {
                Interrupt::Rst => BusEvent::Read(adr),
                Interrupt::Irq | Interrupt::Nmi | Interrupt::Brk => BusEvent::Write(adr, pushed),
            }
        } else if self.step == 5 {
            let adr: u16 = match src {
                Interrupt::Brk | Interrupt::Irq => 0xFFFE,
                Interrupt::Nmi => 0xFFFA,
                Interrupt::Rst => 0xFFFC,
            };
            BusEvent::Read(adr)
        } else if self.step == 6 {
            self.temp = data;
            let adr: u16 = match src {
                Interrupt::Brk | Interrupt::Irq => 0xFFFF,
                Interrupt::Nmi => 0xFFFB,
                Interrupt::Rst => 0xFFFD,
            };
            BusEvent::Read(adr)
        } else if self.step == 7 {
            self.pc = mk16(data, self.temp);
            match src {
                Interrupt::Rst => {
                    self.rst = false;
                },
                Interrupt::Nmi => {
                    self.nmi = false;
                },
                Interrupt::Irq | Interrupt::Brk => {},
            }
            self.step = 0;
            BusEvent::Read(self.pc)
        } else {
            self.halt_core()
        }
    }

    pub(crate) fn step_rti(&mut self, data: u8) -> (r: BusEvent)
        ensures
            ((*final(self), r) == spec_step_rti(*old(self), data)),
    {
        if self.step == 2 {
            BusEvent::Read(stack_addr(self.s))
        } else if self.step == 3 {
            self.s = add1_8(self.s);
            BusEvent::Read(stack_addr(self.s))
        } else if self.step == 4 {
            self.s = add1_8(self.s);
            self.p = Flags::unpack(data);
            BusEvent::Read(stack_addr(self.s))
        } else if self.step == 5 {
            self.s = add1_8(self.s);
            self.temp = data;
            BusEvent::Read(stack_addr(self.s))
        } else if self.step == 6 {
            self.pc = mk16(data, self.temp);
            self.step = 0;
            BusEvent::Read(self.pc)
        } else {
            self.halt_core()
        }
    }

    pub(crate) fn step_rts(&mut self, data: u8) -> (r: BusEvent)
        ensures
            ((*final(self), r) == spec_step_rts(*old(self), data)),
    {
        if self.step == 2 {
            BusEvent::Read(stack_addr(self.s))
        } else if self.step == 3 {
            self.s = add1_8(self.s);
            BusEvent::Read(stack_addr(self.s))
        } else if self.step == 4 {
            self.s = add1_8(self.s);
            self.temp = data;
            BusEvent::Read(stack_addr(self.s))
        } else if self.step == 5 {
            self.pc = mk16(data, self.temp);
            BusEvent::Read(self.pc)
        } else if self.step == 6 {
            self.pc = add1_16(self.pc);
            self.step = 0;
            BusEvent::Read(self.pc)
        } else {
            self.halt_core()
        }
    }

    pub(crate) fn step_pha(&mut self) -> (r: BusEvent)
        ensures
            ((*final(self), r) == spec_step_pha(*old(self))),
    {
        if self.step == 2 {
            BusEvent::Write(stack_addr(self.s), self.a)
        } else if self.step == 3 {
            self.s = sub1_8(self.s);
            self.step = 0;
            BusEvent::Read(self.pc)
        } else {
            self.halt_core()
        }
    }

    pub(crate) fn step_php(&mut self) -> (r: BusEvent)
        ensures
            ((*final(self), r) == spec_step_php(*old(self))),
    {
        if self.step == 2 {
            BusEvent::Write(stack_addr(self.s), self.p.pack(true))
        } else if self.step == 3 {
            self.s = sub1_8(self.s);
            self.step = 0;
            BusEvent::Read(self.pc)
        } else {
            self.halt_core()
        }
    }

    pub(crate) fn step_pla(&mut self, data: u8) -> (r: BusEvent)
        ensures
            ((*final(self), r) == spec_step_pla(*old(self), data)),
    {
        if self.step == 2 {
            BusEvent::Read(stack_addr(self.s))
        } else if self.step == 3 {
            self.s = add1_8(self.s);
            BusEvent::Read(stack_addr(self.s))
        } else if self.step == 4 {
            self.a = data;
            self.p.set_n(self.a);
            self.p.set_z(self.a);
            self.step = 0;
            BusEvent::Read(self.pc)
        } else {
            self.halt_core()
        }
    }

    pub(crate) fn step_plp(&mut self, data: u8) -> (r: BusEvent)
        ensures
            ((*final(self), r) == spec_step_plp(*old(self), data)),
    {
        if self.step == 2 {
            BusEvent::Read(stack_addr(self.s))
        } else if self.step == 3 {
            self.s = add1_8(self.s);
            BusEvent::Read(stack_addr(self.s))
        } else if self.step == 4 {
            self.p = Flags::unpack(data);
            self.step = 0;
            BusEvent::Read(self.pc)
        } else {
            self.halt_core()
        }
    }

    pub(crate) fn step_jsr(&mut self, data: u8) -> (r: BusEvent)
        ensures
            ((*final(self), r) == spec_step_jsr(*old(self), data)),
    {
        if self.step == 2 {
            self.pc = add1_16(self.pc);
            self.temp = data;
            BusEvent::Read(stack_addr(self.s))
        } else if self.step == 3 {
            BusEvent::Write(stack_addr(self.s), hi8(self.pc))
        } else if self.step == 4 {
            self.s = sub1_8(self.s);
            BusEvent::Write(stack_addr(self.s), lo8(self.pc))
        } else if self.step == 5 {
            self.s = sub1_8(self.s);
            BusEvent::Read(self.pc)
        } else if self.step == 6 {
            self.pc = mk16(data, self.temp);
            self.step = 0;
            BusEvent::Read(self.pc)
        } else {
            self.halt_core()
        }
    }
}

} // verus!
