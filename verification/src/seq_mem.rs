//! Micro-sequences of the memory-addressing instruction forms:
//! accumulator/implied, immediate, absolute, zero-page, indexed,
//! relative branches, the two indirect forms and the indirect jump.
//!
//! Each `step_*` method performs one micro-step.  `addr` and `data` are
//! the address and data byte of the previous transaction as the host
//! echoes them back: the sequencer deliberately leans on that echo
//! instead of keeping a wide effective-address register, exactly as the
//! address bus of the part behaves.  The incoming `step` is the
//! already-incremented micro-step, 2 or more; a step outside the
//! instruction's schedule freezes the core.

use vstd::prelude::*;

use crate::bus::BusEvent;
use crate::cpu::{
    add16, add1_16, branch_target, hi8, lo8, mk16, spec_add16, spec_branch_target, spec_halt, spec_hi,
    spec_inc16, spec_inc8, spec_lo, spec_mk16, spec_zp_add, zp_add, Cpu,
};
use crate::instruction::{
    spec_branch_taken, spec_internal_exec, spec_read_exec, spec_rmw_flags, spec_rmw_val,
    spec_store_val, AccumImplInstruction, BranchInstruction, ReadInstruction,
    ReadModifyWriteInstruction, WriteInstruction,
};

verus! {

/// The single work cycle of an accumulator or implied instruction.
pub open spec fn spec_step_accum(c: Cpu, k: AccumImplInstruction) -> (Cpu, BusEvent) {
    if c.step == 2 {
        let c1 = match k {
            AccumImplInstruction::ReadModifyWrite(mk) => Cpu {
                a: spec_rmw_val(mk, c.p, c.a),
                p: spec_rmw_flags(mk, c.p, c.a),
                ..c
            },
            AccumImplInstruction::Internal(ik) => spec_internal_exec(ik, c),
        };
        (Cpu { step: 0, ..c1 }, BusEvent::Read(c.pc))
    } else {
        spec_halt(c)
    }
}

/// The single operand cycle of an immediate instruction: the byte at
/// the program counter is the operand.
pub open spec fn spec_step_imm(c: Cpu, data: u8, rk: ReadInstruction) -> (Cpu, BusEvent) {
    if c.step == 2 {
        let pc1 = spec_inc16(c.pc);
        let c1 = spec_read_exec(rk, Cpu { pc: pc1, ..c }, data);
        (Cpu { step: 0, ..c1 }, BusEvent::Read(pc1))
    } else {
        spec_halt(c)
    }
}

/// One micro-step of JMP absolute: two operand fetches, then the jump.
pub open spec fn spec_step_abs_jmp(c: Cpu, data: u8) -> (Cpu, BusEvent) {
    if c.step == 2 {
        let pc1 = spec_inc16(c.pc);
        (Cpu { pc: pc1, temp: data, ..c }, BusEvent::Read(pc1))
    } else if c.step == 3 {
        let pc1 = spec_mk16(data, c.temp);
        (Cpu { pc: pc1, step: 0, ..c }, BusEvent::Read(pc1))
    } else {
        spec_halt(c)
    }
}

/// One micro-step of an absolute-mode read instruction.
pub open spec fn spec_step_abs_read(c: Cpu, data: u8, rk: ReadInstruction) -> (Cpu, BusEvent) {
    if c.step == 2 {
        let pc1 = spec_inc16(c.pc);
        (Cpu { pc: pc1, temp: data, ..c }, BusEvent::Read(pc1))
    } else if c.step == 3 {
        (Cpu { pc: spec_inc16(c.pc), ..c }, BusEvent::Read(spec_mk16(data, c.temp)))
    } else if c.step == 4 {
        (Cpu { step: 0, ..spec_read_exec(rk, c, data) }, BusEvent::Read(c.pc))
    } else {
        spec_halt(c)
    }
}

/// One micro-step of an absolute-mode store instruction.
pub open spec fn spec_step_abs_write(c: Cpu, data: u8, wk: WriteInstruction) -> (Cpu, BusEvent) {
    if c.step == 2 {
        let pc1 = spec_inc16(c.pc);
        (Cpu { pc: pc1, temp: data, ..c }, BusEvent::Read(pc1))
    } else if c.step == 3 {
        (
            Cpu { pc: spec_inc16(c.pc), ..c },
            BusEvent::Write(spec_mk16(data, c.temp), spec_store_val(wk, c)),
        )
    } else if c.step == 4 {
        (Cpu { step: 0, ..c }, BusEvent::Read(c.pc))
    } else {
        spec_halt(c)
    }
}

/// One micro-step of an absolute-mode read-modify-write instruction:
/// after the operand read, the unmodified byte is written straight
/// back (the dummy write the part exposes on the bus), then the
/// rewritten byte.
pub open spec fn spec_step_abs_rmw(
    c: Cpu,
    addr: u16,
    data: u8,
    mk: ReadModifyWriteInstruction,
) -> (Cpu, BusEvent) {
    if c.step == 2 {
        let pc1 = spec_inc16(c.pc);
        (Cpu { pc: pc1, temp: data, ..c }, BusEvent::Read(pc1))
    } else if c.step == 3 {
        (Cpu { pc: spec_inc16(c.pc), ..c }, BusEvent::Read(spec_mk16(data, c.temp)))
    } else if c.step == 4 {
        (
            Cpu { temp: spec_rmw_val(mk, c.p, data), p: spec_rmw_flags(mk, c.p, data), ..c },
            BusEvent::Write(addr, data),
        )
    } else if c.step == 5 {
        (c, BusEvent::Write(addr, c.temp))
    } else if c.step == 6 {
        (Cpu { step: 0, ..c }, BusEvent::Read(c.pc))
    } else {
        spec_halt(c)
    }
}

/// One micro-step of a zero-page read instruction.
pub open spec fn spec_step_zp_read(c: Cpu, data: u8, rk: ReadInstruction) -> (Cpu, BusEvent) {
    if c.step == 2 {
        (Cpu { pc: spec_inc16(c.pc), ..c }, BusEvent::Read(data as u16))
    } else if c.step == 3 {
        (Cpu { step: 0, ..spec_read_exec(rk, c, data) }, BusEvent::Read(c.pc))
    } else {
        spec_halt(c)
    }
}

/// One micro-step of a zero-page store instruction.
pub open spec fn spec_step_zp_write(c: Cpu, data: u8, wk: WriteInstruction) -> (Cpu, BusEvent) {
    if c.step == 2 {
        (
            Cpu { pc: spec_inc16(c.pc), ..c },
            BusEvent::Write(data as u16, spec_store_val(wk, c)),
        )
    } else if c.step == 3 {
        (Cpu { step: 0, ..c }, BusEvent::Read(c.pc))
    } else {
        spec_halt(c)
    }
}

/// One micro-step of a zero-page read-modify-write instruction.
pub open spec fn spec_step_zp_rmw(
    c: Cpu,
    addr: u16,
    data: u8,
    mk: ReadModifyWriteInstruction,
) -> (Cpu, BusEvent) {
    if c.step == 2 {
        (Cpu { pc: spec_inc16(c.pc), ..c }, BusEvent::Read(data as u16))
    } else if c.step == 3 {
        (
            Cpu { temp: spec_rmw_val(mk, c.p, data), p: spec_rmw_flags(mk, c.p, data), ..c },
            BusEvent::Write(addr, data),
        )
    } else if c.step == 4 {
        (c, BusEvent::Write(addr, c.temp))
    } else if c.step == 5 {
        (Cpu { step: 0, ..c }, BusEvent::Read(c.pc))
    } else {
        spec_halt(c)
    }
}

/// One micro-step of a zero-page indexed read: the index add discards
/// its carry, so the access stays in page 0.
pub open spec fn spec_step_zpidx_read(
    c: Cpu,
    addr: u16,
    data: u8,
    rk: ReadInstruction,
    idx: u8,
) -> (Cpu, BusEvent) {
    if c.step == 2 {
        (Cpu { pc: spec_inc16(c.pc), ..c }, BusEvent::Read(data as u16))
    } else if c.step == 3 {
        (c, BusEvent::Read(spec_zp_add(addr, idx)))
    } else if c.step == 4 {
        (Cpu { step: 0, ..spec_read_exec(rk, c, data) }, BusEvent::Read(c.pc))
    } else {
        spec_halt(c)
    }
}

/// One micro-step of a zero-page indexed store.
pub open spec fn spec_step_zpidx_write(
    c: Cpu,
    addr: u16,
    data: u8,
    wk: WriteInstruction,
    idx: u8,
) -> (Cpu, BusEvent) {
    if c.step == 2 {
        (Cpu { pc: spec_inc16(c.pc), ..c }, BusEvent::Read(data as u16))
    } else if c.step == 3 {
        (c, BusEvent::Write(spec_zp_add(addr, idx), spec_store_val(wk, c)))
    } else if c.step == 4 {
        (Cpu { step: 0, ..c }, BusEvent::Read(c.pc))
    } else {
        spec_halt(c)
    }
}

/// One micro-step of a zero-page,X read-modify-write instruction.
pub open spec fn spec_step_zpx_rmw(
    c: Cpu,
    addr: u16,
    data: u8,
    mk: ReadModifyWriteInstruction,
) -> (Cpu, BusEvent) {
    if c.step == 2 {
        (Cpu { pc: spec_inc16(c.pc), ..c }, BusEvent::Read(data as u16))
    } else if c.step == 3 {
        (c, BusEvent::Read(spec_zp_add(addr, c.x)))
    } else if c.step == 4 {
        (Cpu { temp: data, ..c }, BusEvent::Write(addr, data))
    } else if c.step == 5 {
        (
            Cpu { p: spec_rmw_flags(mk, c.p, c.temp), ..c },
            BusEvent::Write(addr, spec_rmw_val(mk, c.p, c.temp)),
        )
    } else if c.step == 6 {
        (Cpu { step: 0, ..c }, BusEvent::Read(c.pc))
    } else {
        spec_halt(c)
    }
}

/// One micro-step of an absolute indexed read: the full effective
/// address is put on the bus as soon as it is formed; only a page
/// cross costs the extra cycle, which repeats the access.
pub open spec fn spec_step_absidx_read(
    c: Cpu,
    addr: u16,
    data: u8,
    rk: ReadInstruction,
    idx: u8,
) -> (Cpu, BusEvent) {
    if c.step == 2 {
        let pc1 = spec_inc16(c.pc);
        (Cpu { pc: pc1, temp: data, ..c }, BusEvent::Read(pc1))
    } else if c.step == 3 {
        let base = spec_mk16(data, c.temp);
        let eff = spec_add16(base, idx as u16);
        let crossed: u8 = if spec_hi(base) != spec_hi(eff) {
            1u8
        } else {
            0u8
        };
        (Cpu { pc: spec_inc16(c.pc), temp: crossed, ..c }, BusEvent::Read(eff))
    } else if c.step == 4 {
        if c.temp == 0 {
            (Cpu { step: 0, ..spec_read_exec(rk, c, data) }, BusEvent::Read(c.pc))
        } else {
            (c, BusEvent::Read(addr))
        }
    } else if c.step == 5 {
        (Cpu { step: 0, ..spec_read_exec(rk, c, data) }, BusEvent::Read(c.pc))
    } else {
        spec_halt(c)
    }
}

/// One micro-step of an absolute indexed store: the fix-up cycle is
/// always taken, and the write lands on it.
pub open spec fn spec_step_absidx_write(
    c: Cpu,
    addr: u16,
    data: u8,
    wk: WriteInstruction,
    idx: u8,
) -> (Cpu, BusEvent) {
    if c.step == 2 {
        let pc1 = spec_inc16(c.pc);
        (Cpu { pc: pc1, temp: data, ..c }, BusEvent::Read(pc1))
    } else if c.step == 3 {
        let eff = spec_add16(spec_mk16(data, c.temp), idx as u16);
        (Cpu { pc: spec_inc16(c.pc), ..c }, BusEvent::Read(eff))
    } else if c.step == 4 {
        (c, BusEvent::Write(addr, spec_store_val(wk, c)))
    } else if c.step == 5 {
        (Cpu { step: 0, ..c }, BusEvent::Read(c.pc))
    } else {
        spec_halt(c)
    }
}

/// One micro-step of an absolute,X read-modify-write instruction: the
/// fix-up read is always taken, then the dummy write and the rewrite.
pub open spec fn spec_step_absx_rmw(
    c: Cpu,
    addr: u16,
    data: u8,
    mk: ReadModifyWriteInstruction,
) -> (Cpu, BusEvent) {
    if c.step == 2 {
        let pc1 = spec_inc16(c.pc);
        (Cpu { pc: pc1, temp: data, ..c }, BusEvent::Read(pc1))
    } else if c.step == 3 {
        let base = spec_mk16(data, c.temp);
        let eff = spec_add16(base, c.x as u16);
        let crossed: u8 = if spec_hi(base) != spec_hi(eff) {
            1u8
        } else {
            0u8
        };
        (Cpu { pc: spec_inc16(c.pc), temp: crossed, ..c }, BusEvent::Read(eff))
    } else if c.step == 4 {
        (c, BusEvent::Read(addr))
    } else if c.step == 5 {
        (Cpu { temp: data, ..c }, BusEvent::Write(addr, data))
    } else if c.step == 6 {
        (
            Cpu { p: spec_rmw_flags(mk, c.p, c.temp), ..c },
            BusEvent::Write(addr, spec_rmw_val(mk, c.p, c.temp)),
        )
    } else if c.step == 7 {
        (Cpu { step: 0, ..c }, BusEvent::Read(c.pc))
    } else {
        spec_halt(c)
    }
}

/// One micro-step of a relative branch: two cycles when not taken,
/// three when taken within the page, four across a page boundary.
pub open spec fn spec_step_branch(c: Cpu, data: u8, bk: BranchInstruction) -> (Cpu, BusEvent) {
    if c.step == 2 {
        let pc1 = spec_inc16(c.pc);
        if spec_branch_taken(bk, c.p) {
            let npc = spec_branch_target(pc1, data);
            let crossed: u8 = if spec_hi(npc) != spec_hi(pc1) {
                1u8
            } else {
                0u8
            };
            (Cpu { pc: npc, temp: crossed, ..c }, BusEvent::Read(npc))
        } else {
            (Cpu { pc: pc1, temp: data, step: 0, ..c }, BusEvent::Read(pc1))
        }
    } else if c.step == 3 {
        if c.temp == 0 {
            (Cpu { step: 0, ..c }, BusEvent::Read(c.pc))
        } else {
            (c, BusEvent::Read(c.pc))
        }
    } else if c.step == 4 {
        (Cpu { step: 0, ..c }, BusEvent::Read(c.pc))
    } else {
        spec_halt(c)
    }
}

/// One micro-step of an (indirect,X) read: the pointer is indexed
/// within page 0, then dereferenced.
pub open spec fn spec_step_idxind_read(
    c: Cpu,
    addr: u16,
    data: u8,
    rk: ReadInstruction,
) -> (Cpu, BusEvent) {
    if c.step == 2 {
        (Cpu { pc: spec_inc16(c.pc), ..c }, BusEvent::Read(data as u16))
    } else if c.step == 3 {
        (c, BusEvent::Read(spec_zp_add(addr, c.x)))
    } else if c.step == 4 {
        (Cpu { temp: data, ..c }, BusEvent::Read(spec_zp_add(addr, 1)))
    } else if c.step == 5 {
        (c, BusEvent::Read(spec_mk16(data, c.temp)))
    } else if c.step == 6 {
        (Cpu { step: 0, ..spec_read_exec(rk, c, data) }, BusEvent::Read(c.pc))
    } else {
        spec_halt(c)
    }
}

/// One micro-step of an (indirect,X) store.
pub open spec fn spec_step_idxind_write(
    c: Cpu,
    addr: u16,
    data: u8,
    wk: WriteInstruction,
) -> (Cpu, BusEvent) {
    if c.step == 2 {
        (Cpu { pc: spec_inc16(c.pc), ..c }, BusEvent::Read(data as u16))
    } else if c.step == 3 {
        (c, BusEvent::Read(spec_zp_add(addr, c.x)))
    } else if c.step == 4 {
        (Cpu { temp: data, ..c }, BusEvent::Read(spec_zp_add(addr, 1)))
    } else if c.step == 5 {
        (c, BusEvent::Write(spec_mk16(data, c.temp), spec_store_val(wk, c)))
    } else if c.step == 6 {
        (Cpu { step: 0, ..c }, BusEvent::Read(c.pc))
    } else {
        spec_halt(c)
    }
}

/// One micro-step of an (indirect),Y read: the pointer is followed,
/// the index added to its low byte, and a page cross pays one fix-up
/// cycle at the corrected address.
pub open spec fn spec_step_indidx_read(
    c: Cpu,
    addr: u16,
    data: u8,
    rk: ReadInstruction,
) -> (Cpu, BusEvent) {
    if c.step == 2 {
        (Cpu { pc: spec_inc16(c.pc), ..c }, BusEvent::Read(data as u16))
    } else if c.step == 3 {
        (Cpu { temp: data, ..c }, BusEvent::Read(spec_zp_add(addr, 1)))
    } else if c.step == 4 {
        let adl = ((c.temp + c.y) % 256) as u8;
        (c, BusEvent::Read(spec_mk16(data, adl)))
    } else if c.step == 5 {
        if spec_lo(addr) < c.temp {
            (c, BusEvent::Read(spec_add16(addr, 0x100)))
        } else {
            (Cpu { step: 0, ..spec_read_exec(rk, c, data) }, BusEvent::Read(c.pc))
        }
    } else if c.step == 6 {
        (Cpu { step: 0, ..spec_read_exec(rk, c, data) }, BusEvent::Read(c.pc))
    } else {
        spec_halt(c)
    }
}

/// One micro-step of an (indirect),Y store: the fix-up is always
/// taken; the write lands at the corrected address.
pub open spec fn spec_step_indidx_write(
    c: Cpu,
    addr: u16,
    data: u8,
    wk: WriteInstruction,
) -> (Cpu, BusEvent) {
    if c.step == 2 {
        (Cpu { pc: spec_inc16(c.pc), ..c }, BusEvent::Read(data as u16))
    } else if c.step == 3 {
        (Cpu { temp: data, ..c }, BusEvent::Read(spec_zp_add(addr, 1)))
    } else if c.step == 4 {
        let adl = ((c.temp + c.y) % 256) as u8;
        (c, BusEvent::Read(spec_mk16(data, adl)))
    } else if c.step == 5 {
        let eff = if spec_lo(addr) < c.temp {
            spec_add16(addr, 0x100)
        } else {
            addr
        };
        (c, BusEvent::Write(eff, spec_store_val(wk, c)))
    } else if c.step == 6 {
        (Cpu { step: 0, ..c }, BusEvent::Read(c.pc))
    } else {
        spec_halt(c)
    }
}

/// One micro-step of JMP (absolute indirect), with the NMOS page-wrap
/// quirk: the pointer's second byte is fetched with the low address
/// byte incremented modulo 256, the carry into the high byte
/// discarded.
pub open spec fn spec_step_absind(c: Cpu, addr: u16, data: u8) -> (Cpu, BusEvent) {
    if c.step == 2 {
        let pc1 = spec_inc16(c.pc);
        (Cpu { pc: pc1, temp: data, ..c }, BusEvent::Read(pc1))
    } else if c.step == 3 {
        (Cpu { pc: spec_inc16(c.pc), ..c }, BusEvent::Read(spec_mk16(data, c.temp)))
    } else if c.step == 4 {
        (
            Cpu { temp: data, ..c },
            BusEvent::Read(spec_mk16(spec_hi(addr), spec_inc8(spec_lo(addr)))),
        )
    } else if c.step == 5 {
        let pc1 = spec_mk16(data, c.temp);
        (Cpu { pc: pc1, step: 0, ..c }, BusEvent::Read(pc1))
    } else {
        spec_halt(c)
    }
}

impl Cpu {
    pub(crate) fn step_accum(&mut self, k: AccumImplInstruction) -> (r: BusEvent)
        ensures
            ((*final(self), r) == spec_step_accum(*old(self), k)),
    {
        if self.step == 2 {
            match k {
                AccumImplInstruction::ReadModifyWrite(mk) => {
                    let m = self.a;
                    let v = mk.execute(self, m);
                    self.a = v;
                },
                AccumImplInstruction::Internal(ik) => {
                    ik.execute(self);
                },
            }
            self.step = 0;
            BusEvent::Read(self.pc)
        } else {
            self.halt_core()
        }
    }

    pub(crate) fn step_imm(&mut self, data: u8, rk: ReadInstruction) -> (r: BusEvent)
        ensures
            ((*final(self), r) == spec_step_imm(*old(self), data, rk)),
    {
        if self.step == 2 {
            self.pc = add1_16(self.pc);
            let pc1 = self.pc;
            rk.execute(self, data);
            self.step = 0;
            BusEvent::Read(pc1)
        } else {
            self.halt_core()
        }
    }

    pub(crate) fn step_abs_jmp(&mut self, data: u8) -> (r: BusEvent)
        ensures
            ((*final(self), r) == spec_step_abs_jmp(*old(self), data)),
    {
        if self.step == 2 {
            self.pc = add1_16(self.pc);
            self.temp = data;
            BusEvent::Read(self.pc)
        } else if self.step == 3 {
            self.pc = mk16(data, self.temp);
            self.step = 0;
            BusEvent::Read(self.pc)
        } else {
            self.halt_core()
        }
    }

    pub(crate) fn step_abs_read(&mut self, data: u8, rk: ReadInstruction) -> (r: BusEvent)
        ensures
            ((*final(self), r) == spec_step_abs_read(*old(self), data, rk)),
    {
        if self.step == 2 {
            self.pc = add1_16(self.pc);
            self.temp = data;
            BusEvent::Read(self.pc)
        } else if self.step == 3 {
            self.pc = add1_16(self.pc);
            BusEvent::Read(mk16(data, self.temp))
        } else if self.step == 4 {
            rk.execute(self, data);
            self.step = 0;
            BusEvent::Read(self.pc)
        } else {
            self.halt_core()
        }
    }

    pub(crate) fn step_abs_write(&mut self, data: u8, wk: WriteInstruction) -> (r: BusEvent)
        ensures
            ((*final(self), r) == spec_step_abs_write(*old(self), data, wk)),
    {
        if self.step == 2 {
            self.pc = add1_16(self.pc);
            self.temp = data;
            BusEvent::Read(self.pc)
        } else if self.step == 3 {
            self.pc = add1_16(self.pc);
            let adr = mk16(data, self.temp);
            let v = wk.execute(self);
            BusEvent::Write(adr, v)
        } else if self.step == 4 {
            self.step = 0;
            BusEvent::Read(self.pc)
        } else {
            self.halt_core()
        }
    }

    pub(crate) fn step_abs_rmw(
        &mut self,
        addr: u16,
        data: u8,
        mk: ReadModifyWriteInstruction,
    ) -> (r: BusEvent)
        ensures
            ((*final(self), r) == spec_step_abs_rmw(*old(self), addr, data, mk)),
    {
        if self.step == 2 {
            self.pc = add1_16(self.pc);
            self.temp = data;
            BusEvent::Read(self.pc)
        } else if self.step == 3 {
            self.pc = add1_16(self.pc);
            BusEvent::Read(mk16(data, self.temp))
        } else if self.step == 4 {
            let v = mk.execute(self, data);
            self.temp = v;
            BusEvent::Write(addr, data)
        } else if self.step == 5 {
            BusEvent::Write(addr, self.temp)
        } else if self.step == 6 {
            self.step = 0;
            BusEvent::Read(self.pc)
        } else {
            self.halt_core()
        }
    }

    pub(crate) fn step_zp_read(&mut self, data: u8, rk: ReadInstruction) -> (r: BusEvent)
        ensures
            ((*final(self), r) == spec_step_zp_read(*old(self), data, rk)),
    {
        if self.step == 2 {
            self.pc = add1_16(self.pc);
            BusEvent::Read(data as u16)
        } else if self.step == 3 {
            rk.execute(self, data);
            self.step = 0;
            BusEvent::Read(self.pc)
        } else {
            self.halt_core()
        }
    }

    pub(crate) fn step_zp_write(&mut self, data: u8, wk: WriteInstruction) -> (r: BusEvent)
        ensures
            ((*final(self), r) == spec_step_zp_write(*old(self), data, wk)),
    {
        if self.step == 2 {
            self.pc = add1_16(self.pc);
            let v = wk.execute(self);
            BusEvent::Write(data as u16, v)
        } else if self.step == 3 {
            self.step = 0;
            BusEvent::Read(self.pc)
        } else {
            self.halt_core()
        }
    }

    pub(crate) fn step_zp_rmw(
        &mut self,
        addr: u16,
        data: u8,
        mk: ReadModifyWriteInstruction,
    ) -> (r: BusEvent)
        ensures
            ((*final(self), r) == spec_step_zp_rmw(*old(self), addr, data, mk)),
    {
        if self.step == 2 {
            self.pc = add1_16(self.pc);
            BusEvent::Read(data as u16)
        } else if self.step == 3 {
            let v = mk.execute(self, data);
            self.temp = v;
            BusEvent::Write(addr, data)
        } else if self.step == 4 {
            BusEvent::Write(addr, self.temp)
        } else if self.step == 5 {
            self.step = 0;
            BusEvent::Read(self.pc)
        } else {
            self.halt_core()
        }
    }

    pub(crate) fn step_zpidx_read(
        &mut self,
        addr: u16,
        data: u8,
        rk: ReadInstruction,
        idx: u8,
    ) -> (r: BusEvent)
        ensures
            ((*final(self), r) == spec_step_zpidx_read(*old(self), addr, data, rk, idx)),
    {
        if self.step == 2 {
            self.pc = add1_16(self.pc);
            BusEvent::Read(data as u16)
        } else if self.step == 3 {
            BusEvent::Read(zp_add(addr, idx))
        } else if self.step == 4 {
            rk.execute(self, data);
            self.step = 0;
            BusEvent::Read(self.pc)
        } else {
            self.halt_core()
        }
    }

    pub(crate) fn step_zpidx_write(
        &mut self,
        addr: u16,
        data: u8,
        wk: WriteInstruction,
        idx: u8,
    ) -> (r: BusEvent)
        ensures
            ((*final(self), r) == spec_step_zpidx_write(*old(self), addr, data, wk, idx)),
    {
        if self.step == 2 {
            self.pc = add1_16(self.pc);
            BusEvent::Read(data as u16)
        } else if self.step == 3 {
            let adr = zp_add(addr, idx);
            let v = wk.execute(self);
            BusEvent::Write(adr, v)
        } else if self.step == 4 {
            self.step = 0;
            BusEvent::Read(self.pc)
        } else {
            self.halt_core()
        }
    }

    pub(crate) fn step_zpx_rmw(
        &mut self,
        addr: u16,
        data: u8,
        mk: ReadModifyWriteInstruction,
    ) -> (r: BusEvent)
        ensures
            ((*final(self), r) == spec_step_zpx_rmw(*old(self), addr, data, mk)),
    {
        if self.step == 2 {
            self.pc = add1_16(self.pc);
            BusEvent::Read(data as u16)
        } else if self.step == 3 {
            BusEvent::Read(zp_add(addr, self.x))
        } else if self.step == 4 {
            self.temp = data;
            BusEvent::Write(addr, data)
        } else if self.step == 5 {
            let m = self.temp;
            let v = mk.execute(self, m);
            BusEvent::Write(addr, v)
        } else if self.step == 6 {
            self.step = 0;
            BusEvent::Read(self.pc)
        } else {
            self.halt_core()
        }
    }

    pub(crate) fn step_absidx_read(
        &mut self,
        addr: u16,
        data: u8,
        rk: ReadInstruction,
        idx: u8,
    ) -> (r: BusEvent)
        ensures
            ((*final(self), r) == spec_step_absidx_read(*old(self), addr, data, rk, idx)),
    {
        if self.step == 2 {
            self.pc = add1_16(self.pc);
            self.temp = data;
            BusEvent::Read(self.pc)
        } else if self.step == 3 {
            self.pc = add1_16(self.pc);
            let base = mk16(data, self.temp);
            let eff = add16(base, idx as u16);
            self.temp = if hi8(base) != hi8(eff) {
                1
            } else {
                0
            };
            BusEvent::Read(eff)
        } else if self.step == 4 {
            if self.temp == 0 {
                rk.execute(self, data);
                self.step = 0;
                BusEvent::Read(self.pc)
            } else {
                BusEvent::Read(addr)
            }
        } else if self.step == 5 {
            rk.execute(self, data);
            self.step = 0;
            BusEvent::Read(self.pc)
        } else {
            self.halt_core()
        }
    }

    pub(crate) fn step_absidx_write(
        &mut self,
        addr: u16,
        data: u8,
        wk: WriteInstruction,
        idx: u8,
    ) -> (r: BusEvent)
        ensures
            ((*final(self), r) == spec_step_absidx_write(*old(self), addr, data, wk, idx)),
    {
        if self.step == 2 {
            self.pc = add1_16(self.pc);
            self.temp = data;
            BusEvent::Read(self.pc)
        } else if self.step == 3 {
            self.pc = add1_16(self.pc);
            let eff = add16(mk16(data, self.temp), idx as u16);
            BusEvent::Read(eff)
        } else if self.step == 4 {
            let v = wk.execute(self);
            BusEvent::Write(addr, v)
        } else if self.step == 5 {
            self.step = 0;
            BusEvent::Read(self.pc)
        } else {
            self.halt_core()
        }
    }

    pub(crate) fn step_absx_rmw(
        &mut self,
        addr: u16,
        data: u8,
        mk: ReadModifyWriteInstruction,
    ) -> (r: BusEvent)
        ensures
            ((*final(self), r) == spec_step_absx_rmw(*old(self), addr, data, mk)),
    {
        if self.step == 2 {
            self.pc = add1_16(self.pc);
            self.temp = data;
            BusEvent::Read(self.pc)
        } else if self.step == 3 {
            self.pc = add1_16(self.pc);
            let base = mk16(data, self.temp);
            let eff = add16(base, self.x as u16);
            self.temp = if hi8(base) != hi8(eff) {
                1
            } else {
                0
            };
            BusEvent::Read(eff)
        } else if self.step == 4 {
            BusEvent::Read(addr)
        } else if self.step == 5 {
            self.temp = data;
            BusEvent::Write(addr, data)
        } else if self.step == 6 {
            let m = self.temp;
            let v = mk.execute(self, m);
            BusEvent::Write(addr, v)
        } else if self.step == 7 {
            self.step = 0;
            BusEvent::Read(self.pc)
        } else {
            self.halt_core()
        }
    }

    pub(crate) fn step_branch(&mut self, data: u8, bk: BranchInstruction) -> (r: BusEvent)
        ensures
            ((*final(self), r) == spec_step_branch(*old(self), data, bk)),
    {
        if self.step == 2 {
            self.pc = add1_16(self.pc);
            self.temp = data;
            let taken = bk.execute(self);
            if taken {
                let npc = branch_target(self.pc, self.temp);
                self.temp = if hi8(npc) != hi8(self.pc) {
                    1
                } else {
                    0
                };
                self.pc = npc;
            } else {
                self.step = 0;
            }
            BusEvent::Read(self.pc)
        } else if self.step == 3 {
            if self.temp == 0 {
                self.step = 0;
            }
            BusEvent::Read(self.pc)
        } else if self.step == 4 {
            self.step = 0;
            BusEvent::Read(self.pc)
        } else {
            self.halt_core()
        }
    }

    pub(crate) fn step_idxind_read(
        &mut self,
        addr: u16,
        data: u8,
        rk: ReadInstruction,
    ) -> (r: BusEvent)
        ensures
            ((*final(self), r) == spec_step_idxind_read(*old(self), addr, data, rk)),
    {
        if self.step == 2 {
            self.pc = add1_16(self.pc);
            BusEvent::Read(data as u16)
        } else if self.step == 3 {
            BusEvent::Read(zp_add(addr, self.x))
        } else if self.step == 4 {
            self.temp = data;
            BusEvent::Read(zp_add(addr, 1))
        } else if self.step == 5 {
            BusEvent::Read(mk16(data, self.temp))
        } else if self.step == 6 {
            rk.execute(self, data);
            self.step = 0;
            BusEvent::Read(self.pc)
        } else {
            self.halt_core()
        }
    }

    pub(crate) fn step_idxind_write(
        &mut self,
        addr: u16,
        data: u8,
        wk: WriteInstruction,
    ) -> (r: BusEvent)
        ensures
            ((*final(self), r) == spec_step_idxind_write(*old(self), addr, data, wk)),
    {
        if self.step == 2 {
            self.pc = add1_16(self.pc);
            BusEvent::Read(data as u16)
        } else if self.step == 3 {
            BusEvent::Read(zp_add(addr, self.x))
        } else if self.step == 4 {
            self.temp = data;
            BusEvent::Read(zp_add(addr, 1))
        } else if self.step == 5 {
            let adr = mk16(data, self.temp);
            let v = wk.execute(self);
            BusEvent::Write(adr, v)
        } else if self.step == 6 {
            self.step = 0;
            BusEvent::Read(self.pc)
        } else {
            self.halt_core()
        }
    }

    pub(crate) fn step_indidx_read(
        &mut self,
        addr: u16,
        data: u8,
        rk: ReadInstruction,
    ) -> (r: BusEvent)
        ensures
            ((*final(self), r) == spec_step_indidx_read(*old(self), addr, data, rk)),
    {
        if self.step == 2 {
            self.pc = add1_16(self.pc);
            BusEvent::Read(data as u16)
        } else if self.step == 3 {
            self.temp = data;
            BusEvent::Read(zp_add(addr, 1))
        } else if self.step == 4 {
            let adl = (((self.temp as u16) + (self.y as u16)) % 256) as u8;
            BusEvent::Read(mk16(data, adl))
        } else if self.step == 5 {
            if lo8(addr) < self.temp {
                BusEvent::Read(add16(addr, 0x100))
            } else {
                rk.execute(self, data);
                self.step = 0;
                BusEvent::Read(self.pc)
            }
        } else if self.step == 6 {
            rk.execute(self, data);
            self.step = 0;
            BusEvent::Read(self.pc)
        } else {
            self.halt_core()
        }
    }

    pub(crate) fn step_indidx_write(
        &mut self,
        addr: u16,
        data: u8,
        wk: WriteInstruction,
    ) -> (r: BusEvent)
        ensures
            ((*final(self), r) == spec_step_indidx_write(*old(self), addr, data, wk)),
    {
        if self.step == 2 {
            self.pc = add1_16(self.pc);
            BusEvent::Read(data as u16)
        } else if self.step == 3 {
            self.temp = data;
            BusEvent::Read(zp_add(addr, 1))
        } else if self.step == 4 {
            let adl = (((self.temp as u16) + (self.y as u16)) % 256) as u8;
            BusEvent::Read(mk16(data, adl))
        } else if self.step == 5 {
            let eff = if lo8(addr) < self.temp {
                add16(addr, 0x100)
            } else {
                addr
            };
            let v = wk.execute(self);
            BusEvent::Write(eff, v)
        } else if self.step == 6 {
            self.step = 0;
            BusEvent::Read(self.pc)
        } else {
            self.halt_core()
        }
    }

    pub(crate) fn step_absind(&mut self, addr: u16, data: u8) -> (r: BusEvent)
        ensures
            ((*final(self), r) == spec_step_absind(*old(self), addr, data)),
    {
        if self.step == 2 {
            self.pc = add1_16(self.pc);
            self.temp = data;
            BusEvent::Read(self.pc)
        } else if self.step == 3 {
            self.pc = add1_16(self.pc);
            BusEvent::Read(mk16(data, self.temp))
        } else if self.step == 4 {
            let adr = mk16(hi8(addr), crate::cpu::add1_8(lo8(addr)));
            self.temp = data;
            BusEvent::Read(adr)
        } else if self.step == 5 {
            self.pc = mk16(data, self.temp);
            self.step = 0;
            BusEvent::Read(self.pc)
        } else {
            self.halt_core()
        }
    }
}

} // verus!
