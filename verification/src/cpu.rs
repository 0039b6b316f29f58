//! The processor state, the arithmetic the sequencer shares, and the
//! per-cycle entry point.

use vstd::prelude::*;

use crate::bus::BusEvent;
use crate::decode::spec_decode;
use crate::flags::Flags;
use crate::instruction::{
    AbsIdxInstruction, AbsIndInstruction, AbsInstruction, AccumImplInstruction, ImmInstruction,
    IdxIndInstruction, IndIdxInstruction, Instruction, InternalInstruction, Interrupt,
    RelInstruction, StackInstruction, ZeroPageIdxInstruction, ZeroPageInstruction,
};
use crate::seq_mem::{
    spec_step_abs_jmp, spec_step_abs_read, spec_step_abs_rmw, spec_step_abs_write,
    spec_step_absidx_read, spec_step_absidx_write, spec_step_absind, spec_step_absx_rmw,
    spec_step_accum, spec_step_branch, spec_step_idxind_read, spec_step_idxind_write,
    spec_step_imm, spec_step_indidx_read, spec_step_indidx_write, spec_step_zp_read,
    spec_step_zp_rmw, spec_step_zp_write, spec_step_zpidx_read, spec_step_zpidx_write,
    spec_step_zpx_rmw,
};
use crate::seq_stack::{
    spec_step_brk, spec_step_jsr, spec_step_pha, spec_step_php, spec_step_pla, spec_step_plp,
    spec_step_rti, spec_step_rts,
};

verus! {

/// The complete state of the core between two bus cycles.
///
/// `step` is the micro-step within the current instruction: 0 means
/// "about to fetch an opcode", 1 is the opcode fetch, 2 onward is
/// operand fetch and execution.  `temp` is the one-byte scratch the
/// sequencer uses for address low bytes, read-modify-write values and
/// the page-cross marker.  `rst` and `nmi` latch until serviced; `irq`
/// is level-sensitive and cleared on every read cycle.  `halted` is set
/// when an invalid opcode reaches execution: from then on the core
/// emits only reads of the current program counter and changes nothing.
#[derive(Debug, Clone, Copy, PartialEq, Eq, Structural)]
pub struct Cpu {
    pub step: u8,
    pub pc: u16,
    pub s: u8,
    pub a: u8,
    pub x: u8,
    pub y: u8,
    pub p: Flags,
    pub inst: Instruction,
    pub temp: u8,
    pub irq: bool,
    pub nmi: bool,
    pub rst: bool,
    pub halted: bool,
}

/// `x + 1` modulo 2^16: the program counter wraps at the top of memory.
pub open spec fn spec_inc16(x: u16) -> u16 {
    if x == 0xFFFF {
        0u16
    } else {
        (x + 1) as u16
    }
}

/// `a + b` modulo 2^16.
pub open spec fn spec_add16(a: u16, b: u16) -> u16 {
    ((a + b) % 0x10000) as u16
}

/// `x + 1` modulo 2^8.
pub open spec fn spec_inc8(x: u8) -> u8 {
    if x == 0xFF {
        0u8
    } else {
        (x + 1) as u8
    }
}

/// `x - 1` modulo 2^8.
pub open spec fn spec_dec8(x: u8) -> u8 {
    if x == 0 {
        0xFFu8
    } else {
        (x - 1) as u8
    }
}

/// The high byte of a 16-bit address.
pub open spec fn spec_hi(x: u16) -> u8 {
    (x / 256) as u8
}

/// The low byte of a 16-bit address.
pub open spec fn spec_lo(x: u16) -> u8 {
    (x % 256) as u8
}

/// The address with high byte `hi` and low byte `lo`.
pub open spec fn spec_mk16(hi: u8, lo: u8) -> u16 {
    (hi * 256 + lo) as u16
}

/// The stack cell the 8-bit pointer `s` addresses: page 1, offset `s`.
pub open spec fn spec_stack_addr(s: u8) -> u16 {
    (0x100 + s) as u16
}

/// A zero-page index add: the carry out of the low byte is discarded,
/// so the result never leaves page 0.
pub open spec fn spec_zp_add(base: u16, idx: u8) -> u16 {
    ((base + idx) % 256) as u16
}

/// The target of a relative branch: `pc` plus the sign-extended
/// displacement, modulo 2^16.
pub open spec fn spec_branch_target(pc: u16, off: u8) -> u16 {
    if off >= 128 {
        ((pc + off + 0xFF00) % 0x10000) as u16
    } else {
        ((pc + off) % 0x10000) as u16
    }
}

/// `x - y` modulo 2^16 on mathematical integers; the shape the decimal
/// borrow chain works in.
pub open spec fn spec_wsub16(x: int, y: int) -> int {
    (x - y) % 0x10000
}

/// The transition into the stopped state: the core freezes, emitting a
/// read of the current program counter, and never advances again.
pub open spec fn spec_halt(c: Cpu) -> (Cpu, BusEvent) {
    (Cpu { halted: true, ..c }, BusEvent::Read(c.pc))
}

/// The state the core powers up in before the host asserts RST:
/// everything cleared.  Registers only become meaningful once a reset
/// sequence has completed.
pub open spec fn spec_power_up() -> Cpu {
    Cpu {
        step: 0,
        pc: 0,
        s: 0,
        a: 0,
        x: 0,
        y: 0,
        p: Flags { n: false, v: false, d: false, i: false, z: false, c: false },
        inst: Instruction::AccumImpl(AccumImplInstruction::Internal(InternalInstruction::Nop)),
        temp: 0,
        irq: false,
        nmi: false,
        rst: false,
        halted: false,
    }
}

pub(crate) fn add1_16(x: u16) -> (r: u16)
    ensures
        r == spec_inc16(x),
{
    if x == 0xFFFF {
        0
    } else {
        x + 1
    }
}

pub(crate) fn add16(a: u16, b: u16) -> (r: u16)
    ensures
        r == spec_add16(a, b),
{
    (((a as u32) + (b as u32)) % 0x10000) as u16
}

pub(crate) fn add1_8(x: u8) -> (r: u8)
    ensures
        r == spec_inc8(x),
{
    if x == 0xFF {
        0
    } else {
        x + 1
    }
}

pub(crate) fn sub1_8(x: u8) -> (r: u8)
    ensures
        r == spec_dec8(x),
{
    if x == 0 {
        0xFF
    } else {
        x - 1
    }
}

pub(crate) fn hi8(x: u16) -> (r: u8)
    ensures
        r == spec_hi(x),
{
    (x / 256) as u8
}

pub(crate) fn lo8(x: u16) -> (r: u8)
    ensures
        r == spec_lo(x),
{
    (x % 256) as u8
}

pub(crate) fn mk16(hi: u8, lo: u8) -> (r: u16)
    ensures
        r == spec_mk16(hi, lo),
{
    (hi as u16) * 256 + (lo as u16)
}

pub(crate) fn stack_addr(s: u8) -> (r: u16)
    ensures
        r == spec_stack_addr(s),
{
    0x100 + (s as u16)
}

pub(crate) fn zp_add(base: u16, idx: u8) -> (r: u16)
    ensures
        r == spec_zp_add(base, idx),
{
    (((base as u32) + (idx as u32)) % 256) as u16
}

pub(crate) fn branch_target(pc: u16, off: u8) -> (r: u16)
    ensures
        r == spec_branch_target(pc, off),
{
    if off >= 128 {
        (((pc as u32) + (off as u32) + 0xFF00) % 0x10000) as u16
    } else {
        (((pc as u32) + (off as u32)) % 0x10000) as u16
    }
}

impl Cpu {
    /// A core in its power-up state.  Nothing is meaningful until the
    /// host latches RST and clocks the seven-cycle reset sequence.
    pub fn new() -> (r: Cpu)
        ensures
            r == spec_power_up(),
    {
        Cpu {
            step: 0,
            pc: 0,
            s: 0,
            a: 0,
            x: 0,
            y: 0,
            p: Flags { n: false, v: false, d: false, i: false, z: false, c: false },
            inst: Instruction::AccumImpl(AccumImplInstruction::Internal(InternalInstruction::Nop)),
            temp: 0,
            irq: false,
            nmi: false,
            rst: false,
            halted: false,
        }
    }

    /// Latch a reset request.  It stays latched until the reset
    /// sequence clears it at its final cycle.
    pub fn rst(&mut self)
        ensures
            *final(self) == (Cpu { rst: true, ..*old(self) }),
    {
        self.rst = true;
    }

    /// Raise the interrupt-request line for this cycle.  Masked while
    /// the I flag is set; the core clears the latch on every read
    /// cycle, so the host must re-raise it while it wants it pending.
    pub fn irq(&mut self)
        ensures
            *final(self) == (if old(self).p.i {
                *old(self)
            } else {
                Cpu { irq: true, ..*old(self) }
            }),
    {
        if !self.p.i {
            self.irq = true;
        }
    }

    /// Latch a non-maskable interrupt.  It stays latched until the
    /// service sequence clears it.
    pub fn nmi(&mut self)
        ensures
            *final(self) == (Cpu { nmi: true, ..*old(self) }),
    {
        self.nmi = true;
    }

    /// Whether the core has stopped on an invalid opcode.
    pub fn is_halted(&self) -> (r: bool)
        ensures
            r == self.halted,
    {
        self.halted
    }

    pub(crate) fn halt_core(&mut self) -> (r: BusEvent)
        ensures
            ((*final(self), r) == spec_halt(*old(self))),
    {
        self.halted = true;
        BusEvent::Read(self.pc)
    }

    /// Advance the core by one bus cycle.
    ///
    /// `addr` and `data` are the previous transaction, echoed back by
    /// the host: the address it serviced, and the byte it read for a
    /// read or accepted for a write.  The call returns the next
    /// transaction.  The whole behaviour — register and flag updates,
    /// interrupt servicing, halting on an invalid opcode — is the
    /// specification function [`spec_clock`], which this method is
    /// proved to implement exactly.
    #[verifier::rlimit(100)]
    pub fn clock(&mut self, addr: u16, data: u8) -> (r: BusEvent)
        ensures
            ((*final(self), r) == spec_clock(*old(self), addr, data)),
    {
        if self.halted {
            return BusEvent::Read(self.pc);
        }
        if self.step == 0 {
            self.inst = if self.rst {
                Instruction::Stack(StackInstruction::Brk(Interrupt::Rst))
            } else if self.nmi {
                Instruction::Stack(StackInstruction::Brk(Interrupt::Nmi))
            } else if self.irq {
                Instruction::Stack(StackInstruction::Brk(Interrupt::Irq))
            } else {
                Cpu::decode(data)
            };
        }
        if self.step >= 8 {
            return self.halt_core();
        }
        self.step = self.step + 1;
        let ev = if self.step == 1 {
            self.pc = add1_16(self.pc);
            BusEvent::Read(self.pc)
        } else {
            self.dispatch_step(addr, data)
        };
        match ev {
            BusEvent::Read(_) => {
                self.irq = false;
            },
            BusEvent::Write(_, _) => {},
        }
        ev
    }

    /// One micro-step at `step` 2 or more: dispatch on the decoded
    /// instruction into its micro-schedule.
    fn dispatch_step(&mut self, addr: u16, data: u8) -> (r: BusEvent)
        ensures
            ((*final(self), r) == spec_dispatch(*old(self), addr, data)),
    {
        let inst = self.inst;
        match inst {
            Instruction::Stack(sk) => self.dispatch_stack(addr, data, sk),
            Instruction::AccumImpl(k) => self.step_accum(k),
            Instruction::Imm(ImmInstruction::Read(rk)) => self.step_imm(data, rk),
            Instruction::Abs(ak) => self.dispatch_abs(addr, data, ak),
            Instruction::ZeroPage(zk) => self.dispatch_zp(addr, data, zk),
            Instruction::ZeroPageIdxX(zk) => self.dispatch_zpx(addr, data, zk),
            Instruction::ZeroPageIdxY(zk) => self.dispatch_zpy(addr, data, zk),
            Instruction::AbsIdxX(ak) => self.dispatch_absx(addr, data, ak),
            Instruction::AbsIdxY(ak) => self.dispatch_absy(addr, data, ak),
            Instruction::Rel(RelInstruction::Branch(bk)) => self.step_branch(data, bk),
            Instruction::IdxInd(ik) => self.dispatch_idxind(addr, data, ik),
            Instruction::IndIdx(ik) => self.dispatch_indidx(addr, data, ik),
            Instruction::AbsInd(AbsIndInstruction::Jump(_)) => self.step_absind(addr, data),
            Instruction::Invalid(_) => self.halt_core(),
        }
    }

    fn dispatch_stack(&mut self, addr: u16, data: u8, sk: StackInstruction) -> (r: BusEvent)
        ensures
            ((*final(self), r) == spec_dispatch_stack(*old(self), addr, data, sk)),
    {
        match sk {
            StackInstruction::Brk(src) => self.step_brk(addr, data, src),
            StackInstruction::Rti => self.step_rti(data),
            StackInstruction::Rts => self.step_rts(data),
            StackInstruction::Pha => self.step_pha(),
            StackInstruction::Php => self.step_php(),
            StackInstruction::Pla => self.step_pla(data),
            StackInstruction::Plp => self.step_plp(data),
            StackInstruction::Jsr => self.step_jsr(data),
        }
    }

    fn dispatch_abs(&mut self, addr: u16, data: u8, ak: AbsInstruction) -> (r: BusEvent)
        ensures
            ((*final(self), r) == spec_dispatch_abs(*old(self), addr, data, ak)),
    {
        match ak {
            AbsInstruction::Jump(_) => self.step_abs_jmp(data),
            AbsInstruction::Read(rk) => self.step_abs_read(data, rk),
            AbsInstruction::Write(wk) => self.step_abs_write(data, wk),
            AbsInstruction::ReadModifyWrite(mk) => self.step_abs_rmw(addr, data, mk),
        }
    }

    fn dispatch_zp(&mut self, addr: u16, data: u8, zk: ZeroPageInstruction) -> (r: BusEvent)
        ensures
            ((*final(self), r) == spec_dispatch_zp(*old(self), addr, data, zk)),
    {
        match zk {
            ZeroPageInstruction::Read(rk) => self.step_zp_read(data, rk),
            ZeroPageInstruction::Write(wk) => self.step_zp_write(data, wk),
            ZeroPageInstruction::ReadModifyWrite(mk) => self.step_zp_rmw(addr, data, mk),
        }
    }

    fn dispatch_zpx(&mut self, addr: u16, data: u8, zk: ZeroPageIdxInstruction) -> (r: BusEvent)
        ensures
            ((*final(self), r) == spec_dispatch_zpx(*old(self), addr, data, zk)),
    {
        match zk {
            ZeroPageIdxInstruction::Read(rk) => {
                let idx = self.x;
                self.step_zpidx_read(addr, data, rk, idx)
            },
            ZeroPageIdxInstruction::Write(wk) => {
                let idx = self.x;
                self.step_zpidx_write(addr, data, wk, idx)
            },
            ZeroPageIdxInstruction::ReadModifyWrite(mk) => self.step_zpx_rmw(addr, data, mk),
        }
    }

    fn dispatch_zpy(&mut self, addr: u16, data: u8, zk: ZeroPageIdxInstruction) -> (r: BusEvent)
        ensures
            ((*final(self), r) == spec_dispatch_zpy(*old(self), addr, data, zk)),
    {
        match zk {
            ZeroPageIdxInstruction::Read(rk) => {
                let idx = self.y;
                self.step_zpidx_read(addr, data, rk, idx)
            },
            ZeroPageIdxInstruction::Write(wk) => {
                let idx = self.y;
                self.step_zpidx_write(addr, data, wk, idx)
            },
            ZeroPageIdxInstruction::ReadModifyWrite(_) => self.halt_core(),
        }
    }

    fn dispatch_absx(&mut self, addr: u16, data: u8, ak: AbsIdxInstruction) -> (r: BusEvent)
        ensures
            ((*final(self), r) == spec_dispatch_absx(*old(self), addr, data, ak)),
    {
        match ak {
            AbsIdxInstruction::Read(rk) => {
                let idx = self.x;
                self.step_absidx_read(addr, data, rk, idx)
            },
            AbsIdxInstruction::Write(wk) => {
                let idx = self.x;
                self.step_absidx_write(addr, data, wk, idx)
            },
            AbsIdxInstruction::ReadModifyWrite(mk) => self.step_absx_rmw(addr, data, mk),
        }
    }

    fn dispatch_absy(&mut self, addr: u16, data: u8, ak: AbsIdxInstruction) -> (r: BusEvent)
        ensures
            ((*final(self), r) == spec_dispatch_absy(*old(self), addr, data, ak)),
    {
        match ak {
            AbsIdxInstruction::Read(rk) => {
                let idx = self.y;
                self.step_absidx_read(addr, data, rk, idx)
            },
            AbsIdxInstruction::Write(wk) => {
                let idx = self.y;
                self.step_absidx_write(addr, data, wk, idx)
            },
            AbsIdxInstruction::ReadModifyWrite(_) => self.halt_core(),
        }
    }

    fn dispatch_idxind(&mut self, addr: u16, data: u8, ik: IdxIndInstruction) -> (r: BusEvent)
        ensures
            ((*final(self), r) == spec_dispatch_idxind(*old(self), addr, data, ik)),
    {
        match ik {
            IdxIndInstruction::Read(rk) => self.step_idxind_read(addr, data, rk),
            IdxIndInstruction::Write(wk) => self.step_idxind_write(addr, data, wk),
        }
    }

    fn dispatch_indidx(&mut self, addr: u16, data: u8, ik: IndIdxInstruction) -> (r: BusEvent)
        ensures
            ((*final(self), r) == spec_dispatch_indidx(*old(self), addr, data, ik)),
    {
        match ik {
            IndIdxInstruction::Read(rk) => self.step_indidx_read(addr, data, rk),
            IndIdxInstruction::Write(wk) => self.step_indidx_write(addr, data, wk),
        }
    }
}

impl Default for Cpu {
    fn default() -> (r: Cpu)
        ensures
            r == spec_power_up(),
    {
        Cpu::new()
    }
}

/// The instruction that takes over at an instruction boundary: a
/// pending interrupt, in priority order RST, NMI, IRQ, overrides the
/// freshly fetched opcode.
pub open spec fn spec_decoded_inst(pre: Cpu, data: u8) -> Instruction {
    if pre.rst {
        Instruction::Stack(StackInstruction::Brk(Interrupt::Rst))
    } else if pre.nmi {
        Instruction::Stack(StackInstruction::Brk(Interrupt::Nmi))
    } else if pre.irq {
        Instruction::Stack(StackInstruction::Brk(Interrupt::Irq))
    } else {
        spec_decode(data)
    }
}

/// The stack-form micro-step dispatch.
pub open spec fn spec_dispatch_stack(
    c: Cpu,
    addr: u16,
    data: u8,
    sk: StackInstruction,
) -> (Cpu, BusEvent) {
    match sk {
        StackInstruction::Brk(src) => spec_step_brk(c, addr, data, src),
        StackInstruction::Rti => spec_step_rti(c, data),
        StackInstruction::Rts => spec_step_rts(c, data),
        StackInstruction::Pha => spec_step_pha(c),
        StackInstruction::Php => spec_step_php(c),
        StackInstruction::Pla => spec_step_pla(c, data),
        StackInstruction::Plp => spec_step_plp(c, data),
        StackInstruction::Jsr => spec_step_jsr(c, data),
    }
}

/// The absolute-form micro-step dispatch.
pub open spec fn spec_dispatch_abs(
    c: Cpu,
    addr: u16,
    data: u8,
    ak: AbsInstruction,
) -> (Cpu, BusEvent) {
    match ak {
        AbsInstruction::Jump(_) => spec_step_abs_jmp(c, data),
        AbsInstruction::Read(rk) => spec_step_abs_read(c, data, rk),
        AbsInstruction::Write(wk) => spec_step_abs_write(c, data, wk),
        AbsInstruction::ReadModifyWrite(mk) => spec_step_abs_rmw(c, addr, data, mk),
    }
}

/// The zero-page-form micro-step dispatch.
pub open spec fn spec_dispatch_zp(
    c: Cpu,
    addr: u16,
    data: u8,
    zk: ZeroPageInstruction,
) -> (Cpu, BusEvent) {
    match zk {
        ZeroPageInstruction::Read(rk) => spec_step_zp_read(c, data, rk),
        ZeroPageInstruction::Write(wk) => spec_step_zp_write(c, data, wk),
        ZeroPageInstruction::ReadModifyWrite(mk) => spec_step_zp_rmw(c, addr, data, mk),
    }
}

/// The zero-page,X micro-step dispatch.
pub open spec fn spec_dispatch_zpx(
    c: Cpu,
    addr: u16,
    data: u8,
    zk: ZeroPageIdxInstruction,
) -> (Cpu, BusEvent) {
    match zk {
        ZeroPageIdxInstruction::Read(rk) => spec_step_zpidx_read(c, addr, data, rk, c.x),
        ZeroPageIdxInstruction::Write(wk) => spec_step_zpidx_write(c, addr, data, wk, c.x),
        ZeroPageIdxInstruction::ReadModifyWrite(mk) => spec_step_zpx_rmw(c, addr, data, mk),
    }
}

/// The zero-page,Y micro-step dispatch.  Only loads and stores of X
/// exist in this form; a read-modify-write here is unreachable from
/// the opcode map and freezes the core.
pub open spec fn spec_dispatch_zpy(
    c: Cpu,
    addr: u16,
    data: u8,
    zk: ZeroPageIdxInstruction,
) -> (Cpu, BusEvent) {
    match zk {
        ZeroPageIdxInstruction::Read(rk) => spec_step_zpidx_read(c, addr, data, rk, c.y),
        ZeroPageIdxInstruction::Write(wk) => spec_step_zpidx_write(c, addr, data, wk, c.y),
        ZeroPageIdxInstruction::ReadModifyWrite(_) => spec_halt(c),
    }
}

/// The absolute,X micro-step dispatch.
pub open spec fn spec_dispatch_absx(
    c: Cpu,
    addr: u16,
    data: u8,
    ak: AbsIdxInstruction,
) -> (Cpu, BusEvent) {
    match ak {
        AbsIdxInstruction::Read(rk) => spec_step_absidx_read(c, addr, data, rk, c.x),
        AbsIdxInstruction::Write(wk) => spec_step_absidx_write(c, addr, data, wk, c.x),
        AbsIdxInstruction::ReadModifyWrite(mk) => spec_step_absx_rmw(c, addr, data, mk),
    }
}

/// The absolute,Y micro-step dispatch.  No read-modify-write opcode
/// uses this form; one here freezes the core.
pub open spec fn spec_dispatch_absy(
    c: Cpu,
    addr: u16,
    data: u8,
    ak: AbsIdxInstruction,
) -> (Cpu, BusEvent) {
    match ak {
        AbsIdxInstruction::Read(rk) => spec_step_absidx_read(c, addr, data, rk, c.y),
        AbsIdxInstruction::Write(wk) => spec_step_absidx_write(c, addr, data, wk, c.y),
        AbsIdxInstruction::ReadModifyWrite(_) => spec_halt(c),
    }
}

/// The (indirect,X) micro-step dispatch.
pub open spec fn spec_dispatch_idxind(
    c: Cpu,
    addr: u16,
    data: u8,
    ik: IdxIndInstruction,
) -> (Cpu, BusEvent) {
    match ik {
        IdxIndInstruction::Read(rk) => spec_step_idxind_read(c, addr, data, rk),
        IdxIndInstruction::Write(wk) => spec_step_idxind_write(c, addr, data, wk),
    }
}

/// The (indirect),Y micro-step dispatch.
pub open spec fn spec_dispatch_indidx(
    c: Cpu,
    addr: u16,
    data: u8,
    ik: IndIdxInstruction,
) -> (Cpu, BusEvent) {
    match ik {
        IndIdxInstruction::Read(rk) => spec_step_indidx_read(c, addr, data, rk),
        IndIdxInstruction::Write(wk) => spec_step_indidx_write(c, addr, data, wk),
    }
}

/// The micro-step of the current instruction at `c.step` (2 or more):
/// the two-level dispatch on instruction form and step.
pub open spec fn spec_dispatch(c: Cpu, addr: u16, data: u8) -> (Cpu, BusEvent) {
    match c.inst {
        Instruction::Stack(sk) => spec_dispatch_stack(c, addr, data, sk),
        Instruction::AccumImpl(k) => spec_step_accum(c, k),
        Instruction::Imm(ImmInstruction::Read(rk)) => spec_step_imm(c, data, rk),
        Instruction::Abs(ak) => spec_dispatch_abs(c, addr, data, ak),
        Instruction::ZeroPage(zk) => spec_dispatch_zp(c, addr, data, zk),
        Instruction::ZeroPageIdxX(zk) => spec_dispatch_zpx(c, addr, data, zk),
        Instruction::ZeroPageIdxY(zk) => spec_dispatch_zpy(c, addr, data, zk),
        Instruction::AbsIdxX(ak) => spec_dispatch_absx(c, addr, data, ak),
        Instruction::AbsIdxY(ak) => spec_dispatch_absy(c, addr, data, ak),
        Instruction::Rel(RelInstruction::Branch(bk)) => spec_step_branch(c, data, bk),
        Instruction::IdxInd(ik) => spec_dispatch_idxind(c, addr, data, ik),
        Instruction::IndIdx(ik) => spec_dispatch_indidx(c, addr, data, ik),
        Instruction::AbsInd(AbsIndInstruction::Jump(_)) => spec_step_absind(c, addr, data),
        Instruction::Invalid(_) => spec_halt(c),
    }
}

/// One full bus cycle of the core, as a pure function of the previous
/// state and the echoed transaction.
///
/// A halted core is frozen.  At an instruction boundary the pending
/// interrupt latches are consulted in priority order before the fetched
/// opcode byte is decoded.  The opcode-fetch cycle advances the program
/// counter and reads the operand position; later cycles dispatch into
/// the instruction's micro-schedule.  Every cycle that ends on a read
/// clears the level-sensitive IRQ latch.
pub open spec fn spec_clock(pre: Cpu, addr: u16, data: u8) -> (Cpu, BusEvent) {
    if pre.halted {
        (pre, BusEvent::Read(pre.pc))
    } else {
        let c0 = if pre.step == 0 {
            Cpu { inst: spec_decoded_inst(pre, data), ..pre }
        } else {
            pre
        };
        if c0.step >= 8 {
            spec_halt(c0)
        } else {
            let c1 = Cpu { step: (c0.step + 1) as u8, ..c0 };
            let step_out = if c1.step == 1 {
                (
                    Cpu { pc: spec_inc16(c1.pc), ..c1 },
                    BusEvent::Read(spec_inc16(c1.pc)),
                )
            } else {
                spec_dispatch(c1, addr, data)
            };
            match step_out.1 {
                BusEvent::Read(_) => (Cpu { irq: false, ..step_out.0 }, step_out.1),
                BusEvent::Write(_, _) => step_out,
            }
        }
    }
}

} // verus!
