//! The decoded instruction taxonomy and the effect of each operation on
//! registers and flags.
//!
//! The outer enumeration is the addressing-mode class; within each class
//! the operation sub-kind names the work done once the effective operand
//! is in hand.  The `execute` methods perform that work; each is proved
//! equal to a specification function over the processor state.

use vstd::prelude::*;

use crate::cpu::{spec_wsub16, Cpu};
use crate::flags::{spec_overflow, spec_set_nz, Flags};

verus! {

/// An operation plus its addressing-mode class, as decoded from an
/// opcode byte.
#[derive(Debug, Clone, Copy, PartialEq, Eq, Structural)]
pub enum Instruction {
    Stack(StackInstruction),
    AccumImpl(AccumImplInstruction),
    Imm(ImmInstruction),
    Abs(AbsInstruction),
    ZeroPage(ZeroPageInstruction),
    ZeroPageIdxX(ZeroPageIdxInstruction),
    ZeroPageIdxY(ZeroPageIdxInstruction),
    AbsIdxX(AbsIdxInstruction),
    AbsIdxY(AbsIdxInstruction),
    Rel(RelInstruction),
    IdxInd(IdxIndInstruction),
    IndIdx(IndIdxInstruction),
    AbsInd(AbsIndInstruction),
    Invalid(u8),
}

/// The instructions with their own stack-driven micro-sequences.
#[derive(Debug, Clone, Copy, PartialEq, Eq, Structural)]
pub enum StackInstruction {
    Brk(Interrupt),
    Rti,
    Rts,
    Pha,
    Php,
    Pla,
    Plp,
    Jsr,
}

/// The source a BRK-form sequence is servicing; it selects the vector,
/// the pushed B bit, and whether the stack cycles write at all.
#[derive(Debug, Clone, Copy, PartialEq, Eq, Structural)]
pub enum Interrupt {
    Rst,
    Irq,
    Nmi,
    Brk,
}

#[derive(Debug, Clone, Copy, PartialEq, Eq, Structural)]
pub enum JumpInstruction {
    Jmp,
}

#[derive(Debug, Clone, Copy, PartialEq, Eq, Structural)]
pub enum BranchInstruction {
    Bcc,
    Bcs,
    Bne,
    Beq,
    Bpl,
    Bmi,
    Bvc,
    Bvs,
}

/// Two-cycle instructions that touch only registers and flags.
#[derive(Debug, Clone, Copy, PartialEq, Eq, Structural)]
pub enum InternalInstruction {
    Txa,
    Txs,
    Tax,
    Tsx,
    Tay,
    Tya,
    Dex,
    Dey,
    Clc,
    Sec,
    Cli,
    Sei,
    Cld,
    Sed,
    Clv,
    Inx,
    Iny,
    Nop,
}

/// Operations that consume the effective operand byte.
#[derive(Debug, Clone, Copy, PartialEq, Eq, Structural)]
pub enum ReadInstruction {
    Lda,
    Ldx,
    Ldy,
    Eor,
    And,
    Ora,
    Adc,
    Sbc,
    Cmp,
    Cpy,
    Cpx,
    Bit,
}

/// Operations that produce the byte a store cycle writes.
#[derive(Debug, Clone, Copy, PartialEq, Eq, Structural)]
pub enum WriteInstruction {
    Sta,
    Stx,
    Sty,
}

/// Operations that read a byte, rewrite it, and write it back.
#[derive(Debug, Clone, Copy, PartialEq, Eq, Structural)]
pub enum ReadModifyWriteInstruction {
    Asl,
    Lsr,
    Rol,
    Ror,
    Inc,
    Dec,
}

#[derive(Debug, Clone, Copy, PartialEq, Eq, Structural)]
pub enum ImmInstruction {
    Read(ReadInstruction),
}

#[derive(Debug, Clone, Copy, PartialEq, Eq, Structural)]
pub enum AccumImplInstruction {
    ReadModifyWrite(ReadModifyWriteInstruction),
    Internal(InternalInstruction),
}

#[derive(Debug, Clone, Copy, PartialEq, Eq, Structural)]
pub enum AbsInstruction {
    Jump(JumpInstruction),
    Read(ReadInstruction),
    ReadModifyWrite(ReadModifyWriteInstruction),
    Write(WriteInstruction),
}

#[derive(Debug, Clone, Copy, PartialEq, Eq, Structural)]
pub enum ZeroPageInstruction {
    Read(ReadInstruction),
    ReadModifyWrite(ReadModifyWriteInstruction),
    Write(WriteInstruction),
}

#[derive(Debug, Clone, Copy, PartialEq, Eq, Structural)]
pub enum ZeroPageIdxInstruction {
    Read(ReadInstruction),
    ReadModifyWrite(ReadModifyWriteInstruction),
    Write(WriteInstruction),
}

#[derive(Debug, Clone, Copy, PartialEq, Eq, Structural)]
pub enum AbsIdxInstruction {
    Read(ReadInstruction),
    ReadModifyWrite(ReadModifyWriteInstruction),
    Write(WriteInstruction),
}

#[derive(Debug, Clone, Copy, PartialEq, Eq, Structural)]
pub enum RelInstruction {
    Branch(BranchInstruction),
}

#[derive(Debug, Clone, Copy, PartialEq, Eq, Structural)]
pub enum IdxIndInstruction {
    Read(ReadInstruction),
    Write(WriteInstruction),
}

#[derive(Debug, Clone, Copy, PartialEq, Eq, Structural)]
pub enum IndIdxInstruction {
    Read(ReadInstruction),
    Write(WriteInstruction),
}

#[derive(Debug, Clone, Copy, PartialEq, Eq, Structural)]
pub enum AbsIndInstruction {
    Jump(JumpInstruction),
}

/// Whether the branch predicate holds under status `p`.
pub open spec fn spec_branch_taken(k: BranchInstruction, p: Flags) -> bool {
    match k {
        BranchInstruction::Bcc => !p.c,
        BranchInstruction::Bcs => p.c,
        BranchInstruction::Bne => !p.z,
        BranchInstruction::Beq => p.z,
        BranchInstruction::Bpl => !p.n,
        BranchInstruction::Bmi => p.n,
        BranchInstruction::Bvc => !p.v,
        BranchInstruction::Bvs => p.v,
    }
}

/// The byte a store instruction writes.
pub open spec fn spec_store_val(k: WriteInstruction, c: Cpu) -> u8 {
    match k {
        WriteInstruction::Sta => c.a,
        WriteInstruction::Stx => c.x,
        WriteInstruction::Sty => c.y,
    }
}

/// Binary-mode add with carry: the 9-bit sum sets C, signed overflow
/// sets V, and N and Z follow the low 8 bits.
pub open spec fn spec_adc_bin(a: u8, m: u8, c: u8, p: Flags) -> (u8, Flags) {
    let sum = a + m + c;
    let r = (sum % 256) as u8;
    (r, Flags { c: sum > 255, v: spec_overflow(a, m, c), n: r >= 128, z: r == 0, ..p })
}

/// Decimal-mode add with carry, with the NMOS flag behaviour: Z comes
/// from the binary sum, N from bit 3 of the pre-adjust high nibble, V
/// from the pre-adjust high nibble against the operands' sign bits, and
/// C from the adjusted high nibble.
pub open spec fn spec_adc_dec(a: u8, m: u8, c: u8, p: Flags) -> (u8, Flags) {
    let al0 = a % 16 + m % 16 + c;
    let al = al0 + (if al0 > 9 { 6int } else { 0int });
    let ah0 = a / 16 + m / 16 + (if al > 15 { 1int } else { 0int });
    let zf = (a + m + c) % 256 == 0;
    let nf = ah0 / 8 % 2 == 1;
    let vf = ((ah0 / 8 % 2 == 1) != (a >= 128)) && ((a >= 128) == (m >= 128));
    let ah = ah0 + (if ah0 > 9 { 6int } else { 0int });
    let r = (ah % 16 * 16 + al % 16) as u8;
    (r, Flags { n: nf, v: vf, z: zf, c: ah > 15, ..p })
}

/// Binary-mode subtract with borrow: the same machine as add, on the
/// one's complement of the operand.
pub open spec fn spec_sbc_bin(a: u8, m: u8, c: u8, p: Flags) -> (u8, Flags) {
    spec_adc_bin(a, (255 - m) as u8, c, p)
}

/// Decimal-mode subtract: nibble-wise borrow chain with decimal
/// adjust; C and V are computed as in the binary path on the inverted
/// operand, N and Z follow the adjusted result.
pub open spec fn spec_sbc_dec(a: u8, m: u8, c: u8, p: Flags) -> (u8, Flags) {
    let al0 = spec_wsub16(spec_wsub16((a as int) % 16, (m as int) % 16), 1 - c);
    let al = al0 - (if al0 / 16 % 2 == 1 { 6int } else { 0int });
    let ah0 = spec_wsub16(
        spec_wsub16((a as int) / 16, (m as int) / 16),
        if al / 16 % 2 == 1 { 1int } else { 0int },
    );
    let ah = ah0 - (if ah0 / 16 % 2 == 1 { 6int } else { 0int });
    let r = (ah % 16 * 16 + al % 16) as u8;
    let sum = a + (255 - m) + c;
    (
        r,
        Flags {
            c: sum > 255,
            v: spec_overflow(a, (255 - m) as u8, c),
            n: r >= 128,
            z: r == 0,
            ..p
        },
    )
}

/// A two's-complement compare of `reg` against `m`: C, N and Z are set
/// as by the subtraction, the register is untouched.
pub open spec fn spec_compare(reg: u8, m: u8, p: Flags) -> Flags {
    let sum = reg + (255 - m) + 1;
    let r = (sum % 256) as u8;
    Flags { c: sum > 255, n: r >= 128, z: r == 0, ..p }
}

/// The effect of a read-class operation on the processor state, given
/// the effective operand byte `m`.
pub open spec fn spec_read_exec(k: ReadInstruction, pre: Cpu, m: u8) -> Cpu {
    match k {
        ReadInstruction::Lda => Cpu { a: m, p: spec_set_nz(pre.p, m), ..pre },
        ReadInstruction::Ldx => Cpu { x: m, p: spec_set_nz(pre.p, m), ..pre },
        ReadInstruction::Ldy => Cpu { y: m, p: spec_set_nz(pre.p, m), ..pre },
        ReadInstruction::Eor => Cpu { a: pre.a ^ m, p: spec_set_nz(pre.p, pre.a ^ m), ..pre },
        ReadInstruction::And => Cpu { a: pre.a & m, p: spec_set_nz(pre.p, pre.a & m), ..pre },
        ReadInstruction::Ora => Cpu { a: pre.a | m, p: spec_set_nz(pre.p, pre.a | m), ..pre },
        ReadInstruction::Adc => {
            let c = if pre.p.c { 1u8 } else { 0u8 };
            let rf = if pre.p.d {
                spec_adc_dec(pre.a, m, c, pre.p)
            } else {
                spec_adc_bin(pre.a, m, c, pre.p)
            };
            Cpu { a: rf.0, p: rf.1, ..pre }
        },
        ReadInstruction::Sbc => {
            let c = if pre.p.c { 1u8 } else { 0u8 };
            let rf = if pre.p.d {
                spec_sbc_dec(pre.a, m, c, pre.p)
            } else {
                spec_sbc_bin(pre.a, m, c, pre.p)
            };
            Cpu { a: rf.0, p: rf.1, ..pre }
        },
        ReadInstruction::Cmp => Cpu { p: spec_compare(pre.a, m, pre.p), ..pre },
        ReadInstruction::Cpy => Cpu { p: spec_compare(pre.y, m, pre.p), ..pre },
        ReadInstruction::Cpx => Cpu { p: spec_compare(pre.x, m, pre.p), ..pre },
        ReadInstruction::Bit => Cpu {
            p: Flags { z: pre.a & m == 0, n: m >= 128, v: m / 64 % 2 == 1, ..pre.p },
            ..pre
        },
    }
}

/// The effect of a register-internal operation on the processor state.
pub open spec fn spec_internal_exec(k: InternalInstruction, pre: Cpu) -> Cpu {
    match k {
        InternalInstruction::Txa => Cpu { a: pre.x, p: spec_set_nz(pre.p, pre.x), ..pre },
        InternalInstruction::Txs => Cpu { s: pre.x, ..pre },
        InternalInstruction::Tax => Cpu { x: pre.a, p: spec_set_nz(pre.p, pre.a), ..pre },
        InternalInstruction::Tsx => Cpu { x: pre.s, p: spec_set_nz(pre.p, pre.s), ..pre },
        InternalInstruction::Tay => Cpu { y: pre.a, p: spec_set_nz(pre.p, pre.a), ..pre },
        InternalInstruction::Tya => Cpu { a: pre.y, p: spec_set_nz(pre.p, pre.y), ..pre },
        InternalInstruction::Dex => {
            let r = crate::cpu::spec_dec8(pre.x);
            Cpu { x: r, p: spec_set_nz(pre.p, r), ..pre }
        },
        InternalInstruction::Dey => {
            let r = crate::cpu::spec_dec8(pre.y);
            Cpu { y: r, p: spec_set_nz(pre.p, r), ..pre }
        },
        InternalInstruction::Clc => Cpu { p: Flags { c: false, ..pre.p }, ..pre },
        InternalInstruction::Sec => Cpu { p: Flags { c: true, ..pre.p }, ..pre },
        InternalInstruction::Cli => Cpu { p: Flags { i: false, ..pre.p }, ..pre },
        InternalInstruction::Sei => Cpu { p: Flags { i: true, ..pre.p }, ..pre },
        InternalInstruction::Cld => Cpu { p: Flags { d: false, ..pre.p }, ..pre },
        InternalInstruction::Sed => Cpu { p: Flags { d: true, ..pre.p }, ..pre },
        InternalInstruction::Clv => Cpu { p: Flags { v: false, ..pre.p }, ..pre },
        InternalInstruction::Inx => {
            let r = crate::cpu::spec_inc8(pre.x);
            Cpu { x: r, p: spec_set_nz(pre.p, r), ..pre }
        },
        InternalInstruction::Iny => {
            let r = crate::cpu::spec_inc8(pre.y);
            Cpu { y: r, p: spec_set_nz(pre.p, r), ..pre }
        },
        InternalInstruction::Nop => pre,
    }
}

/// The byte a read-modify-write operation produces from `m`.
pub open spec fn spec_rmw_val(k: ReadModifyWriteInstruction, p: Flags, m: u8) -> u8 {
    match k {
        ReadModifyWriteInstruction::Asl => (m % 128 * 2) as u8,
        ReadModifyWriteInstruction::Lsr => (m / 2) as u8,
        ReadModifyWriteInstruction::Rol => (m % 128 * 2 + (if p.c { 1int } else { 0int })) as u8,
        ReadModifyWriteInstruction::Ror => (m / 2 + (if p.c { 128int } else { 0int })) as u8,
        ReadModifyWriteInstruction::Inc => crate::cpu::spec_inc8(m),
        ReadModifyWriteInstruction::Dec => crate::cpu::spec_dec8(m),
    }
}

/// The flags after a read-modify-write operation on `m`: N and Z from
/// the produced byte; shifts and rotates also load C with the ejected
/// bit.
pub open spec fn spec_rmw_flags(k: ReadModifyWriteInstruction, p: Flags, m: u8) -> Flags {
    let r = spec_rmw_val(k, p, m);
    match k {
        ReadModifyWriteInstruction::Asl => Flags { c: m >= 128, ..spec_set_nz(p, r) },
        ReadModifyWriteInstruction::Lsr => Flags { c: m % 2 == 1, ..spec_set_nz(p, r) },
        ReadModifyWriteInstruction::Rol => Flags { c: m >= 128, ..spec_set_nz(p, r) },
        ReadModifyWriteInstruction::Ror => Flags { c: m % 2 == 1, ..spec_set_nz(p, r) },
        ReadModifyWriteInstruction::Inc => spec_set_nz(p, r),
        ReadModifyWriteInstruction::Dec => spec_set_nz(p, r),
    }
}

impl BranchInstruction {
    /// Evaluate the branch predicate against the current status.
    pub fn execute(&self, cpu: &Cpu) -> (r: bool)
        ensures
            r == spec_branch_taken(*self, cpu.p),
    {
        match self {
            BranchInstruction::Bcc => !cpu.p.c,
            BranchInstruction::Bcs => cpu.p.c,
            BranchInstruction::Bne => !cpu.p.z,
            BranchInstruction::Beq => cpu.p.z,
            BranchInstruction::Bpl => !cpu.p.n,
            BranchInstruction::Bmi => cpu.p.n,
            BranchInstruction::Bvc => !cpu.p.v,
            BranchInstruction::Bvs => cpu.p.v,
        }
    }
}

impl WriteInstruction {
    /// The byte the store cycle puts on the bus.
    pub fn execute(&self, cpu: &mut Cpu) -> (r: u8)
        ensures
            *final(cpu) == *old(cpu),
            r == spec_store_val(*self, *old(cpu)),
    {
        match self {
            WriteInstruction::Sta => cpu.a,
            WriteInstruction::Stx => cpu.x,
            WriteInstruction::Sty => cpu.y,
        }
    }
}

impl InternalInstruction {
    /// Apply the register-internal operation.
    #[verifier::rlimit(60)]
    pub fn execute(&self, cpu: &mut Cpu)
        ensures
            *final(cpu) == spec_internal_exec(*self, *old(cpu)),
    {
        match self {
            InternalInstruction::Txa => {
                cpu.a = cpu.x;
                cpu.p.set_n(cpu.a);
                cpu.p.set_z(cpu.a);
            },
            InternalInstruction::Txs => {
                cpu.s = cpu.x;
            },
            InternalInstruction::Tax => {
                cpu.x = cpu.a;
                cpu.p.set_n(cpu.x);
                cpu.p.set_z(cpu.x);
            },
            InternalInstruction::Tsx => {
                cpu.x = cpu.s;
                cpu.p.set_n(cpu.x);
                cpu.p.set_z(cpu.x);
            },
            InternalInstruction::Tay => {
                cpu.y = cpu.a;
                cpu.p.set_n(cpu.y);
                cpu.p.set_z(cpu.y);
            },
            InternalInstruction::Tya => {
                cpu.a = cpu.y;
                cpu.p.set_n(cpu.a);
                cpu.p.set_z(cpu.a);
            },
            InternalInstruction::Dex => {
                cpu.x = crate::cpu::sub1_8(cpu.x);
                cpu.p.set_n(cpu.x);
                cpu.p.set_z(cpu.x);
            },
            InternalInstruction::Dey => {
                cpu.y = crate::cpu::sub1_8(cpu.y);
                cpu.p.set_n(cpu.y);
                cpu.p.set_z(cpu.y);
            },
            InternalInstruction::Clc => {
                cpu.p.c = false;
            },
            InternalInstruction::Sec => {
                cpu.p.c = true;
            },
            InternalInstruction::Cli => {
                cpu.p.i = false;
            },
            InternalInstruction::Sei => {
                cpu.p.i = true;
            },
            InternalInstruction::Cld => {
                cpu.p.d = false;
            },
            InternalInstruction::Sed => {
                cpu.p.d = true;
            },
            InternalInstruction::Clv => {
                cpu.p.v = false;
            },
            InternalInstruction::Inx => {
                cpu.x = crate::cpu::add1_8(cpu.x);
                cpu.p.set_n(cpu.x);
                cpu.p.set_z(cpu.x);
            },
            InternalInstruction::Iny => {
                cpu.y = crate::cpu::add1_8(cpu.y);
                cpu.p.set_n(cpu.y);
                cpu.p.set_z(cpu.y);
            },
            InternalInstruction::Nop => {},
        }
    }
}

impl ReadModifyWriteInstruction {
    /// Produce the rewritten byte and update N, Z and (for shifts and
    /// rotates) C.
    pub fn execute(&self, cpu: &mut Cpu, m: u8) -> (r: u8)
        ensures
            *final(cpu) == (Cpu { p: spec_rmw_flags(*self, old(cpu).p, m), ..*old(cpu) }),
            r == spec_rmw_val(*self, old(cpu).p, m),
    {
        match self {
            ReadModifyWriteInstruction::Asl => {
                let a: u8 = m % 128 * 2;
                cpu.p.set_n(a);
                cpu.p.set_z(a);
                cpu.p.c = m >= 128;
                a
            },
            ReadModifyWriteInstruction::Lsr => {
                let a: u8 = m / 2;
                cpu.p.set_n(a);
                cpu.p.set_z(a);
                cpu.p.c = m % 2 == 1;
                a
            },
            ReadModifyWriteInstruction::Rol => {
                let c: u8 = if cpu.p.c { 1 } else { 0 };
                let a: u8 = m % 128 * 2 + c;
                cpu.p.set_n(a);
                cpu.p.set_z(a);
                cpu.p.c = m >= 128;
                a
            },
            ReadModifyWriteInstruction::Ror => {
                let c: u8 = if cpu.p.c { 128 } else { 0 };
                let a: u8 = m / 2 + c;
                cpu.p.set_n(a);
                cpu.p.set_z(a);
                cpu.p.c = m % 2 == 1;
                a
            },
            ReadModifyWriteInstruction::Inc => {
                let a: u8 = crate::cpu::add1_8(m);
                cpu.p.set_n(a);
                cpu.p.set_z(a);
                a
            },
            ReadModifyWriteInstruction::Dec => {
                let a: u8 = crate::cpu::sub1_8(m);
                cpu.p.set_n(a);
                cpu.p.set_z(a);
                a
            },
        }
    }
}

impl ReadInstruction {
    /// Apply the read-class operation to the effective operand `m`.
    #[verifier::rlimit(100)]
    pub fn execute(&self, cpu: &mut Cpu, m: u8)
        ensures
            *final(cpu) == spec_read_exec(*self, *old(cpu), m),
    {
        match self {
            ReadInstruction::Lda => {
                cpu.a = m;
                cpu.p.set_n(cpu.a);
                cpu.p.set_z(cpu.a);
            },
            ReadInstruction::Ldx => {
                cpu.x = m;
                cpu.p.set_n(cpu.x);
                cpu.p.set_z(cpu.x);
            },
            ReadInstruction::Ldy => {
                cpu.y = m;
                cpu.p.set_n(cpu.y);
                cpu.p.set_z(cpu.y);
            },
            ReadInstruction::Eor => {
                cpu.a = cpu.a ^ m;
                cpu.p.set_n(cpu.a);
                cpu.p.set_z(cpu.a);
            },
            ReadInstruction::And => {
                cpu.a = cpu.a & m;
                cpu.p.set_n(cpu.a);
                cpu.p.set_z(cpu.a);
            },
            ReadInstruction::Ora => {
                cpu.a = cpu.a | m;
                cpu.p.set_n(cpu.a);
                cpu.p.set_z(cpu.a);
            },
            ReadInstruction::Adc => {
                do_adc(cpu, m);
            },
            ReadInstruction::Sbc => {
                do_sbc(cpu, m);
            },
            ReadInstruction::Cmp => {
                let reg = cpu.a;
                do_compare(&mut cpu.p, reg, m);
            },
            ReadInstruction::Cpy => {
                let reg = cpu.y;
                do_compare(&mut cpu.p, reg, m);
            },
            ReadInstruction::Cpx => {
                let reg = cpu.x;
                do_compare(&mut cpu.p, reg, m);
            },
            ReadInstruction::Bit => {
                cpu.p.set_z(cpu.a & m);
                cpu.p.n = m >= 128;
                cpu.p.v = m / 64 % 2 == 1;
            },
        }
    }
}

/// Add with carry, dispatching on the decimal flag.
#[verifier::rlimit(100)]
fn do_adc(cpu: &mut Cpu, m: u8)
    ensures
        *final(cpu) == spec_read_exec(ReadInstruction::Adc, *old(cpu), m),
{
    let c: u8 = if cpu.p.c { 1 } else { 0 };
    let a = cpu.a;
    if cpu.p.d {
        let al0: u16 = (a % 16) as u16 + (m % 16) as u16 + c as u16;
        let al: u16 = al0 + (if al0 > 9 { 6 } else { 0 });
        let ah0: u16 = (a / 16) as u16 + (m / 16) as u16 + (if al > 15 { 1 } else { 0 });
        let bin: u16 = a as u16 + m as u16 + c as u16;
        cpu.p.set_z((bin % 256) as u8);
        cpu.p.n = ah0 / 8 % 2 == 1;
        cpu.p.v = ((ah0 / 8 % 2 == 1) != (a >= 128)) && ((a >= 128) == (m >= 128));
        let ah: u16 = ah0 + (if ah0 > 9 { 6 } else { 0 });
        cpu.p.c = ah > 15;
        cpu.a = (ah % 16 * 16 + al % 16) as u8;
    } else {
        let sum: u16 = a as u16 + m as u16 + c as u16;
        cpu.a = (sum % 256) as u8;
        cpu.p.set_c(sum);
        cpu.p.set_v(a, m, c);
        cpu.p.set_n(cpu.a);
        cpu.p.set_z(cpu.a);
    }
}

/// Subtract with borrow, dispatching on the decimal flag.
#[verifier::rlimit(100)]
fn do_sbc(cpu: &mut Cpu, m: u8)
    ensures
        *final(cpu) == spec_read_exec(ReadInstruction::Sbc, *old(cpu), m),
{
    let c: u8 = if cpu.p.c { 1 } else { 0 };
    let a = cpu.a;
    if cpu.p.d {
        let al0: u16 = wsub16x(wsub16x((a % 16) as u16, (m % 16) as u16), (1 - c) as u16);
        let al: u16 = al0 - (if al0 / 16 % 2 == 1 { 6 } else { 0 });
        let ah0: u16 = wsub16x(
            wsub16x((a / 16) as u16, (m / 16) as u16),
            if al / 16 % 2 == 1 { 1 } else { 0 },
        );
        let ah: u16 = ah0 - (if ah0 / 16 % 2 == 1 { 6 } else { 0 });
        let mi: u8 = 255 - m;
        let sum: u16 = a as u16 + mi as u16 + c as u16;
        cpu.p.set_c(sum);
        cpu.p.set_v(a, mi, c);
        cpu.a = (ah % 16 * 16 + al % 16) as u8;
        cpu.p.set_n(cpu.a);
        cpu.p.set_z(cpu.a);
    } else {
        let mi: u8 = 255 - m;
        let sum: u16 = a as u16 + mi as u16 + c as u16;
        cpu.a = (sum % 256) as u8;
        cpu.p.set_c(sum);
        cpu.p.set_v(a, mi, c);
        cpu.p.set_n(cpu.a);
        cpu.p.set_z(cpu.a);
    }
}

/// Compare `reg` with `m` without touching the register.
fn do_compare(p: &mut Flags, reg: u8, m: u8)
    ensures
        *final(p) == spec_compare(reg, m, *old(p)),
{
    let mi: u8 = 255 - m;
    let sum: u16 = reg as u16 + mi as u16 + 1;
    let r: u8 = (sum % 256) as u8;
    p.set_c(sum);
    p.set_n(r);
    p.set_z(r);
}

/// `x - y` modulo 2^16, the borrow arithmetic of the decimal path.
fn wsub16x(x: u16, y: u16) -> (r: u16)
    ensures
        r as int == spec_wsub16(x as int, y as int),
{
    let r: u32 = ((x as u32) + 0x10000 - (y as u32)) % 0x10000;
    proof {
        lemma_wsub16_shift(x as int, y as int);
    }
    r as u16
}

/// Adding one full period before taking the remainder does not change
/// it: the borrow arithmetic can stay in unsigned machine words.
proof fn lemma_wsub16_shift(x: int, y: int)
    requires
        0 <= x < 0x10000,
        0 <= y < 0x10000,
    ensures
        (x + 0x10000 - y) % 0x10000 == (x - y) % 0x10000,
{
    assert((x + 0x10000 - y) % 0x10000 == (x - y) % 0x10000) by (nonlinear_arith)
        requires
            0 <= x < 0x10000,
            0 <= y < 0x10000,
    ;
}

} // verus!
