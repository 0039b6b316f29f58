//! The opcode map: the documented NMOS 6502 instruction set.
//!
//! Decoding is a pure total function from the opcode byte to the
//! operation and its addressing-mode class; bytes outside the
//! documented set decode to `Invalid`, which halts the core when it
//! reaches execution.

use vstd::prelude::*;

use crate::cpu::Cpu;
use crate::instruction::{
    AbsIdxInstruction, AbsIndInstruction, AbsInstruction, AccumImplInstruction,
    BranchInstruction, IdxIndInstruction, ImmInstruction, IndIdxInstruction, Instruction,
    InternalInstruction, Interrupt, JumpInstruction, ReadInstruction,
    ReadModifyWriteInstruction, RelInstruction, StackInstruction, WriteInstruction,
    ZeroPageIdxInstruction, ZeroPageInstruction,
};

verus! {

/// The operation and addressing form encoded by `op`.
pub open spec fn spec_decode(op: u8) -> Instruction {
    match op {
        0x00 => Instruction::Stack(StackInstruction::Brk(Interrupt::Brk)),
        0x01 => Instruction::IdxInd(IdxIndInstruction::Read(ReadInstruction::Ora)),
        0x05 => Instruction::ZeroPage(ZeroPageInstruction::Read(ReadInstruction::Ora)),
        0x06 => Instruction::ZeroPage(ZeroPageInstruction::ReadModifyWrite(ReadModifyWriteInstruction::Asl)),
        0x08 => Instruction::Stack(StackInstruction::Php),
        0x09 => Instruction::Imm(ImmInstruction::Read(ReadInstruction::Ora)),
        0x0A => Instruction::AccumImpl(AccumImplInstruction::ReadModifyWrite(ReadModifyWriteInstruction::Asl)),
        0x0D => Instruction::Abs(AbsInstruction::Read(ReadInstruction::Ora)),
        0x0E => Instruction::Abs(AbsInstruction::ReadModifyWrite(ReadModifyWriteInstruction::Asl)),
        0x10 => Instruction::Rel(RelInstruction::Branch(BranchInstruction::Bpl)),
        0x11 => Instruction::IndIdx(IndIdxInstruction::Read(ReadInstruction::Ora)),
        0x15 => Instruction::ZeroPageIdxX(ZeroPageIdxInstruction::Read(ReadInstruction::Ora)),
        0x16 => Instruction::ZeroPageIdxX(ZeroPageIdxInstruction::ReadModifyWrite(ReadModifyWriteInstruction::Asl)),
        0x18 => Instruction::AccumImpl(AccumImplInstruction::Internal(InternalInstruction::Clc)),
        0x19 => Instruction::AbsIdxY(AbsIdxInstruction::Read(ReadInstruction::Ora)),
        0x1D => Instruction::AbsIdxX(AbsIdxInstruction::Read(ReadInstruction::Ora)),
        0x1E => Instruction::AbsIdxX(AbsIdxInstruction::ReadModifyWrite(ReadModifyWriteInstruction::Asl)),
        0x20 => Instruction::Stack(StackInstruction::Jsr),
        0x21 => Instruction::IdxInd(IdxIndInstruction::Read(ReadInstruction::And)),
        0x24 => Instruction::ZeroPage(ZeroPageInstruction::Read(ReadInstruction::Bit)),
        0x25 => Instruction::ZeroPage(ZeroPageInstruction::Read(ReadInstruction::And)),
        0x26 => Instruction::ZeroPage(ZeroPageInstruction::ReadModifyWrite(ReadModifyWriteInstruction::Rol)),
        0x28 => Instruction::Stack(StackInstruction::Plp),
        0x29 => Instruction::Imm(ImmInstruction::Read(ReadInstruction::And)),
        0x2A => Instruction::AccumImpl(AccumImplInstruction::ReadModifyWrite(ReadModifyWriteInstruction::Rol)),
        0x2C => Instruction::Abs(AbsInstruction::Read(ReadInstruction::Bit)),
        0x2D => Instruction::Abs(AbsInstruction::Read(ReadInstruction::And)),
        0x2E => Instruction::Abs(AbsInstruction::ReadModifyWrite(ReadModifyWriteInstruction::Rol)),
        0x30 => Instruction::Rel(RelInstruction::Branch(BranchInstruction::Bmi)),
        0x31 => Instruction::IndIdx(IndIdxInstruction::Read(ReadInstruction::And)),
        0x35 => Instruction::ZeroPageIdxX(ZeroPageIdxInstruction::Read(ReadInstruction::And)),
        0x36 => Instruction::ZeroPageIdxX(ZeroPageIdxInstruction::ReadModifyWrite(ReadModifyWriteInstruction::Rol)),
        0x38 => Instruction::AccumImpl(AccumImplInstruction::Internal(InternalInstruction::Sec)),
        0x39 => Instruction::AbsIdxY(AbsIdxInstruction::Read(ReadInstruction::And)),
        0x3D => Instruction::AbsIdxX(AbsIdxInstruction::Read(ReadInstruction::And)),
        0x3E => Instruction::AbsIdxX(AbsIdxInstruction::ReadModifyWrite(ReadModifyWriteInstruction::Rol)),
        0x40 => Instruction::Stack(StackInstruction::Rti),
        0x41 => Instruction::IdxInd(IdxIndInstruction::Read(ReadInstruction::Eor)),
        0x45 => Instruction::ZeroPage(ZeroPageInstruction::Read(ReadInstruction::Eor)),
        0x46 => Instruction::ZeroPage(ZeroPageInstruction::ReadModifyWrite(ReadModifyWriteInstruction::Lsr)),
        0x48 => Instruction::Stack(StackInstruction::Pha),
        0x49 => Instruction::Imm(ImmInstruction::Read(ReadInstruction::Eor)),
        0x4A => Instruction::AccumImpl(AccumImplInstruction::ReadModifyWrite(ReadModifyWriteInstruction::Lsr)),
        0x4C => Instruction::Abs(AbsInstruction::Jump(JumpInstruction::Jmp)),
        0x4D => Instruction::Abs(AbsInstruction::Read(ReadInstruction::Eor)),
        0x4E => Instruction::Abs(AbsInstruction::ReadModifyWrite(ReadModifyWriteInstruction::Lsr)),
        0x50 => Instruction::Rel(RelInstruction::Branch(BranchInstruction::Bvc)),
        0x51 => Instruction::IndIdx(IndIdxInstruction::Read(ReadInstruction::Eor)),
        0x55 => Instruction::ZeroPageIdxX(ZeroPageIdxInstruction::Read(ReadInstruction::Eor)),
        0x56 => Instruction::ZeroPageIdxX(ZeroPageIdxInstruction::ReadModifyWrite(ReadModifyWriteInstruction::Lsr)),
        0x58 => Instruction::AccumImpl(AccumImplInstruction::Internal(InternalInstruction::Cli)),
        0x59 => Instruction::AbsIdxY(AbsIdxInstruction::Read(ReadInstruction::Eor)),
        0x5D => Instruction::AbsIdxX(AbsIdxInstruction::Read(ReadInstruction::Eor)),
        0x5E => Instruction::AbsIdxX(AbsIdxInstruction::ReadModifyWrite(ReadModifyWriteInstruction::Lsr)),
        0x60 => Instruction::Stack(StackInstruction::Rts),
        0x61 => Instruction::IdxInd(IdxIndInstruction::Read(ReadInstruction::Adc)),
        0x65 => Instruction::ZeroPage(ZeroPageInstruction::Read(ReadInstruction::Adc)),
        0x66 => Instruction::ZeroPage(ZeroPageInstruction::ReadModifyWrite(ReadModifyWriteInstruction::Ror)),
        0x68 => Instruction::Stack(StackInstruction::Pla),
        0x69 => Instruction::Imm(ImmInstruction::Read(ReadInstruction::Adc)),
        0x6A => Instruction::AccumImpl(AccumImplInstruction::ReadModifyWrite(ReadModifyWriteInstruction::Ror)),
        0x6C => Instruction::AbsInd(AbsIndInstruction::Jump(JumpInstruction::Jmp)),
        0x6D => Instruction::Abs(AbsInstruction::Read(ReadInstruction::Adc)),
        0x6E => Instruction::Abs(AbsInstruction::ReadModifyWrite(ReadModifyWriteInstruction::Ror)),
        0x70 => Instruction::Rel(RelInstruction::Branch(BranchInstruction::Bvs)),
        0x71 => Instruction::IndIdx(IndIdxInstruction::Read(ReadInstruction::Adc)),
        0x75 => Instruction::ZeroPageIdxX(ZeroPageIdxInstruction::Read(ReadInstruction::Adc)),
        0x76 => Instruction::ZeroPageIdxX(ZeroPageIdxInstruction::ReadModifyWrite(ReadModifyWriteInstruction::Ror)),
        0x78 => Instruction::AccumImpl(AccumImplInstruction::Internal(InternalInstruction::Sei)),
        0x79 => Instruction::AbsIdxY(AbsIdxInstruction::Read(ReadInstruction::Adc)),
        0x7D => Instruction::AbsIdxX(AbsIdxInstruction::Read(ReadInstruction::Adc)),
        0x7E => Instruction::AbsIdxX(AbsIdxInstruction::ReadModifyWrite(ReadModifyWriteInstruction::Ror)),
        0x81 => Instruction::IdxInd(IdxIndInstruction::Write(WriteInstruction::Sta)),
        0x84 => Instruction::ZeroPage(ZeroPageInstruction::Write(WriteInstruction::Sty)),
        0x85 => Instruction::ZeroPage(ZeroPageInstruction::Write(WriteInstruction::Sta)),
        0x86 => Instruction::ZeroPage(ZeroPageInstruction::Write(WriteInstruction::Stx)),
        0x88 => Instruction::AccumImpl(AccumImplInstruction::Internal(InternalInstruction::Dey)),
        0x8A => Instruction::AccumImpl(AccumImplInstruction::Internal(InternalInstruction::Txa)),
        0x8C => Instruction::Abs(AbsInstruction::Write(WriteInstruction::Sty)),
        0x8D => Instruction::Abs(AbsInstruction::Write(WriteInstruction::Sta)),
        0x8E => Instruction::Abs(AbsInstruction::Write(WriteInstruction::Stx)),
        0x90 => Instruction::Rel(RelInstruction::Branch(BranchInstruction::Bcc)),
        0x91 => Instruction::IndIdx(IndIdxInstruction::Write(WriteInstruction::Sta)),
        0x94 => Instruction::ZeroPageIdxX(ZeroPageIdxInstruction::Write(WriteInstruction::Sty)),
        0x95 => Instruction::ZeroPageIdxX(ZeroPageIdxInstruction::Write(WriteInstruction::Sta)),
        0x96 => Instruction::ZeroPageIdxY(ZeroPageIdxInstruction::Write(WriteInstruction::Stx)),
        0x98 => Instruction::AccumImpl(AccumImplInstruction::Internal(InternalInstruction::Tya)),
        0x99 => Instruction::AbsIdxY(AbsIdxInstruction::Write(WriteInstruction::Sta)),
        0x9A => Instruction::AccumImpl(AccumImplInstruction::Internal(InternalInstruction::Txs)),
        0x9D => Instruction::AbsIdxX(AbsIdxInstruction::Write(WriteInstruction::Sta)),
        0xA0 => Instruction::Imm(ImmInstruction::Read(ReadInstruction::Ldy)),
        0xA1 => Instruction::IdxInd(IdxIndInstruction::Read(ReadInstruction::Lda)),
        0xA2 => Instruction::Imm(ImmInstruction::Read(ReadInstruction::Ldx)),
        0xA4 => Instruction::ZeroPage(ZeroPageInstruction::Read(ReadInstruction::Ldy)),
        0xA5 => Instruction::ZeroPage(ZeroPageInstruction::Read(ReadInstruction::Lda)),
        0xA6 => Instruction::ZeroPage(ZeroPageInstruction::Read(ReadInstruction::Ldx)),
        0xA8 => Instruction::AccumImpl(AccumImplInstruction::Internal(InternalInstruction::Tay)),
        0xA9 => Instruction::Imm(ImmInstruction::Read(ReadInstruction::Lda)),
        0xAA => Instruction::AccumImpl(AccumImplInstruction::Internal(InternalInstruction::Tax)),
        0xAC => Instruction::Abs(AbsInstruction::Read(ReadInstruction::Ldy)),
        0xAD => Instruction::Abs(AbsInstruction::Read(ReadInstruction::Lda)),
        0xAE => Instruction::Abs(AbsInstruction::Read(ReadInstruction::Ldx)),
        0xB0 => Instruction::Rel(RelInstruction::Branch(BranchInstruction::Bcs)),
        0xB1 => Instruction::IndIdx(IndIdxInstruction::Read(ReadInstruction::Lda)),
        0xB4 => Instruction::ZeroPageIdxX(ZeroPageIdxInstruction::Read(ReadInstruction::Ldy)),
        0xB5 => Instruction::ZeroPageIdxX(ZeroPageIdxInstruction::Read(ReadInstruction::Lda)),
        0xB6 => Instruction::ZeroPageIdxY(ZeroPageIdxInstruction::Read(ReadInstruction::Ldx)),
        0xB8 => Instruction::AccumImpl(AccumImplInstruction::Internal(InternalInstruction::Clv)),
        0xB9 => Instruction::AbsIdxY(AbsIdxInstruction::Read(ReadInstruction::Lda)),
        0xBA => Instruction::AccumImpl(AccumImplInstruction::Internal(InternalInstruction::Tsx)),
        0xBC => Instruction::AbsIdxX(AbsIdxInstruction::Read(ReadInstruction::Ldy)),
        0xBD => Instruction::AbsIdxX(AbsIdxInstruction::Read(ReadInstruction::Lda)),
        0xBE => Instruction::AbsIdxY(AbsIdxInstruction::Read(ReadInstruction::Ldx)),
        0xC0 => Instruction::Imm(ImmInstruction::Read(ReadInstruction::Cpy)),
        0xC1 => Instruction::IdxInd(IdxIndInstruction::Read(ReadInstruction::Cmp)),
        0xC4 => Instruction::ZeroPage(ZeroPageInstruction::Read(ReadInstruction::Cpy)),
        0xC5 => Instruction::ZeroPage(ZeroPageInstruction::Read(ReadInstruction::Cmp)),
        0xC6 => Instruction::ZeroPage(ZeroPageInstruction::ReadModifyWrite(ReadModifyWriteInstruction::Dec)),
        0xC8 => Instruction::AccumImpl(AccumImplInstruction::Internal(InternalInstruction::Iny)),
        0xC9 => Instruction::Imm(ImmInstruction::Read(ReadInstruction::Cmp)),
        0xCA => Instruction::AccumImpl(AccumImplInstruction::Internal(InternalInstruction::Dex)),
        0xCC => Instruction::Abs(AbsInstruction::Read(ReadInstruction::Cpy)),
        0xCD => Instruction::Abs(AbsInstruction::Read(ReadInstruction::Cmp)),
        0xCE => Instruction::Abs(AbsInstruction::ReadModifyWrite(ReadModifyWriteInstruction::Dec)),
        0xD0 => Instruction::Rel(RelInstruction::Branch(BranchInstruction::Bne)),
        0xD1 => Instruction::IndIdx(IndIdxInstruction::Read(ReadInstruction::Cmp)),
        0xD5 => Instruction::ZeroPageIdxX(ZeroPageIdxInstruction::Read(ReadInstruction::Cmp)),
        0xD6 => Instruction::ZeroPageIdxX(ZeroPageIdxInstruction::ReadModifyWrite(ReadModifyWriteInstruction::Dec)),
        0xD8 => Instruction::AccumImpl(AccumImplInstruction::Internal(InternalInstruction::Cld)),
        0xD9 => Instruction::AbsIdxY(AbsIdxInstruction::Read(ReadInstruction::Cmp)),
        0xDD => Instruction::AbsIdxX(AbsIdxInstruction::Read(ReadInstruction::Cmp)),
        0xDE => Instruction::AbsIdxX(AbsIdxInstruction::ReadModifyWrite(ReadModifyWriteInstruction::Dec)),
        0xE0 => Instruction::Imm(ImmInstruction::Read(ReadInstruction::Cpx)),
        0xE1 => Instruction::IdxInd(IdxIndInstruction::Read(ReadInstruction::Sbc)),
        0xE4 => Instruction::ZeroPage(ZeroPageInstruction::Read(ReadInstruction::Cpx)),
        0xE5 => Instruction::ZeroPage(ZeroPageInstruction::Read(ReadInstruction::Sbc)),
        0xE6 => Instruction::ZeroPage(ZeroPageInstruction::ReadModifyWrite(ReadModifyWriteInstruction::Inc)),
        0xE8 => Instruction::AccumImpl(AccumImplInstruction::Internal(InternalInstruction::Inx)),
        0xE9 => Instruction::Imm(ImmInstruction::Read(ReadInstruction::Sbc)),
        0xEA => Instruction::AccumImpl(AccumImplInstruction::Internal(InternalInstruction::Nop)),
        0xEC => Instruction::Abs(AbsInstruction::Read(ReadInstruction::Cpx)),
        0xED => Instruction::Abs(AbsInstruction::Read(ReadInstruction::Sbc)),
        0xEE => Instruction::Abs(AbsInstruction::ReadModifyWrite(ReadModifyWriteInstruction::Inc)),
        0xF0 => Instruction::Rel(RelInstruction::Branch(BranchInstruction::Beq)),
        0xF1 => Instruction::IndIdx(IndIdxInstruction::Read(ReadInstruction::Sbc)),
        0xF5 => Instruction::ZeroPageIdxX(ZeroPageIdxInstruction::Read(ReadInstruction::Sbc)),
        0xF6 => Instruction::ZeroPageIdxX(ZeroPageIdxInstruction::ReadModifyWrite(ReadModifyWriteInstruction::Inc)),
        0xF8 => Instruction::AccumImpl(AccumImplInstruction::Internal(InternalInstruction::Sed)),
        0xF9 => Instruction::AbsIdxY(AbsIdxInstruction::Read(ReadInstruction::Sbc)),
        0xFD => Instruction::AbsIdxX(AbsIdxInstruction::Read(ReadInstruction::Sbc)),
        0xFE => Instruction::AbsIdxX(AbsIdxInstruction::ReadModifyWrite(ReadModifyWriteInstruction::Inc)),
        op => Instruction::Invalid(op),
    }
}

impl Cpu {
    /// Decode an opcode byte.
    #[verifier::rlimit(100)]
    pub fn decode(opcode: u8) -> (r: Instruction)
        ensures
            r == spec_decode(opcode),
    {
        match opcode {
        0x00 => Instruction::Stack(StackInstruction::Brk(Interrupt::Brk)),
        0x01 => Instruction::IdxInd(IdxIndInstruction::Read(ReadInstruction::Ora)),
        0x05 => Instruction::ZeroPage(ZeroPageInstruction::Read(ReadInstruction::Ora)),
        0x06 => Instruction::ZeroPage(ZeroPageInstruction::ReadModifyWrite(ReadModifyWriteInstruction::Asl)),
        0x08 => Instruction::Stack(StackInstruction::Php),
        0x09 => Instruction::Imm(ImmInstruction::Read(ReadInstruction::Ora)),
        0x0A => Instruction::AccumImpl(AccumImplInstruction::ReadModifyWrite(ReadModifyWriteInstruction::Asl)),
        0x0D => Instruction::Abs(AbsInstruction::Read(ReadInstruction::Ora)),
        0x0E => Instruction::Abs(AbsInstruction::ReadModifyWrite(ReadModifyWriteInstruction::Asl)),
        0x10 => Instruction::Rel(RelInstruction::Branch(BranchInstruction::Bpl)),
        0x11 => Instruction::IndIdx(IndIdxInstruction::Read(ReadInstruction::Ora)),
        0x15 => Instruction::ZeroPageIdxX(ZeroPageIdxInstruction::Read(ReadInstruction::Ora)),
        0x16 => Instruction::ZeroPageIdxX(ZeroPageIdxInstruction::ReadModifyWrite(ReadModifyWriteInstruction::Asl)),
        0x18 => Instruction::AccumImpl(AccumImplInstruction::Internal(InternalInstruction::Clc)),
        0x19 => Instruction::AbsIdxY(AbsIdxInstruction::Read(ReadInstruction::Ora)),
        0x1D => Instruction::AbsIdxX(AbsIdxInstruction::Read(ReadInstruction::Ora)),
        0x1E => Instruction::AbsIdxX(AbsIdxInstruction::ReadModifyWrite(ReadModifyWriteInstruction::Asl)),
        0x20 => Instruction::Stack(StackInstruction::Jsr),
        0x21 => Instruction::IdxInd(IdxIndInstruction::Read(ReadInstruction::And)),
        0x24 => Instruction::ZeroPage(ZeroPageInstruction::Read(ReadInstruction::Bit)),
        0x25 => Instruction::ZeroPage(ZeroPageInstruction::Read(ReadInstruction::And)),
        0x26 => Instruction::ZeroPage(ZeroPageInstruction::ReadModifyWrite(ReadModifyWriteInstruction::Rol)),
        0x28 => Instruction::Stack(StackInstruction::Plp),
        0x29 => Instruction::Imm(ImmInstruction::Read(ReadInstruction::And)),
        0x2A => Instruction::AccumImpl(AccumImplInstruction::ReadModifyWrite(ReadModifyWriteInstruction::Rol)),
        0x2C => Instruction::Abs(AbsInstruction::Read(ReadInstruction::Bit)),
        0x2D => Instruction::Abs(AbsInstruction::Read(ReadInstruction::And)),
        0x2E => Instruction::Abs(AbsInstruction::ReadModifyWrite(ReadModifyWriteInstruction::Rol)),
        0x30 => Instruction::Rel(RelInstruction::Branch(BranchInstruction::Bmi)),
        0x31 => Instruction::IndIdx(IndIdxInstruction::Read(ReadInstruction::And)),
        0x35 => Instruction::ZeroPageIdxX(ZeroPageIdxInstruction::Read(ReadInstruction::And)),
        0x36 => Instruction::ZeroPageIdxX(ZeroPageIdxInstruction::ReadModifyWrite(ReadModifyWriteInstruction::Rol)),
        0x38 => Instruction::AccumImpl(AccumImplInstruction::Internal(InternalInstruction::Sec)),
        0x39 => Instruction::AbsIdxY(AbsIdxInstruction::Read(ReadInstruction::And)),
        0x3D => Instruction::AbsIdxX(AbsIdxInstruction::Read(ReadInstruction::And)),
        0x3E => Instruction::AbsIdxX(AbsIdxInstruction::ReadModifyWrite(ReadModifyWriteInstruction::Rol)),
        0x40 => Instruction::Stack(StackInstruction::Rti),
        0x41 => Instruction::IdxInd(IdxIndInstruction::Read(ReadInstruction::Eor)),
        0x45 => Instruction::ZeroPage(ZeroPageInstruction::Read(ReadInstruction::Eor)),
        0x46 => Instruction::ZeroPage(ZeroPageInstruction::ReadModifyWrite(ReadModifyWriteInstruction::Lsr)),
        0x48 => Instruction::Stack(StackInstruction::Pha),
        0x49 => Instruction::Imm(ImmInstruction::Read(ReadInstruction::Eor)),
        0x4A => Instruction::AccumImpl(AccumImplInstruction::ReadModifyWrite(ReadModifyWriteInstruction::Lsr)),
        0x4C => Instruction::Abs(AbsInstruction::Jump(JumpInstruction::Jmp)),
        0x4D => Instruction::Abs(AbsInstruction::Read(ReadInstruction::Eor)),
        0x4E => Instruction::Abs(AbsInstruction::ReadModifyWrite(ReadModifyWriteInstruction::Lsr)),
        0x50 => Instruction::Rel(RelInstruction::Branch(BranchInstruction::Bvc)),
        0x51 => Instruction::IndIdx(IndIdxInstruction::Read(ReadInstruction::Eor)),
        0x55 => Instruction::ZeroPageIdxX(ZeroPageIdxInstruction::Read(ReadInstruction::Eor)),
        0x56 => Instruction::ZeroPageIdxX(ZeroPageIdxInstruction::ReadModifyWrite(ReadModifyWriteInstruction::Lsr)),
        0x58 => Instruction::AccumImpl(AccumImplInstruction::Internal(InternalInstruction::Cli)),
        0x59 => Instruction::AbsIdxY(AbsIdxInstruction::Read(ReadInstruction::Eor)),
        0x5D => Instruction::AbsIdxX(AbsIdxInstruction::Read(ReadInstruction::Eor)),
        0x5E => Instruction::AbsIdxX(AbsIdxInstruction::ReadModifyWrite(ReadModifyWriteInstruction::Lsr)),
        0x60 => Instruction::Stack(StackInstruction::Rts),
        0x61 => Instruction::IdxInd(IdxIndInstruction::Read(ReadInstruction::Adc)),
        0x65 => Instruction::ZeroPage(ZeroPageInstruction::Read(ReadInstruction::Adc)),
        0x66 => Instruction::ZeroPage(ZeroPageInstruction::ReadModifyWrite(ReadModifyWriteInstruction::Ror)),
        0x68 => Instruction::Stack(StackInstruction::Pla),
        0x69 => Instruction::Imm(ImmInstruction::Read(ReadInstruction::Adc)),
        0x6A => Instruction::AccumImpl(AccumImplInstruction::ReadModifyWrite(ReadModifyWriteInstruction::Ror)),
        0x6C => Instruction::AbsInd(AbsIndInstruction::Jump(JumpInstruction::Jmp)),
        0x6D => Instruction::Abs(AbsInstruction::Read(ReadInstruction::Adc)),
        0x6E => Instruction::Abs(AbsInstruction::ReadModifyWrite(ReadModifyWriteInstruction::Ror)),
        0x70 => Instruction::Rel(RelInstruction::Branch(BranchInstruction::Bvs)),
        0x71 => Instruction::IndIdx(IndIdxInstruction::Read(ReadInstruction::Adc)),
        0x75 => Instruction::ZeroPageIdxX(ZeroPageIdxInstruction::Read(ReadInstruction::Adc)),
        0x76 => Instruction::ZeroPageIdxX(ZeroPageIdxInstruction::ReadModifyWrite(ReadModifyWriteInstruction::Ror)),
        0x78 => Instruction::AccumImpl(AccumImplInstruction::Internal(InternalInstruction::Sei)),
        0x79 => Instruction::AbsIdxY(AbsIdxInstruction::Read(ReadInstruction::Adc)),
        0x7D => Instruction::AbsIdxX(AbsIdxInstruction::Read(ReadInstruction::Adc)),
        0x7E => Instruction::AbsIdxX(AbsIdxInstruction::ReadModifyWrite(ReadModifyWriteInstruction::Ror)),
        0x81 => Instruction::IdxInd(IdxIndInstruction::Write(WriteInstruction::Sta)),
        0x84 => Instruction::ZeroPage(ZeroPageInstruction::Write(WriteInstruction::Sty)),
        0x85 => Instruction::ZeroPage(ZeroPageInstruction::Write(WriteInstruction::Sta)),
        0x86 => Instruction::ZeroPage(ZeroPageInstruction::Write(WriteInstruction::Stx)),
        0x88 => Instruction::AccumImpl(AccumImplInstruction::Internal(InternalInstruction::Dey)),
        0x8A => Instruction::AccumImpl(AccumImplInstruction::Internal(InternalInstruction::Txa)),
        0x8C => Instruction::Abs(AbsInstruction::Write(WriteInstruction::Sty)),
        0x8D => Instruction::Abs(AbsInstruction::Write(WriteInstruction::Sta)),
        0x8E => Instruction::Abs(AbsInstruction::Write(WriteInstruction::Stx)),
        0x90 => Instruction::Rel(RelInstruction::Branch(BranchInstruction::Bcc)),
        0x91 => Instruction::IndIdx(IndIdxInstruction::Write(WriteInstruction::Sta)),
        0x94 => Instruction::ZeroPageIdxX(ZeroPageIdxInstruction::Write(WriteInstruction::Sty)),
        0x95 => Instruction::ZeroPageIdxX(ZeroPageIdxInstruction::Write(WriteInstruction::Sta)),
        0x96 => Instruction::ZeroPageIdxY(ZeroPageIdxInstruction::Write(WriteInstruction::Stx)),
        0x98 => Instruction::AccumImpl(AccumImplInstruction::Internal(InternalInstruction::Tya)),
        0x99 => Instruction::AbsIdxY(AbsIdxInstruction::Write(WriteInstruction::Sta)),
        0x9A => Instruction::AccumImpl(AccumImplInstruction::Internal(InternalInstruction::Txs)),
        0x9D => Instruction::AbsIdxX(AbsIdxInstruction::Write(WriteInstruction::Sta)),
        0xA0 => Instruction::Imm(ImmInstruction::Read(ReadInstruction::Ldy)),
        0xA1 => Instruction::IdxInd(IdxIndInstruction::Read(ReadInstruction::Lda)),
        0xA2 => Instruction::Imm(ImmInstruction::Read(ReadInstruction::Ldx)),
        0xA4 => Instruction::ZeroPage(ZeroPageInstruction::Read(ReadInstruction::Ldy)),
        0xA5 => Instruction::ZeroPage(ZeroPageInstruction::Read(ReadInstruction::Lda)),
        0xA6 => Instruction::ZeroPage(ZeroPageInstruction::Read(ReadInstruction::Ldx)),
        0xA8 => Instruction::AccumImpl(AccumImplInstruction::Internal(InternalInstruction::Tay)),
        0xA9 => Instruction::Imm(ImmInstruction::Read(ReadInstruction::Lda)),
        0xAA => Instruction::AccumImpl(AccumImplInstruction::Internal(InternalInstruction::Tax)),
        0xAC => Instruction::Abs(AbsInstruction::Read(ReadInstruction::Ldy)),
        0xAD => Instruction::Abs(AbsInstruction::Read(ReadInstruction::Lda)),
        0xAE => Instruction::Abs(AbsInstruction::Read(ReadInstruction::Ldx)),
        0xB0 => Instruction::Rel(RelInstruction::Branch(BranchInstruction::Bcs)),
        0xB1 => Instruction::IndIdx(IndIdxInstruction::Read(ReadInstruction::Lda)),
        0xB4 => Instruction::ZeroPageIdxX(ZeroPageIdxInstruction::Read(ReadInstruction::Ldy)),
        0xB5 => Instruction::ZeroPageIdxX(ZeroPageIdxInstruction::Read(ReadInstruction::Lda)),
        0xB6 => Instruction::ZeroPageIdxY(ZeroPageIdxInstruction::Read(ReadInstruction::Ldx)),
        0xB8 => Instruction::AccumImpl(AccumImplInstruction::Internal(InternalInstruction::Clv)),
        0xB9 => Instruction::AbsIdxY(AbsIdxInstruction::Read(ReadInstruction::Lda)),
        0xBA => Instruction::AccumImpl(AccumImplInstruction::Internal(InternalInstruction::Tsx)),
        0xBC => Instruction::AbsIdxX(AbsIdxInstruction::Read(ReadInstruction::Ldy)),
        0xBD => Instruction::AbsIdxX(AbsIdxInstruction::Read(ReadInstruction::Lda)),
        0xBE => Instruction::AbsIdxY(AbsIdxInstruction::Read(ReadInstruction::Ldx)),
        0xC0 => Instruction::Imm(ImmInstruction::Read(ReadInstruction::Cpy)),
        0xC1 => Instruction::IdxInd(IdxIndInstruction::Read(ReadInstruction::Cmp)),
        0xC4 => Instruction::ZeroPage(ZeroPageInstruction::Read(ReadInstruction::Cpy)),
        0xC5 => Instruction::ZeroPage(ZeroPageInstruction::Read(ReadInstruction::Cmp)),
        0xC6 => Instruction::ZeroPage(ZeroPageInstruction::ReadModifyWrite(ReadModifyWriteInstruction::Dec)),
        0xC8 => Instruction::AccumImpl(AccumImplInstruction::Internal(InternalInstruction::Iny)),
        0xC9 => Instruction::Imm(ImmInstruction::Read(ReadInstruction::Cmp)),
        0xCA => Instruction::AccumImpl(AccumImplInstruction::Internal(InternalInstruction::Dex)),
        0xCC => Instruction::Abs(AbsInstruction::Read(ReadInstruction::Cpy)),
        0xCD => Instruction::Abs(AbsInstruction::Read(ReadInstruction::Cmp)),
        0xCE => Instruction::Abs(AbsInstruction::ReadModifyWrite(ReadModifyWriteInstruction::Dec)),
        0xD0 => Instruction::Rel(RelInstruction::Branch(BranchInstruction::Bne)),
        0xD1 => Instruction::IndIdx(IndIdxInstruction::Read(ReadInstruction::Cmp)),
        0xD5 => Instruction::ZeroPageIdxX(ZeroPageIdxInstruction::Read(ReadInstruction::Cmp)),
        0xD6 => Instruction::ZeroPageIdxX(ZeroPageIdxInstruction::ReadModifyWrite(ReadModifyWriteInstruction::Dec)),
        0xD8 => Instruction::AccumImpl(AccumImplInstruction::Internal(InternalInstruction::Cld)),
        0xD9 => Instruction::AbsIdxY(AbsIdxInstruction::Read(ReadInstruction::Cmp)),
        0xDD => Instruction::AbsIdxX(AbsIdxInstruction::Read(ReadInstruction::Cmp)),
        0xDE => Instruction::AbsIdxX(AbsIdxInstruction::ReadModifyWrite(ReadModifyWriteInstruction::Dec)),
        0xE0 => Instruction::Imm(ImmInstruction::Read(ReadInstruction::Cpx)),
        0xE1 => Instruction::IdxInd(IdxIndInstruction::Read(ReadInstruction::Sbc)),
        0xE4 => Instruction::ZeroPage(ZeroPageInstruction::Read(ReadInstruction::Cpx)),
        0xE5 => Instruction::ZeroPage(ZeroPageInstruction::Read(ReadInstruction::Sbc)),
        0xE6 => Instruction::ZeroPage(ZeroPageInstruction::ReadModifyWrite(ReadModifyWriteInstruction::Inc)),
        0xE8 => Instruction::AccumImpl(AccumImplInstruction::Internal(InternalInstruction::Inx)),
        0xE9 => Instruction::Imm(ImmInstruction::Read(ReadInstruction::Sbc)),
        0xEA => Instruction::AccumImpl(AccumImplInstruction::Internal(InternalInstruction::Nop)),
        0xEC => Instruction::Abs(AbsInstruction::Read(ReadInstruction::Cpx)),
        0xED => Instruction::Abs(AbsInstruction::Read(ReadInstruction::Sbc)),
        0xEE => Instruction::Abs(AbsInstruction::ReadModifyWrite(ReadModifyWriteInstruction::Inc)),
        0xF0 => Instruction::Rel(RelInstruction::Branch(BranchInstruction::Beq)),
        0xF1 => Instruction::IndIdx(IndIdxInstruction::Read(ReadInstruction::Sbc)),
        0xF5 => Instruction::ZeroPageIdxX(ZeroPageIdxInstruction::Read(ReadInstruction::Sbc)),
        0xF6 => Instruction::ZeroPageIdxX(ZeroPageIdxInstruction::ReadModifyWrite(ReadModifyWriteInstruction::Inc)),
        0xF8 => Instruction::AccumImpl(AccumImplInstruction::Internal(InternalInstruction::Sed)),
        0xF9 => Instruction::AbsIdxY(AbsIdxInstruction::Read(ReadInstruction::Sbc)),
        0xFD => Instruction::AbsIdxX(AbsIdxInstruction::Read(ReadInstruction::Sbc)),
        0xFE => Instruction::AbsIdxX(AbsIdxInstruction::ReadModifyWrite(ReadModifyWriteInstruction::Inc)),
        op => Instruction::Invalid(op),
        }
    }
}

} // verus!
