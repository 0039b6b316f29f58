//! The properties the core promises, stated and proved over the
//! specification functions the executable code is verified against.
//!
//! Each proof function here is part of the library's contract: its
//! statement is the property, and Verus checks it against the same
//! specification `clock` is proved to implement.

use vstd::prelude::*;

use crate::bus::BusEvent;
use crate::cpu::{
    spec_branch_target, spec_clock, spec_dec8, spec_hi, spec_inc16, spec_inc8, spec_lo,
    spec_mk16, spec_stack_addr, spec_zp_add, Cpu,
};
use crate::decode::spec_decode;
use crate::flags::{spec_pack, spec_unpack, Flags};
use crate::instruction::{
    spec_branch_taken, spec_read_exec, spec_rmw_flags, spec_rmw_val, AbsIdxInstruction, AbsInstruction,
    BranchInstruction, IdxIndInstruction, Instruction, Interrupt, ReadInstruction,
    ReadModifyWriteInstruction, RelInstruction, StackInstruction, ZeroPageIdxInstruction,
    ZeroPageInstruction,
};

verus! {

/// Flag packing round-trip: unpacking a packed status recovers every
/// flag exactly, whatever value the B bit was pushed with; bit 5 of
/// the packed byte is always 1 and bit 4 is the value given.
pub proof fn lemma_flag_pack_round_trip(p: Flags, b: bool)
    ensures
        spec_unpack(spec_pack(p, b)) == p,
        spec_pack(p, b) / 32 % 2 == 1,
        spec_pack(p, b) / 16 % 2 == (if b { 1int } else { 0int }),
{
}

/// Bits 4 and 5 of a status byte do not influence the state recovered
/// from it: two bytes that agree everywhere else unpack identically.
pub proof fn lemma_unpack_ignores_bits_4_5(v: u8, w: u8)
    requires
        v % 16 == w % 16,
        v / 64 == w / 64,
    ensures
        spec_unpack(v) == spec_unpack(w),
{
    assert((v % 16 == w % 16 && v / 64 == w / 64) ==> (v / 128 % 2 == w / 128 % 2 && v / 64 % 2
        == w / 64 % 2 && v / 8 % 2 == w / 8 % 2 && v / 4 % 2 == w / 4 % 2 && v / 2 % 2 == w / 2
        % 2 && v % 2 == w % 2)) by (bit_vector);
}

/// ADC/SBC inversion in binary mode: adding a byte with carry clear
/// and then subtracting the same byte with carry set returns the
/// accumulator to its original value, with N and Z reflecting it.
/// (Carry and overflow are not claimed to round-trip.)
pub proof fn lemma_adc_sbc_inverse(c: Cpu, m: u8)
    requires
        !c.p.d,
        !c.p.c,
    ensures
        ({
            let c1 = spec_read_exec(ReadInstruction::Adc, c, m);
            let c2 = spec_read_exec(
                ReadInstruction::Sbc,
                Cpu { p: Flags { c: true, ..c1.p }, ..c1 },
                m,
            );
            c2.a == c.a && c2.p.z == (c.a == 0) && c2.p.n == (c.a >= 128)
        }),
{
    let c1 = spec_read_exec(ReadInstruction::Adc, c, m);
    assert(c1.a == (c.a + m) % 256);
    let c2 = spec_read_exec(
        ReadInstruction::Sbc,
        Cpu { p: Flags { c: true, ..c1.p }, ..c1 },
        m,
    );
    assert(c2.a == (c1.a + (255 - m) + 1) % 256);
    assert(((c.a + m) % 256 + (255 - m) + 1) % 256 == c.a as int % 256) by (nonlinear_arith);
    assert(c.a as int % 256 == c.a);
}

/// A dispatched micro-step that completes its instruction emits a
/// read of the new program counter.
proof fn lemma_dispatch_fetches_next(c: Cpu, addr: u16, data: u8)
    ensures
        ({
            let (post, ev) = crate::cpu::spec_dispatch(c, addr, data);
            (post.step == 0 && !post.halted) ==> ev == BusEvent::Read(post.pc)
        }),
{
    match c.inst {
        Instruction::Stack(sk) => {
            assert(({
                let (post, ev) = crate::cpu::spec_dispatch_stack(c, addr, data, sk);
                (post.step == 0 && !post.halted) ==> ev == BusEvent::Read(post.pc)
            }));
        },
        Instruction::Abs(ak) => {
            assert(({
                let (post, ev) = crate::cpu::spec_dispatch_abs(c, addr, data, ak);
                (post.step == 0 && !post.halted) ==> ev == BusEvent::Read(post.pc)
            }));
        },
        Instruction::ZeroPage(zk) => {
            assert(({
                let (post, ev) = crate::cpu::spec_dispatch_zp(c, addr, data, zk);
                (post.step == 0 && !post.halted) ==> ev == BusEvent::Read(post.pc)
            }));
        },
        Instruction::ZeroPageIdxX(zk) => {
            assert(({
                let (post, ev) = crate::cpu::spec_dispatch_zpx(c, addr, data, zk);
                (post.step == 0 && !post.halted) ==> ev == BusEvent::Read(post.pc)
            }));
        },
        Instruction::ZeroPageIdxY(zk) => {
            assert(({
                let (post, ev) = crate::cpu::spec_dispatch_zpy(c, addr, data, zk);
                (post.step == 0 && !post.halted) ==> ev == BusEvent::Read(post.pc)
            }));
        },
        Instruction::AbsIdxX(ak) => {
            assert(({
                let (post, ev) = crate::cpu::spec_dispatch_absx(c, addr, data, ak);
                (post.step == 0 && !post.halted) ==> ev == BusEvent::Read(post.pc)
            }));
        },
        Instruction::AbsIdxY(ak) => {
            assert(({
                let (post, ev) = crate::cpu::spec_dispatch_absy(c, addr, data, ak);
                (post.step == 0 && !post.halted) ==> ev == BusEvent::Read(post.pc)
            }));
        },
        Instruction::IdxInd(ik) => {
            assert(({
                let (post, ev) = crate::cpu::spec_dispatch_idxind(c, addr, data, ik);
                (post.step == 0 && !post.halted) ==> ev == BusEvent::Read(post.pc)
            }));
        },
        Instruction::IndIdx(ik) => {
            assert(({
                let (post, ev) = crate::cpu::spec_dispatch_indidx(c, addr, data, ik);
                (post.step == 0 && !post.halted) ==> ev == BusEvent::Read(post.pc)
            }));
        },
        _ => {},
    }
}

/// After any cycle on which an instruction completes (the micro-step
/// returns to zero) without the core halting, the emitted transaction
/// is a read of the new program counter, so the next cycle naturally
/// fetches the next opcode.
pub proof fn lemma_completed_instruction_fetches_next(pre: Cpu, addr: u16, data: u8)
    requires
        !pre.halted,
        pre.step >= 1,
    ensures
        ({
            let (post, ev) = spec_clock(pre, addr, data);
            (post.step == 0 && !post.halted) ==> ev == BusEvent::Read(post.pc)
        }),
{
    if pre.step < 8 {
        let c1 = Cpu { step: (pre.step + 1) as u8, ..pre };
        lemma_dispatch_fetches_next(c1, addr, data);
    }
}

/// Indirect-JMP page wrap: running `JMP (ptr)` fetches the high byte
/// of the target from the same page as the low byte — the low address
/// byte increments modulo 256 and the carry is discarded — and the new
/// program counter assembles from exactly those two fetches.
pub proof fn lemma_indirect_jmp_wrap(c0: Cpu, a0: u16, al: u8, ah: u8, tl: u8, th: u8)
    requires
        !c0.halted,
        c0.step == 0,
        !c0.rst,
        !c0.nmi,
        !c0.irq,
    ensures
        ({
            let pc1 = spec_inc16(c0.pc);
            let pc2 = spec_inc16(pc1);
            let ptr = spec_mk16(ah, al);
            let (c1, e1) = spec_clock(c0, a0, 0x6C);
            let (c2, e2) = spec_clock(c1, pc1, al);
            let (c3, e3) = spec_clock(c2, pc2, ah);
            let (c4, e4) = spec_clock(c3, ptr, tl);
            let (c5, e5) = spec_clock(c4, spec_mk16(ah, spec_inc8(al)), th);
            e3 == BusEvent::Read(ptr) && e4 == BusEvent::Read(spec_mk16(ah, spec_inc8(al)))
                && c5.pc == spec_mk16(th, tl) && c5.step == 0 && e5 == BusEvent::Read(c5.pc)
        }),
{
}

/// Interrupt priority and accounting: with RST latched at an
/// instruction boundary — whatever NMI and IRQ are doing — the reset
/// sequence is the one serviced.  Its seven cycles emit only reads
/// (memory is untouched), the stack pointer still decrements three
/// times, I is forced on, the RST latch alone is cleared, and the core
/// resumes fetching at the reset vector.
pub proof fn lemma_interrupt_priority(
    c0: Cpu,
    a0: u16,
    d0: u8,
    a2: u16,
    d2: u8,
    a3: u16,
    d3: u8,
    a4: u16,
    d4: u8,
    d5: u8,
    vl: u8,
    vh: u8,
)
    requires
        !c0.halted,
        c0.step == 0,
        c0.rst,
    ensures
        ({
            let (c1, e1) = spec_clock(c0, a0, d0);
            let (c2, e2) = spec_clock(c1, a2, d2);
            let (c3, e3) = spec_clock(c2, a3, d3);
            let (c4, e4) = spec_clock(c3, a4, d4);
            let (c5, e5) = spec_clock(c4, spec_stack_addr(spec_dec8(spec_dec8(spec_dec8(c0.s)))), d5);
            let (c6, e6) = spec_clock(c5, 0xFFFC, vl);
            let (c7, e7) = spec_clock(c6, 0xFFFD, vh);
            c1.inst == Instruction::Stack(StackInstruction::Brk(Interrupt::Rst))
                && e2 == BusEvent::Read(spec_stack_addr(c0.s))
                && e3 == BusEvent::Read(spec_stack_addr(spec_dec8(c0.s)))
                && e4 == BusEvent::Read(spec_stack_addr(spec_dec8(spec_dec8(c0.s))))
                && e5 == BusEvent::Read(0xFFFC) && e6 == BusEvent::Read(0xFFFD)
                && c7.s == spec_dec8(spec_dec8(spec_dec8(c0.s))) && c7.p.i && !c7.rst
                && c7.nmi == c0.nmi && c7.pc == spec_mk16(vh, vl) && c7.step == 0
                && e7 == BusEvent::Read(spec_mk16(vh, vl))
        }),
{
}

/// Branch cycle count: a relative branch costs two cycles when not
/// taken, three when taken within the page, and four when the target
/// lies across a page boundary.  The count is read off the micro-step
/// returning to zero.
pub proof fn lemma_branch_cycle_count(
    c0: Cpu,
    a0: u16,
    op: u8,
    bk: BranchInstruction,
    disp: u8,
    d2: u8,
    d3: u8,
)
    requires
        !c0.halted,
        c0.step == 0,
        !c0.rst,
        !c0.nmi,
        !c0.irq,
        spec_decode(op) == Instruction::Rel(RelInstruction::Branch(bk)),
    ensures
        ({
            let pc1 = spec_inc16(c0.pc);
            let pc2 = spec_inc16(pc1);
            let (c1, e1) = spec_clock(c0, a0, op);
            let (c2, e2) = spec_clock(c1, pc1, disp);
            if !spec_branch_taken(bk, c0.p) {
                c2.step == 0 && c2.pc == pc2 && e2 == BusEvent::Read(pc2)
            } else {
                let npc = spec_branch_target(pc2, disp);
                c2.pc == npc && c2.step != 0 && e2 == BusEvent::Read(npc) && ({
                    let (c3, e3) = spec_clock(c2, npc, d2);
                    if spec_hi(npc) == spec_hi(pc2) {
                        c3.step == 0 && c3.pc == npc
                    } else {
                        c3.step != 0 && ({
                            let (c4, e4) = spec_clock(c3, npc, d3);
                            c4.step == 0 && c4.pc == npc
                        })
                    }
                })
            }
        }),
{
}

/// Read-modify-write double touch, absolute form: the instruction
/// reads its target exactly once and then writes it twice, first the
/// unmodified byte and then the rewritten byte, and the flags end up
/// reflecting the rewrite.
pub proof fn lemma_rmw_double_touch_abs(
    c0: Cpu,
    a0: u16,
    op: u8,
    mk: ReadModifyWriteInstruction,
    al: u8,
    ah: u8,
    v: u8,
    d5: u8,
)
    requires
        !c0.halted,
        c0.step == 0,
        !c0.rst,
        !c0.nmi,
        !c0.irq,
        spec_decode(op) == Instruction::Abs(AbsInstruction::ReadModifyWrite(mk)),
    ensures
        ({
            let pc1 = spec_inc16(c0.pc);
            let pc2 = spec_inc16(pc1);
            let tgt = spec_mk16(ah, al);
            let (c1, e1) = spec_clock(c0, a0, op);
            let (c2, e2) = spec_clock(c1, pc1, al);
            let (c3, e3) = spec_clock(c2, pc2, ah);
            let (c4, e4) = spec_clock(c3, tgt, v);
            let (c5, e5) = spec_clock(c4, tgt, v);
            let (c6, e6) = spec_clock(c5, tgt, d5);
            e1 == BusEvent::Read(pc1) && e2 == BusEvent::Read(pc2) && e3 == BusEvent::Read(tgt)
                && e4 == BusEvent::Write(tgt, v)
                && e5 == BusEvent::Write(tgt, spec_rmw_val(mk, c0.p, v)) && c6.step == 0
                && c6.p == spec_rmw_flags(mk, c0.p, v) && e6 == BusEvent::Read(c6.pc)
        }),
{
}

/// Read-modify-write double touch and zero-page containment,
/// zero-page form: every operand access lands at the one-byte operand
/// address, below 0x100, and the read is followed by the dummy write
/// of the original byte and the write of the rewritten byte.
pub proof fn lemma_rmw_double_touch_zp(
    c0: Cpu,
    a0: u16,
    op: u8,
    mk: ReadModifyWriteInstruction,
    zp: u8,
    v: u8,
    d4: u8,
)
    requires
        !c0.halted,
        c0.step == 0,
        !c0.rst,
        !c0.nmi,
        !c0.irq,
        spec_decode(op) == Instruction::ZeroPage(ZeroPageInstruction::ReadModifyWrite(mk)),
    ensures
        ({
            let pc1 = spec_inc16(c0.pc);
            let tgt = zp as u16;
            let (c1, e1) = spec_clock(c0, a0, op);
            let (c2, e2) = spec_clock(c1, pc1, zp);
            let (c3, e3) = spec_clock(c2, tgt, v);
            let (c4, e4) = spec_clock(c3, tgt, v);
            let (c5, e5) = spec_clock(c4, tgt, d4);
            tgt < 0x100 && e2 == BusEvent::Read(tgt) && e3 == BusEvent::Write(tgt, v)
                && e4 == BusEvent::Write(tgt, spec_rmw_val(mk, c0.p, v)) && c5.step == 0
                && c5.p == spec_rmw_flags(mk, c0.p, v) && e5 == BusEvent::Read(c5.pc)
        }),
{
}

/// Read-modify-write double touch, zero-page,X form: after the base
/// fetch and the indexed read — both contained in page 0 — the target
/// cell sees the dummy write of its original byte and then the
/// rewritten byte, at the same indexed address.
pub proof fn lemma_rmw_double_touch_zpx(
    c0: Cpu,
    a0: u16,
    op: u8,
    mk: ReadModifyWriteInstruction,
    zp: u8,
    d2: u8,
    v: u8,
    d5: u8,
)
    requires
        !c0.halted,
        c0.step == 0,
        !c0.rst,
        !c0.nmi,
        !c0.irq,
        spec_decode(op) == Instruction::ZeroPageIdxX(
            ZeroPageIdxInstruction::ReadModifyWrite(mk),
        ),
    ensures
        ({
            let pc1 = spec_inc16(c0.pc);
            let tgt = spec_zp_add(zp as u16, c0.x);
            let (c1, e1) = spec_clock(c0, a0, op);
            let (c2, e2) = spec_clock(c1, pc1, zp);
            let (c3, e3) = spec_clock(c2, zp as u16, d2);
            let (c4, e4) = spec_clock(c3, tgt, v);
            let (c5, e5) = spec_clock(c4, tgt, v);
            let (c6, e6) = spec_clock(c5, tgt, d5);
            tgt < 0x100 && e2 == BusEvent::Read(zp as u16) && e3 == BusEvent::Read(tgt)
                && e4 == BusEvent::Write(tgt, v)
                && e5 == BusEvent::Write(tgt, spec_rmw_val(mk, c0.p, v)) && c6.step == 0
                && c6.p == spec_rmw_flags(mk, c0.p, v) && e6 == BusEvent::Read(c6.pc)
        }),
{
}

/// Read-modify-write double touch, absolute,X form: the effective
/// address, index carry included, is read (twice: the fix-up cycle is
/// always taken and repeats the access), then written twice — first
/// the unmodified byte, then the rewrite.
pub proof fn lemma_rmw_double_touch_absx(
    c0: Cpu,
    a0: u16,
    op: u8,
    mk: ReadModifyWriteInstruction,
    al: u8,
    ah: u8,
    d3: u8,
    v: u8,
    d6: u8,
)
    requires
        !c0.halted,
        c0.step == 0,
        !c0.rst,
        !c0.nmi,
        !c0.irq,
        spec_decode(op) == Instruction::AbsIdxX(AbsIdxInstruction::ReadModifyWrite(mk)),
    ensures
        ({
            let pc1 = spec_inc16(c0.pc);
            let pc2 = spec_inc16(pc1);
            let tgt = crate::cpu::spec_add16(spec_mk16(ah, al), c0.x as u16);
            let (c1, e1) = spec_clock(c0, a0, op);
            let (c2, e2) = spec_clock(c1, pc1, al);
            let (c3, e3) = spec_clock(c2, pc2, ah);
            let (c4, e4) = spec_clock(c3, tgt, d3);
            let (c5, e5) = spec_clock(c4, tgt, v);
            let (c6, e6) = spec_clock(c5, tgt, v);
            let (c7, e7) = spec_clock(c6, tgt, d6);
            e3 == BusEvent::Read(tgt) && e4 == BusEvent::Read(tgt)
                && e5 == BusEvent::Write(tgt, v)
                && e6 == BusEvent::Write(tgt, spec_rmw_val(mk, c0.p, v)) && c7.step == 0
                && c7.p == spec_rmw_flags(mk, c0.p, v) && e7 == BusEvent::Read(c7.pc)
        }),
{
}

/// Zero-page containment, indexed form: both the base access and the
/// indexed access of a zero-page,X or zero-page,Y read stay below
/// 0x100 — the carry of the index add is discarded.
pub proof fn lemma_zero_page_containment_idx(
    c0: Cpu,
    a0: u16,
    op: u8,
    rk: ReadInstruction,
    zp: u8,
    d2: u8,
    v: u8,
)
    requires
        !c0.halted,
        c0.step == 0,
        !c0.rst,
        !c0.nmi,
        !c0.irq,
        spec_decode(op) == Instruction::ZeroPageIdxX(ZeroPageIdxInstruction::Read(rk))
            || spec_decode(op) == Instruction::ZeroPageIdxY(ZeroPageIdxInstruction::Read(rk)),
    ensures
        ({
            let pc1 = spec_inc16(c0.pc);
            let idx = if spec_decode(op) == Instruction::ZeroPageIdxX(
                ZeroPageIdxInstruction::Read(rk),
            ) {
                c0.x
            } else {
                c0.y
            };
            let (c1, e1) = spec_clock(c0, a0, op);
            let (c2, e2) = spec_clock(c1, pc1, zp);
            let (c3, e3) = spec_clock(c2, zp as u16, d2);
            let (c4, e4) = spec_clock(c3, spec_zp_add(zp as u16, idx), v);
            e2 == BusEvent::Read(zp as u16) && (zp as u16) < 0x100
                && e3 == BusEvent::Read(spec_zp_add(zp as u16, idx))
                && spec_zp_add(zp as u16, idx) < 0x100 && c4.step == 0
        }),
{
}

/// Zero-page containment, (indirect,X) form: all three pointer
/// accesses — the base fetch and the two pointer bytes at base+X and
/// base+X+1 — stay below 0x100; the carry of each add is discarded.
pub proof fn lemma_zero_page_containment_idxind(
    c0: Cpu,
    a0: u16,
    op: u8,
    rk: ReadInstruction,
    zp: u8,
    d2: u8,
    ptl: u8,
    pth: u8,
    v: u8,
)
    requires
        !c0.halted,
        c0.step == 0,
        !c0.rst,
        !c0.nmi,
        !c0.irq,
        spec_decode(op) == Instruction::IdxInd(IdxIndInstruction::Read(rk)),
    ensures
        ({
            let pc1 = spec_inc16(c0.pc);
            let p1 = spec_zp_add(zp as u16, c0.x);
            let p2 = spec_zp_add(p1, 1);
            let (c1, e1) = spec_clock(c0, a0, op);
            let (c2, e2) = spec_clock(c1, pc1, zp);
            let (c3, e3) = spec_clock(c2, zp as u16, d2);
            let (c4, e4) = spec_clock(c3, p1, ptl);
            let (c5, e5) = spec_clock(c4, p2, pth);
            e2 == BusEvent::Read(zp as u16) && (zp as u16) < 0x100 && e3 == BusEvent::Read(p1)
                && p1 < 0x100 && e4 == BusEvent::Read(p2) && p2 < 0x100
                && e5 == BusEvent::Read(spec_mk16(pth, ptl))
        }),
{
}

/// Stack discipline, accumulator: PHA writes the accumulator at the
/// stack cell and PLA, run next, reads back from that same cell; with
/// the memory faithfully returning the byte the push stored, the
/// accumulator and the stack pointer both return to their pre-push
/// values.
pub proof fn lemma_push_pull_accumulator(c0: Cpu, a0: u16, d2: u8, a3: u16, d3: u8, d5: u8)
    requires
        !c0.halted,
        c0.step == 0,
        !c0.rst,
        !c0.nmi,
        !c0.irq,
    ensures
        ({
            let (c1, e1) = spec_clock(c0, a0, 0x48);
            let (c2, e2) = spec_clock(c1, spec_inc16(c0.pc), d2);
            let (c3, e3) = spec_clock(c2, a3, d3);
            // PHA done: the accumulator went to the stack cell at S.
            let (c4, e4) = spec_clock(c3, c3.pc, 0x68);
            let (c5, e5) = spec_clock(c4, spec_inc16(c3.pc), d5);
            let (c6, e6) = spec_clock(c5, spec_stack_addr(spec_dec8(c0.s)), d5);
            // The pull reads the very cell the push wrote.
            let (c7, e7) = spec_clock(c6, spec_stack_addr(c0.s), c0.a);
            e2 == BusEvent::Write(spec_stack_addr(c0.s), c0.a) && c3.step == 0
                && c3.s == spec_dec8(c0.s) && e6 == BusEvent::Read(spec_stack_addr(c0.s))
                && c7.a == c0.a && c7.s == c0.s && c7.step == 0 && c7.p.z == (c0.a == 0)
                && c7.p.n == (c0.a >= 128)
        }),
{
}

/// Stack discipline across a subroutine call: JSR pushes the return
/// address high byte then low byte, and RTS, with the memory
/// faithfully returning those bytes from the same cells, restores the
/// stack pointer and resumes at the instruction after the call.
pub proof fn lemma_jsr_rts_round_trip(
    c0: Cpu,
    a0: u16,
    al: u8,
    ah: u8,
    d2: u8,
    d7: u8,
    d8: u8,
)
    requires
        !c0.halted,
        c0.step == 0,
        !c0.rst,
        !c0.nmi,
        !c0.irq,
    ensures
        ({
            let pc1 = spec_inc16(c0.pc);
            let pc2 = spec_inc16(pc1);
            let tgt = spec_mk16(ah, al);
            let (c1, e1) = spec_clock(c0, a0, 0x20);
            let (c2, e2) = spec_clock(c1, pc1, al);
            let (c3, e3) = spec_clock(c2, spec_stack_addr(c0.s), d2);
            let (c4, e4) = spec_clock(c3, spec_stack_addr(c0.s), d2);
            let (c5, e5) = spec_clock(c4, spec_stack_addr(spec_dec8(c0.s)), d2);
            let (c6, e6) = spec_clock(c5, pc2, ah);
            // JSR done; the return address sits at S and S-1.  RTS:
            let (c7, e7) = spec_clock(c6, tgt, 0x60);
            let (c8, e8) = spec_clock(c7, spec_inc16(tgt), d7);
            let (c9, e9) = spec_clock(c8, spec_stack_addr(c6.s), d8);
            let (c10, e10) = spec_clock(c9, spec_stack_addr(spec_dec8(c0.s)), spec_lo(pc2));
            let (c11, e11) = spec_clock(c10, spec_stack_addr(c0.s), spec_hi(pc2));
            let (c12, e12) = spec_clock(c11, pc2, d7);
            e3 == BusEvent::Write(spec_stack_addr(c0.s), spec_hi(pc2))
                && e4 == BusEvent::Write(spec_stack_addr(spec_dec8(c0.s)), spec_lo(pc2))
                && c6.pc == tgt && c6.s == spec_dec8(spec_dec8(c0.s))
                && e9 == BusEvent::Read(spec_stack_addr(spec_dec8(c0.s)))
                && e10 == BusEvent::Read(spec_stack_addr(c0.s)) && c12.s == c0.s
                && c12.pc == spec_inc16(pc2) && c12.step == 0
        }),
{
    let pc1 = spec_inc16(c0.pc);
    let pc2 = spec_inc16(pc1);
    assert(spec_mk16(spec_hi(pc2), spec_lo(pc2)) == pc2);
    assert(spec_inc8(spec_dec8(spec_dec8(c0.s))) == spec_dec8(c0.s));
    assert(spec_inc8(spec_dec8(c0.s)) == c0.s);
}

/// Stack discipline across an interrupt: the BRK frame pushes the
/// return address and the status, and RTI, with the memory faithfully
/// returning those three bytes, restores the stack pointer, every
/// flag (bits 5 and 4 of the pushed byte carry no state, and the I
/// bit was pushed before being forced on), and the interrupted
/// program counter.
#[verifier::rlimit(100)]
pub proof fn lemma_brk_rti_round_trip(
    c0: Cpu,
    a0: u16,
    d1: u8,
    vl: u8,
    vh: u8,
    d8: u8,
)
    requires
        !c0.halted,
        c0.step == 0,
        !c0.rst,
        !c0.nmi,
        !c0.irq,
    ensures
        ({
            let pc1 = spec_inc16(c0.pc);
            let pc2 = spec_inc16(pc1);
            let vec = spec_mk16(vh, vl);
            let (c1, e1) = spec_clock(c0, a0, 0x00);
            let (c2, e2) = spec_clock(c1, pc1, d1);
            let (c3, e3) = spec_clock(c2, spec_stack_addr(c0.s), spec_hi(pc2));
            let (c4, e4) = spec_clock(c3, spec_stack_addr(spec_dec8(c0.s)), spec_lo(pc2));
            let (c5, e5) = spec_clock(
                c4,
                spec_stack_addr(spec_dec8(spec_dec8(c0.s))),
                spec_pack(c0.p, true),
            );
            let (c6, e6) = spec_clock(c5, 0xFFFE, vl);
            let (c7, e7) = spec_clock(c6, 0xFFFF, vh);
            // BRK frame done; the handler returns at once.  RTI:
            let (c8, e8) = spec_clock(c7, vec, 0x40);
            let (c9, e9) = spec_clock(c8, spec_inc16(vec), d8);
            let (c10, e10) = spec_clock(c9, spec_stack_addr(c7.s), d8);
            let (c11, e11) = spec_clock(
                c10,
                spec_stack_addr(spec_dec8(spec_dec8(c0.s))),
                spec_pack(c0.p, true),
            );
            let (c12, e12) = spec_clock(c11, spec_stack_addr(spec_dec8(c0.s)), spec_lo(pc2));
            let (c13, e13) = spec_clock(c12, spec_stack_addr(c0.s), spec_hi(pc2));
            e2 == BusEvent::Write(spec_stack_addr(c0.s), spec_hi(pc2))
                && e3 == BusEvent::Write(spec_stack_addr(spec_dec8(c0.s)), spec_lo(pc2))
                && e4 == BusEvent::Write(
                spec_stack_addr(spec_dec8(spec_dec8(c0.s))),
                spec_pack(c0.p, true),
            ) && c7.pc == vec && c7.p.i && c13.s == c0.s && c13.p == c0.p && c13.pc == pc2
                && c13.step == 0
        }),
{
    let pc1 = spec_inc16(c0.pc);
    let pc2 = spec_inc16(pc1);
    lemma_flag_pack_round_trip(c0.p, true);
    assert(spec_mk16(spec_hi(pc2), spec_lo(pc2)) == pc2);
    assert(spec_inc8(spec_dec8(spec_dec8(spec_dec8(c0.s)))) == spec_dec8(spec_dec8(c0.s)));
    assert(spec_inc8(spec_dec8(spec_dec8(c0.s))) == spec_dec8(c0.s));
    assert(spec_inc8(spec_dec8(c0.s)) == c0.s);
}

/// Stack discipline, status word: PHP pushes the packed status (B
/// asserted in the byte, bit 5 set) and PLP, run next, pulls from the
/// same cell; with the memory faithfully returning the pushed byte,
/// every flag returns to its pre-push value — bits 4 and 5 of the
/// byte carry no state.
pub proof fn lemma_push_pull_status(c0: Cpu, a0: u16, d2: u8, a3: u16, d3: u8, d5: u8)
    requires
        !c0.halted,
        c0.step == 0,
        !c0.rst,
        !c0.nmi,
        !c0.irq,
    ensures
        ({
            let (c1, e1) = spec_clock(c0, a0, 0x08);
            let (c2, e2) = spec_clock(c1, spec_inc16(c0.pc), d2);
            let (c3, e3) = spec_clock(c2, a3, d3);
            let (c4, e4) = spec_clock(c3, c3.pc, 0x28);
            let (c5, e5) = spec_clock(c4, spec_inc16(c3.pc), d5);
            let (c6, e6) = spec_clock(c5, spec_stack_addr(spec_dec8(c0.s)), d5);
            let (c7, e7) = spec_clock(c6, spec_stack_addr(c0.s), spec_pack(c0.p, true));
            e2 == BusEvent::Write(spec_stack_addr(c0.s), spec_pack(c0.p, true))
                && e6 == BusEvent::Read(spec_stack_addr(c0.s)) && c7.p == c0.p && c7.s == c0.s
                && c7.step == 0
        }),
{
    lemma_flag_pack_round_trip(c0.p, true);
}

} // verus!
