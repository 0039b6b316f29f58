//! Unit checks: the opcode map, flag packing, the decimal-mode
//! arithmetic, and the pin record.

use mos6502::bus::BusEvent;
use mos6502::cpu::Cpu;
use mos6502::flags::Flags;
use mos6502::instruction::{
    AbsIdxInstruction, AbsInstruction, AccumImplInstruction, ImmInstruction, Instruction,
    InternalInstruction, Interrupt, ReadInstruction, ReadModifyWriteInstruction,
    StackInstruction, ZeroPageIdxInstruction,
};
use mos6502::pins::Pins;

fn boot(mem: &Vec<u8>, start: u16) -> (Cpu, u16, u8) {
    let mut cpu = Cpu::new();
    cpu.pc = start;
    cpu.step = 0;
    let data: u8 = mem[start as usize];
    (cpu, start, data)
}

fn run(cpu: &mut Cpu, mem: &mut Vec<u8>, addr: &mut u16, data: &mut u8, n: u64) {
    let mut i: u64 = 0;
    while i < n {
        match cpu.clock(*addr, *data) {
            BusEvent::Read(a) => {
                *data = mem[a as usize];
                *addr = a;
            }
            BusEvent::Write(a, d) => {
                mem[a as usize] = d;
                *data = d;
                *addr = a;
            }
        }
        i += 1;
    }
}

#[test]
fn decode_spot_checks() {
    assert_eq!(
        Cpu::decode(0x00),
        Instruction::Stack(StackInstruction::Brk(Interrupt::Brk))
    );
    assert_eq!(
        Cpu::decode(0xA9),
        Instruction::Imm(ImmInstruction::Read(ReadInstruction::Lda))
    );
    assert_eq!(
        Cpu::decode(0xEA),
        Instruction::AccumImpl(AccumImplInstruction::Internal(InternalInstruction::Nop))
    );
    assert_eq!(
        Cpu::decode(0xFE),
        Instruction::AbsIdxX(AbsIdxInstruction::ReadModifyWrite(
            ReadModifyWriteInstruction::Inc
        ))
    );
    assert_eq!(
        Cpu::decode(0x96),
        Instruction::ZeroPageIdxY(ZeroPageIdxInstruction::Write(
            mos6502::instruction::WriteInstruction::Stx
        ))
    );
    assert_eq!(
        Cpu::decode(0x2C),
        Instruction::Abs(AbsInstruction::Read(ReadInstruction::Bit))
    );
    assert_eq!(Cpu::decode(0x02), Instruction::Invalid(0x02));
    assert_eq!(Cpu::decode(0xFF), Instruction::Invalid(0xFF));
}

#[test]
fn flag_pack_unpack_round_trip() {
    let p = Flags { n: true, v: false, d: true, i: false, z: true, c: false };
    let b0 = p.pack(false);
    let b1 = p.pack(true);
    assert_eq!(b0, 0xAA);
    assert_eq!(b1, 0xBA);
    assert_eq!(Flags::unpack(b0), p);
    assert_eq!(Flags::unpack(b1), p);
    // Bits 5 and 4 of the byte carry no state.
    assert_eq!(Flags::unpack(0x00), Flags::unpack(0x30));
    // Bit 5 always packs as 1.
    let q = Flags { n: false, v: false, d: false, i: false, z: false, c: false };
    assert_eq!(q.pack(false), 0x20);
}

#[test]
fn adc_decimal_mode() {
    // SED; CLC; LDA #$15; ADC #$27 gives BCD 0x42 with no carry.
    let mut mem: Vec<u8> = vec![0u8; 0x10000];
    mem[0] = 0xF8;
    mem[1] = 0x18;
    mem[2] = 0xA9;
    mem[3] = 0x15;
    mem[4] = 0x69;
    mem[5] = 0x27;
    let (mut cpu, mut addr, mut data) = boot(&mem, 0);
    run(&mut cpu, &mut mem, &mut addr, &mut data, 8);
    assert_eq!(cpu.a, 0x42);
    assert!(!cpu.p.c);
}

#[test]
fn adc_decimal_carry_out() {
    // SED; SEC; LDA #$58 then ADC #$46: 58 + 46 + 1 = 105 in BCD.
    let mut mem: Vec<u8> = vec![0u8; 0x10000];
    mem[0] = 0xF8;
    mem[1] = 0x38;
    mem[2] = 0xA9;
    mem[3] = 0x58;
    mem[4] = 0x69;
    mem[5] = 0x46;
    let (mut cpu, mut addr, mut data) = boot(&mem, 0);
    run(&mut cpu, &mut mem, &mut addr, &mut data, 8);
    assert_eq!(cpu.a, 0x05);
    assert!(cpu.p.c);
}

#[test]
fn sbc_decimal_mode() {
    // SED; SEC; LDA #$42; SBC #$15 gives BCD 0x27 with no borrow.
    let mut mem: Vec<u8> = vec![0u8; 0x10000];
    mem[0] = 0xF8;
    mem[1] = 0x38;
    mem[2] = 0xA9;
    mem[3] = 0x42;
    mem[4] = 0xE9;
    mem[5] = 0x15;
    let (mut cpu, mut addr, mut data) = boot(&mem, 0);
    run(&mut cpu, &mut mem, &mut addr, &mut data, 8);
    assert_eq!(cpu.a, 0x27);
    assert!(cpu.p.c, "no borrow: carry stays set");
}

#[test]
fn cmp_sets_flags_without_touching_register() {
    // LDA #$40; CMP #$41: borrow, negative result, not equal.
    let mut mem: Vec<u8> = vec![0u8; 0x10000];
    mem[0] = 0xA9;
    mem[1] = 0x40;
    mem[2] = 0xC9;
    mem[3] = 0x41;
    let (mut cpu, mut addr, mut data) = boot(&mem, 0);
    run(&mut cpu, &mut mem, &mut addr, &mut data, 4);
    assert_eq!(cpu.a, 0x40);
    assert!(!cpu.p.c);
    assert!(!cpu.p.z);
    assert!(cpu.p.n);
}

#[test]
fn bit_loads_v_and_n_from_memory() {
    // BIT $10 with memory 0xC0 and A=0x0F: Z set, N and V from bits 7,6.
    let mut mem: Vec<u8> = vec![0u8; 0x10000];
    mem[0] = 0x24;
    mem[1] = 0x10;
    mem[0x0010] = 0xC0;
    let (mut cpu, mut addr, mut data) = boot(&mem, 0);
    cpu.a = 0x0F;
    run(&mut cpu, &mut mem, &mut addr, &mut data, 3);
    assert!(cpu.p.z);
    assert!(cpu.p.n);
    assert!(cpu.p.v);
    assert_eq!(cpu.a, 0x0F);
}

#[test]
fn asl_and_ror_carry_chain() {
    // LDA #$81; ASL A: C=1, A=0x02; then ROR A: A=0x81, C=0.
    let mut mem: Vec<u8> = vec![0u8; 0x10000];
    mem[0] = 0xA9;
    mem[1] = 0x81;
    mem[2] = 0x0A;
    mem[3] = 0x6A;
    let (mut cpu, mut addr, mut data) = boot(&mem, 0);
    run(&mut cpu, &mut mem, &mut addr, &mut data, 4);
    assert_eq!(cpu.a, 0x02);
    assert!(cpu.p.c);
    run(&mut cpu, &mut mem, &mut addr, &mut data, 2);
    assert_eq!(cpu.a, 0x81);
    assert!(!cpu.p.c);
    assert!(cpu.p.n);
}

#[test]
fn power_up_state_is_cleared() {
    let cpu = Cpu::new();
    assert_eq!(cpu.pc, 0);
    assert_eq!(cpu.step, 0);
    assert!(!cpu.halted);
    assert!(!cpu.rst && !cpu.nmi && !cpu.irq);
}

#[test]
fn pins_power_up_and_drive() {
    // Power-up noise carries no promise; the host gives the lines
    // meaning by driving them.
    let mut pins = Pins::new();
    pins.addr = 0xFFFC;
    pins.data = 0x00;
    pins.write = false;
    pins.rst = true;
    pins.nmi = false;
    pins.irq = false;
    assert_eq!(pins.addr, 0xFFFC);
    assert!(pins.rst);
}

#[test]
fn logic_store_and_index_chain() {
    // ORA, EOR, AND immediate; STA absolute; LDX absolute; INX; CPX.
    let mut mem: Vec<u8> = vec![0u8; 0x10000];
    let prog: [u8; 16] = [
        0xA9, 0x0F, 0x09, 0xF0, 0x49, 0x0F, 0x29, 0x3C, 0x8D, 0x34, 0x12, 0xAE, 0x34, 0x12,
        0xE8, 0xE0,
    ];
    mem[..16].copy_from_slice(&prog);
    mem[16] = 0x31;
    let (mut cpu, mut addr, mut data) = boot(&mem, 0);
    run(&mut cpu, &mut mem, &mut addr, &mut data, 2 + 2 + 2 + 2 + 4 + 4 + 2 + 2);
    assert_eq!(mem[0x1234], 0x30);
    assert_eq!(cpu.a, 0x30);
    assert_eq!(cpu.x, 0x31);
    assert!(cpu.p.z, "CPX finds the incremented index equal");
    assert!(cpu.p.c);
}

#[test]
fn zero_page_y_store_and_load() {
    // STX $F8,Y and LDX $F8,Y with Y=0x10 both wrap to 0x0008.
    let mut mem: Vec<u8> = vec![0u8; 0x10000];
    mem[0] = 0xA2;
    mem[1] = 0x07;
    mem[2] = 0x96;
    mem[3] = 0xF8;
    mem[4] = 0xA2;
    mem[5] = 0x00;
    mem[6] = 0xB6;
    mem[7] = 0xF8;
    let (mut cpu, mut addr, mut data) = boot(&mem, 0);
    cpu.y = 0x10;
    run(&mut cpu, &mut mem, &mut addr, &mut data, 2 + 4 + 2 + 4);
    assert_eq!(mem[0x0008], 0x07);
    assert_eq!(cpu.x, 0x07);
}

#[test]
fn register_transfers() {
    // LDX #$80; TXS; LDA #$FF; TAY; DEY; INY; TSX.
    let mut mem: Vec<u8> = vec![0u8; 0x10000];
    let prog: [u8; 9] = [0xA2, 0x80, 0x9A, 0xA9, 0xFF, 0xA8, 0x88, 0xC8, 0xBA];
    mem[..9].copy_from_slice(&prog);
    let (mut cpu, mut addr, mut data) = boot(&mem, 0);
    run(&mut cpu, &mut mem, &mut addr, &mut data, 14);
    assert_eq!(cpu.s, 0x80, "TXS copies without touching flags");
    assert_eq!(cpu.y, 0xFF);
    assert_eq!(cpu.x, 0x80, "TSX reads the stack pointer back");
    assert!(cpu.p.n);
}
