//! End-to-end scenarios: small programs run cycle by cycle against a
//! flat memory, checking registers, flags and the exact bus traffic.

use mos6502::bus::BusEvent;
use mos6502::cpu::Cpu;

fn boot(mem: &Vec<u8>, start: u16) -> (Cpu, u16, u8) {
    let mut cpu = Cpu::new();
    cpu.pc = start;
    cpu.step = 0;
    let data: u8 = mem[start as usize];
    (cpu, start, data)
}

fn run(
    cpu: &mut Cpu,
    mem: &mut Vec<u8>,
    addr: &mut u16,
    data: &mut u8,
    n: u64,
    log: &mut Vec<BusEvent>,
) {
    let mut i: u64 = 0;
    while i < n {
        let ev = cpu.clock(*addr, *data);
        log.push(ev);
        match ev {
            BusEvent::Read(a) => {
                *data = mem[a as usize];
                *addr = a;
            }
            BusEvent::Write(a, d) => {
                mem[a as usize] = d;
                *data = d;
                *addr = a;
            }
        }
        i += 1;
    }
}

#[test]
fn lda_immediate_sets_z_and_n() {
    let mut mem: Vec<u8> = vec![0u8; 0x10000];
    mem[0] = 0xA9;
    mem[1] = 0x00;
    mem[2] = 0xA9;
    mem[3] = 0x80;
    mem[4] = 0xEA;
    let (mut cpu, mut addr, mut data) = boot(&mem, 0);
    let mut log: Vec<BusEvent> = Vec::new();
    run(&mut cpu, &mut mem, &mut addr, &mut data, 2, &mut log);
    assert_eq!(cpu.a, 0x00);
    assert!(cpu.p.z);
    assert!(!cpu.p.n);
    run(&mut cpu, &mut mem, &mut addr, &mut data, 2, &mut log);
    assert_eq!(cpu.a, 0x80);
    assert!(!cpu.p.z);
    assert!(cpu.p.n);
    run(&mut cpu, &mut mem, &mut addr, &mut data, 2, &mut log);
    assert_eq!(cpu.a, 0x80);
    assert_eq!(cpu.step, 0);
}

#[test]
fn page_cross_read_takes_five_cycles() {
    let mut mem: Vec<u8> = vec![0u8; 0x10000];
    mem[0] = 0xA2;
    mem[1] = 0x05;
    mem[2] = 0xBD;
    mem[3] = 0xFE;
    mem[4] = 0x12;
    mem[0x1303] = 0x42;
    let (mut cpu, mut addr, mut data) = boot(&mem, 0);
    let mut log: Vec<BusEvent> = Vec::new();
    // LDX #$05 takes two cycles; LDA $12FE,X crosses a page.
    run(&mut cpu, &mut mem, &mut addr, &mut data, 6, &mut log);
    assert!(cpu.step != 0, "the crossed read must still be in flight after four cycles");
    run(&mut cpu, &mut mem, &mut addr, &mut data, 1, &mut log);
    assert_eq!(cpu.a, 0x42);
    assert_eq!(cpu.x, 0x05);
    assert_eq!(cpu.step, 0);
}

#[test]
fn rmw_double_write_bus_trace() {
    let mut mem: Vec<u8> = vec![0u8; 0x10000];
    mem[0] = 0xEE;
    mem[1] = 0x00;
    mem[2] = 0x20;
    mem[0x2000] = 0x55;
    let (mut cpu, mut addr, mut data) = boot(&mem, 0);
    let mut log: Vec<BusEvent> = Vec::new();
    run(&mut cpu, &mut mem, &mut addr, &mut data, 6, &mut log);
    assert_eq!(
        log,
        vec![
            BusEvent::Read(1),
            BusEvent::Read(2),
            BusEvent::Read(0x2000),
            BusEvent::Write(0x2000, 0x55),
            BusEvent::Write(0x2000, 0x56),
            BusEvent::Read(3),
        ]
    );
    assert_eq!(mem[0x2000], 0x56);
    assert_eq!(cpu.step, 0);
}

#[test]
fn indirect_jmp_page_wrap_bug() {
    let mut mem: Vec<u8> = vec![0u8; 0x10000];
    mem[0] = 0x6C;
    mem[1] = 0xFF;
    mem[2] = 0x30;
    mem[0x30FF] = 0x34;
    mem[0x3000] = 0x12;
    // The byte one page up must not be consulted.
    mem[0x3100] = 0xAA;
    let (mut cpu, mut addr, mut data) = boot(&mem, 0);
    let mut log: Vec<BusEvent> = Vec::new();
    run(&mut cpu, &mut mem, &mut addr, &mut data, 5, &mut log);
    assert_eq!(cpu.pc, 0x1234);
    assert_eq!(log[3], BusEvent::Read(0x3000));
    assert_eq!(cpu.step, 0);
}

#[test]
fn brk_stack_frame() {
    let mut mem: Vec<u8> = vec![0u8; 0x10000];
    mem[0x0200] = 0x00;
    mem[0xFFFE] = 0x00;
    mem[0xFFFF] = 0x80;
    let (mut cpu, mut addr, mut data) = boot(&mem, 0x0200);
    cpu.s = 0xFD;
    cpu.p.c = true;
    cpu.p.z = true;
    let mut log: Vec<BusEvent> = Vec::new();
    run(&mut cpu, &mut mem, &mut addr, &mut data, 7, &mut log);
    assert_eq!(mem[0x01FD], 0x02, "pushed PCH is the high byte of the BRK address plus two");
    assert_eq!(mem[0x01FC], 0x02, "pushed PCL is the low byte of the BRK address plus two");
    // N=0 V=0, bit5=1, B=1, D=0 I=0, Z=1 C=1.
    assert_eq!(mem[0x01FB], 0x33);
    assert_eq!(cpu.s, 0xFA);
    assert!(cpu.p.i);
    assert_eq!(cpu.pc, 0x8000);
    assert_eq!(cpu.step, 0);
}

#[test]
fn reset_sequence_reads_only_and_lands_on_vector() {
    let mut mem: Vec<u8> = vec![0u8; 0x10000];
    mem[0xFFFC] = 0x34;
    mem[0xFFFD] = 0x12;
    let mut cpu = Cpu::new();
    cpu.rst();
    let mut addr: u16 = 0;
    let mut data: u8 = mem[0];
    let mut log: Vec<BusEvent> = Vec::new();
    run(&mut cpu, &mut mem, &mut addr, &mut data, 7, &mut log);
    for ev in &log {
        assert!(matches!(ev, BusEvent::Read(_)), "reset must not write");
    }
    assert_eq!(cpu.pc, 0x1234);
    assert_eq!(cpu.s, 0xFD, "S still decrements three times from 0");
    assert!(cpu.p.i);
    assert!(!cpu.rst);
    assert_eq!(cpu.step, 0);
}

#[test]
fn interrupt_priority_rst_first() {
    let mut mem: Vec<u8> = vec![0u8; 0x10000];
    mem[0xFFFC] = 0x00;
    mem[0xFFFD] = 0x40;
    mem[0xFFFA] = 0x00;
    mem[0xFFFB] = 0x50;
    mem[0xFFFE] = 0x00;
    mem[0xFFFF] = 0x60;
    let mut cpu = Cpu::new();
    cpu.rst();
    cpu.nmi();
    cpu.irq();
    let s0 = cpu.s;
    let mut addr: u16 = 0;
    let mut data: u8 = mem[0];
    let mut log: Vec<BusEvent> = Vec::new();
    run(&mut cpu, &mut mem, &mut addr, &mut data, 7, &mut log);
    for ev in &log {
        assert!(matches!(ev, BusEvent::Read(_)));
    }
    assert_eq!(cpu.pc, 0x4000, "RST outranks NMI and IRQ");
    assert_eq!(cpu.s, s0.wrapping_sub(3));
    assert!(!cpu.rst, "the serviced latch is cleared");
    assert!(cpu.nmi, "the NMI latch stays pending");
}

#[test]
fn irq_pushes_b_clear_and_masks() {
    let mut mem: Vec<u8> = vec![0u8; 0x10000];
    mem[0x0300] = 0xEA;
    mem[0xFFFE] = 0x00;
    mem[0xFFFF] = 0x90;
    let (mut cpu, mut addr, mut data) = boot(&mem, 0x0300);
    cpu.s = 0xFF;
    cpu.irq();
    let mut log: Vec<BusEvent> = Vec::new();
    run(&mut cpu, &mut mem, &mut addr, &mut data, 7, &mut log);
    assert_eq!(cpu.pc, 0x9000);
    assert_eq!(mem[0x01FD] & 0x10, 0, "IRQ pushes the status with B clear");
    assert_ne!(mem[0x01FD] & 0x20, 0, "bit 5 always reads as 1");
    assert!(cpu.p.i);
    // With I set, a further request is masked at the latch.
    cpu.irq();
    assert!(!cpu.irq);
}

#[test]
fn branch_cycle_counts() {
    // Not taken: BNE with Z set completes in 2 cycles.
    let mut mem: Vec<u8> = vec![0u8; 0x10000];
    mem[0x0100] = 0xD0;
    mem[0x0101] = 0x02;
    let (mut cpu, mut addr, mut data) = boot(&mem, 0x0100);
    cpu.p.z = true;
    let mut log: Vec<BusEvent> = Vec::new();
    run(&mut cpu, &mut mem, &mut addr, &mut data, 2, &mut log);
    assert_eq!(cpu.step, 0);
    assert_eq!(cpu.pc, 0x0102);

    // Taken, same page: 3 cycles.
    let (mut cpu, mut addr, mut data) = boot(&mem, 0x0100);
    cpu.p.z = false;
    let mut log: Vec<BusEvent> = Vec::new();
    run(&mut cpu, &mut mem, &mut addr, &mut data, 2, &mut log);
    assert!(cpu.step != 0);
    run(&mut cpu, &mut mem, &mut addr, &mut data, 1, &mut log);
    assert_eq!(cpu.step, 0);
    assert_eq!(cpu.pc, 0x0104);

    // Taken across a page: 4 cycles.
    mem[0x01FD] = 0xD0;
    mem[0x01FE] = 0x10;
    let (mut cpu, mut addr, mut data) = boot(&mem, 0x01FD);
    cpu.p.z = false;
    let mut log: Vec<BusEvent> = Vec::new();
    run(&mut cpu, &mut mem, &mut addr, &mut data, 3, &mut log);
    assert!(cpu.step != 0);
    run(&mut cpu, &mut mem, &mut addr, &mut data, 1, &mut log);
    assert_eq!(cpu.step, 0);
    assert_eq!(cpu.pc, 0x020F);
}

#[test]
fn adc_sbc_round_trip_binary() {
    // LDA #$37; CLC; ADC #$05; SEC; SBC #$05 returns A to 0x37.
    let mut mem: Vec<u8> = vec![0u8; 0x10000];
    mem[0] = 0xA9;
    mem[1] = 0x37;
    mem[2] = 0x18;
    mem[3] = 0x69;
    mem[4] = 0x05;
    mem[5] = 0x38;
    mem[6] = 0xE9;
    mem[7] = 0x05;
    let (mut cpu, mut addr, mut data) = boot(&mem, 0);
    let mut log: Vec<BusEvent> = Vec::new();
    run(&mut cpu, &mut mem, &mut addr, &mut data, 6, &mut log);
    assert_eq!(cpu.a, 0x3C);
    run(&mut cpu, &mut mem, &mut addr, &mut data, 4, &mut log);
    assert_eq!(cpu.a, 0x37);
    assert!(!cpu.p.z);
    assert!(!cpu.p.n);
}

#[test]
fn jsr_rts_round_trip() {
    let mut mem: Vec<u8> = vec![0u8; 0x10000];
    mem[0x0200] = 0x20;
    mem[0x0201] = 0x00;
    mem[0x0202] = 0x03;
    mem[0x0300] = 0x60;
    let (mut cpu, mut addr, mut data) = boot(&mem, 0x0200);
    cpu.s = 0xFD;
    let mut log: Vec<BusEvent> = Vec::new();
    run(&mut cpu, &mut mem, &mut addr, &mut data, 6, &mut log);
    assert_eq!(cpu.pc, 0x0300);
    assert_eq!(cpu.s, 0xFB);
    run(&mut cpu, &mut mem, &mut addr, &mut data, 6, &mut log);
    assert_eq!(cpu.pc, 0x0203, "RTS resumes one past the pushed address");
    assert_eq!(cpu.s, 0xFD);
}

#[test]
fn pha_pla_restores_accumulator_and_stack() {
    let mut mem: Vec<u8> = vec![0u8; 0x10000];
    mem[0] = 0x48;
    mem[1] = 0xA9;
    mem[2] = 0x00;
    mem[3] = 0x68;
    let (mut cpu, mut addr, mut data) = boot(&mem, 0);
    cpu.a = 0xC7;
    cpu.s = 0x80;
    let mut log: Vec<BusEvent> = Vec::new();
    run(&mut cpu, &mut mem, &mut addr, &mut data, 3 + 2 + 4, &mut log);
    assert_eq!(cpu.a, 0xC7, "the pulled byte equals the pushed byte");
    assert_eq!(cpu.s, 0x80, "S returns to its pre-push value");
    assert!(cpu.p.n);
    assert!(!cpu.p.z);
}

#[test]
fn php_plp_round_trips_flags() {
    let mut mem: Vec<u8> = vec![0u8; 0x10000];
    mem[0] = 0x08;
    mem[1] = 0x28;
    let (mut cpu, mut addr, mut data) = boot(&mem, 0);
    cpu.s = 0xFF;
    cpu.p.n = true;
    cpu.p.d = true;
    cpu.p.c = true;
    let p0 = cpu.p;
    let mut log: Vec<BusEvent> = Vec::new();
    run(&mut cpu, &mut mem, &mut addr, &mut data, 3 + 4, &mut log);
    assert_eq!(cpu.p, p0);
    assert_eq!(cpu.s, 0xFF);
    assert_eq!(mem[0x01FF] & 0x30, 0x30, "PHP pushes with bits 5 and 4 set");
}

#[test]
fn stack_push_wraps_within_page_one() {
    let mut mem: Vec<u8> = vec![0u8; 0x10000];
    mem[0] = 0x48;
    let (mut cpu, mut addr, mut data) = boot(&mem, 0);
    cpu.a = 0x5A;
    cpu.s = 0x00;
    let mut log: Vec<BusEvent> = Vec::new();
    run(&mut cpu, &mut mem, &mut addr, &mut data, 3, &mut log);
    assert_eq!(mem[0x0100], 0x5A, "the addressed cell is 0x0100 | S");
    assert_eq!(cpu.s, 0xFF, "the stack pointer wraps modulo 256");
}

#[test]
fn pc_wraps_at_top_of_memory() {
    let mut mem: Vec<u8> = vec![0u8; 0x10000];
    mem[0xFFFF] = 0xEA;
    let (mut cpu, mut addr, mut data) = boot(&mem, 0xFFFF);
    let mut log: Vec<BusEvent> = Vec::new();
    run(&mut cpu, &mut mem, &mut addr, &mut data, 2, &mut log);
    assert_eq!(cpu.pc, 0x0000);
    assert_eq!(cpu.step, 0);
}

#[test]
fn invalid_opcode_halts_the_core() {
    let mut mem: Vec<u8> = vec![0u8; 0x10000];
    mem[0] = 0x02;
    let (mut cpu, mut addr, mut data) = boot(&mem, 0);
    let mut log: Vec<BusEvent> = Vec::new();
    run(&mut cpu, &mut mem, &mut addr, &mut data, 2, &mut log);
    assert!(cpu.is_halted());
    let frozen = cpu;
    run(&mut cpu, &mut mem, &mut addr, &mut data, 3, &mut log);
    assert_eq!(cpu, frozen, "a halted core never changes state again");
    assert_eq!(log[2], BusEvent::Read(cpu.pc));
    assert_eq!(log[3], BusEvent::Read(cpu.pc));
}

#[test]
fn zero_page_indexed_stays_in_page_zero() {
    // LDA $F0,X with X=0x20: the effective address wraps to 0x0010.
    let mut mem: Vec<u8> = vec![0u8; 0x10000];
    mem[0] = 0xB5;
    mem[1] = 0xF0;
    mem[0x0010] = 0x99;
    mem[0x0110] = 0x11;
    let (mut cpu, mut addr, mut data) = boot(&mem, 0);
    cpu.x = 0x20;
    let mut log: Vec<BusEvent> = Vec::new();
    run(&mut cpu, &mut mem, &mut addr, &mut data, 4, &mut log);
    assert_eq!(cpu.a, 0x99, "the carry out of the index add is discarded");
    assert_eq!(log[2], BusEvent::Read(0x0010));
}

#[test]
fn indirect_indexed_write_fixes_up_page() {
    // STA ($40),Y with pointer 0x21FE and Y=5 writes at 0x2203.
    let mut mem: Vec<u8> = vec![0u8; 0x10000];
    mem[0] = 0x91;
    mem[1] = 0x40;
    mem[0x0040] = 0xFE;
    mem[0x0041] = 0x21;
    let (mut cpu, mut addr, mut data) = boot(&mem, 0);
    cpu.a = 0x77;
    cpu.y = 0x05;
    let mut log: Vec<BusEvent> = Vec::new();
    run(&mut cpu, &mut mem, &mut addr, &mut data, 6, &mut log);
    assert_eq!(mem[0x2203], 0x77);
    assert_eq!(log[4], BusEvent::Write(0x2203, 0x77));
    assert_eq!(cpu.step, 0);
}

#[test]
fn fibonacci_loop_program() {
    // Two zero-page cells hold successive pair values; six passes of a
    // CLC/ADC loop driven by DEX and a backward BNE leave 13 in $81.
    let mut mem: Vec<u8> = vec![0u8; 0x10000];
    let prog: [u8; 27] = [
        0xA9, 0x00, 0x85, 0x80, 0xA9, 0x01, 0x85, 0x81, 0xA2, 0x06, 0x18, 0xA5, 0x80, 0x65,
        0x81, 0xA4, 0x81, 0x84, 0x80, 0x85, 0x81, 0xCA, 0xD0, 0xF2, 0x4C, 0x18, 0x00,
    ];
    mem[..27].copy_from_slice(&prog);
    let (mut cpu, mut addr, mut data) = boot(&mem, 0);
    let mut log: Vec<BusEvent> = Vec::new();
    run(&mut cpu, &mut mem, &mut addr, &mut data, 200, &mut log);
    assert_eq!(mem[0x0081], 13);
    assert_eq!(mem[0x0080], 8);
    assert_eq!(cpu.x, 0);
    assert!(!cpu.is_halted());
    // The program parks in a jump-to-self loop.
    assert!(cpu.pc >= 0x18 && cpu.pc <= 0x1A);
}

#[test]
fn nmi_service_clears_latch() {
    let mut mem: Vec<u8> = vec![0u8; 0x10000];
    mem[0x0500] = 0xEA;
    mem[0xFFFA] = 0x00;
    mem[0xFFFB] = 0x70;
    let (mut cpu, mut addr, mut data) = boot(&mem, 0x0500);
    cpu.s = 0xFF;
    cpu.nmi();
    let mut log: Vec<BusEvent> = Vec::new();
    run(&mut cpu, &mut mem, &mut addr, &mut data, 7, &mut log);
    assert_eq!(cpu.pc, 0x7000);
    assert!(!cpu.nmi, "the serviced NMI latch is cleared");
    assert_eq!(mem[0x01FD] & 0x10, 0, "NMI pushes the status with B clear");
    assert!(cpu.p.i);
    assert_eq!(cpu.s, 0xFC);
}

#[test]
fn lsr_rol_memory_carry_chain() {
    // LSR $20 ejects bit 0 into C; ROL $20 pulls it back in.
    let mut mem: Vec<u8> = vec![0u8; 0x10000];
    mem[0] = 0x46;
    mem[1] = 0x20;
    mem[2] = 0x26;
    mem[3] = 0x20;
    mem[0x0020] = 0x05;
    let (mut cpu, mut addr, mut data) = boot(&mem, 0);
    let mut log: Vec<BusEvent> = Vec::new();
    run(&mut cpu, &mut mem, &mut addr, &mut data, 5, &mut log);
    assert_eq!(mem[0x0020], 0x02);
    assert!(cpu.p.c);
    run(&mut cpu, &mut mem, &mut addr, &mut data, 5, &mut log);
    assert_eq!(mem[0x0020], 0x05);
    assert!(!cpu.p.c);
}
