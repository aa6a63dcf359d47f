use gbcore::cartridge::Cartridge;
use gbcore::cpu::bus::Bus;
use gbcore::cpu::register::Register;
use gbcore::cpu::Cpu;
use gbcore::device::Device;
use gbcore::error::GBError;
use gbcore::mem::ram::Ram;
use gbcore::mem::rom::Rom;
use gbcore::timer::{Timer, INT_TIMER, INT_VBLANK};

/// A CPU running `program` from 0x0100 of a ROM-only cartridge, with `isr`
/// at the VBlank vector, SP at 0xFFFE and full working and high RAM.
fn machine_with(program: &[u8], isr: &[u8]) -> Cpu {
    let mut rom = vec![0u8; 0x8000];
    for (i, b) in program.iter().enumerate() {
        rom[0x100 + i] = *b;
    }
    for (i, b) in isr.iter().enumerate() {
        rom[0x40 + i] = *b;
    }
    let cart = Cartridge::new(Rom::new(rom), Ram::new(Vec::new()), false, false).unwrap();
    let bus = Bus::new(Ram::new(vec![0u8; 0x2000]), Ram::new(vec![0u8; 0x7f]), cart, Timer::new());
    let mut reg = Register::new();
    reg.set_sp(0xfffe);
    reg.set_pc(0x0100);
    Cpu::new(reg, bus, false)
}

fn run_steps(cpu: &mut Cpu, n: usize) {
    for _ in 0..n {
        cpu.step().unwrap();
    }
}

#[test]
fn add_a_a_of_zero() {
    // LD A,0x00 ; ADD A,A
    let mut cpu = machine_with(&[0x3e, 0x00, 0x87], &[]);
    run_steps(&mut cpu, 2);
    let r = cpu.register();
    assert_eq!(r.a(), 0x00);
    assert!(r.flags.z && !r.flags.n && !r.flags.h && !r.flags.c);
    assert_eq!(r.f(), 0x80);
}

#[test]
fn add_one_to_ff() {
    // LD A,0xFF ; ADD A,0x01
    let mut cpu = machine_with(&[0x3e, 0xff, 0xc6, 0x01], &[]);
    run_steps(&mut cpu, 2);
    let r = cpu.register();
    assert_eq!(r.a(), 0x00);
    assert!(r.flags.z && !r.flags.n && r.flags.h && r.flags.c);
    assert_eq!(r.f(), 0xb0);
}

#[test]
fn daa_after_nine_plus_one() {
    // LD A,0x09 ; ADD A,0x01 ; DAA
    let mut cpu = machine_with(&[0x3e, 0x09, 0xc6, 0x01, 0x27], &[]);
    run_steps(&mut cpu, 2);
    assert_eq!(cpu.register().a(), 0x0a);
    run_steps(&mut cpu, 1);
    assert_eq!(cpu.register().a(), 0x10);
    assert!(!cpu.register().flags.c && !cpu.register().flags.z);
}

#[test]
fn daa_after_subtraction() {
    // LD A,0x10 ; SUB 0x01 ; DAA  => BCD 10 - 1 = 09
    let mut cpu = machine_with(&[0x3e, 0x10, 0xd6, 0x01, 0x27], &[]);
    run_steps(&mut cpu, 3);
    assert_eq!(cpu.register().a(), 0x09);
}

#[test]
fn sub_and_cp_flags() {
    // LD A,0x10 ; CP 0x20 ; SUB 0x01
    let mut cpu = machine_with(&[0x3e, 0x10, 0xfe, 0x20, 0xd6, 0x01], &[]);
    run_steps(&mut cpu, 2);
    assert_eq!(cpu.register().a(), 0x10);
    assert!(cpu.register().flags.c && cpu.register().flags.n && !cpu.register().flags.z);
    run_steps(&mut cpu, 1);
    assert_eq!(cpu.register().a(), 0x0f);
    assert!(cpu.register().flags.h && !cpu.register().flags.c);
}

#[test]
fn logic_ops_force_flags() {
    // LD A,0xF0 ; AND 0x0F ; OR 0x81 ; XOR 0x81
    let mut cpu = machine_with(&[0x3e, 0xf0, 0xe6, 0x0f, 0xf6, 0x81, 0xee, 0x81], &[]);
    run_steps(&mut cpu, 2);
    assert_eq!(cpu.register().f(), 0xa0);
    run_steps(&mut cpu, 1);
    assert_eq!(cpu.register().a(), 0x81);
    assert_eq!(cpu.register().f(), 0x00);
    run_steps(&mut cpu, 1);
    assert_eq!(cpu.register().a(), 0x00);
    assert_eq!(cpu.register().f(), 0x80);
}

#[test]
fn inc_dec_keep_carry() {
    // SCF ; LD B,0x0F ; INC B ; LD C,0x01 ; DEC C
    let mut cpu = machine_with(&[0x37, 0x06, 0x0f, 0x04, 0x0e, 0x01, 0x0d], &[]);
    run_steps(&mut cpu, 3);
    assert_eq!(cpu.register().b(), 0x10);
    assert!(cpu.register().flags.h && cpu.register().flags.c && !cpu.register().flags.z);
    run_steps(&mut cpu, 2);
    assert_eq!(cpu.register().c(), 0x00);
    assert!(cpu.register().flags.z && cpu.register().flags.n && cpu.register().flags.c);
}

#[test]
fn push_then_pop_round_trip() {
    // LD BC,0x1234 ; PUSH BC ; POP DE
    let mut cpu = machine_with(&[0x01, 0x34, 0x12, 0xc5, 0xd1], &[]);
    run_steps(&mut cpu, 2);
    assert_eq!(cpu.register().sp(), 0xfffc);
    assert_eq!(cpu.bus().read(0xfffd), 0x12);
    assert_eq!(cpu.bus().read(0xfffc), 0x34);
    run_steps(&mut cpu, 1);
    assert_eq!(cpu.register().de(), 0x1234);
    assert_eq!(cpu.register().sp(), 0xfffe);
}

#[test]
fn pop_af_clears_low_nibble() {
    // LD BC,0x12FF ; PUSH BC ; POP AF
    let mut cpu = machine_with(&[0x01, 0xff, 0x12, 0xc5, 0xf1], &[]);
    run_steps(&mut cpu, 3);
    assert_eq!(cpu.register().af(), 0x12f0);
}

#[test]
fn add_hl_and_add_sp_flags() {
    // LD HL,0x0FFF ; LD BC,0x0001 ; ADD HL,BC ; LD SP,0xFFF8 ; ADD SP,0x08
    let mut cpu = machine_with(
        &[0x21, 0xff, 0x0f, 0x01, 0x01, 0x00, 0x09, 0x31, 0xf8, 0xff, 0xe8, 0x08],
        &[],
    );
    run_steps(&mut cpu, 3);
    assert_eq!(cpu.register().hl(), 0x1000);
    assert!(cpu.register().flags.h && !cpu.register().flags.c);
    run_steps(&mut cpu, 2);
    assert_eq!(cpu.register().sp(), 0x0000);
    assert!(cpu.register().flags.h && cpu.register().flags.c && !cpu.register().flags.z);
}

#[test]
fn ld_hl_sp_negative_offset() {
    // LD SP,0x1000 ; LD HL,SP-1
    let mut cpu = machine_with(&[0x31, 0x00, 0x10, 0xf8, 0xff], &[]);
    run_steps(&mut cpu, 2);
    assert_eq!(cpu.register().hl(), 0x0fff);
    assert_eq!(cpu.register().sp(), 0x1000);
}

#[test]
fn prefix_swap_bit_and_rotate() {
    // LD A,0xF1 ; SWAP A ; BIT 7,A ; RLCA ; SET 0,B ; RES 4,A
    let mut cpu = machine_with(
        &[0x3e, 0xf1, 0xcb, 0x37, 0xcb, 0x7f, 0x07, 0xcb, 0xc0, 0xcb, 0xa7],
        &[],
    );
    run_steps(&mut cpu, 2);
    assert_eq!(cpu.register().a(), 0x1f);
    assert_eq!(cpu.register().f(), 0x00);
    run_steps(&mut cpu, 1);
    assert!(cpu.register().flags.z && cpu.register().flags.h);
    run_steps(&mut cpu, 1);
    assert_eq!(cpu.register().a(), 0x3e);
    assert!(!cpu.register().flags.c && !cpu.register().flags.z);
    run_steps(&mut cpu, 1);
    assert_eq!(cpu.register().b(), 0x01);
    run_steps(&mut cpu, 1);
    assert_eq!(cpu.register().a(), 0x2e);
}

#[test]
fn swap_leaves_carry() {
    // SCF ; LD B,0x12 ; SWAP B ; LD C,0x00 ; SWAP C
    let mut cpu = machine_with(&[0x37, 0x06, 0x12, 0xcb, 0x30, 0x0e, 0x00, 0xcb, 0x31], &[]);
    run_steps(&mut cpu, 3);
    assert_eq!(cpu.register().b(), 0x21);
    assert_eq!(cpu.register().f(), 0x10);
    run_steps(&mut cpu, 2);
    assert_eq!(cpu.register().f(), 0x90);
}

#[test]
fn memory_loads_through_hl() {
    // LD HL,0xC000 ; LD (HL),0x5A ; LDI A,(HL) ; LD (HL),A ; LDD A,(HL)
    let mut cpu = machine_with(&[0x21, 0x00, 0xc0, 0x36, 0x5a, 0x2a, 0x77, 0x3a], &[]);
    run_steps(&mut cpu, 3);
    assert_eq!(cpu.register().a(), 0x5a);
    assert_eq!(cpu.register().hl(), 0xc001);
    run_steps(&mut cpu, 1);
    assert_eq!(cpu.bus().read(0xc001), 0x5a);
    run_steps(&mut cpu, 1);
    assert_eq!(cpu.register().hl(), 0xc000);
}

#[test]
fn jumps_calls_and_returns() {
    // 0100: CALL 0x0110 ; 0103: JR -2 (to 0103)
    // 0110: XOR A ; RET NZ ; RET Z
    let mut program = vec![0u8; 0x20];
    program[0x00] = 0xcd;
    program[0x01] = 0x10;
    program[0x02] = 0x01;
    program[0x03] = 0x18;
    program[0x04] = 0xfe;
    program[0x10] = 0xaf;
    program[0x11] = 0xc0;
    program[0x12] = 0xc8;
    let mut cpu = machine_with(&program, &[]);
    assert_eq!(cpu.step(), Ok(6));
    assert_eq!(cpu.register().pc(), 0x0110);
    assert_eq!(cpu.register().sp(), 0xfffc);
    run_steps(&mut cpu, 1);
    assert_eq!(cpu.step(), Ok(2));
    assert_eq!(cpu.register().pc(), 0x0112);
    assert_eq!(cpu.step(), Ok(5));
    assert_eq!(cpu.register().pc(), 0x0103);
    assert_eq!(cpu.register().sp(), 0xfffe);
    assert_eq!(cpu.step(), Ok(3));
    assert_eq!(cpu.register().pc(), 0x0103);
}

#[test]
fn rst_pushes_and_jumps() {
    // RST 0x38
    let mut cpu = machine_with(&[0xff], &[]);
    assert_eq!(cpu.step(), Ok(4));
    assert_eq!(cpu.register().pc(), 0x0038);
    assert_eq!(cpu.bus().read(0xfffc), 0x01);
    assert_eq!(cpu.bus().read(0xfffd), 0x01);
}

#[test]
fn unmapped_opcode_fails_the_step() {
    let mut cpu = machine_with(&[0xd3], &[]);
    assert_eq!(cpu.step(), Err(GBError::UnmappedOpcode(0xd3)));
}

#[test]
fn vblank_before_timer() {
    // EI ; NOP ; NOP ; NOP with RETI at the VBlank vector
    let mut cpu = machine_with(&[0xfb, 0x00, 0x00, 0x00], &[0xd9]);
    cpu.write(0xffff, 0x05);
    cpu.request_interrupt(INT_VBLANK);
    cpu.request_interrupt(INT_TIMER);
    run_steps(&mut cpu, 2);
    assert!(cpu.ime());
    assert_eq!(cpu.step(), Ok(5));
    assert_eq!(cpu.register().pc(), 0x0040);
    assert!(!cpu.ime());
    assert_eq!(cpu.bus().read(0xff0f), 0xe4);
    run_steps(&mut cpu, 1);
    assert_eq!(cpu.register().pc(), 0x0102);
    assert!(cpu.ime());
    assert_eq!(cpu.step(), Ok(5));
    assert_eq!(cpu.register().pc(), 0x0050);
    assert_eq!(cpu.bus().read(0xff0f), 0xe0);
}

#[test]
fn ei_takes_effect_after_next_instruction() {
    // EI ; NOP ; NOP
    let mut cpu = machine_with(&[0xfb, 0x00, 0x00], &[]);
    cpu.write(0xffff, 0x01);
    cpu.request_interrupt(INT_VBLANK);
    assert_eq!(cpu.step(), Ok(1));
    assert_eq!(cpu.register().pc(), 0x0101);
    assert!(!cpu.ime());
    assert_eq!(cpu.step(), Ok(1));
    assert_eq!(cpu.register().pc(), 0x0102);
    assert!(cpu.ime());
    assert_eq!(cpu.step(), Ok(5));
    assert_eq!(cpu.register().pc(), 0x0040);
}

#[test]
fn di_right_after_ei_keeps_interrupts_off() {
    // EI ; DI ; NOP
    let mut cpu = machine_with(&[0xfb, 0xf3, 0x00], &[]);
    cpu.write(0xffff, 0x01);
    cpu.request_interrupt(INT_VBLANK);
    run_steps(&mut cpu, 2);
    assert!(!cpu.ime());
    assert_eq!(cpu.step(), Ok(1));
    assert_eq!(cpu.register().pc(), 0x0103);
}

#[test]
fn halt_waits_then_wakes_with_ime_clear() {
    // HALT ; INC A ; NOP
    let mut cpu = machine_with(&[0x76, 0x3c, 0x00], &[]);
    run_steps(&mut cpu, 1);
    assert!(cpu.is_halted());
    assert_eq!(cpu.step(), Ok(1));
    assert!(cpu.is_halted());
    assert_eq!(cpu.register().pc(), 0x0101);
    cpu.request_interrupt(INT_VBLANK);
    run_steps(&mut cpu, 1);
    assert!(!cpu.is_halted());
    assert_eq!(cpu.register().a(), 1);
    assert_eq!(cpu.register().pc(), 0x0101);
    run_steps(&mut cpu, 1);
    assert_eq!(cpu.register().a(), 2);
    assert_eq!(cpu.register().pc(), 0x0102);
}

#[test]
fn halt_with_ime_set_dispatches() {
    // EI ; HALT
    let mut cpu = machine_with(&[0xfb, 0x76, 0x00], &[]);
    cpu.write(0xffff, 0x04);
    run_steps(&mut cpu, 2);
    assert!(cpu.is_halted() && cpu.ime());
    assert_eq!(cpu.step(), Ok(1));
    cpu.request_interrupt(INT_TIMER);
    assert_eq!(cpu.step(), Ok(5));
    assert_eq!(cpu.register().pc(), 0x0050);
    assert!(!cpu.is_halted());
}

#[test]
fn stop_idles_until_resumed() {
    // STOP 0x00 ; INC A
    let mut cpu = machine_with(&[0x10, 0x00, 0x3c], &[]);
    run_steps(&mut cpu, 1);
    assert!(cpu.is_stopped());
    assert_eq!(cpu.register().pc(), 0x0102);
    assert_eq!(cpu.step(), Ok(1));
    assert_eq!(cpu.register().a(), 0);
    cpu.resume();
    run_steps(&mut cpu, 1);
    assert_eq!(cpu.register().a(), 1);
}

#[test]
fn cycles_accumulate() {
    // NOP ; LD BC,nn ; PUSH BC
    let mut cpu = machine_with(&[0x00, 0x01, 0x00, 0x00, 0xc5], &[]);
    run_steps(&mut cpu, 3);
    assert_eq!(cpu.cycles(), 1 + 3 + 4);
    assert!(!cpu.is_debug());
    assert_eq!(cpu.bus().read(0xff04), 0);
}

#[test]
fn timer_runs_with_steps() {
    // eight NOPs at the fastest rate: one counter step per four cycles
    let mut cpu = machine_with(&[0x00; 8], &[]);
    cpu.write(0xff07, 0x05);
    cpu.write(0xff06, 0x40);
    cpu.write(0xff05, 0xff);
    run_steps(&mut cpu, 3);
    assert_eq!(cpu.bus().read(0xff05), 0xff);
    assert_eq!(cpu.bus().read(0xff0f) & 0x04, 0);
    run_steps(&mut cpu, 1);
    assert_eq!(cpu.bus().read(0xff05), 0x40);
    assert_eq!(cpu.bus().read(0xff0f) & 0x04, 0x04);
    run_steps(&mut cpu, 4);
    assert_eq!(cpu.bus().read(0xff05), 0x41);
}
