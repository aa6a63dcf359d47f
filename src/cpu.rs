//! The CPU driver: interrupt dispatch, halt and stop states, the deferred
//! interrupt enable, and the fetch-decode-execute step.
use vstd::prelude::*;

pub mod alu;
pub mod bus;
pub mod exec;
pub mod instruction;
pub mod register;

use crate::cpu::bus::{Bus, BusState};
use crate::cpu::exec::{adv, dec16, done, exec_spec, holds_bytes, lemma_decoded_never_fails, push16, push_spec};
use crate::cpu::instruction::{Instruction, InstructionFn, decode_result, decode_spec};
use crate::cpu::register::Register;
use crate::device::Device;
use crate::error::{GBError, GBResult};
use crate::timer::{
    IE_ADDR, IF_ADDR, INT_TIMER, INT_VBLANK, TimerState, enabled, fast_steps, highest_priority,
    lemma_fastest_rate_count, pending_mask,
    with_pending, without_pending,
};
use crate::util::{high, low};

verus! {

/// Machine cycles an interrupt dispatch takes.
pub const DISPATCH_CYCLES: usize = 5;

/// The handler address of interrupt `source`.
pub open spec fn vector(source: u8) -> u16 {
    (0x40 + 8 * source) as u16
}

/// What the CPU holds, as plain values.
pub struct CpuState {
    pub regs: Register,
    pub bus: BusState,
    /// Total machine cycles so far, modulo 2^64.
    pub cycle: u64,
    /// Interrupt master enable.
    pub ime: bool,
    /// Set by EI: IME turns on after the next instruction completes.
    pub ei_pending: bool,
    pub halted: bool,
    pub stopped: bool,
    /// Debug flag the host passed at construction.
    pub debug: bool,
}

impl CpuState {
    /// Whether the next step services an interrupt.
    pub open spec fn dispatches(self) -> bool {
        !self.stopped && self.ime && self.bus.pending() != 0
    }

    /// Whether a halted CPU stays halted this step: with IME set it waits
    /// for an enabled pending source (which is dispatched), with IME clear
    /// for any pending source.
    pub open spec fn stays_halted(self) -> bool {
        self.halted && (self.ime || self.bus.timer.iflag & 0x1f == 0)
    }

    /// Interrupt dispatch, before the timer runs: push PC, clear IME and the
    /// source's pending bit, jump to the source's vector.
    pub open spec fn dispatch(self) -> (CpuState, GBResult<usize>) {
        let src = highest_priority(self.bus.pending());
        let (r1, m1) = push_spec(self.regs, self.bus, self.regs.pc);
        (CpuState {
            regs: Register { pc: vector(src), ..r1 },
            bus: m1.with_ack(src),
            ime: false,
            ei_pending: false,
            halted: false,
            ..self
        }, Ok(DISPATCH_CYCLES))
    }

    /// Registers after fetching the opcode byte: PC moves past it, except on
    /// the fetch right after a halt ends with IME clear.
    pub open spec fn fetched_regs(self) -> Register {
        if self.halted {
            self.regs
        } else {
            adv(self.regs)
        }
    }

    /// Fetch, decode and execute one instruction, before the timer runs;
    /// then HALT, STOP, DI, EI
    /// and RETI act on the driver's state, and an EI of the previous step
    /// turns IME on unless this instruction was DI.
    pub open spec fn run(self) -> (CpuState, GBResult<usize>) {
        let op = self.bus.read(self.regs.pc);
        let regs = self.fetched_regs();
        let s = CpuState { regs, halted: false, ..self };
        match decode_result(op) {
            Err(e) => (s, Err(e)),
            Ok(inst) => {
                let out = exec_spec(inst, op, regs, self.bus);
                match out.result {
                    Err(e) => (CpuState { regs: out.regs, bus: out.bus, ..s }, Err(e)),
                    Ok(c) => (CpuState {
                        regs: out.regs,
                        bus: out.bus,
                        ime: if inst == Instruction::DI {
                            false
                        } else if inst == Instruction::RETI || self.ei_pending {
                            true
                        } else {
                            self.ime
                        },
                        ei_pending: inst == Instruction::EI,
                        halted: inst == Instruction::HALT,
                        stopped: inst == Instruction::STOP,
                        ..s
                    }, Ok(c)),
                }
            },
        }
    }

    /// What a step does before the timer runs, and the cycles it takes. A
    /// stopped CPU never dispatches: it idles until the outside wake signal
    /// (`Cpu::resume`). A running or halted CPU services an enabled pending
    /// interrupt when IME is set; a halted one otherwise idles until it wakes.
    pub open spec fn effects(self) -> (CpuState, GBResult<usize>) {
        if self.stopped {
            (self, Ok(1))
        } else if self.dispatches() {
            self.dispatch()
        } else if self.stays_halted() {
            (self, Ok(1))
        } else {
            self.run()
        }
    }

    /// One step of the driver and the cycles it took: its effects, then the
    /// timer and the cycle counter advance by those cycles.
    pub open spec fn step(self) -> (CpuState, GBResult<usize>) {
        let (s, r) = self.effects();
        match r {
            Ok(c) => (CpuState { bus: s.bus.ticks(c as nat), cycle: s.cycle.wrapping_add(c as u64), ..s }, r),
            Err(_) => (s, r),
        }
    }
}

pub struct Cpu {
    register: Register,
    bus: Bus,
    cycle: u64,
    debug: bool,
    ime: bool,
    ei_pending: bool,
    halted: bool,
    stopped: bool,
}

impl View for Cpu {
    type V = CpuState;

    closed spec fn view(&self) -> CpuState {
        CpuState {
            regs: self.register,
            bus: self.bus@,
            cycle: self.cycle,
            ime: self.ime,
            ei_pending: self.ei_pending,
            halted: self.halted,
            stopped: self.stopped,
            debug: self.debug,
        }
    }
}

impl Cpu {
    /// A running CPU with interrupts disabled and no cycles counted.
    pub fn new(reg: Register, bus: Bus, debug: bool) -> (r: Cpu)
        ensures
            r@ == (CpuState {
                regs: reg,
                bus: bus@,
                cycle: 0,
                ime: false,
                ei_pending: false,
                halted: false,
                stopped: false,
                debug: debug,
            }),
    {
        Cpu {
            register: reg,
            bus: bus,
            cycle: 0u64,
            debug: debug,
            ime: false,
            ei_pending: false,
            halted: false,
            stopped: false,
        }
    }

    /// Runs one step: services an interrupt, idles, or executes one
    /// instruction; returns the machine cycles consumed.
    pub fn step(&mut self) -> (r: GBResult<usize>)
        ensures
            (final(self)@, r) == old(self)@.step(),
    {
        match self.apply() {
            Ok(c) => {
                self.bus.tick(c);
                self.cycle = self.cycle.wrapping_add(c as u64);
                Ok(c)
            },
            Err(e) => Err(e),
        }
    }

    fn apply(&mut self) -> (r: GBResult<usize>)
        ensures
            (final(self)@, r) == old(self)@.effects(),
    {
        if self.stopped {
            return Ok(1);
        }
        let pending = self.bus.pending_interrupts();
        if self.ime && pending != 0 {
            return self.dispatch(pending);
        }
        if self.halted && (self.ime || self.bus.requested_interrupts() == 0) {
            return Ok(1);
        }
        let op = self.fetch();
        self.halted = false;
        let f = match self.decode(op) {
            Ok(f) => f,
            Err(e) => return Err(e),
        };
        let inst = f.inst;
        let cycles = match self.exec(f, op) {
            Ok(c) => c,
            Err(e) => return Err(e),
        };
        if inst == Instruction::DI {
            self.ime = false;
        } else if inst == Instruction::RETI || self.ei_pending {
            self.ime = true;
        }
        self.ei_pending = inst == Instruction::EI;
        self.halted = inst == Instruction::HALT;
        self.stopped = inst == Instruction::STOP;
        Ok(cycles)
    }

    fn dispatch(&mut self, pending: u8) -> (r: GBResult<usize>)
        requires
            pending == old(self)@.bus.pending(),
        ensures
            (final(self)@, r) == old(self)@.dispatch(),
    {
        let src: u8 = if pending & 1 != 0 {
            0
        } else if pending & 2 != 0 {
            1
        } else if pending & 4 != 0 {
            2
        } else if pending & 8 != 0 {
            3
        } else {
            4
        };
        let pc = self.register.pc;
        push16(&mut self.register, &mut self.bus, pc);
        self.bus.acknowledge_interrupt(src);
        self.register.pc = 0x40 + 8 * src as u16;
        self.ime = false;
        self.ei_pending = false;
        self.halted = false;
        Ok(DISPATCH_CYCLES)
    }

    /// Reads the opcode byte at PC and moves PC past it, unless a halt has
    /// just ended with IME clear.
    fn fetch(&mut self) -> (r: u8)
        ensures
            r == old(self)@.bus.read(old(self)@.regs.pc),
            final(self)@ == (CpuState { regs: old(self)@.fetched_regs(), ..old(self)@ }),
    {
        let op = self.bus.read(self.register.pc);
        if !self.halted {
            self.register.pc = self.register.pc.wrapping_add(1);
        }
        op
    }

    fn decode(&self, inst: u8) -> (r: GBResult<InstructionFn>)
        ensures
            match decode_result(inst) {
                Ok(i) => r == Ok::<InstructionFn, GBError>(InstructionFn { inst: i }),
                Err(e) => r == Err::<InstructionFn, GBError>(e),
            },
    {
        match Instruction::from(inst) {
            Ok(i) => i.function(),
            Err(e) => Err(e),
        }
    }

    fn exec(&mut self, f: InstructionFn, op: u8) -> (r: GBResult<usize>)
        ensures
            ({
                let out = exec_spec(f.inst, op, old(self)@.regs, old(self)@.bus);
                &&& r == out.result
                &&& final(self)@ == (CpuState { regs: out.regs, bus: out.bus, ..old(self)@ })
            }),
    {
        f.call(op, &mut self.register, &mut self.bus)
    }

    pub fn register(&self) -> (r: &Register)
        ensures
            *r == self@.regs,
    {
        &self.register
    }

    pub fn bus(&self) -> (r: &Bus)
        ensures
            r@ == self@.bus,
    {
        &self.bus
    }

    /// Total machine cycles consumed, modulo 2^64.
    pub fn cycles(&self) -> (r: u64)
        ensures
            r == self@.cycle,
    {
        self.cycle
    }

    /// The interrupt master enable.
    pub fn ime(&self) -> (r: bool)
        ensures
            r == self@.ime,
    {
        self.ime
    }

    pub fn is_halted(&self) -> (r: bool)
        ensures
            r == self@.halted,
    {
        self.halted
    }

    pub fn is_stopped(&self) -> (r: bool)
        ensures
            r == self@.stopped,
    {
        self.stopped
    }

    pub fn is_debug(&self) -> (r: bool)
        ensures
            r == self@.debug,
    {
        self.debug
    }

    /// Marks interrupt `source` pending, as a device outside the core does.
    pub fn request_interrupt(&mut self, source: u8)
        requires
            source < 5,
        ensures
            final(self)@ == (CpuState { bus: old(self)@.bus.with_request(source), ..old(self)@ }),
    {
        self.bus.request_interrupt(source);
    }

    /// Ends the stopped state, as the outside wake signal does.
    pub fn resume(&mut self)
        ensures
            final(self)@ == (CpuState { stopped: false, ..old(self)@ }),
    {
        self.stopped = false;
    }

    /// Writes a byte through the bus.
    pub fn write(&mut self, addr: u16, val: u8)
        ensures
            final(self)@ == (CpuState { bus: old(self)@.bus.write(addr, val), ..old(self)@ }),
    {
        self.bus.write(addr, val);
    }
}


/// A write anywhere but the interrupt-flag and interrupt-enable registers
/// leaves both unchanged.
proof fn lemma_write_keeps_interrupts(m: BusState, addr: u16, val: u8)
    requires
        addr != IF_ADDR,
        addr != IE_ADDR,
    ensures
        m.write(addr, val).timer.ie == m.timer.ie,
        m.write(addr, val).timer.iflag == m.timer.iflag,
{
    reveal(BusState::write);
}

/// Running the timer keeps the enable register and can only add the timer
/// source to the pending bits.
proof fn lemma_ticks_keep_interrupts(t: TimerState, n: nat)
    ensures
        t.ticks(n).ie == t.ie,
        t.ticks(n).iflag == t.iflag || t.ticks(n).iflag == with_pending(t.iflag, INT_TIMER),
    decreases n,
{
    if n > 0 {
        lemma_ticks_keep_interrupts(t, (n - 1) as nat);
        let f = t.iflag;
        assert(with_pending(with_pending(f, INT_TIMER), INT_TIMER) == with_pending(f, INT_TIMER))
            by (bit_vector);
    }
}

/// With VBlank and Timer both enabled and pending and IME set, a step
/// services VBlank first; Timer stays pending and is what the next eligible
/// step (IME set again, LCD-status not pending) services. The stack bytes of
/// the dispatch must not land on the interrupt registers.
pub proof fn lemma_interrupt_priority(s: CpuState)
    requires
        !s.stopped,
        s.ime,
        s.bus.pending() & 1 != 0,
        s.bus.pending() & 4 != 0,
        s.bus.pending() & 2 == 0,
        dec16(s.regs.sp) != IF_ADDR && dec16(s.regs.sp) != IE_ADDR,
        dec16(dec16(s.regs.sp)) != IF_ADDR && dec16(dec16(s.regs.sp)) != IE_ADDR,
    ensures
        ({
            let (s1, r) = s.step();
            &&& r == Ok::<usize, GBError>(DISPATCH_CYCLES)
            &&& s1.regs.pc == vector(INT_VBLANK)
            &&& !s1.ime
            &&& s1.bus.pending() & 1 == 0
            &&& s1.bus.pending() & 4 != 0
            &&& (CpuState { ime: true, ..s1 }).step().0.regs.pc == vector(INT_TIMER)
        }),
{
    let p = s.bus.pending();
    assert(p & 1 != 0 ==> p != 0) by (bit_vector);
    assert(highest_priority(p) == INT_VBLANK);
    let (r1, m1) = push_spec(s.regs, s.bus, s.regs.pc);
    let sp1 = dec16(s.regs.sp);
    lemma_write_keeps_interrupts(s.bus, sp1, high(s.regs.pc));
    lemma_write_keeps_interrupts(s.bus.write(sp1, high(s.regs.pc)), dec16(sp1), low(s.regs.pc));
    let m2 = m1.with_ack(INT_VBLANK);
    lemma_ticks_keep_interrupts(m2.timer, DISPATCH_CYCLES as nat);
    let (s1, r) = s.step();
    let ie = s.bus.timer.ie;
    let f = s.bus.timer.iflag;
    assert(s1.bus.timer.ie == ie);
    assert(s1.bus.timer.iflag == without_pending(f, INT_VBLANK) || s1.bus.timer.iflag
        == with_pending(without_pending(f, INT_VBLANK), INT_TIMER));
    let f1 = s1.bus.timer.iflag;
    assert(pending_mask(ie, f) & 1 != 0 && pending_mask(ie, f) & 4 != 0 && pending_mask(ie, f) & 2
        == 0 && (f1 == without_pending(f, 0) || f1 == with_pending(without_pending(f, 0), 2))
        ==> pending_mask(ie, f1) & 1 == 0 && pending_mask(ie, f1) & 4 != 0 && pending_mask(ie, f1)
        & 2 == 0) by (bit_vector);
    let q = s1.bus.pending();
    assert(q & 1 == 0 && q & 2 == 0 && q & 4 != 0 ==> highest_priority(q) == INT_TIMER && q != 0)
        by (bit_vector);
}

proof fn lemma_exec_ei(r: Register, m: BusState)
    ensures
        exec_spec(Instruction::EI, 0xfb, r, m) == done(r, m, 1),
{
    reveal(exec_spec);
}

/// After EI (with interrupts off and no enable already scheduled) no
/// interrupt is serviced before the following instruction has completed;
/// once it has, IME is on unless that instruction was DI, and from the third
/// step on an enabled pending source is serviced at once: the third step
/// jumps to the vector of the highest-priority one.
#[verifier::rlimit(50)]
pub proof fn lemma_ei_delay(s0: CpuState)
    requires
        !s0.stopped,
        !s0.halted,
        !s0.ime,
        !s0.ei_pending,
        s0.bus.read(s0.regs.pc) == 0xfb,
    ensures
        ({
            let (s1, r1) = s0.step();
            &&& r1 == Ok::<usize, GBError>(1)
            &&& !s1.ime && s1.ei_pending
            &&& !s1.dispatches()
            &&& ({
                let (s2, r2) = s1.step();
                r2 is Ok && s1.bus.read(s1.regs.pc) != 0xf3 ==> {
                    &&& s2.ime
                    &&& s2.dispatches() <==> (!s2.stopped && s2.bus.pending() != 0)
                    &&& s2.dispatches() ==> {
                        let (s3, r3) = s2.step();
                        &&& r3 == Ok::<usize, GBError>(DISPATCH_CYCLES)
                        &&& s3.regs.pc == vector(highest_priority(s2.bus.pending()))
                        &&& !s3.ime
                    }
                }
            })
        }),
{
    lemma_exec_ei(adv(s0.regs), s0.bus);
    assert(decode_result(0xfb) == Ok::<Instruction, GBError>(Instruction::EI));
    let (e0, q0) = s0.effects();
    assert(q0 == Ok::<usize, GBError>(1));
    let (s1, r1) = s0.step();
    let (s2, r2) = s1.step();
    let op = s1.bus.read(s1.regs.pc);
    if r2 is Ok && op != 0xf3 {
        assert(decode_result(op) != Ok::<Instruction, GBError>(Instruction::DI));
    }
}

/// A step that services an interrupt takes the highest-priority enabled
/// pending source: it pushes PC (high byte at SP-1, low byte at SP-2), clears
/// IME and that source's pending bit, jumps to the source's vector, and then
/// the timer runs for the dispatch's cycles. The stack bytes must not land on
/// the interrupt registers; where they land in memory that holds bytes, the
/// old PC reads back from them.
pub proof fn lemma_dispatch(s: CpuState)
    requires
        s.dispatches(),
        dec16(s.regs.sp) != IF_ADDR && dec16(s.regs.sp) != IE_ADDR,
        dec16(dec16(s.regs.sp)) != IF_ADDR && dec16(dec16(s.regs.sp)) != IE_ADDR,
    ensures
        ({
            let src = highest_priority(s.bus.pending());
            let (e, _) = s.effects();
            let (s1, r) = s.step();
            let sp1 = dec16(s.regs.sp);
            let sp2 = dec16(sp1);
            &&& r == Ok::<usize, GBError>(DISPATCH_CYCLES)
            &&& s1.regs.pc == vector(src)
            &&& s1.regs.sp == sp2
            &&& !s1.ime
            &&& e.bus.timer.ie == s.bus.timer.ie
            &&& e.bus.timer.iflag == without_pending(s.bus.timer.iflag, src)
            &&& s1.bus == e.bus.ticks(DISPATCH_CYCLES as nat)
            &&& holds_bytes(s.bus, sp1) && holds_bytes(s.bus, sp2) ==> s1.bus.read(sp1) == high(
                s.regs.pc,
            ) && s1.bus.read(sp2) == low(s.regs.pc)
        }),
{
    let sp1 = dec16(s.regs.sp);
    let sp2 = dec16(sp1);
    let pc = s.regs.pc;
    lemma_write_keeps_interrupts(s.bus, sp1, high(pc));
    lemma_write_keeps_interrupts(s.bus.write(sp1, high(pc)), sp2, low(pc));
    reveal(BusState::read);
    reveal(BusState::write);
}

/// At the fastest rate, over one step whose own work (the instruction or the
/// dispatch, before the timer runs) leaves the divider, counter, modulo and
/// control alone, the counter advances once for every multiple of four the
/// divider passes during the step's cycles: the timer interrupt is set in
/// that very step exactly when the counter passes 0xFF and reloads, and is
/// otherwise left as the step's own work left it.
pub proof fn lemma_step_counter(s: CpuState)
    requires
        s.step().1 is Ok,
        enabled(s.bus.timer.tac),
        s.bus.timer.tac % 4 == 1,
        s.effects().0.bus.timer.div == s.bus.timer.div,
        s.effects().0.bus.timer.tima == s.bus.timer.tima,
        s.effects().0.bus.timer.tma == s.bus.timer.tma,
        s.effects().0.bus.timer.tac == s.bus.timer.tac,
    ensures
        ({
            let t = s.bus.timer;
            let e = s.effects().0.bus.timer;
            let (s1, r) = s.step();
            let c = r->Ok_0;
            let t1 = s1.bus.timer;
            let n = fast_steps(t.div as int, c as nat);
            &&& t1.div == (t.div + c) % 0x10000
            &&& t.tima + n <= 0xff ==> t1.tima == t.tima + n && t1.iflag == e.iflag
            &&& t.tima + n > 0xff && t.tma + (t.tima + n - 0x100) <= 0xff ==> t1.tima == t.tma + (
            t.tima + n - 0x100) && t1.iflag == with_pending(e.iflag, INT_TIMER)
        }),
{
    let (e, r) = s.effects();
    lemma_fastest_rate_count(e.bus.timer, r->Ok_0 as nat);
}

/// A step fails only on a byte with no instruction, and then names it: the
/// operand-index failure never reaches the host.
pub proof fn lemma_step_fails_only_on_unmapped(s: CpuState)
    ensures
        s.step().1 is Err ==> s.step().1 == Err::<usize, GBError>(
            GBError::UnmappedOpcode(s.bus.read(s.regs.pc)),
        ),
{
    let op = s.bus.read(s.regs.pc);
    if decode_spec(op) is Some {
        lemma_decoded_never_fails(op, s.fetched_regs(), s.bus);
    }
}

} // verus!
