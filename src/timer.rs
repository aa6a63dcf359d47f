//! The timer and interrupt controller: a free-running divider drives a
//! programmable counter that raises the timer interrupt on overflow; the
//! controller also holds the enable and pending bits of the five sources.
use vstd::prelude::*;
use crate::device::Device;
use crate::mem::OPEN_BUS;

verus! {

pub const DIV_ADDR: u16 = 0xff04;
pub const TIMA_ADDR: u16 = 0xff05;
pub const TMA_ADDR: u16 = 0xff06;
pub const TAC_ADDR: u16 = 0xff07;
pub const IF_ADDR: u16 = 0xff0f;
pub const IE_ADDR: u16 = 0xffff;

/// Interrupt sources, by bit position and in priority order.
pub const INT_VBLANK: u8 = 0;
pub const INT_LCD_STAT: u8 = 1;
pub const INT_TIMER: u8 = 2;
pub const INT_SERIAL: u8 = 3;
pub const INT_JOYPAD: u8 = 4;

/// What the timer and interrupt controller hold, as plain values.
pub struct TimerState {
    /// Internal divider, one step per machine cycle.
    pub div: u16,
    /// Visible counter.
    pub tima: u8,
    /// Reload value of the counter.
    pub tma: u8,
    /// Control: bit 2 enables the counter, bits 1-0 select its rate.
    pub tac: u8,
    /// Interrupt-enable register.
    pub ie: u8,
    /// Interrupt-flag (pending) register.
    pub iflag: u8,
}

/// Machine cycles per counter step for each clock select: the counter steps
/// when the divider bit that the select taps falls.
pub open spec fn period(select: u8) -> int {
    if select % 4 == 0 {
        256
    } else if select % 4 == 1 {
        4
    } else if select % 4 == 2 {
        16
    } else {
        64
    }
}

/// Whether the counter is enabled by a control value.
pub open spec fn enabled(tac: u8) -> bool {
    tac % 8 >= 4
}

/// The counter value after one step: one more, or the reload value past 0xFF.
pub open spec fn next_count(tima: u8, tma: u8) -> u8 {
    if tima == 0xff {
        tma
    } else {
        (tima + 1) as u8
    }
}

/// The pending bits with `source` set.
pub open spec fn with_pending(iflag: u8, source: u8) -> u8 {
    iflag | (1u8 << source)
}

/// The pending bits with `source` clear.
pub open spec fn without_pending(iflag: u8, source: u8) -> u8 {
    iflag & !(1u8 << source)
}

/// The enabled and pending sources.
pub open spec fn pending_mask(ie: u8, iflag: u8) -> u8 {
    ie & iflag & 0x1f
}

/// The source of highest priority among a nonzero set of pending bits.
pub open spec fn highest_priority(p: u8) -> u8 {
    if p & 1 != 0 {
        INT_VBLANK
    } else if p & 2 != 0 {
        INT_LCD_STAT
    } else if p & 4 != 0 {
        INT_TIMER
    } else if p & 8 != 0 {
        INT_SERIAL
    } else {
        INT_JOYPAD
    }
}

impl TimerState {
    /// One machine cycle: the divider steps; the counter steps when enabled
    /// and the tapped divider bit falls; overflow reloads the counter and sets
    /// the timer interrupt pending in the same step.
    pub open spec fn tick(self) -> TimerState {
        let div = ((self.div + 1) % 0x10000) as u16;
        if enabled(self.tac) && (div as int) % period(self.tac) == 0 {
            if self.tima == 0xff {
                TimerState { div, tima: self.tma, iflag: with_pending(self.iflag, INT_TIMER), ..self }
            } else {
                TimerState { div, tima: (self.tima + 1) as u8, ..self }
            }
        } else {
            TimerState { div, ..self }
        }
    }

    /// `n` machine cycles.
    pub open spec fn ticks(self, n: nat) -> TimerState
        decreases n,
    {
        if n == 0 {
            self
        } else {
            self.ticks((n - 1) as nat).tick()
        }
    }

    pub open spec fn read(self, addr: u16) -> u8 {
        if addr == DIV_ADDR {
            (self.div / 64) as u8
        } else if addr == TIMA_ADDR {
            self.tima
        } else if addr == TMA_ADDR {
            self.tma
        } else if addr == TAC_ADDR {
            self.tac | 0xf8
        } else if addr == IF_ADDR {
            self.iflag | 0xe0
        } else if addr == IE_ADDR {
            self.ie
        } else {
            OPEN_BUS
        }
    }

    /// A register write; a write to DIV clears the whole divider.
    pub open spec fn write(self, addr: u16, val: u8) -> TimerState {
        if addr == DIV_ADDR {
            TimerState { div: 0, ..self }
        } else if addr == TIMA_ADDR {
            TimerState { tima: val, ..self }
        } else if addr == TMA_ADDR {
            TimerState { tma: val, ..self }
        } else if addr == TAC_ADDR {
            TimerState { tac: val % 8, ..self }
        } else if addr == IF_ADDR {
            TimerState { iflag: val % 32, ..self }
        } else if addr == IE_ADDR {
            TimerState { ie: val, ..self }
        } else {
            self
        }
    }
}

/// Running the timer for `a` cycles and then for `b` cycles is the same as
/// running it for `a + b` cycles, however the cycles are split into calls.
pub proof fn lemma_ticks_split(s: TimerState, a: nat, b: nat)
    ensures
        s.ticks(a).ticks(b) == s.ticks(a + b),
    decreases b,
{
    if b > 0 {
        lemma_ticks_split(s, a, (b - 1) as nat);
        assert((a + b - 1) as nat == a + (b - 1) as nat);
    }
}

proof fn lemma_div_step_mod4(d: u16)
    ensures
        ((((d + 1) % 0x10000) as u16) as int) % 4 == (d as int + 1) % 4,
{
}

/// At the fastest rate the enabled counter steps exactly once in every four
/// machine cycles, wherever the divider stands: it goes up by one, or past
/// 0xFF reloads from the modulo and sets the timer interrupt pending, which
/// is left alone otherwise.
pub proof fn lemma_fastest_rate(s: TimerState)
    requires
        enabled(s.tac),
        s.tac % 4 == 1,
    ensures
        s.ticks(4).tima == next_count(s.tima, s.tma),
        s.tima == 0xff ==> s.ticks(4).iflag == with_pending(s.iflag, INT_TIMER),
        s.tima != 0xff ==> s.ticks(4).iflag == s.iflag,
        s.ticks(4).div == (s.div + 4) % 0x10000,
        s.ticks(4).tma == s.tma && s.ticks(4).tac == s.tac && s.ticks(4).ie == s.ie,
{
    reveal_with_fuel(TimerState::ticks, 5);
    let s1 = s.tick();
    let s2 = s1.tick();
    let s3 = s2.tick();
    let s4 = s3.tick();
    assert(s.ticks(4) == s4);
    lemma_div_step_mod4(s.div);
    lemma_div_step_mod4(s1.div);
    lemma_div_step_mod4(s2.div);
    lemma_div_step_mod4(s3.div);
}

/// Counter steps at the fastest rate in `k` machine cycles from divider `d`:
/// the multiples of four that the divider passes.
pub open spec fn fast_steps(d: int, k: nat) -> int {
    (d + k) / 4 - d / 4
}

/// At the fastest rate the counter advances once for every multiple of four
/// the divider passes, however many cycles are run at once: without reaching
/// past 0xFF it ends that many higher and the timer interrupt is left alone;
/// when it passes 0xFF once, it reloads from the modulo, counts on from there,
/// and the timer interrupt is set.
pub proof fn lemma_fastest_rate_count(t: TimerState, k: nat)
    requires
        enabled(t.tac),
        t.tac % 4 == 1,
    ensures
        t.ticks(k).div == (t.div + k) % 0x10000,
        t.ticks(k).tma == t.tma && t.ticks(k).tac == t.tac && t.ticks(k).ie == t.ie,
        t.tima + fast_steps(t.div as int, k) <= 0xff ==> t.ticks(k).tima == t.tima + fast_steps(
            t.div as int,
            k,
        ) && t.ticks(k).iflag == t.iflag,
        t.tima + fast_steps(t.div as int, k) > 0xff && t.tma + (t.tima + fast_steps(
            t.div as int,
            k,
        ) - 0x100) <= 0xff ==> t.ticks(k).tima == t.tma + (t.tima + fast_steps(t.div as int, k)
            - 0x100) && t.ticks(k).iflag == with_pending(t.iflag, INT_TIMER),
    decreases k,
{
    if k > 0 {
        let k1 = (k - 1) as nat;
        lemma_fastest_rate_count(t, k1);
        let u = t.ticks(k1);
        let x = t.div + k1;
        assert(((x % 0x10000 + 1) % 0x10000) == (x + 1) % 0x10000);
        assert(((x + 1) % 0x10000) % 4 == (x + 1) % 4);
        assert(fast_steps(t.div as int, k) == fast_steps(t.div as int, k1) + (if (x + 1) % 4 == 0 {
            1int
        } else {
            0
        }));
    }
}

#[derive(Debug)]
pub struct Timer {
    div: u16,
    tima: u8,
    tma: u8,
    tac: u8,
    ie: u8,
    iflag: u8,
}

impl View for Timer {
    type V = TimerState;

    closed spec fn view(&self) -> TimerState {
        TimerState {
            div: self.div,
            tima: self.tima,
            tma: self.tma,
            tac: self.tac,
            ie: self.ie,
            iflag: self.iflag,
        }
    }
}

impl Timer {
    /// A stopped timer with every register zero and nothing enabled or pending.
    pub fn new() -> (r: Timer)
        ensures
            r@ == (TimerState { div: 0, tima: 0, tma: 0, tac: 0, ie: 0, iflag: 0 }),
    {
        Timer { div: 0u16, tima: 0u8, tma: 0u8, tac: 0u8, ie: 0u8, iflag: 0u8 }
    }

    fn tick_once(&mut self)
        ensures
            final(self)@ == old(self)@.tick(),
    {
        self.div = self.div.wrapping_add(1);
        let select = self.tac % 4;
        let period: u16 = if select == 0 {
            256
        } else if select == 1 {
            4
        } else if select == 2 {
            16
        } else {
            64
        };
        if self.tac % 8 >= 4 && self.div % period == 0 {
            if self.tima == 0xff {
                self.tima = self.tma;
                self.iflag = self.iflag | (1u8 << INT_TIMER);
            } else {
                self.tima = self.tima + 1;
            }
        }
    }

    /// Advances the timer by `cycles` machine cycles.
    pub fn tick(&mut self, cycles: usize)
        ensures
            final(self)@ == old(self)@.ticks(cycles as nat),
    {
        let mut i: usize = 0;
        while i < cycles
            invariant
                i <= cycles,
                self@ == old(self)@.ticks(i as nat),
            decreases cycles - i,
        {
            self.tick_once();
            i = i + 1;
        }
    }

    /// Marks `source` pending.
    pub fn request(&mut self, source: u8)
        requires
            source < 5,
        ensures
            final(self)@ == (TimerState { iflag: with_pending(old(self)@.iflag, source), ..old(self)@ }),
    {
        self.iflag = self.iflag | (1u8 << source);
    }

    /// Clears the pending bit of `source`.
    pub fn acknowledge(&mut self, source: u8)
        requires
            source < 5,
        ensures
            final(self)@ == (TimerState {
                iflag: without_pending(old(self)@.iflag, source),
                ..old(self)@
            }),
    {
        self.iflag = self.iflag & !(1u8 << source);
    }

    /// The sources that are both enabled and pending.
    pub fn pending(&self) -> (r: u8)
        ensures
            r == pending_mask(self@.ie, self@.iflag),
    {
        self.ie & self.iflag & 0x1f
    }

    /// The sources that are pending, enabled or not.
    pub fn requested(&self) -> (r: u8)
        ensures
            r == self@.iflag & 0x1f,
    {
        self.iflag & 0x1f
    }
}

impl Device for Timer {
    open spec fn read_spec(v: TimerState, addr: u16) -> u8 {
        v.read(addr)
    }

    open spec fn write_spec(v: TimerState, addr: u16, val: u8) -> TimerState {
        v.write(addr, val)
    }

    fn read(&self, addr: u16) -> (r: u8) {
        if addr == DIV_ADDR {
            (self.div / 64) as u8
        } else if addr == TIMA_ADDR {
            self.tima
        } else if addr == TMA_ADDR {
            self.tma
        } else if addr == TAC_ADDR {
            self.tac | 0xf8
        } else if addr == IF_ADDR {
            self.iflag | 0xe0
        } else if addr == IE_ADDR {
            self.ie
        } else {
            OPEN_BUS
        }
    }

    fn write(&mut self, addr: u16, val: u8) {
        if addr == DIV_ADDR {
            self.div = 0;
        } else if addr == TIMA_ADDR {
            self.tima = val;
        } else if addr == TMA_ADDR {
            self.tma = val;
        } else if addr == TAC_ADDR {
            self.tac = val % 8;
        } else if addr == IF_ADDR {
            self.iflag = val % 32;
        } else if addr == IE_ADDR {
            self.ie = val;
        }
    }
}

} // verus!
