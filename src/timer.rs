//! Timer unit, divider, faked scanline counter, and the cycle accounting that
//! paces them.
use vstd::prelude::*;
use vstd::arithmetic::div_mod::lemma_fundamental_div_mod_converse;
use crate::alu::{lemma_set_bit_idempotent, set_spec};
use crate::bus::{DIV_ADDR, IF_ADDR, LY_ADDR, TAC_ADDR, TIMA_ADDR, TMA_ADDR};
use crate::cpu::Cpu;
use crate::interrupts::{source_bit, Interrupt};

verus! {

pub const CPU_CYCLES_PER_SECOND: u64 = 4194304;
/// Cycles per simulated horizontal sync (one scanline).
pub const CYCLES_PER_HSYNC: u64 = 456;
/// Scanlines per frame, including the vertical blank lines.
pub const SCANLINES_PER_FRAME: u8 = 154;
/// The scanline at which the vertical blank begins.
pub const VBLANK_LINE: u8 = 144;
/// Cycles per simulated frame (one vertical blank each).
pub const CPU_CYCLES_PER_VBLANK: u64 = 70224;
pub const CPU_CYCLES_PER_DIVIDER_STEP: u64 = 256;
/// The longest timer period in cycles (the slowest rate).
pub const MAX_TIMER_PERIOD: u64 = 1024;

/// Timer counter frequency selected by the two rate bits of TAC.
pub open spec fn timer_hz(tac: u8) -> int {
    if tac % 4 == 0 { 4096 }
    else if tac % 4 == 1 { 262144 }
    else if tac % 4 == 2 { 65536 }
    else { 16384 }
}

pub open spec fn timer_period(tac: u8) -> int {
    CPU_CYCLES_PER_SECOND as int / timer_hz(tac)
}

pub open spec fn timer_enabled(tac: u8) -> bool {
    (tac / 4) % 2 == 1
}

/// TIMA after one tick: on overflow it reloads from TMA.
pub open spec fn tima_next(t: u8, tma: u8) -> u8 {
    if t == 255 { tma } else { (t + 1) as u8 }
}

pub open spec fn tima_after(t: u8, tma: u8, k: nat) -> u8
    decreases k,
{
    if k == 0 { t } else { tima_next(tima_after(t, tma, (k - 1) as nat), tma) }
}

pub open spec fn ly_next(ly: u8) -> u8 {
    if ly >= 153 { 0 } else { (ly + 1) as u8 }
}

pub open spec fn ly_after(ly: u8, k: nat) -> u8
    decreases k,
{
    if k == 0 { ly } else { ly_next(ly_after(ly, (k - 1) as nat)) }
}

/// Whether TIMA overflowed during `k` ticks from `t`.
pub open spec fn timer_overflowed(t: u8, tma: u8, k: nat) -> bool
    decreases k,
{
    if k == 0 { false } else { timer_overflowed(t, tma, (k - 1) as nat) || tima_after(t, tma, (k - 1) as nat) == 255 }
}

/// Whether LY reached the first vertical blank line during `k` scanlines from `ly`.
pub open spec fn vblank_reached(ly: u8, k: nat) -> bool
    decreases k,
{
    if k == 0 { false } else { vblank_reached(ly, (k - 1) as nat) || ly_after(ly, k) == VBLANK_LINE }
}

/// `v` with bit `bit` set when `cond` holds.
pub open spec fn set_if(cond: bool, bit: int, v: u8) -> u8 {
    if cond { set_spec(bit, v) } else { v }
}

/// Timer ticks due when `cycles` more cycles arrive.
pub open spec fn timer_ticks(c: Cpu, cycles: int) -> nat {
    let tac = c.bus.mem@[TAC_ADDR as int];
    if timer_enabled(tac) { ((c.timer_cycles + cycles) / timer_period(tac)) as nat } else { 0 }
}

/// Scanlines due when `cycles` more cycles arrive.
pub open spec fn scanline_ticks(c: Cpu, cycles: int) -> nat {
    ((c.hsync_cycles + cycles) / (CYCLES_PER_HSYNC as int)) as nat
}

/// `post` is `pre` after `advance(cycles)` returned `frame_due`: the divider,
/// timer counter, scanline counter and frame cadence have taken the cycles,
/// with the interrupts they request; nothing else has changed.
pub open spec fn advance_post(pre: Cpu, post: Cpu, cycles: u32, frame_due: bool) -> bool {
    let m = pre.bus.mem@;
    let tac = m[TAC_ADDR as int];
    let ticks = timer_ticks(pre, cycles as int);
    let lines = scanline_ticks(pre, cycles as int);
    let if_timer = set_if(timer_overflowed(m[TIMA_ADDR as int], m[TMA_ADDR as int], ticks), source_bit(Interrupt::Timer), m[IF_ADDR as int]);
    &&& post.wf()
    &&& post.regs == pre.regs
    &&& post.state == pre.state
    &&& post.crash == pre.crash
    &&& post.ime == pre.ime
    &&& post.ime_scheduled == pre.ime_scheduled
    &&& post.halt_bug == pre.halt_bug
    &&& post.bus.rom@ == pre.bus.rom@
    &&& post.bus.rom_bank == pre.bus.rom_bank
    &&& post.bus.mbc == pre.bus.mbc
    &&& post.bus.has_ram == pre.bus.has_ram
    &&& post.bus.buttons == pre.bus.buttons
    &&& post.total_cycles == if pre.total_cycles + cycles > u64::MAX { u64::MAX as int } else { pre.total_cycles + cycles }
    &&& post.bus.div_counter == (pre.bus.div_counter + cycles) % 256
    &&& post.bus.mem@[DIV_ADDR as int] == div_after(m[DIV_ADDR as int], pre.bus.div_counter as int, cycles as int)
    &&& post.timer_cycles == if timer_enabled(tac) { (pre.timer_cycles + cycles) % timer_period(tac) } else { pre.timer_cycles as int }
    &&& post.bus.mem@[TIMA_ADDR as int] == tima_after(m[TIMA_ADDR as int], m[TMA_ADDR as int], ticks)
    &&& post.hsync_cycles == (pre.hsync_cycles + cycles) % (CYCLES_PER_HSYNC as int)
    &&& post.bus.mem@[LY_ADDR as int] == ly_after(m[LY_ADDR as int], lines)
    &&& post.bus.mem@[IF_ADDR as int] == set_if(vblank_reached(m[LY_ADDR as int], lines), source_bit(Interrupt::VBlank), if_timer)
    &&& forall|i: int| 0 <= i < 0x10000 && i != DIV_ADDR && i != TIMA_ADDR && i != IF_ADDR && i != LY_ADDR
            ==> #[trigger] post.bus.mem@[i] == m[i]
    &&& post.frame_cycles == (pre.frame_cycles + cycles) % (CPU_CYCLES_PER_VBLANK as int)
    &&& frame_due == (pre.frame_cycles + cycles >= CPU_CYCLES_PER_VBLANK)
}

/// DIV after `cycles` more cycles, from its value and the cycles since it last stepped.
pub open spec fn div_after(div: u8, counter: int, cycles: int) -> u8 {
    ((div + (counter + cycles) / 256) % 256) as u8
}

/// Whether every byte but those at `a` and `b` is the same in both.
pub open spec fn mem_same_except(pre: Seq<u8>, post: Seq<u8>, a: u16, b: u16) -> bool {
    &&& post.len() == pre.len()
    &&& forall|i: int| 0 <= i < pre.len() && i != a && i != b ==> #[trigger] post[i] == pre[i]
}

/// Two stretches of execution step the divider as one stretch of their total
/// length: the divider depends only on accumulated cycles, not on where
/// instructions begin or end.
pub proof fn lemma_div_additive(div: u8, counter: int, x: int, y: int)
    requires
        0 <= counter < 256,
        x >= 0,
        y >= 0,
    ensures
        div_after(div_after(div, counter, x), (counter + x) % 256, y) == div_after(div, counter, x + y),
        ((counter + x) % 256 + y) % 256 == (counter + x + y) % 256,
{
    let s = counter + x;
    let q1 = s / 256;
    let r1 = s % 256;
    let q2 = (r1 + y) / 256;
    let r2 = (r1 + y) % 256;
    assert(s + y == (q1 + q2) * 256 + r2) by (nonlinear_arith)
        requires s == q1 * 256 + r1, r1 + y == q2 * 256 + r2;
    lemma_fundamental_div_mod_converse(s + y, 256, q1 + q2, r2);
    assert(((div + q1) % 256 + q2) % 256 == (div + q1 + q2) % 256) by (nonlinear_arith)
        requires div >= 0, q1 >= 0, q2 >= 0;
}

impl Cpu {
    pub fn timer_frequency_hz(&self) -> (r: u32)
        requires
            self.wf(),
        ensures
            r == timer_hz(self.bus.mem@[TAC_ADDR as int]),
    {
        let tac = self.bus.get_io(TAC_ADDR);
        if tac % 4 == 0 { 4096 }
        else if tac % 4 == 1 { 262144 }
        else if tac % 4 == 2 { 65536 }
        else { 16384 }
    }

    /// Cycles per timer counter step: the CPU clock divided by the selected frequency.
    pub fn timer_period_cycles(&self) -> (r: u64)
        requires
            self.wf(),
        ensures
            r == timer_period(self.bus.mem@[TAC_ADDR as int]),
            0 < r <= MAX_TIMER_PERIOD,
    {
        let hz = self.timer_frequency_hz();
        CPU_CYCLES_PER_SECOND / hz as u64
    }

    /// One divider step: DIV goes up by one, wrapping.
    pub fn inc_div(&mut self)
        requires
            old(self).wf(),
        ensures
            final(self).wf(),
            old(self).same_except_mem(*final(self)),
            final(self).bus.mem@ == old(self).bus.mem@.update(
                DIV_ADDR as int, ((old(self).bus.mem@[DIV_ADDR as int] + 1) % 256) as u8),
    {
        let d = self.bus.get_io(DIV_ADDR);
        self.bus.set_io(DIV_ADDR, if d == 255 { 0 } else { d + 1 });
    }

    /// One timer counter step: TIMA goes up by one; on overflow it reloads
    /// from TMA and the timer interrupt is requested.
    pub fn timer_cycle(&mut self)
        requires
            old(self).wf(),
        ensures
            final(self).wf(),
            old(self).same_except_mem(*final(self)),
            ({
                let m = old(self).bus.mem@;
                let t = m[TIMA_ADDR as int];
                let m1 = m.update(TIMA_ADDR as int, tima_next(t, m[TMA_ADDR as int]));
                final(self).bus.mem@ == if t == 255 {
                    m1.update(IF_ADDR as int, set_spec(source_bit(Interrupt::Timer), m[IF_ADDR as int]))
                } else {
                    m1
                }
            }),
    {
        let t = self.bus.get_io(TIMA_ADDR);
        if t == 255 {
            let m = self.bus.get_io(TMA_ADDR);
            self.bus.set_io(TIMA_ADDR, m);
            self.request_interrupt(Interrupt::Timer);
        } else {
            self.bus.set_io(TIMA_ADDR, t + 1);
        }
    }

    /// One scanline: LY advances, wrapping after the last line; reaching the
    /// first vertical blank line requests the VBlank interrupt.
    pub fn inc_ly(&mut self)
        requires
            old(self).wf(),
        ensures
            final(self).wf(),
            old(self).same_except_mem(*final(self)),
            ({
                let m = old(self).bus.mem@;
                let nl = ly_next(m[LY_ADDR as int]);
                let m1 = m.update(LY_ADDR as int, nl);
                final(self).bus.mem@ == if nl == VBLANK_LINE {
                    m1.update(IF_ADDR as int, set_spec(source_bit(Interrupt::VBlank), m[IF_ADDR as int]))
                } else {
                    m1
                }
            }),
    {
        let ly = self.bus.get_io(LY_ADDR);
        let nl: u8 = if ly >= 153 { 0 } else { ly + 1 };
        self.bus.set_io(LY_ADDR, nl);
        if nl == VBLANK_LINE {
            self.request_interrupt(Interrupt::VBlank);
        }
    }

    /// Steps the divider once for every 256 cycles accumulated.
    pub fn step_divider(&mut self, cycles: u32)
        requires
            old(self).wf(),
        ensures
            final(self).wf(),
            final(self).bus.div_counter == (old(self).bus.div_counter + cycles) % 256,
            final(self).bus.mem@ == old(self).bus.mem@.update(DIV_ADDR as int,
                div_after(old(self).bus.mem@[DIV_ADDR as int], old(self).bus.div_counter as int, cycles as int)),
            old(self).same_except_mem(Cpu { bus: crate::bus::Bus { div_counter: old(self).bus.div_counter, ..final(self).bus }, ..*final(self) }),
    {
        let ghost pre = *self;
        let ghost x: int = self.bus.div_counter + cycles;
        let mut acc: u64 = self.bus.div_counter as u64 + cycles as u64;
        let ghost mut steps: int = 0;
        while acc >= CPU_CYCLES_PER_DIVIDER_STEP
            invariant
                self.wf(),
                pre.wf(),
                pre.same_except_mem(*self),
                acc + 256 * steps == x,
                steps >= 0,
                self.bus.mem@ == pre.bus.mem@.update(DIV_ADDR as int,
                    ((pre.bus.mem@[DIV_ADDR as int] + steps) % 256) as u8),
            decreases acc,
        {
            let ghost d0 = pre.bus.mem@[DIV_ADDR as int] as int;
            let ghost before = self.bus.mem@;
            assert(before[DIV_ADDR as int] == ((d0 + steps) % 256) as u8);
            self.inc_div();
            acc = acc - CPU_CYCLES_PER_DIVIDER_STEP;
            proof {
                assert(((d0 + steps) % 256 + 1) % 256 == (d0 + steps + 1) % 256) by (nonlinear_arith)
                    requires d0 >= 0, steps >= 0;
                steps = steps + 1;
                assert(self.bus.mem@ =~= pre.bus.mem@.update(DIV_ADDR as int, ((d0 + steps) % 256) as u8));
            }
        }
        proof {
            lemma_fundamental_div_mod_converse(x, 256, steps, acc as int);
        }
        self.bus.div_counter = acc as u16;
    }

    /// Steps the timer counter once per elapsed timer period, while the
    /// timer is enabled; each overflow requests the timer interrupt.
    pub fn step_timer(&mut self, cycles: u32)
        requires
            old(self).wf(),
        ensures
            final(self).wf(),
            ({
                let m = old(self).bus.mem@;
                let tac = m[TAC_ADDR as int];
                let ticks = timer_ticks(*old(self), cycles as int);
                &&& final(self).timer_cycles == if timer_enabled(tac) {
                        (old(self).timer_cycles + cycles) % timer_period(tac)
                    } else {
                        old(self).timer_cycles as int
                    }
                &&& final(self).bus.mem@[TIMA_ADDR as int] == tima_after(m[TIMA_ADDR as int], m[TMA_ADDR as int], ticks)
                &&& final(self).bus.mem@[IF_ADDR as int] == set_if(
                        timer_overflowed(m[TIMA_ADDR as int], m[TMA_ADDR as int], ticks),
                        source_bit(Interrupt::Timer), m[IF_ADDR as int])
                &&& mem_same_except(m, final(self).bus.mem@, TIMA_ADDR, IF_ADDR)
                &&& old(self).same_except_mem(Cpu { timer_cycles: old(self).timer_cycles, ..*final(self) })
            }),
    {
        let tac = self.bus.get_io(TAC_ADDR);
        if (tac / 4) % 2 != 1 {
            return;
        }
        let period = self.timer_period_cycles();
        let ghost pre = *self;
        let ghost x: int = self.timer_cycles + cycles;
        let mut acc: u64 = self.timer_cycles + cycles as u64;
        let ghost mut steps: int = 0;
        let tma = self.bus.get_io(TMA_ADDR);
        while acc >= period
            invariant
                self.wf(),
                pre.wf(),
                pre.same_except_mem(*self),
                period == timer_period(tac),
                0 < period <= MAX_TIMER_PERIOD,
                acc + period * steps == x,
                steps >= 0,
                tma == pre.bus.mem@[TMA_ADDR as int],
                self.bus.mem@[TIMA_ADDR as int] == tima_after(pre.bus.mem@[TIMA_ADDR as int], tma, steps as nat),
                self.bus.mem@[IF_ADDR as int] == set_if(
                    timer_overflowed(pre.bus.mem@[TIMA_ADDR as int], tma, steps as nat),
                    source_bit(Interrupt::Timer), pre.bus.mem@[IF_ADDR as int]),
                mem_same_except(pre.bus.mem@, self.bus.mem@, TIMA_ADDR, IF_ADDR),
            decreases acc,
        {
            proof {
                lemma_set_bit_idempotent(source_bit(Interrupt::Timer), pre.bus.mem@[IF_ADDR as int]);
            }
            self.timer_cycle();
            acc = acc - period;
            proof {
                assert(period * (steps + 1) == period * steps + period) by (nonlinear_arith);
                steps = steps + 1;
            }
        }
        proof {
            assert(period * steps == steps * period) by (nonlinear_arith);
            lemma_fundamental_div_mod_converse(x, period as int, steps, acc as int);
        }
        self.timer_cycles = acc;
    }

    /// Advances the scanline counter once per elapsed horizontal sync.
    pub fn step_scanline(&mut self, cycles: u32)
        requires
            old(self).wf(),
        ensures
            final(self).wf(),
            ({
                let m = old(self).bus.mem@;
                let x = old(self).hsync_cycles + cycles;
                &&& final(self).hsync_cycles == x % (CYCLES_PER_HSYNC as int)
                &&& final(self).bus.mem@[LY_ADDR as int] == ly_after(m[LY_ADDR as int], (x / (CYCLES_PER_HSYNC as int)) as nat)
                &&& final(self).bus.mem@[IF_ADDR as int] == set_if(
                        vblank_reached(m[LY_ADDR as int], (x / (CYCLES_PER_HSYNC as int)) as nat),
                        source_bit(Interrupt::VBlank), m[IF_ADDR as int])
                &&& mem_same_except(m, final(self).bus.mem@, LY_ADDR, IF_ADDR)
                &&& old(self).same_except_mem(Cpu { hsync_cycles: old(self).hsync_cycles, ..*final(self) })
            }),
    {
        let ghost pre = *self;
        let ghost x: int = self.hsync_cycles + cycles;
        let mut acc: u64 = self.hsync_cycles + cycles as u64;
        let ghost mut steps: int = 0;
        while acc >= CYCLES_PER_HSYNC
            invariant
                self.wf(),
                pre.wf(),
                pre.same_except_mem(*self),
                acc + CYCLES_PER_HSYNC * steps == x,
                steps >= 0,
                self.bus.mem@[LY_ADDR as int] == ly_after(pre.bus.mem@[LY_ADDR as int], steps as nat),
                self.bus.mem@[IF_ADDR as int] == set_if(
                    vblank_reached(pre.bus.mem@[LY_ADDR as int], steps as nat),
                    source_bit(Interrupt::VBlank), pre.bus.mem@[IF_ADDR as int]),
                mem_same_except(pre.bus.mem@, self.bus.mem@, LY_ADDR, IF_ADDR),
            decreases acc,
        {
            proof {
                lemma_set_bit_idempotent(source_bit(Interrupt::VBlank), pre.bus.mem@[IF_ADDR as int]);
            }
            self.inc_ly();
            acc = acc - CYCLES_PER_HSYNC;
            proof {
                steps = steps + 1;
            }
        }
        proof {
            lemma_fundamental_div_mod_converse(x, CYCLES_PER_HSYNC as int, steps, acc as int);
        }
        self.hsync_cycles = acc;
    }

    /// Feeds `cycles` of execution to the peripherals: the divider, the timer
    /// counter (when enabled), the scanline counter and the frame cadence.
    /// Returns whether a simulated vertical blank fell within these cycles.
    pub fn advance(&mut self, cycles: u32) -> (frame_due: bool)
        requires
            old(self).wf(),
        ensures
            advance_post(*old(self), *final(self), cycles, frame_due),
    {
        let ghost pre = *self;
        self.total_cycles = self.total_cycles.saturating_add(cycles as u64);
        self.step_divider(cycles);
        let ghost d = self.bus.mem@[DIV_ADDR as int];
        let ghost m1 = *self;
        assert(timer_ticks(m1, cycles as int) == timer_ticks(pre, cycles as int));
        self.step_timer(cycles);
        assert(self.bus.mem@[DIV_ADDR as int] == d);
        self.step_scanline(cycles);
        assert(self.bus.mem@[DIV_ADDR as int] == d);
        let f = self.frame_cycles + cycles as u64;
        self.frame_cycles = f % CPU_CYCLES_PER_VBLANK;
        f >= CPU_CYCLES_PER_VBLANK
    }
}

} // verus!
