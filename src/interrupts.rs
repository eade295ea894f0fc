//! The interrupt controller: requests, priority, and vector dispatch.
use vstd::prelude::*;
use crate::alu::{bit_is_set, set_spec, res_spec, set_bit, res_bit};
use crate::bus::{Bus, IE_ADDR, IF_ADDR};
use crate::cpu::{Cpu, RunState};

verus! {

/// Cycles consumed by dispatching to an interrupt vector.
pub const INTERRUPT_SERVICE_COST: u32 = 20;

/// Interrupt sources, highest priority first.
#[derive(Clone, Copy, Debug, PartialEq, Eq, Structural)]
pub enum Interrupt {
    VBlank,
    LcdStat,
    Timer,
    Serial,
    Joypad,
}

/// The bit of a source in IF and IE, which is also its priority rank.
pub open spec fn source_bit(s: Interrupt) -> int {
    match s {
        Interrupt::VBlank => 0,
        Interrupt::LcdStat => 1,
        Interrupt::Timer => 2,
        Interrupt::Serial => 3,
        Interrupt::Joypad => 4,
    }
}

/// Service vector of the source with bit `i`.
pub open spec fn vector_of(i: int) -> u16 {
    (0x40 + 8 * i) as u16
}

/// The highest-priority source that is both requested and enabled.
pub open spec fn first_pending(iflag: u8, ie: u8) -> Option<int> {
    if bit_is_set(iflag as int, 0) && bit_is_set(ie as int, 0) { Some(0) }
    else if bit_is_set(iflag as int, 1) && bit_is_set(ie as int, 1) { Some(1) }
    else if bit_is_set(iflag as int, 2) && bit_is_set(ie as int, 2) { Some(2) }
    else if bit_is_set(iflag as int, 3) && bit_is_set(ie as int, 3) { Some(3) }
    else if bit_is_set(iflag as int, 4) && bit_is_set(ie as int, 4) { Some(4) }
    else { None }
}

/// `post` is `pre` with `val` pushed on the stack at `sp`, high byte first.
pub open spec fn stack_pushed(pre: Bus, post: Bus, sp: u16, val: u16) -> bool {
    exists|mid: Bus|
        #[trigger] pre.written(mid, ((sp + 0xFFFF) % 0x10000) as u16, (val / 256) as u8)
        && mid.written(post, ((sp + 0xFFFE) % 0x10000) as u16, (val % 256) as u8)
}

fn source_index(s: Interrupt) -> (r: u8)
    ensures r as int == source_bit(s),
{
    match s {
        Interrupt::VBlank => 0,
        Interrupt::LcdStat => 1,
        Interrupt::Timer => 2,
        Interrupt::Serial => 3,
        Interrupt::Joypad => 4,
    }
}

fn first_pending_exec(iflag: u8, ie: u8) -> (r: Option<u8>)
    ensures
        r is None <==> first_pending(iflag, ie) is None,
        r matches Some(i) ==> first_pending(iflag, ie) == Some(i as int) && i < 5,
{
    let mut i: u8 = 0;
    while i < 5
        invariant
            i <= 5,
            forall|j: int| 0 <= j < i ==> !(bit_is_set(iflag as int, j) && bit_is_set(ie as int, j)),
        decreases 5 - i,
    {
        let w = crate::alu::bit_weight(i);
        if (iflag / w) % 2 == 1 && (ie / w) % 2 == 1 {
            return Some(i);
        }
        i = i + 1;
    }
    None
}

/// With VBlank and Timer both requested and enabled, VBlank is taken first,
/// and clearing its request leaves Timer requested.
pub proof fn lemma_vblank_before_timer(iflag: u8, ie: u8)
    requires
        bit_is_set(iflag as int, source_bit(Interrupt::VBlank)),
        bit_is_set(ie as int, source_bit(Interrupt::VBlank)),
        bit_is_set(iflag as int, source_bit(Interrupt::Timer)),
        bit_is_set(ie as int, source_bit(Interrupt::Timer)),
    ensures
        first_pending(iflag, ie) == Some(source_bit(Interrupt::VBlank)),
        bit_is_set(res_spec(source_bit(Interrupt::VBlank), iflag) as int, source_bit(Interrupt::Timer)),
        !bit_is_set(res_spec(source_bit(Interrupt::VBlank), iflag) as int, source_bit(Interrupt::VBlank)),
{
    let v = iflag as int;
    assert(v % 2 == 1);
    assert(res_spec(0, iflag) as int == v - 1);
    assert((v - 1) / 4 == v / 4) by (nonlinear_arith)
        requires v % 2 == 1, v >= 1;
    assert((v - 1) % 2 == 0);
}

/// `post` is `pre` after `service_interrupts` returned `r`: when IME is on
/// and some source is requested and enabled, the highest-priority one was
/// taken; otherwise nothing changed.
pub open spec fn service_post(pre: Cpu, post: Cpu, r: u32) -> bool {
    &&& post.wf()
    &&& r <= INTERRUPT_SERVICE_COST
    &&& post.total_cycles == pre.total_cycles
    &&& post.crash == pre.crash
    &&& post.ime_scheduled == pre.ime_scheduled
    &&& post.halt_bug == pre.halt_bug
    &&& post.hsync_cycles == pre.hsync_cycles
    &&& post.timer_cycles == pre.timer_cycles
    &&& post.frame_cycles == pre.frame_cycles
    &&& pre.state == RunState::Crashed ==> post == pre
    &&& ({
            let iflag = pre.bus.mem@[IF_ADDR as int];
            let ie = pre.bus.mem@[IE_ADDR as int];
            if !pre.ime || pre.state == RunState::Crashed || first_pending(iflag, ie) is None {
                r == 0 && post == pre
            } else {
                let i = first_pending(iflag, ie).unwrap();
                &&& r == INTERRUPT_SERVICE_COST
                &&& !post.ime
                &&& post.state == RunState::Normal
                &&& post.regs == (crate::cpu::Registers {
                        pc: vector_of(i),
                        sp: ((pre.regs.sp + 0xFFFE) % 0x10000) as u16,
                        ..pre.regs
                    })
                &&& exists|mid: Bus|
                    #[trigger] pre.bus.written(mid, IF_ADDR, res_spec(i, iflag))
                    && stack_pushed(mid, post.bus, pre.regs.sp, pre.regs.pc)
            }
        })
}

impl Cpu {
    /// Whether some source is both requested and enabled, whatever IME says.
    pub open spec fn has_pending(&self) -> bool {
        first_pending(self.bus.mem@[IF_ADDR as int], self.bus.mem@[IE_ADDR as int]) is Some
    }

    pub fn any_pending(&self) -> (r: bool)
        requires
            self.wf(),
        ensures
            r == self.has_pending(),
    {
        first_pending_exec(self.bus.get_io(IF_ADDR), self.bus.get_io(IE_ADDR)).is_some()
    }

    /// Sets the pending flag of `source`; nothing else changes.
    pub fn request_interrupt(&mut self, source: Interrupt)
        requires
            old(self).wf(),
        ensures
            final(self).wf(),
            final(self).bus.mem@ == old(self).bus.mem@.update(
                IF_ADDR as int, set_spec(source_bit(source), old(self).bus.mem@[IF_ADDR as int])),
            bit_is_set(final(self).bus.mem@[IF_ADDR as int] as int, source_bit(source)),
            final(self).bus.rom@ == old(self).bus.rom@,
            final(self).bus.rom_bank == old(self).bus.rom_bank,
            final(self).bus.mbc == old(self).bus.mbc,
            final(self).bus.has_ram == old(self).bus.has_ram,
            final(self).bus.div_counter == old(self).bus.div_counter,
            final(self).bus.buttons == old(self).bus.buttons,
            final(self).regs == old(self).regs,
            final(self).ime == old(self).ime,
            final(self).ime_scheduled == old(self).ime_scheduled,
            final(self).halt_bug == old(self).halt_bug,
            final(self).state == old(self).state,
            final(self).crash == old(self).crash,
            final(self).total_cycles == old(self).total_cycles,
            final(self).hsync_cycles == old(self).hsync_cycles,
            final(self).timer_cycles == old(self).timer_cycles,
            final(self).frame_cycles == old(self).frame_cycles,
    {
        let i = source_index(source);
        let v = self.bus.get_io(IF_ADDR);
        let nv = set_bit(i, v);
        assert(bit_is_set(nv as int, i as int)) by (nonlinear_arith)
            requires
                nv as int == if bit_is_set(v as int, i as int) { v as int } else { v + crate::alu::bit_weight_spec(i as int) },
                i < 5;
        self.bus.set_io(IF_ADDR, nv);
    }

    /// Pushes a 16-bit value, high byte first.
    pub fn push16(&mut self, val: u16)
        requires
            old(self).wf(),
        ensures
            final(self).wf(),
            final(self).regs == (crate::cpu::Registers { sp: ((old(self).regs.sp + 0xFFFE) % 0x10000) as u16, ..old(self).regs }),
            stack_pushed(old(self).bus, final(self).bus, old(self).regs.sp, val),
            final(self).ime == old(self).ime,
            final(self).ime_scheduled == old(self).ime_scheduled,
            final(self).halt_bug == old(self).halt_bug,
            final(self).state == old(self).state,
            final(self).crash == old(self).crash,
            final(self).total_cycles == old(self).total_cycles,
            final(self).hsync_cycles == old(self).hsync_cycles,
            final(self).timer_cycles == old(self).timer_cycles,
            final(self).frame_cycles == old(self).frame_cycles,
    {
        let sp = self.regs.sp;
        let s1: u16 = if sp == 0 { 0xFFFF } else { sp - 1 };
        let s2: u16 = if s1 == 0 { 0xFFFF } else { s1 - 1 };
        let ghost b0 = self.bus;
        self.bus.write8(s1, (val / 256) as u8);
        let ghost b1 = self.bus;
        self.bus.write8(s2, (val % 256) as u8);
        assert(b0.written(b1, ((sp + 0xFFFF) % 0x10000) as u16, (val / 256) as u8));
        self.regs.sp = s2;
    }

    /// After an instruction: when IME is on and some source is requested and
    /// enabled, the one of highest priority is taken. Its request bit is
    /// cleared, IME turns off, the program counter is pushed and replaced by
    /// the source's vector, and a halted processor resumes. Returns the cycles
    /// spent (zero when nothing was taken). A crashed processor takes nothing.
    pub fn service_interrupts(&mut self) -> (r: u32)
        requires
            old(self).wf(),
        ensures
            service_post(*old(self), *final(self), r),
    {
        if !self.ime || self.state == RunState::Crashed {
            return 0;
        }
        let iflag = self.bus.get_io(IF_ADDR);
        let ie = self.bus.get_io(IE_ADDR);
        match first_pending_exec(iflag, ie) {
            None => 0,
            Some(i) => {
                let ghost pre = *self;
                let cleared = res_bit(i, iflag);
                self.bus.write8(IF_ADDR, cleared);
                let ghost mid = self.bus;
                self.ime = false;
                if self.state != RunState::Normal {
                    self.state = RunState::Normal;
                }
                let pc = self.regs.pc;
                self.push16(pc);
                self.regs.pc = 0x40 + 8 * i as u16;
                assert(pre.bus.written(mid, IF_ADDR, res_spec(i as int, iflag)));
                INTERRUPT_SERVICE_COST
            },
        }
    }
}

} // verus!
