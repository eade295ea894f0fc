//! The opcode dispatcher: fetch, decode and execute over the register file
//! and the bus, one instruction per call.
use vstd::prelude::*;
use crate::alu::{
    add8, add8_spec, and8, bit_is_set, logic_result, or8, res_bit, res_spec, rl, rl_spec, rlc, rlc_spec, rr,
    rr_spec, rrc, rrc_spec, set_bit, set_spec, sla, sla_spec, sra, sra_spec, srl, srl_spec, sub8, sub8_spec,
    swap, swap_spec, test_bit, xor8, AluResult, Flags, flags_byte, flags_of_byte, daa_spec, add16, add_sp_offset, daa, dec8, inc8, signed8,
};
use crate::bus::Bus;
use crate::cpu::{pair, CrashInfo, Cpu, Registers, RunState};
use crate::interrupts::{service_post, INTERRUPT_SERVICE_COST};
use crate::timer::advance_post;

verus! {

/// Cost reported for each call while crashed, and for the crashing fetch.
pub const CRASHED_COST: u32 = 10;
/// Cost of one call while halted or stopped.
pub const HALT_COST: u32 = 4;
/// The prefix byte that selects the extended instruction table.
pub const CB_PREFIX: u8 = 0xCB;
pub const OP_NOP: u8 = 0x00;
pub const OP_HALT: u8 = 0x76;
pub const OP_DI: u8 = 0xF3;
pub const OP_EI: u8 = 0xFB;
pub const OP_RETI: u8 = 0xD9;

/// What one step of the machine did.
#[derive(Clone, Copy, Debug, PartialEq, Eq, Structural)]
pub struct StepOutcome {
    /// Cycles spent: the instruction (or idle call) plus any interrupt dispatch.
    pub cycles: u32,
    /// Whether a simulated vertical blank fell within this step, so a frame
    /// should be presented.
    pub frame_due: bool,
}

/// `post` is `pre` after `step` returned `out`: one dispatch, then interrupt
/// service, then the peripherals advanced by the cycles of both.
pub open spec fn step_post(pre: Cpu, post: Cpu, out: StepOutcome) -> bool {
    exists|m1: Cpu, m2: Cpu, c: u32, s: u32|
        #![trigger dispatch_post(pre, m1, c), service_post(m1, m2, s)]
        dispatch_post(pre, m1, c) && service_post(m1, m2, s)
        && out.cycles == c + s
        && advance_post(m2, post, out.cycles, out.frame_due)
}

/// Sum of a sequence of cycle costs.
pub open spec fn cost_sum(costs: Seq<u32>) -> int
    decreases costs.len(),
{
    if costs.len() == 0 { 0 } else { cost_sum(costs.drop_last()) + costs.last() }
}

/// Each state follows the one before it by one `dispatch_opcode` call, with
/// the cost at the same index.
pub open spec fn dispatch_chain(states: Seq<Cpu>, costs: Seq<u32>) -> bool {
    &&& states.len() == costs.len() + 1
    &&& forall|i: int| 0 <= i < costs.len() ==> #[trigger] dispatch_post(states[i], states[i + 1], costs[i])
}

/// Whether the base table defines `op`.
pub open spec fn opcode_defined(op: u8) -> bool {
    !(op == 0xD3 || op == 0xDB || op == 0xDD || op == 0xE3 || op == 0xE4 || op == 0xEB
        || op == 0xEC || op == 0xED || op == 0xF4 || op == 0xFC || op == 0xFD)
}

pub open spec fn wrap16(x: int) -> u16 {
    (x % 0x10000) as u16
}

/// An eight-bit operand by index: a register, or for 6 the byte at HL.
pub open spec fn operand(cpu: Cpu, idx: u8) -> u8 {
    if idx == 6 { cpu.bus.read_spec(cpu.regs.hl()) } else { cpu.regs.r8(idx) }
}

/// `post` is `pre` with `v` stored into operand `idx`.
pub open spec fn operand_stored(pre: Cpu, post: Cpu, idx: u8, v: u8) -> bool {
    &&& pre.same_control(post)
    &&& if idx == 6 {
        post.regs == pre.regs && pre.bus.written(post.bus, pre.regs.hl(), v)
    } else {
        post.regs == pre.regs.with_r8(idx, v) && post.bus == pre.bus
    }
}

/// The accumulator operation selected by bits 5..3 of an arithmetic opcode:
/// ADD, ADC, SUB, SBC, AND, XOR, OR, CP.
pub open spec fn alu_spec(kind: u8, a: u8, b: u8, f: Flags) -> AluResult {
    if kind == 0 { add8_spec(a, b, false) }
    else if kind == 1 { add8_spec(a, b, f.c) }
    else if kind == 2 { sub8_spec(a, b, false) }
    else if kind == 3 { sub8_spec(a, b, f.c) }
    else if kind == 4 { logic_result(a & b, true) }
    else if kind == 5 { logic_result(a ^ b, false) }
    else if kind == 6 { logic_result(a | b, false) }
    else { AluResult { value: a, flags: sub8_spec(a, b, false).flags } }
}

/// The shift or rotate selected by bits 5..3 of an extended opcode below 0x40:
/// RLC, RRC, RL, RR, SLA, SRA, SWAP, SRL.
pub open spec fn shift_spec(kind: u8, v: u8, f: Flags) -> AluResult {
    if kind == 0 { rlc_spec(v) }
    else if kind == 1 { rrc_spec(v) }
    else if kind == 2 { rl_spec(v, f.c) }
    else if kind == 3 { rr_spec(v, f.c) }
    else if kind == 4 { sla_spec(v) }
    else if kind == 5 { sra_spec(v) }
    else if kind == 6 { swap_spec(v) }
    else { srl_spec(v) }
}

/// Registers after an accumulator operation.
pub open spec fn regs_after_alu(regs: Registers, kind: u8, b: u8) -> Registers {
    let res = alu_spec(kind, regs.a, b, regs.f);
    Registers { a: res.value, f: res.flags, ..regs }
}

/// The machine once an instruction at the program counter has been fetched:
/// a scheduled interrupt enable has taken effect and the program counter is
/// past the opcode (unless the halt quirk holds it back once).
pub open spec fn begin(pre: Cpu) -> Cpu {
    Cpu {
        regs: Registers { pc: if pre.halt_bug { pre.regs.pc } else { wrap16(pre.regs.pc + 1) }, ..pre.regs },
        ime: pre.ime || pre.ime_scheduled,
        ime_scheduled: false,
        halt_bug: false,
        ..pre
    }
}

/// `post` is `pre` with the program counter moved on by `n`.
pub open spec fn pc_moved(pre: Cpu, post: Cpu, n: int) -> bool {
    post == (Cpu { regs: Registers { pc: wrap16(pre.regs.pc + n), ..pre.regs }, ..pre })
}

/// The effect of an extended-table instruction `cb` on `pre` (whose program
/// counter is already past both bytes), and its cost.
pub open spec fn cb_effect(pre: Cpu, post: Cpu, cb: u8, cycles: u32) -> bool {
    let idx = cb % 8;
    let n = (cb / 8) % 8;
    let v = operand(pre, idx);
    if cb < 0x40 {
        let res = shift_spec(n, v, pre.regs.f);
        &&& operand_stored(Cpu { regs: Registers { f: res.flags, ..pre.regs }, ..pre }, post, idx, res.value)
        &&& cycles == if idx == 6 { 16u32 } else { 8u32 }
    } else if cb < 0x80 {
        &&& post == (Cpu { regs: Registers { f: Flags { z: !bit_is_set(v as int, n as int), n: false, h: true, c: pre.regs.f.c }, ..pre.regs }, ..pre })
        &&& cycles == if idx == 6 { 12u32 } else { 8u32 }
    } else {
        &&& operand_stored(pre, post, idx, if cb < 0xC0 { res_spec(n as int, v) } else { set_spec(n as int, v) })
        &&& cycles == if idx == 6 { 16u32 } else { 8u32 }
    }
}

/// `post` keeps the crash record, the halt quirk and the cycle counters of `pre`.
pub open spec fn keeps_bookkeeping(pre: Cpu, post: Cpu) -> bool {
    &&& post.crash == pre.crash
    &&& post.halt_bug == pre.halt_bug
    &&& post.total_cycles == pre.total_cycles
    &&& post.hsync_cycles == pre.hsync_cycles
    &&& post.timer_cycles == pre.timer_cycles
    &&& post.frame_cycles == pre.frame_cycles
}

/// What an instruction does to the interrupt master enable: DI turns it off
/// at once, EI schedules it for after the next instruction, RETI turns it on
/// at once, and every other instruction leaves it alone.
pub open spec fn ime_effect(op: u8, pre: Cpu, post: Cpu) -> bool {
    if op == OP_DI {
        !post.ime && !post.ime_scheduled
    } else if op == OP_EI {
        post.ime == pre.ime && post.ime_scheduled
    } else if op == OP_RETI {
        post.ime && post.ime_scheduled == pre.ime_scheduled
    } else {
        post.ime == pre.ime && post.ime_scheduled == pre.ime_scheduled
    }
}

/// The run state after an instruction: STOP stops, HALT halts (unless the
/// halt quirk applies), all else keeps running.
pub open spec fn run_state_after(op: u8, pre: Cpu) -> RunState {
    if op == 0x10 {
        RunState::Stopped
    } else if op == OP_HALT && (pre.ime || !pre.has_pending()) {
        RunState::Halted
    } else {
        RunState::Normal
    }
}

/// Register pair by index: 0 BC, 1 DE, 2 HL, 3 SP.
pub open spec fn pair_spec(regs: Registers, p: u8) -> u16 {
    if p == 0 { regs.bc() } else if p == 1 { regs.de() } else if p == 2 { regs.hl() } else { regs.sp }
}

pub open spec fn with_pair(regs: Registers, p: u8, v: u16) -> Registers {
    if p == 0 { Registers { b: (v / 256) as u8, c: (v % 256) as u8, ..regs } }
    else if p == 1 { Registers { d: (v / 256) as u8, e: (v % 256) as u8, ..regs } }
    else if p == 2 { Registers { h: (v / 256) as u8, l: (v % 256) as u8, ..regs } }
    else { Registers { sp: v, ..regs } }
}

/// Branch condition by index: 0 NZ, 1 Z, 2 NC, 3 C.
pub open spec fn condition_holds(f: Flags, cc: u8) -> bool {
    if cc == 0 { !f.z } else if cc == 1 { f.z } else if cc == 2 { !f.c } else { f.c }
}

/// `pre` with its program counter set to `pc`.
pub open spec fn at_pc(pre: Cpu, pc: int) -> Cpu {
    Cpu { regs: Registers { pc: wrap16(pc + 0x10000), ..pre.regs }, ..pre }
}

/// The byte that follows the opcode (the program counter is already past the opcode).
pub open spec fn imm8(pre: Cpu) -> u8 {
    pre.bus.read_spec(pre.regs.pc)
}

/// The 16-bit value that follows the opcode.
pub open spec fn imm16(pre: Cpu) -> u16 {
    pre.bus.read16_spec(pre.regs.pc)
}

/// Registers after one of RLCA, RRCA, RLA, RRA, DAA, CPL, SCF, CCF
/// (selected by bits 5..3 of the opcode).
pub open spec fn accumulator_op(y: u8, regs: Registers) -> Registers {
    let a = regs.a;
    let f = regs.f;
    if y < 4 {
        let res = if y == 0 { rlc_spec(a) } else if y == 1 { rrc_spec(a) } else if y == 2 { rl_spec(a, f.c) } else { rr_spec(a, f.c) };
        Registers { a: res.value, f: Flags { z: false, ..res.flags }, ..regs }
    } else if y == 4 {
        Registers { a: daa_spec(a, f).value, f: daa_spec(a, f).flags, ..regs }
    } else if y == 5 {
        Registers { a: (255 - a) as u8, f: Flags { z: f.z, n: true, h: true, c: f.c }, ..regs }
    } else if y == 6 {
        Registers { f: Flags { z: f.z, n: false, h: false, c: true }, ..regs }
    } else {
        Registers { f: Flags { z: f.z, n: false, h: false, c: !f.c }, ..regs }
    }
}

/// What an instruction of 0x00..0x3F does, given the machine with the
/// program counter past the opcode.
pub open spec fn block0_effect(op: u8, pre: Cpu, post: Cpu, r: u32) -> bool {
    &&& keeps_bookkeeping(pre, post)
    &&& ime_effect(op, pre, post)
    &&& post.state == run_state_after(op, pre)
    &&& 4 <= r <= 24
    &&& if op % 8 == 0 {
            control_effect(op, pre, post, r)
        } else if op % 8 == 1 {
            pair_arith_effect(op, pre, post, r)
        } else if op % 8 == 2 {
            indirect_effect(op, pre, post, r)
        } else if op % 8 == 3 {
            pair_step_effect(op, pre, post, r)
        } else if op % 8 == 7 {
            r == 4 && post == (Cpu { regs: accumulator_op((op / 8) % 8, pre.regs), ..pre })
        } else {
            single_effect(op, pre, post, r)
        }
}

/// NOP, LD (a16),SP, STOP and the relative jumps.
pub open spec fn control_effect(op: u8, pre: Cpu, post: Cpu, r: u32) -> bool {
    let y = (op / 8) % 8;
    &&& op == OP_NOP ==> post == pre && r == 4
    &&& op == 0x08 ==> post.regs == at_pc(pre, pre.regs.pc + 2).regs
            && pre.bus.written16(post.bus, imm16(pre), pre.regs.sp) && r == 20
    &&& op == 0x10 ==> post == (Cpu { state: RunState::Stopped, ..at_pc(pre, pre.regs.pc + 1) }) && r == 4
    &&& op == 0x18 ==> post == at_pc(pre, pre.regs.pc + 1 + signed8(imm8(pre))) && r == 12
    &&& op >= 0x20 ==> if condition_holds(pre.regs.f, (y - 4) as u8) {
            post == at_pc(pre, pre.regs.pc + 1 + signed8(imm8(pre))) && r == 12
        } else {
            post == at_pc(pre, pre.regs.pc + 1) && r == 8
        }
}

/// LD rr,d16 and ADD HL,rr.
pub open spec fn pair_arith_effect(op: u8, pre: Cpu, post: Cpu, r: u32) -> bool {
    let p = (op / 8) % 8 / 2;
    if op % 16 == 1 {
        post == (Cpu { regs: with_pair(at_pc(pre, pre.regs.pc + 2).regs, p, imm16(pre)), ..pre }) && r == 12
    } else {
        let hl = pre.regs.hl();
        let v = pair_spec(pre.regs, p);
        let f = Flags { z: pre.regs.f.z, n: false, h: hl % 4096 + v % 4096 > 4095, c: hl + v > 65535 };
        post == (Cpu { regs: Registers { f: f, ..with_pair(pre.regs, 2, wrap16(hl + v)) }, ..pre }) && r == 8
    }
}

/// Accumulator loads and stores through BC, DE, and HL with increment or decrement.
pub open spec fn indirect_effect(op: u8, pre: Cpu, post: Cpu, r: u32) -> bool {
    let p = (op / 8) % 8 / 2;
    let addr = if p == 0 { pre.regs.bc() } else if p == 1 { pre.regs.de() } else { pre.regs.hl() };
    let regs_hl = if p == 2 { with_pair(pre.regs, 2, wrap16(addr + 1)) }
        else if p == 3 { with_pair(pre.regs, 2, wrap16(addr + 0xFFFF)) }
        else { pre.regs };
    &&& r == 8
    &&& if op % 16 == 2 {
            post.regs == regs_hl && pre.bus.written(post.bus, addr, pre.regs.a)
        } else {
            post == (Cpu { regs: Registers { a: pre.bus.read_spec(addr), ..regs_hl }, ..pre })
        }
}

/// INC rr and DEC rr.
pub open spec fn pair_step_effect(op: u8, pre: Cpu, post: Cpu, r: u32) -> bool {
    let p = (op / 8) % 8 / 2;
    let v = pair_spec(pre.regs, p);
    &&& post == (Cpu {
            regs: with_pair(pre.regs, p, if op % 16 == 3 { wrap16(v + 1) } else { wrap16(v + 0xFFFF) }),
            ..pre
        })
    &&& r == 8
}

/// INC r, DEC r and LD r,d8.
pub open spec fn single_effect(op: u8, pre: Cpu, post: Cpu, r: u32) -> bool {
    let y = (op / 8) % 8;
    let v = operand(pre, y);
    if op % 8 == 6 {
        operand_stored(at_pc(pre, pre.regs.pc + 1), post, y, imm8(pre)) && r == if y == 6 { 12u32 } else { 8u32 }
    } else {
        let res = if op % 8 == 4 {
            AluResult { value: ((v + 1) % 256) as u8, flags: Flags { z: (v + 1) % 256 == 0, n: false, h: v % 16 == 15, c: pre.regs.f.c } }
        } else {
            AluResult { value: ((v + 255) % 256) as u8, flags: Flags { z: (v + 255) % 256 == 0, n: true, h: v % 16 == 0, c: pre.regs.f.c } }
        };
        operand_stored(Cpu { regs: Registers { f: res.flags, ..pre.regs }, ..pre }, post, y, res.value)
            && r == if y == 6 { 12u32 } else { 4u32 }
    }
}

/// `pre` after a return: the program counter popped from the stack.
pub open spec fn returned(pre: Cpu) -> Cpu {
    Cpu { regs: Registers { pc: pre.bus.read16_spec(pre.regs.sp), sp: wrap16(pre.regs.sp + 2), ..pre.regs }, ..pre }
}

/// `post` is `pre` with `v` pushed and the program counter set to `target`.
pub open spec fn called(pre: Cpu, post: Cpu, v: u16, target: u16) -> bool {
    &&& post.regs == (Registers { pc: target, sp: wrap16(pre.regs.sp + 0xFFFE), ..pre.regs })
    &&& crate::interrupts::stack_pushed(pre.bus, post.bus, pre.regs.sp, v)
}

/// What an instruction of 0xC0..0xFF (but the prefix) does, given the
/// machine with the program counter past the opcode.
pub open spec fn block3_effect(op: u8, pre: Cpu, post: Cpu, r: u32) -> bool {
    let y = (op / 8) % 8;
    &&& keeps_bookkeeping(pre, post)
    &&& ime_effect(op, pre, post)
    &&& post.state == RunState::Normal
    &&& 4 <= r <= 24
    &&& if op % 8 == 0 {
            returns_high_effect(op, pre, post, r)
        } else if op % 8 == 1 {
            pops_effect(op, pre, post, r)
        } else if op % 8 == 2 {
            jumps_loads_effect(op, pre, post, r)
        } else if op % 8 == 3 {
            if op == 0xC3 {
                post == at_pc(pre, imm16(pre) as int) && r == 16
            } else {
                post == (Cpu { ime: post.ime, ime_scheduled: post.ime_scheduled, ..pre }) && r == 4
            }
        } else if op % 8 == 6 {
            post == (Cpu { regs: regs_after_alu(at_pc(pre, pre.regs.pc + 1).regs, y, imm8(pre)), ..pre }) && r == 8
        } else if op % 8 == 7 {
            called(pre, post, pre.regs.pc, (y * 8) as u16) && r == 16
        } else {
            calls_pushes_effect(op, pre, post, r)
        }
}

/// Registers after adding a signed offset to the stack pointer, with its flags.
pub open spec fn sp_offset_regs(regs: Registers, e: u8) -> (u16, Flags) {
    let sp = regs.sp;
    (wrap16(sp + signed8(e) + 0x10000), Flags { z: false, n: false, h: sp % 16 + e % 16 > 15, c: sp % 256 + e > 255 })
}

/// Conditional returns, high-page loads, ADD SP,e and LD HL,SP+e.
pub open spec fn returns_high_effect(op: u8, pre: Cpu, post: Cpu, r: u32) -> bool {
    let y = (op / 8) % 8;
    let next = at_pc(pre, pre.regs.pc + 1);
    let high = (0xFF00 + imm8(pre)) as u16;
    if y < 4 {
        if condition_holds(pre.regs.f, y) { post == returned(pre) && r == 20 } else { post == pre && r == 8 }
    } else if y == 4 {
        post.regs == next.regs && pre.bus.written(post.bus, high, pre.regs.a) && r == 12
    } else if y == 6 {
        post == (Cpu { regs: Registers { a: pre.bus.read_spec(high), ..next.regs }, ..pre }) && r == 12
    } else {
        let (v, f) = sp_offset_regs(pre.regs, imm8(pre));
        if y == 5 {
            post == (Cpu { regs: Registers { sp: v, f: f, ..next.regs }, ..pre }) && r == 16
        } else {
            post == (Cpu { regs: Registers { f: f, ..with_pair(next.regs, 2, v) }, ..pre }) && r == 12
        }
    }
}

/// POP, RET, RETI, JP HL and LD SP,HL.
pub open spec fn pops_effect(op: u8, pre: Cpu, post: Cpu, r: u32) -> bool {
    let y = (op / 8) % 8;
    let p = y / 2;
    let sp = pre.regs.sp;
    if y % 2 == 0 {
        let v = pre.bus.read16_spec(sp);
        let base = Registers { sp: wrap16(sp + 2), ..pre.regs };
        &&& post == (Cpu {
                regs: if p == 3 {
                    Registers { a: (v / 256) as u8, f: flags_of_byte((v % 256) as u8), ..base }
                } else {
                    with_pair(base, p, v)
                },
                ..pre
            })
        &&& r == 12
    } else if p == 0 {
        post == returned(pre) && r == 16
    } else if p == 1 {
        post == (Cpu { ime: true, ..returned(pre) }) && r == 16
    } else if p == 2 {
        post == at_pc(pre, pre.regs.hl() as int) && r == 4
    } else {
        post == (Cpu { regs: Registers { sp: pre.regs.hl(), ..pre.regs }, ..pre }) && r == 8
    }
}

/// Conditional absolute jumps and accumulator loads through C or an address.
pub open spec fn jumps_loads_effect(op: u8, pre: Cpu, post: Cpu, r: u32) -> bool {
    let y = (op / 8) % 8;
    let via_c = (0xFF00 + pre.regs.c) as u16;
    let past = at_pc(pre, pre.regs.pc + 2);
    if y < 4 {
        if condition_holds(pre.regs.f, y) {
            post == at_pc(pre, imm16(pre) as int) && r == 16
        } else {
            post == past && r == 12
        }
    } else if y == 4 {
        post.regs == pre.regs && pre.bus.written(post.bus, via_c, pre.regs.a) && r == 8
    } else if y == 6 {
        post == (Cpu { regs: Registers { a: pre.bus.read_spec(via_c), ..pre.regs }, ..pre }) && r == 8
    } else if y == 5 {
        post.regs == past.regs && pre.bus.written(post.bus, imm16(pre), pre.regs.a) && r == 16
    } else {
        post == (Cpu { regs: Registers { a: pre.bus.read_spec(imm16(pre)), ..past.regs }, ..pre }) && r == 16
    }
}

/// Calls (conditional and not) and pushes.
pub open spec fn calls_pushes_effect(op: u8, pre: Cpu, post: Cpu, r: u32) -> bool {
    let y = (op / 8) % 8;
    let p = y / 2;
    if op % 8 == 5 && y % 2 == 0 {
        let v: u16 = if p == 3 { (pre.regs.a * 256 + flags_byte(pre.regs.f)) as u16 } else { pair_spec(pre.regs, p) };
        called(pre, post, v, pre.regs.pc) && r == 16
    } else if op == 0xCD || condition_holds(pre.regs.f, y) {
        called(pre, post, wrap16(pre.regs.pc + 2), imm16(pre)) && r == 24
    } else {
        post == at_pc(pre, pre.regs.pc + 2) && r == 12
    }
}

/// Enabling interrupts takes effect one instruction late: with IME off, the
/// machine right after EI still has IME off (so nothing is serviced), and
/// IME is on once the next instruction has been fetched.
pub proof fn lemma_ei_latency(before: Cpu, after_ei: Cpu)
    requires
        !before.ime,
        !before.ime_scheduled,
        ime_effect(OP_EI, begin(before), after_ei),
    ensures
        !after_ei.ime,
        begin(after_ei).ime,
{
}

/// `post` is `start` after `dispatch_opcode` returned `r`: one instruction
/// executed from the program counter (or one idle call while halted, stopped
/// or crashed), with its documented effect and cost.
pub open spec fn dispatch_post(start: Cpu, post: Cpu, r: u32) -> bool {
    &&& post.wf()
    &&& r <= 24
    &&& post.total_cycles == start.total_cycles
    &&& post.hsync_cycles == start.hsync_cycles
    &&& post.timer_cycles == start.timer_cycles
    &&& post.frame_cycles == start.frame_cycles
    &&& start.state == RunState::Crashed ==> post == start && r == CRASHED_COST
    &&& (start.state == RunState::Halted || start.state == RunState::Stopped) ==> r == HALT_COST
        && post == if start.has_pending() { Cpu { state: RunState::Normal, ..start } } else { start }
    &&& start.state == RunState::Normal ==> ({
        let op = start.bus.read_spec(start.regs.pc);
        let pre = begin(start);
        if !opcode_defined(op) {
            &&& post == (Cpu {
                    state: RunState::Crashed,
                    crash: Some(CrashInfo { opcode: op, addr: start.regs.pc }),
                    ..start
                })
            &&& r == CRASHED_COST
        } else {
            &&& 4 <= r <= 24
            &&& ime_effect(op, pre, post)
            &&& post.state == run_state_after(op, pre)
            &&& op != OP_HALT ==> keeps_bookkeeping(pre, post)
            &&& op == OP_HALT ==> post == (Cpu {
                    state: run_state_after(op, pre),
                    halt_bug: !pre.ime && pre.has_pending(),
                    ..pre
                }) && r == 4
            &&& op == OP_NOP ==> post == pre && r == 4
            &&& op < 0x40 ==> block0_effect(op, pre, post, r)
            &&& (op >= 0xC0 && op != CB_PREFIX) ==> block3_effect(op, pre, post, r)
            &&& (0x40 <= op < 0x80 && op != OP_HALT) ==>
                operand_stored(pre, post, (op / 8) % 8, operand(pre, op % 8))
                && r == if op % 8 == 6 || (op / 8) % 8 == 6 { 8u32 } else { 4u32 }
            &&& (0x80 <= op < 0xC0) ==> post == (Cpu {
                    regs: regs_after_alu(pre.regs, (op / 8) % 8, operand(pre, op % 8)),
                    ..pre
                }) && r == if op % 8 == 6 { 8u32 } else { 4u32 }
            &&& op == CB_PREFIX ==> cb_effect(
                    Cpu { regs: Registers { pc: wrap16(pre.regs.pc + 1), ..pre.regs }, ..pre },
                    post,
                    pre.bus.read_spec(pre.regs.pc),
                    r)
        }
    })
}

fn alu_exec(kind: u8, a: u8, b: u8, f: Flags) -> (r: AluResult)
    ensures
        r == alu_spec(kind, a, b, f),
{
    if kind == 0 { add8(a, b, false) }
    else if kind == 1 { add8(a, b, f.c) }
    else if kind == 2 { sub8(a, b, false) }
    else if kind == 3 { sub8(a, b, f.c) }
    else if kind == 4 { and8(a, b) }
    else if kind == 5 { xor8(a, b) }
    else if kind == 6 { or8(a, b) }
    else { AluResult { value: a, flags: sub8(a, b, false).flags } }
}

fn shift_exec(kind: u8, v: u8, f: Flags) -> (r: AluResult)
    ensures
        r == shift_spec(kind, v, f),
{
    if kind == 0 { rlc(v) }
    else if kind == 1 { rrc(v) }
    else if kind == 2 { rl(v, f.c) }
    else if kind == 3 { rr(v, f.c) }
    else if kind == 4 { sla(v) }
    else if kind == 5 { sra(v) }
    else if kind == 6 { swap(v) }
    else { srl(v) }
}

fn inc16(x: u16, n: u16) -> (r: u16)
    ensures
        r == wrap16(x + n),
{
    ((x as u32 + n as u32) % 0x10000) as u16
}

fn dec16(x: u16) -> (r: u16)
    ensures
        r == wrap16(x + 0xFFFF),
{
    if x == 0 { 0xFFFF } else { x - 1 }
}

fn is_defined(op: u8) -> (r: bool)
    ensures
        r == opcode_defined(op),
{
    !(op == 0xD3 || op == 0xDB || op == 0xDD || op == 0xE3 || op == 0xE4 || op == 0xEB
        || op == 0xEC || op == 0xED || op == 0xF4 || op == 0xFC || op == 0xFD)
}

impl Cpu {
    /// Reads the byte at the program counter and moves past it.
    fn fetch8(&mut self) -> (r: u8)
        requires
            old(self).wf(),
        ensures
            final(self).wf(),
            r == old(self).bus.read_spec(old(self).regs.pc),
            pc_moved(*old(self), *final(self), 1),
    {
        let b = self.bus.read8(self.regs.pc);
        self.regs.pc = inc16(self.regs.pc, 1);
        b
    }

    /// Reads a little-endian 16-bit immediate and moves past it.
    fn fetch16(&mut self) -> (r: u16)
        requires
            old(self).wf(),
        ensures
            final(self).wf(),
            r == old(self).bus.read16_spec(old(self).regs.pc),
            pc_moved(*old(self), *final(self), 2),
    {
        let lo = self.fetch8();
        let hi = self.fetch8();
        lo as u16 + 256 * hi as u16
    }

    fn read_operand(&self, idx: u8) -> (r: u8)
        requires
            self.wf(),
        ensures
            r == operand(*self, idx),
    {
        if idx == 6 {
            self.bus.read8(self.regs.get_hl())
        } else {
            self.regs.get_r8(idx)
        }
    }

    fn write_operand(&mut self, idx: u8, v: u8)
        requires
            old(self).wf(),
        ensures
            final(self).wf(),
            operand_stored(*old(self), *final(self), idx, v),
    {
        if idx == 6 {
            let hl = self.regs.get_hl();
            self.bus.write8(hl, v);
        } else {
            self.regs.set_r8(idx, v);
        }
    }

    /// Register pair by index: 0 BC, 1 DE, 2 HL, 3 SP.
    fn read_pair(&self, p: u8) -> (r: u16)
        ensures
            r == pair_spec(self.regs, p),
    {
        if p == 0 { self.regs.get_bc() }
        else if p == 1 { self.regs.get_de() }
        else if p == 2 { self.regs.get_hl() }
        else { self.regs.sp }
    }

    fn write_pair(&mut self, p: u8, v: u16)
        requires
            old(self).wf(),
        ensures
            final(self).wf(),
            old(self).same_control(*final(self)),
            final(self).bus == old(self).bus,
            final(self).regs == with_pair(old(self).regs, p, v),
    {
        let hi = (v / 256) as u8;
        let lo = (v % 256) as u8;
        if p == 0 { self.regs.b = hi; self.regs.c = lo; }
        else if p == 1 { self.regs.d = hi; self.regs.e = lo; }
        else if p == 2 { self.regs.h = hi; self.regs.l = lo; }
        else { self.regs.sp = v; }
    }

    fn pop16(&mut self) -> (r: u16)
        requires
            old(self).wf(),
        ensures
            final(self).wf(),
            old(self).same_control(*final(self)),
            final(self).bus == old(self).bus,
            final(self).regs == (Registers { sp: wrap16(old(self).regs.sp + 2), ..old(self).regs }),
            r == old(self).bus.read16_spec(old(self).regs.sp),
    {
        let v = self.bus.read16(self.regs.sp);
        self.regs.sp = inc16(self.regs.sp, 2);
        v
    }

    /// Condition by index: 0 NZ, 1 Z, 2 NC, 3 C.
    fn condition(&self, cc: u8) -> (r: bool)
        ensures
            r == condition_holds(self.regs.f, cc),
    {
        if cc == 0 { !self.regs.f.z }
        else if cc == 1 { self.regs.f.z }
        else if cc == 2 { !self.regs.f.c }
        else { self.regs.f.c }
    }

    /// Loads between eight-bit operands (0x40..0x7F but HALT).
    pub fn exec_ld_r_r(&mut self, op: u8) -> (r: u32)
        requires
            old(self).wf(),
            0x40 <= op < 0x80,
            op != OP_HALT,
        ensures
            final(self).wf(),
            operand_stored(*old(self), *final(self), (op / 8) % 8, operand(*old(self), op % 8)),
            r == if op % 8 == 6 || (op / 8) % 8 == 6 { 8u32 } else { 4u32 },
    {
        let v = self.read_operand(op % 8);
        self.write_operand((op / 8) % 8, v);
        if op % 8 == 6 || (op / 8) % 8 == 6 { 8 } else { 4 }
    }

    /// Accumulator arithmetic on an eight-bit operand (0x80..0xBF).
    pub fn exec_alu_r(&mut self, op: u8) -> (r: u32)
        requires
            old(self).wf(),
            0x80 <= op < 0xC0,
        ensures
            final(self).wf(),
            *final(self) == (Cpu {
                regs: regs_after_alu(old(self).regs, (op / 8) % 8, operand(*old(self), op % 8)),
                ..*old(self)
            }),
            r == if op % 8 == 6 { 8u32 } else { 4u32 },
    {
        let b = self.read_operand(op % 8);
        let res = alu_exec((op / 8) % 8, self.regs.a, b, self.regs.f);
        self.regs.a = res.value;
        self.regs.f = res.flags;
        if op % 8 == 6 { 8 } else { 4 }
    }

    /// Accumulator arithmetic on an immediate byte (0xC6, 0xCE, ..., 0xFE).
    pub fn exec_alu_imm(&mut self, op: u8) -> (r: u32)
        requires
            old(self).wf(),
        ensures
            final(self).wf(),
            *final(self) == (Cpu {
                regs: regs_after_alu(
                    Registers { pc: wrap16(old(self).regs.pc + 1), ..old(self).regs },
                    (op / 8) % 8,
                    old(self).bus.read_spec(old(self).regs.pc)),
                ..*old(self)
            }),
            r == 8,
    {
        let b = self.fetch8();
        let res = alu_exec((op / 8) % 8, self.regs.a, b, self.regs.f);
        self.regs.a = res.value;
        self.regs.f = res.flags;
        8
    }

    /// One instruction of the extended table; the program counter is past the prefix.
    pub fn exec_cb(&mut self) -> (r: u32)
        requires
            old(self).wf(),
        ensures
            final(self).wf(),
            ({
                let cb = old(self).bus.read_spec(old(self).regs.pc);
                let mid = Cpu { regs: Registers { pc: wrap16(old(self).regs.pc + 1), ..old(self).regs }, ..*old(self) };
                cb_effect(mid, *final(self), cb, r)
            }),
    {
        let cb = self.fetch8();
        let idx = cb % 8;
        let n = (cb / 8) % 8;
        let v = self.read_operand(idx);
        if cb < 0x40 {
            let res = shift_exec(n, v, self.regs.f);
            self.regs.f = res.flags;
            self.write_operand(idx, res.value);
            if idx == 6 { 16 } else { 8 }
        } else if cb < 0x80 {
            self.regs.f = test_bit(n, v, self.regs.f);
            if idx == 6 { 12 } else { 8 }
        } else {
            let nv = if cb < 0xC0 { res_bit(n, v) } else { set_bit(n, v) };
            self.write_operand(idx, nv);
            if idx == 6 { 16 } else { 8 }
        }
    }

    /// Moves the program counter by a signed offset.
    fn jump_relative(&mut self, e: u8)
        requires
            old(self).wf(),
        ensures
            final(self).wf(),
            *final(self) == (Cpu { regs: Registers { pc: wrap16(old(self).regs.pc + signed8(e) + 0x10000), ..old(self).regs }, ..*old(self) }),
    {
        let pc = self.regs.pc;
        self.regs.pc = ((pc as u32 + e as u32 + 0x10000 - if e >= 128 { 256u32 } else { 0u32 }) % 0x10000) as u16;
    }

    /// Instructions 0x00..0x3F: loads of immediates and through register
    /// pairs, 8- and 16-bit increments, relative jumps, accumulator rotates
    /// and flag operations.
    pub fn exec_block0(&mut self, op: u8) -> (r: u32)
        requires
            old(self).wf(),
            old(self).state == RunState::Normal,
            op < 0x40,
        ensures
            final(self).wf(),
            block0_effect(op, *old(self), *final(self), r),
    {
        let z = op % 8;
        if z == 0 {
            self.exec_b0_control(op)
        } else if z <= 3 {
            self.exec_b0_pairs(op)
        } else if z <= 6 {
            self.exec_b0_single(op)
        } else {
            self.exec_b0_accumulator(op)
        }
    }

    /// NOP, LD (a16),SP, STOP and the relative jumps.
    fn exec_b0_control(&mut self, op: u8) -> (r: u32)
        requires
            old(self).wf(),
            old(self).state == RunState::Normal,
            op < 0x40,
            op % 8 == 0,
        ensures
            final(self).wf(),
            block0_effect(op, *old(self), *final(self), r),
    {
        let y = (op / 8) % 8;
        if y == 0 {
            4
        } else if y == 1 {
            let addr = self.fetch16();
            let sp = self.regs.sp;
            self.bus.write16(addr, sp);
            20
        } else if y == 2 {
            let _ = self.fetch8();
            self.state = RunState::Stopped;
            4
        } else if y == 3 {
            let e = self.fetch8();
            self.jump_relative(e);
            12
        } else {
            let e = self.fetch8();
            if self.condition(y - 4) {
                self.jump_relative(e);
                12
            } else {
                8
            }
        }
    }

    /// Register-pair loads, adds, indirect accumulator loads and pair increments.
    #[verifier::spinoff_prover]
    #[verifier::rlimit(100)]
    fn exec_b0_pairs(&mut self, op: u8) -> (r: u32)
        requires
            old(self).wf(),
            old(self).state == RunState::Normal,
            op < 0x40,
            1 <= op % 8 <= 3,
        ensures
            final(self).wf(),
            block0_effect(op, *old(self), *final(self), r),
    {
        let y = (op / 8) % 8;
        let z = op % 8;
        let p = y / 2;
        let q = y % 2;
        if z == 1 {
            if q == 0 {
                let v = self.fetch16();
                self.write_pair(p, v);
                12
            } else {
                let hl = self.regs.get_hl();
                let res = add16(hl, self.read_pair(p), self.regs.f);
                self.write_pair(2, res.value);
                self.regs.f = res.flags;
                8
            }
        } else if z == 2 {
            let addr = if p == 0 { self.regs.get_bc() } else if p == 1 { self.regs.get_de() } else { self.regs.get_hl() };
            if q == 0 {
                let a = self.regs.a;
                self.bus.write8(addr, a);
            } else {
                self.regs.a = self.bus.read8(addr);
            }
            if p == 2 {
                self.write_pair(2, inc16(addr, 1));
            } else if p == 3 {
                self.write_pair(2, dec16(addr));
            }
            8
        } else {
            let v = self.read_pair(p);
            self.write_pair(p, if q == 0 { inc16(v, 1) } else { dec16(v) });
            8
        }
    }

    /// Eight-bit increments, decrements and immediate loads.
    #[verifier::spinoff_prover]
    #[verifier::rlimit(60)]
    fn exec_b0_single(&mut self, op: u8) -> (r: u32)
        requires
            old(self).wf(),
            old(self).state == RunState::Normal,
            op < 0x40,
            4 <= op % 8 <= 6,
        ensures
            final(self).wf(),
            block0_effect(op, *old(self), *final(self), r),
    {
        let y = (op / 8) % 8;
        let z = op % 8;
        if z == 4 || z == 5 {
            let v = self.read_operand(y);
            let res = if z == 4 { inc8(v, self.regs.f) } else { dec8(v, self.regs.f) };
            self.regs.f = res.flags;
            self.write_operand(y, res.value);
            if y == 6 { 12 } else { 4 }
        } else {
            let v = self.fetch8();
            self.write_operand(y, v);
            if y == 6 { 12 } else { 8 }
        }
    }

    /// Accumulator rotates, DAA, CPL, SCF and CCF.
    #[verifier::spinoff_prover]
    #[verifier::rlimit(60)]
    fn exec_b0_accumulator(&mut self, op: u8) -> (r: u32)
        requires
            old(self).wf(),
            old(self).state == RunState::Normal,
            op < 0x40,
            op % 8 == 7,
        ensures
            final(self).wf(),
            block0_effect(op, *old(self), *final(self), r),
    {
        let y = (op / 8) % 8;
        let a = self.regs.a;
        let f = self.regs.f;
        if y < 4 {
            let res = if y == 0 { rlc(a) } else if y == 1 { rrc(a) } else if y == 2 { rl(a, f.c) } else { rr(a, f.c) };
            self.regs.a = res.value;
            self.regs.f = Flags { z: false, ..res.flags };
        } else if y == 4 {
            let res = daa(a, f);
            self.regs.a = res.value;
            self.regs.f = res.flags;
        } else if y == 5 {
            self.regs.a = 255 - a;
            self.regs.f = Flags { z: f.z, n: true, h: true, c: f.c };
        } else if y == 6 {
            self.regs.f = Flags { z: f.z, n: false, h: false, c: true };
        } else {
            self.regs.f = Flags { z: f.z, n: false, h: false, c: !f.c };
        }
        4
    }

    /// Instructions 0xC0..0xFF but the prefix: returns, pops and pushes,
    /// absolute jumps and calls, restarts, high-page loads, stack pointer
    /// arithmetic, and the interrupt enable instructions.
    pub fn exec_block3(&mut self, op: u8) -> (r: u32)
        requires
            old(self).wf(),
            old(self).state == RunState::Normal,
            op >= 0xC0,
            op != CB_PREFIX,
            opcode_defined(op),
        ensures
            final(self).wf(),
            block3_effect(op, *old(self), *final(self), r),
    {
        let z = op % 8;
        if z == 0 {
            self.exec_b3_returns_high(op)
        } else if z == 1 {
            self.exec_b3_pops(op)
        } else if z == 2 || z == 3 {
            self.exec_b3_jumps(op)
        } else if z == 4 || z == 5 {
            self.exec_b3_calls_pushes(op)
        } else if z == 6 {
            self.exec_alu_imm(op)
        } else {
            self.exec_b3_restart(op)
        }
    }

    /// Conditional returns, high-page loads and stack pointer offsets.
    #[verifier::spinoff_prover]
    #[verifier::rlimit(60)]
    fn exec_b3_returns_high(&mut self, op: u8) -> (r: u32)
        requires
            old(self).wf(),
            old(self).state == RunState::Normal,
            op >= 0xC0,
            op != CB_PREFIX,
            opcode_defined(op),
            op % 8 == 0,
        ensures
            final(self).wf(),
            block3_effect(op, *old(self), *final(self), r),
    {
        let y = (op / 8) % 8;
        if y < 4 {
            if self.condition(y) {
                self.regs.pc = self.pop16();
                20
            } else {
                8
            }
        } else if y == 4 || y == 6 {
            let n = self.fetch8();
            let addr: u16 = 0xFF00 + n as u16;
            if y == 4 {
                let a = self.regs.a;
                self.bus.write8(addr, a);
            } else {
                self.regs.a = self.bus.read8(addr);
            }
            12
        } else {
            let e = self.fetch8();
            let res = add_sp_offset(self.regs.sp, e);
            self.regs.f = res.flags;
            if y == 5 {
                self.regs.sp = res.value;
                16
            } else {
                self.write_pair(2, res.value);
                12
            }
        }
    }

    /// Pops, returns, JP HL and LD SP,HL.
    #[verifier::spinoff_prover]
    #[verifier::rlimit(60)]
    fn exec_b3_pops(&mut self, op: u8) -> (r: u32)
        requires
            old(self).wf(),
            old(self).state == RunState::Normal,
            op >= 0xC0,
            op != CB_PREFIX,
            opcode_defined(op),
            op % 8 == 1,
        ensures
            final(self).wf(),
            block3_effect(op, *old(self), *final(self), r),
    {
        let y = (op / 8) % 8;
        let p = y / 2;
        let q = y % 2;
        if q == 0 {
            let v = self.pop16();
            if p == 3 {
                self.regs.a = (v / 256) as u8;
                self.regs.f = Flags::from_byte((v % 256) as u8);
            } else {
                self.write_pair(p, v);
            }
            12
        } else if p == 0 || p == 1 {
            self.regs.pc = self.pop16();
            if p == 1 {
                self.ime = true;
            }
            16
        } else if p == 2 {
            self.regs.pc = self.regs.get_hl();
            4
        } else {
            self.regs.sp = self.regs.get_hl();
            8
        }
    }

    /// Absolute jumps, loads through C or an address, DI and EI.
    #[verifier::spinoff_prover]
    #[verifier::rlimit(60)]
    fn exec_b3_jumps(&mut self, op: u8) -> (r: u32)
        requires
            old(self).wf(),
            old(self).state == RunState::Normal,
            op >= 0xC0,
            op != CB_PREFIX,
            opcode_defined(op),
            op % 8 == 2 || op % 8 == 3,
        ensures
            final(self).wf(),
            block3_effect(op, *old(self), *final(self), r),
    {
        let y = (op / 8) % 8;
        let z = op % 8;
        if z == 2 {
            if y < 4 {
                let addr = self.fetch16();
                if self.condition(y) {
                    self.regs.pc = addr;
                    16
                } else {
                    12
                }
            } else if y == 4 || y == 6 {
                let addr: u16 = 0xFF00 + self.regs.c as u16;
                if y == 4 {
                    let a = self.regs.a;
                    self.bus.write8(addr, a);
                } else {
                    self.regs.a = self.bus.read8(addr);
                }
                8
            } else {
                let addr = self.fetch16();
                if y == 5 {
                    let a = self.regs.a;
                    self.bus.write8(addr, a);
                } else {
                    self.regs.a = self.bus.read8(addr);
                }
                16
            }
        } else {
            if y == 0 {
                self.regs.pc = self.fetch16();
                16
            } else if y == 6 {
                self.ime = false;
                self.ime_scheduled = false;
                4
            } else {
                self.ime_scheduled = true;
                4
            }
        }
    }

    /// Calls and pushes.
    #[verifier::spinoff_prover]
    #[verifier::rlimit(60)]
    fn exec_b3_calls_pushes(&mut self, op: u8) -> (r: u32)
        requires
            old(self).wf(),
            old(self).state == RunState::Normal,
            op >= 0xC0,
            op != CB_PREFIX,
            opcode_defined(op),
            op % 8 == 4 || op % 8 == 5,
        ensures
            final(self).wf(),
            block3_effect(op, *old(self), *final(self), r),
    {
        let y = (op / 8) % 8;
        let z = op % 8;
        let p = y / 2;
        let q = y % 2;
        if z == 4 || q == 1 {
            let addr = self.fetch16();
            if z == 5 || self.condition(y) {
                let pc = self.regs.pc;
                self.push16(pc);
                self.regs.pc = addr;
                24
            } else {
                12
            }
        } else {
            let v = if p == 3 {
                self.regs.a as u16 * 256 + self.regs.f.to_byte() as u16
            } else {
                self.read_pair(p)
            };
            self.push16(v);
            16
        }
    }

    /// Restarts: a call to one of eight fixed addresses.
    #[verifier::spinoff_prover]
    fn exec_b3_restart(&mut self, op: u8) -> (r: u32)
        requires
            old(self).wf(),
            old(self).state == RunState::Normal,
            op >= 0xC0,
            op != CB_PREFIX,
            opcode_defined(op),
            op % 8 == 7,
        ensures
            final(self).wf(),
            block3_effect(op, *old(self), *final(self), r),
    {
        let y = (op / 8) % 8;
        let pc = self.regs.pc;
        self.push16(pc);
        self.regs.pc = y as u16 * 8;
        16
    }

    /// Executes one instruction, or one idle call while halted, stopped or
    /// crashed, and returns the cycles it took. An opcode that the base table
    /// does not define crashes the processor, recording the opcode and its
    /// address; a crashed processor stays as it is and reports a fixed cost.
    /// Halted or stopped, the processor idles until some source is both
    /// requested and enabled, whatever IME says. HALT with IME off and such a
    /// source present does not halt; instead the next opcode is fetched
    /// without advancing the program counter, so it runs twice.
    pub fn dispatch_opcode(&mut self) -> (r: u32)
        requires
            old(self).wf(),
        ensures
            dispatch_post(*old(self), *final(self), r),
    {
        if self.state == RunState::Crashed {
            return CRASHED_COST;
        }
        if self.state != RunState::Normal {
            if self.any_pending() {
                self.state = RunState::Normal;
            }
            return HALT_COST;
        }
        let pc = self.regs.pc;
        let op = self.bus.read8(pc);
        if !is_defined(op) {
            self.state = RunState::Crashed;
            self.crash = Some(CrashInfo { opcode: op, addr: pc });
            return CRASHED_COST;
        }
        if self.ime_scheduled {
            self.ime = true;
            self.ime_scheduled = false;
        }
        if self.halt_bug {
            self.halt_bug = false;
        } else {
            self.regs.pc = inc16(pc, 1);
        }
        if op == OP_HALT {
            if !self.ime && self.any_pending() {
                self.halt_bug = true;
            } else {
                self.state = RunState::Halted;
            }
            4
        } else if op < 0x40 {
            self.exec_block0(op)
        } else if op < 0x80 {
            self.exec_ld_r_r(op)
        } else if op < 0xC0 {
            self.exec_alu_r(op)
        } else if op == CB_PREFIX {
            self.exec_cb()
        } else {
            self.exec_block3(op)
        }
    }
    /// One step of the driving loop: dispatch one instruction, service
    /// interrupts, and feed the cycles spent to the peripherals.
    pub fn step(&mut self) -> (r: StepOutcome)
        requires
            old(self).wf(),
        ensures
            final(self).wf(),
            r.cycles <= 24 + INTERRUPT_SERVICE_COST,
            step_post(*old(self), *final(self), r),
            old(self).state == RunState::Crashed ==> r.cycles == CRASHED_COST
                && final(self).regs == old(self).regs
                && final(self).state == RunState::Crashed
                && final(self).crash == old(self).crash,
            final(self).total_cycles == if old(self).total_cycles + r.cycles > u64::MAX {
                u64::MAX as int
            } else {
                old(self).total_cycles + r.cycles
            },
    {
        let ghost m0 = *self;
        let c = self.dispatch_opcode();
        let ghost m1 = *self;
        let s = self.service_interrupts();
        let ghost m2 = *self;
        let cycles = c + s;
        let frame_due = self.advance(cycles);
        assert(dispatch_post(m0, m1, c) && service_post(m1, m2, s)
            && advance_post(m2, *self, (c + s) as u32, frame_due));
        StepOutcome { cycles, frame_due }
    }

    /// Moves the program counter, for a debugger or a reset.
    pub fn jump_to(&mut self, addr: u16)
        ensures
            *final(self) == (Cpu { regs: Registers { pc: addr, ..old(self).regs }, ..*old(self) }),
    {
        self.regs.pc = addr;
    }

    /// Puts a crashed processor back into the normal run state, keeping the
    /// crash record for inspection. Other run states are left alone.
    pub fn recover(&mut self)
        ensures
            *final(self) == if old(self).state == RunState::Crashed {
                Cpu { state: RunState::Normal, ..*old(self) }
            } else {
                *old(self)
            },
    {
        if self.state == RunState::Crashed {
            self.state = RunState::Normal;
        }
    }

    /// Runs `n` instructions (stopping early only at a crash) and returns the
    /// cycles they took. Over a stretch of NOPs the program counter moves on
    /// by one and the cycle count by four for each instruction.
    pub fn run_instructions(&mut self, n: u32) -> (r: u64)
        requires
            old(self).wf(),
        ensures
            final(self).wf(),
            r <= 24 * n,
            old(self).state == RunState::Crashed ==> *final(self) == *old(self) && r == 0,
            (old(self).state == RunState::Normal && !old(self).halt_bug && !old(self).ime_scheduled
                && forall|i: int| 0 <= i < n ==> #[trigger] old(self).bus.read_spec(wrap16(old(self).regs.pc + i)) == OP_NOP)
                ==> final(self).regs == (Registers { pc: wrap16(old(self).regs.pc + n), ..old(self).regs })
                    && final(self).bus == old(self).bus
                    && final(self).state == RunState::Normal
                    && r == 4 * n,
            exists|states: Seq<Cpu>, costs: Seq<u32>|
                #![trigger dispatch_chain(states, costs)]
                dispatch_chain(states, costs)
                && states[0] == *old(self)
                && states.last() == *final(self)
                && costs.len() <= n
                && r == cost_sum(costs)
                && (costs.len() < n ==> final(self).state == RunState::Crashed),
    {
        let ghost pre = *self;
        let ghost mut states: Seq<Cpu> = seq![*self];
        let ghost mut costs: Seq<u32> = Seq::empty();
        let ghost nops = pre.state == RunState::Normal && !pre.halt_bug && !pre.ime_scheduled
            && forall|i: int| 0 <= i < n ==> #[trigger] pre.bus.read_spec(wrap16(pre.regs.pc + i)) == OP_NOP;
        let mut total: u64 = 0;
        let mut k: u32 = 0;
        while k < n && self.state != RunState::Crashed
            invariant
                self.wf(),
                k <= n,
                total <= 24 * k,
                pre.state == RunState::Crashed ==> *self == pre && total == 0,
                nops ==> forall|i: int| 0 <= i < n ==> #[trigger] pre.bus.read_spec(wrap16(pre.regs.pc + i)) == OP_NOP,
                nops ==> self.regs == (Registers { pc: wrap16(pre.regs.pc + k), ..pre.regs })
                    && self.bus == pre.bus
                    && self.state == RunState::Normal
                    && !self.halt_bug
                    && !self.ime_scheduled
                    && total == 4 * k,
                dispatch_chain(states, costs),
                states[0] == pre,
                states.last() == *self,
                costs.len() == k,
                total == cost_sum(costs),
            decreases n - k,
        {
            proof {
                if nops {
                    assert(pre.bus.read_spec(wrap16(pre.regs.pc + k)) == OP_NOP);
                    assert(wrap16(pre.regs.pc + k + 1) == wrap16(wrap16(pre.regs.pc + k) + 1));
                }
            }
            let ghost before = *self;
            let c = self.dispatch_opcode();
            proof {
                let s0 = states;
                let c0 = costs;
                states = states.push(*self);
                costs = costs.push(c);
                assert(costs.drop_last() =~= c0);
                assert forall|i: int| 0 <= i < costs.len() implies #[trigger] dispatch_post(states[i], states[i + 1], costs[i]) by {
                    if i < c0.len() {
                        assert(states[i] == s0[i] && states[i + 1] == s0[i + 1] && costs[i] == c0[i]);
                        assert(dispatch_post(s0[i], s0[i + 1], c0[i]));
                    } else {
                        assert(states[i] == before);
                    }
                }
            }
            total = total + c as u64;
            k = k + 1;
        }
        total
    }
}

} // verus!
