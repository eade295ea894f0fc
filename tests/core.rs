use rustyboy::alu::{add16, add8, add_sp_offset, daa, dec8, inc8, rl, rlc, rr, rrc, sla, sra, srl, sub8, swap, Flags};
use rustyboy::bus::{DIV_ADDR, DMA_ADDR, IE_ADDR, IF_ADDR, JOYP_ADDR, LY_ADDR, TAC_ADDR, TIMA_ADDR, TMA_ADDR};
use rustyboy::joypad::{axis_direction, AxisDirection, Button};
use rustyboy::cpu::{Cpu, CrashInfo, LoadError, RunState};
use rustyboy::exec::CRASHED_COST;
use rustyboy::fps::FpsCounter;
use rustyboy::interrupts::Interrupt;

const NO_FLAGS: Flags = Flags { z: false, n: false, h: false, c: false };

/// A 32KB ROM-only image with `program` at the entry point.
fn rom_with(program: &[u8]) -> Vec<u8> {
    let mut rom = vec![0u8; 0x8000];
    for (i, b) in program.iter().enumerate() {
        rom[0x100 + i] = *b;
    }
    rom
}

fn loaded(program: &[u8]) -> Cpu {
    let mut cpu = Cpu::new();
    cpu.load_rom(&rom_with(program)).unwrap();
    cpu
}

#[test]
fn add8_half_carry_and_carry() {
    let r = add8(0x0F, 0x01, false);
    assert_eq!(r.value, 0x10);
    assert_eq!(r.flags, Flags { z: false, n: false, h: true, c: false });
    let r = add8(0xFF, 0x01, false);
    assert_eq!(r.value, 0x00);
    assert_eq!(r.flags, Flags { z: true, n: false, h: true, c: true });
    let r = add8(0x3A, 0xC5, true);
    assert_eq!(r.value, 0x00);
    assert_eq!(r.flags, Flags { z: true, n: false, h: true, c: true });
}

#[test]
fn sub8_borrow() {
    let r = sub8(0x10, 0x01, false);
    assert_eq!(r.value, 0x0F);
    assert_eq!(r.flags, Flags { z: false, n: true, h: true, c: false });
    let r = sub8(0x00, 0x01, false);
    assert_eq!(r.value, 0xFF);
    assert_eq!(r.flags, Flags { z: false, n: true, h: true, c: true });
    let r = sub8(0x3B, 0x2A, true);
    assert_eq!(r.value, 0x10);
    assert_eq!(r.flags, Flags { z: false, n: true, h: false, c: false });
}

#[test]
fn inc_dec_keep_carry() {
    let carry = Flags { z: false, n: false, h: false, c: true };
    let r = inc8(0xFF, carry);
    assert_eq!(r.value, 0);
    assert_eq!(r.flags, Flags { z: true, n: false, h: true, c: true });
    let r = dec8(0x10, NO_FLAGS);
    assert_eq!(r.value, 0x0F);
    assert_eq!(r.flags, Flags { z: false, n: true, h: true, c: false });
}

#[test]
fn shifts_and_rotates() {
    assert_eq!(rlc(0x85).value, 0x0B);
    assert!(rlc(0x85).flags.c);
    assert_eq!(rrc(0x01).value, 0x80);
    assert!(rrc(0x01).flags.c);
    assert_eq!(rl(0x80, false).value, 0x00);
    assert!(rl(0x80, false).flags.z && rl(0x80, false).flags.c);
    assert_eq!(rr(0x01, true).value, 0x80);
    assert_eq!(sla(0xFF).value, 0xFE);
    assert_eq!(sra(0x8A).value, 0xC5);
    assert_eq!(srl(0x01).value, 0x00);
    assert!(srl(0x01).flags.z && srl(0x01).flags.c);
    assert_eq!(swap(0xF1).value, 0x1F);
}

#[test]
fn daa_after_bcd_add() {
    let s = add8(0x15, 0x27, false);
    let r = daa(s.value, s.flags);
    assert_eq!(r.value, 0x42);
    let s = sub8(0x42, 0x15, false);
    let r = daa(s.value, s.flags);
    assert_eq!(r.value, 0x27);
}

#[test]
fn sixteen_bit_arithmetic() {
    let r = add16(0x0FFF, 0x0001, NO_FLAGS);
    assert_eq!(r.value, 0x1000);
    assert!(r.flags.h && !r.flags.c);
    let r = add16(0xFFFF, 0x0001, NO_FLAGS);
    assert_eq!(r.value, 0x0000);
    assert!(r.flags.h && r.flags.c && !r.flags.z);
    let r = add_sp_offset(0xFFF8, 0x08);
    assert_eq!(r.value, 0x0000);
    assert!(r.flags.h && r.flags.c);
    let r = add_sp_offset(0x1000, 0xFE);
    assert_eq!(r.value, 0x0FFE);
}

#[test]
fn flag_byte_round_trip() {
    for v in 0..16u8 {
        let f = Flags::from_byte(v << 4);
        assert_eq!(f.to_byte(), v << 4);
    }
    assert_eq!(Flags::from_byte(0xBF).to_byte(), 0xB0);
}

#[test]
fn load_errors() {
    let mut cpu = Cpu::new();
    assert_eq!(cpu.load_rom(&vec![0u8; 0x100]), Err(LoadError::TooShort));
    let mut rom = rom_with(&[]);
    rom[0x147] = 0x05;
    assert_eq!(cpu.load_rom(&rom), Err(LoadError::UnsupportedCartridge(0x05)));
    let mut rom = rom_with(&[]);
    rom[0x148] = 0x09;
    assert_eq!(cpu.load_rom(&rom), Err(LoadError::BadRomSize(0x09)));
    let mut rom = rom_with(&[]);
    rom[0x149] = 0x06;
    assert_eq!(cpu.load_rom(&rom), Err(LoadError::BadRamSize(0x06)));
}

#[test]
fn failed_load_leaves_state() {
    let mut cpu = loaded(&[0x3C, 0x3C, 0x00]);
    cpu.dispatch_opcode();
    cpu.dispatch_opcode();
    cpu.bus.write8(0xC000, 0x77);
    let regs = cpu.regs;
    let mut rom = rom_with(&[]);
    rom[0x147] = 0xFC;
    assert_eq!(cpu.load_rom(&rom), Err(LoadError::UnsupportedCartridge(0xFC)));
    assert_eq!(cpu.regs, regs);
    assert_eq!(cpu.regs.a, 0x03);
    assert_eq!(cpu.bus.read8(0xC000), 0x77);
    assert_eq!(cpu.bus.read8(0x100), 0x3C);
}

#[test]
fn load_resets_state() {
    let mut cpu = loaded(&[0xD3]);
    cpu.step();
    assert_eq!(cpu.state, RunState::Crashed);
    cpu.load_rom(&rom_with(&[])).unwrap();
    assert_eq!(cpu.state, RunState::Normal);
    assert_eq!(cpu.regs.pc, 0x100);
    assert_eq!(cpu.regs.sp, 0xFFFE);
    assert_eq!(cpu.total_cycles, 0);
    assert_eq!(cpu.crash, None);
}

#[test]
fn title_from_header() {
    let mut rom = rom_with(&[]);
    for (i, b) in b"TESTGAME".iter().enumerate() {
        rom[0x134 + i] = *b;
    }
    let mut cpu = Cpu::new();
    cpu.load_rom(&rom).unwrap();
    assert_eq!(cpu.game_title(), b"TESTGAME".to_vec());
}

#[test]
fn nop_rom_end_to_end() {
    let mut cpu = Cpu::new();
    cpu.load_rom(&rom_with(&[])).unwrap();
    let start = cpu.regs.pc;
    let n: u32 = 1000;
    let mut cycles: u64 = 0;
    for _ in 0..n {
        cycles += cpu.dispatch_opcode() as u64;
    }
    assert_eq!(cpu.regs.pc, ((start as u32 + n) % 0x10000) as u16);
    assert_eq!(cycles, 4 * n as u64);
}

#[test]
fn div_write_resets() {
    for v in [0x00u8, 0x01, 0x5A, 0xFF] {
        let mut cpu = loaded(&[]);
        cpu.advance(256 * 7 + 100);
        assert_eq!(cpu.bus.read8(DIV_ADDR), 7);
        cpu.bus.write8(DIV_ADDR, v);
        assert_eq!(cpu.bus.read8(DIV_ADDR), 0);
        assert_eq!(cpu.bus.div_counter, 0);
    }
}

#[test]
fn div_every_256_cycles() {
    let mut cpu = loaded(&[]);
    cpu.advance(255);
    assert_eq!(cpu.bus.read8(DIV_ADDR), 0);
    cpu.advance(1);
    assert_eq!(cpu.bus.read8(DIV_ADDR), 1);
    let mut other = loaded(&[]);
    for _ in 0..64 {
        other.advance(4);
    }
    assert_eq!(other.bus.read8(DIV_ADDR), 1);
    let mut split = loaded(&[]);
    split.advance(100);
    split.advance(700);
    let mut whole = loaded(&[]);
    whole.advance(800);
    assert_eq!(split.bus.read8(DIV_ADDR), whole.bus.read8(DIV_ADDR));
    assert_eq!(whole.bus.read8(DIV_ADDR), 3);
    let mut wrap = loaded(&[]);
    wrap.advance(256 * 256 + 256);
    assert_eq!(wrap.bus.read8(DIV_ADDR), 1);
}

#[test]
fn timer_overflow_reloads() {
    let mut cpu = loaded(&[]);
    cpu.bus.write8(TAC_ADDR, 0x05);
    cpu.bus.write8(TIMA_ADDR, 0xFF);
    cpu.bus.write8(TMA_ADDR, 0x10);
    cpu.timer_cycle();
    assert_eq!(cpu.bus.read8(TIMA_ADDR), 0x10);
    assert_eq!(cpu.bus.read8(IF_ADDR) & 0x04, 0x04);
}

#[test]
fn timer_paced_by_frequency() {
    let mut cpu = loaded(&[]);
    cpu.bus.write8(TAC_ADDR, 0x05);
    assert_eq!(cpu.timer_frequency_hz(), 262144);
    assert_eq!(cpu.timer_period_cycles(), 16);
    cpu.bus.write8(TIMA_ADDR, 0xFF);
    cpu.bus.write8(TMA_ADDR, 0x10);
    cpu.advance(15);
    assert_eq!(cpu.bus.read8(TIMA_ADDR), 0xFF);
    cpu.advance(1);
    assert_eq!(cpu.bus.read8(TIMA_ADDR), 0x10);
    assert_eq!(cpu.bus.read8(IF_ADDR) & 0x04, 0x04);
    cpu.bus.write8(TAC_ADDR, 0x00);
    assert_eq!(cpu.timer_period_cycles(), 1024);
    cpu.advance(4000);
    assert_eq!(cpu.bus.read8(TIMA_ADDR), 0x10);
    cpu.bus.write8(TAC_ADDR, 0x06);
    assert_eq!(cpu.timer_frequency_hz(), 65536);
    cpu.bus.write8(TAC_ADDR, 0x07);
    assert_eq!(cpu.timer_period_cycles(), 256);
}

#[test]
fn scanline_and_vblank() {
    let mut cpu = loaded(&[]);
    cpu.advance(455);
    assert_eq!(cpu.bus.read8(LY_ADDR), 0);
    cpu.advance(1);
    assert_eq!(cpu.bus.read8(LY_ADDR), 1);
    let due = cpu.advance(456 * 143);
    assert!(!due);
    assert_eq!(cpu.bus.read8(LY_ADDR), 144);
    assert_eq!(cpu.bus.read8(IF_ADDR) & 0x01, 0x01);
    let due = cpu.advance(456 * 10);
    assert!(due);
    assert_eq!(cpu.bus.read8(LY_ADDR), 0);
}

#[test]
fn interrupt_priority() {
    let mut cpu = loaded(&[]);
    cpu.bus.write8(IE_ADDR, 0x05);
    cpu.request_interrupt(Interrupt::Timer);
    cpu.request_interrupt(Interrupt::VBlank);
    cpu.ime = true;
    let pc = cpu.regs.pc;
    assert_eq!(cpu.service_interrupts(), 20);
    assert_eq!(cpu.regs.pc, 0x40);
    assert_eq!(cpu.bus.read8(IF_ADDR) & 0x05, 0x04);
    assert!(!cpu.ime);
    assert_eq!(cpu.regs.sp, 0xFFFC);
    assert_eq!(cpu.bus.read16(0xFFFC), pc);
    assert_eq!(cpu.service_interrupts(), 0);
    cpu.ime = true;
    assert_eq!(cpu.service_interrupts(), 20);
    assert_eq!(cpu.regs.pc, 0x50);
}

#[test]
fn request_is_idempotent() {
    let mut cpu = loaded(&[]);
    cpu.request_interrupt(Interrupt::Serial);
    let once = cpu.bus.read8(IF_ADDR);
    cpu.request_interrupt(Interrupt::Serial);
    assert_eq!(cpu.bus.read8(IF_ADDR), once);
    assert_eq!(once & 0x08, 0x08);
    cpu.request_interrupt(Interrupt::Joypad);
    assert_eq!(cpu.bus.read8(IF_ADDR) & 0x10, 0x10);
    cpu.request_interrupt(Interrupt::LcdStat);
    assert_eq!(cpu.bus.read8(IF_ADDR) & 0x02, 0x02);
}

#[test]
fn ei_takes_effect_after_next_instruction() {
    let mut cpu = loaded(&[0xFB, 0x00, 0x00]);
    cpu.bus.write8(IE_ADDR, 0x04);
    cpu.request_interrupt(Interrupt::Timer);
    assert!(!cpu.ime);
    cpu.dispatch_opcode();
    assert_eq!(cpu.service_interrupts(), 0);
    assert_eq!(cpu.regs.pc, 0x101);
    cpu.dispatch_opcode();
    assert_eq!(cpu.regs.pc, 0x102);
    assert_eq!(cpu.service_interrupts(), 20);
    assert_eq!(cpu.regs.pc, 0x50);
    assert_eq!(cpu.bus.read16(cpu.regs.sp), 0x102);
}

#[test]
fn di_is_immediate() {
    let mut cpu = loaded(&[0xFB, 0xF3, 0x00]);
    cpu.bus.write8(IE_ADDR, 0x04);
    cpu.request_interrupt(Interrupt::Timer);
    cpu.step();
    cpu.step();
    assert!(!cpu.ime);
    cpu.step();
    assert_eq!(cpu.regs.pc, 0x103);
}

#[test]
fn undefined_opcode_crashes() {
    let mut cpu = loaded(&[0x3C, 0xD3, 0x00]);
    cpu.dispatch_opcode();
    assert_eq!(cpu.dispatch_opcode(), CRASHED_COST);
    assert_eq!(cpu.state, RunState::Crashed);
    assert_eq!(cpu.crash, Some(CrashInfo { opcode: 0xD3, addr: 0x101 }));
    let regs = cpu.regs;
    for _ in 0..5 {
        assert_eq!(cpu.dispatch_opcode(), CRASHED_COST);
        assert_eq!(cpu.regs, regs);
    }
    let out = cpu.step();
    assert_eq!(out.cycles, CRASHED_COST);
    assert_eq!(cpu.regs, regs);
    cpu.recover();
    assert_eq!(cpu.state, RunState::Normal);
    cpu.jump_to(0x102);
    assert_eq!(cpu.dispatch_opcode(), 4);
}

#[test]
fn halt_waits_for_pending() {
    let mut cpu = loaded(&[0x76, 0x3C]);
    cpu.bus.write8(IE_ADDR, 0x01);
    cpu.dispatch_opcode();
    assert_eq!(cpu.state, RunState::Halted);
    assert_eq!(cpu.dispatch_opcode(), 4);
    assert_eq!(cpu.state, RunState::Halted);
    cpu.request_interrupt(Interrupt::VBlank);
    cpu.dispatch_opcode();
    assert_eq!(cpu.state, RunState::Normal);
    cpu.dispatch_opcode();
    assert_eq!(cpu.regs.a, 0x02);
}

#[test]
fn halt_bug_repeats_next() {
    let mut cpu = loaded(&[0x76, 0x3C, 0x00]);
    cpu.bus.write8(IE_ADDR, 0x01);
    cpu.request_interrupt(Interrupt::VBlank);
    cpu.dispatch_opcode();
    assert_eq!(cpu.state, RunState::Normal);
    assert!(cpu.halt_bug);
    cpu.dispatch_opcode();
    cpu.dispatch_opcode();
    assert_eq!(cpu.regs.a, 0x03);
    assert_eq!(cpu.regs.pc, 0x102);
}

#[test]
fn rom_writes_switch_banks() {
    let mut rom = rom_with(&[]);
    rom.resize(0x4000 * 4, 0);
    rom[0x147] = 0x01;
    rom[0x148] = 0x01;
    rom[0x4000] = 0x11;
    rom[0x8000] = 0x22;
    rom[0xC000] = 0x33;
    let mut cpu = Cpu::new();
    cpu.load_rom(&rom).unwrap();
    assert_eq!(cpu.bus.read8(0x4000), 0x11);
    cpu.bus.write8(0x2000, 0x02);
    assert_eq!(cpu.bus.read8(0x4000), 0x22);
    cpu.bus.write8(0x2100, 0x03);
    assert_eq!(cpu.bus.read8(0x4000), 0x33);
    cpu.bus.write8(0x2000, 0x00);
    assert_eq!(cpu.bus.read8(0x4000), 0x11);
    cpu.bus.write8(0x4000, 0x99);
    assert_eq!(cpu.bus.read8(0x4000), 0x11);
    assert_eq!(cpu.bus.rom, rom);
}

#[test]
fn rom_only_ignores_writes() {
    let mut cpu = loaded(&[0x3C]);
    cpu.bus.write8(0x0100, 0x00);
    cpu.bus.write8(0x2000, 0x02);
    assert_eq!(cpu.bus.read8(0x0100), 0x3C);
    assert_eq!(cpu.bus.rom_bank, 1);
}

#[test]
fn echo_and_unmapped() {
    let mut cpu = loaded(&[]);
    cpu.bus.write8(0xC123, 0x5A);
    assert_eq!(cpu.bus.read8(0xE123), 0x5A);
    cpu.bus.write8(0xE200, 0x6B);
    assert_eq!(cpu.bus.read8(0xC200), 0x6B);
    assert_eq!(cpu.bus.read8(0xFEA0), 0xFF);
    cpu.bus.write8(0xFEA0, 0x00);
    assert_eq!(cpu.bus.read8(0xFEA0), 0xFF);
    assert_eq!(cpu.bus.read8(0xA000), 0xFF);
    cpu.bus.write8(0xA000, 0x12);
    assert_eq!(cpu.bus.read8(0xA000), 0xFF);
}

#[test]
fn external_ram_when_present() {
    let mut rom = rom_with(&[]);
    rom[0x147] = 0x03;
    rom[0x149] = 0x02;
    let mut cpu = Cpu::new();
    cpu.load_rom(&rom).unwrap();
    cpu.bus.write8(0xA000, 0x12);
    assert_eq!(cpu.bus.read8(0xA000), 0x12);
}

#[test]
fn dma_copies_block() {
    let mut cpu = loaded(&[]);
    for i in 0..0xA0u16 {
        cpu.bus.write8(0xC000 + i, (i as u8).wrapping_mul(3));
    }
    cpu.bus.write8(DMA_ADDR, 0xC0);
    for i in 0..0xA0u16 {
        assert_eq!(cpu.bus.read8(0xFE00 + i), (i as u8).wrapping_mul(3));
    }
    assert_eq!(cpu.bus.read8(DMA_ADDR), 0xC0);
}

#[test]
fn sixteen_bit_bus_little_endian() {
    let mut cpu = loaded(&[]);
    cpu.bus.write16(0xC000, 0x1234);
    assert_eq!(cpu.bus.read8(0xC000), 0x34);
    assert_eq!(cpu.bus.read8(0xC001), 0x12);
    assert_eq!(cpu.bus.read16(0xC000), 0x1234);
}

#[test]
fn push_pop_call_ret() {
    // LD BC,0xBEEF; PUSH BC; POP DE; CALL 0x0110; (0x110:) RET
    let mut prog = vec![0x01, 0xEF, 0xBE, 0xC5, 0xD1, 0xCD, 0x10, 0x01];
    prog.resize(0x10, 0x00);
    prog.push(0xC9);
    let mut cpu = loaded(&prog);
    assert_eq!(cpu.dispatch_opcode(), 12);
    assert_eq!(cpu.dispatch_opcode(), 16);
    assert_eq!(cpu.dispatch_opcode(), 12);
    assert_eq!((cpu.regs.d, cpu.regs.e), (0xBE, 0xEF));
    assert_eq!(cpu.dispatch_opcode(), 24);
    assert_eq!(cpu.regs.pc, 0x110);
    assert_eq!(cpu.dispatch_opcode(), 16);
    assert_eq!(cpu.regs.pc, 0x108);
    assert_eq!(cpu.regs.sp, 0xFFFE);
}

#[test]
fn memory_operands() {
    // LD HL,0xC000; LD (HL),0x41; INC (HL); LD A,(HL); ADD A,A; CP 0x84
    let mut cpu = loaded(&[0x21, 0x00, 0xC0, 0x36, 0x41, 0x34, 0x7E, 0x87, 0xFE, 0x84]);
    let costs: Vec<u32> = (0..6).map(|_| cpu.dispatch_opcode()).collect();
    assert_eq!(costs, vec![12, 12, 12, 8, 4, 8]);
    assert_eq!(cpu.bus.read8(0xC000), 0x42);
    assert_eq!(cpu.regs.a, 0x84);
    assert!(cpu.regs.f.z && cpu.regs.f.n);
}

#[test]
fn jumps_relative_and_absolute() {
    // JR +2; (skipped 2 bytes); JP 0x0200
    let mut cpu = loaded(&[0x18, 0x02, 0x3C, 0x3C, 0xC3, 0x00, 0x02]);
    assert_eq!(cpu.dispatch_opcode(), 12);
    assert_eq!(cpu.regs.pc, 0x104);
    assert_eq!(cpu.dispatch_opcode(), 16);
    assert_eq!(cpu.regs.pc, 0x200);
    let mut back = loaded(&[0x00, 0x18, 0xFD]);
    back.dispatch_opcode();
    back.dispatch_opcode();
    assert_eq!(back.regs.pc, 0x100);
}

const BASE_CYCLES: [u32; 256] = [
    4, 12, 8, 8, 4, 4, 8, 4, 20, 8, 8, 8, 4, 4, 8, 4,
    4, 12, 8, 8, 4, 4, 8, 4, 12, 8, 8, 8, 4, 4, 8, 4,
    12, 12, 8, 8, 4, 4, 8, 4, 8, 8, 8, 8, 4, 4, 8, 4,
    12, 12, 8, 8, 12, 12, 12, 4, 8, 8, 8, 8, 4, 4, 8, 4,
    4, 4, 4, 4, 4, 4, 8, 4, 4, 4, 4, 4, 4, 4, 8, 4,
    4, 4, 4, 4, 4, 4, 8, 4, 4, 4, 4, 4, 4, 4, 8, 4,
    4, 4, 4, 4, 4, 4, 8, 4, 4, 4, 4, 4, 4, 4, 8, 4,
    8, 8, 8, 8, 8, 8, 4, 8, 4, 4, 4, 4, 4, 4, 8, 4,
    4, 4, 4, 4, 4, 4, 8, 4, 4, 4, 4, 4, 4, 4, 8, 4,
    4, 4, 4, 4, 4, 4, 8, 4, 4, 4, 4, 4, 4, 4, 8, 4,
    4, 4, 4, 4, 4, 4, 8, 4, 4, 4, 4, 4, 4, 4, 8, 4,
    4, 4, 4, 4, 4, 4, 8, 4, 4, 4, 4, 4, 4, 4, 8, 4,
    20, 12, 16, 16, 24, 16, 8, 16, 8, 16, 12, 0, 12, 24, 8, 16,
    20, 12, 16, 0, 24, 16, 8, 16, 8, 16, 12, 0, 12, 0, 8, 16,
    12, 12, 8, 0, 0, 16, 8, 16, 16, 4, 16, 0, 0, 0, 8, 16,
    12, 12, 8, 4, 0, 16, 8, 16, 12, 8, 16, 4, 0, 0, 8, 16,
];

#[test]
fn base_table_conformance() {
    for op in 0..=255u8 {
        if op == 0xCB {
            continue;
        }
        let mut cpu = loaded(&[op, 0x00, 0x00]);
        cpu.regs.f = NO_FLAGS;
        cpu.regs.h = 0xC0;
        cpu.regs.l = 0x00;
        let cost = cpu.dispatch_opcode();
        if BASE_CYCLES[op as usize] == 0 {
            assert_eq!(cost, CRASHED_COST, "opcode {:#04x}", op);
            assert_eq!(cpu.state, RunState::Crashed, "opcode {:#04x}", op);
            assert_eq!(cpu.crash, Some(CrashInfo { opcode: op, addr: 0x100 }));
        } else {
            assert_eq!(cost, BASE_CYCLES[op as usize], "opcode {:#04x}", op);
            assert_ne!(cpu.state, RunState::Crashed, "opcode {:#04x}", op);
        }
    }
}

#[test]
fn load_register_block() {
    for op in 0x40..0x80u8 {
        if op == 0x76 {
            continue;
        }
        let mut cpu = loaded(&[op]);
        cpu.regs.b = 1;
        cpu.regs.c = 2;
        cpu.regs.d = 3;
        cpu.regs.e = 4;
        cpu.regs.h = 0xC0;
        cpu.regs.l = 0x10;
        cpu.regs.a = 7;
        cpu.bus.write8(0xC010, 6);
        let src = op % 8;
        let dst = (op / 8) % 8;
        let before = [1u8, 2, 3, 4, 0xC0, 0x10, 6, 7];
        cpu.dispatch_opcode();
        let after = [cpu.regs.b, cpu.regs.c, cpu.regs.d, cpu.regs.e, cpu.regs.h, cpu.regs.l, cpu.bus.read8(0xC010), cpu.regs.a];
        let dst_now = if dst == 6 { cpu.bus.read8(0xC010) } else { after[dst as usize] };
        assert_eq!(dst_now, before[src as usize], "opcode {:#04x}", op);
        assert_eq!(cpu.regs.pc, 0x101);
    }
}

#[test]
fn alu_register_block() {
    // ADD, ADC, SUB, SBC, AND, XOR, OR, CP of A=0x3C with B=0x12, carry set
    let expected: [(u8, Flags); 8] = [
        (0x4E, Flags { z: false, n: false, h: false, c: false }),
        (0x4F, Flags { z: false, n: false, h: false, c: false }),
        (0x2A, Flags { z: false, n: true, h: false, c: false }),
        (0x29, Flags { z: false, n: true, h: false, c: false }),
        (0x10, Flags { z: false, n: false, h: true, c: false }),
        (0x2E, Flags { z: false, n: false, h: false, c: false }),
        (0x3E, Flags { z: false, n: false, h: false, c: false }),
        (0x3C, Flags { z: false, n: true, h: false, c: false }),
    ];
    for kind in 0..8u8 {
        let op = 0x80 + kind * 8;
        let mut cpu = loaded(&[op]);
        cpu.regs.a = 0x3C;
        cpu.regs.b = 0x12;
        cpu.regs.f = Flags { z: false, n: false, h: false, c: true };
        assert_eq!(cpu.dispatch_opcode(), 4);
        assert_eq!((cpu.regs.a, cpu.regs.f), expected[kind as usize], "opcode {:#04x}", op);
    }
}

#[test]
fn cb_table_conformance() {
    for cb in 0..=255u8 {
        let mut cpu = loaded(&[0xCB, cb]);
        cpu.regs.f = NO_FLAGS;
        cpu.regs.h = 0xC0;
        cpu.regs.l = 0x00;
        cpu.bus.write8(0xC000, 0x81);
        cpu.regs.b = 0x81;
        cpu.regs.a = 0x81;
        let cost = cpu.dispatch_opcode();
        let expected = if cb % 8 == 6 {
            if (0x40..0x80).contains(&cb) { 12 } else { 16 }
        } else {
            8
        };
        assert_eq!(cost, expected, "cb opcode {:#04x}", cb);
        assert_eq!(cpu.regs.pc, 0x102);
    }
}

#[test]
fn cb_results() {
    // RLC B, SWAP (HL), BIT 7,A, RES 0,A, SET 2,B
    let mut cpu = loaded(&[0xCB, 0x00, 0xCB, 0x36, 0xCB, 0x7F, 0xCB, 0x87, 0xCB, 0xD0]);
    cpu.regs.b = 0x81;
    cpu.regs.a = 0x01;
    cpu.regs.h = 0xC0;
    cpu.regs.l = 0x00;
    cpu.bus.write8(0xC000, 0xA5);
    cpu.dispatch_opcode();
    assert_eq!(cpu.regs.b, 0x03);
    assert!(cpu.regs.f.c);
    cpu.dispatch_opcode();
    assert_eq!(cpu.bus.read8(0xC000), 0x5A);
    assert!(!cpu.regs.f.c);
    cpu.dispatch_opcode();
    assert!(cpu.regs.f.z && cpu.regs.f.h);
    cpu.dispatch_opcode();
    assert_eq!(cpu.regs.a, 0x00);
    cpu.dispatch_opcode();
    assert_eq!(cpu.regs.b, 0x07);
}

#[test]
fn step_accumulates_cycles() {
    let mut cpu = loaded(&[]);
    for _ in 0..64 {
        let out = cpu.step();
        assert_eq!(out.cycles, 4);
    }
    assert_eq!(cpu.total_cycles, 256);
    assert_eq!(cpu.bus.read8(DIV_ADDR), 1);
}

#[test]
fn fps_counter_ring() {
    let mut f = FpsCounter::new(1000, 50);
    f.update_fps_count(60);
    f.update_fps_count(75);
    assert_eq!(f.frame_time_sum(), 25);
    assert_eq!(f.frame_lengths[0], 10);
    assert_eq!(f.frame_lengths[1], 15);
    for t in 0..10u64 {
        f.update_fps_count(100 + t * 2);
    }
    assert_eq!(f.framecount, 12);
    assert_eq!(f.frame_time_sum(), 25 + 2 * 9);
    assert!(!f.maybe_print_fps(900));
    assert!(f.maybe_print_fps(1001));
    assert_eq!(f.last_display_time, 1001);
    assert!(!f.maybe_print_fps(1500));
}

#[test]
fn nop_rom_run_instructions() {
    let mut cpu = Cpu::new();
    cpu.load_rom(&rom_with(&[])).unwrap();
    let cycles = cpu.run_instructions(5000);
    assert_eq!(cycles, 20000);
    assert_eq!(cpu.regs.pc, 0x100 + 5000);
    let mut crashed = loaded(&[0x00, 0xDD]);
    assert_eq!(crashed.run_instructions(10), 4 + CRASHED_COST as u64);
    assert_eq!(crashed.state, RunState::Crashed);
    let regs = crashed.regs;
    assert_eq!(crashed.run_instructions(10), 0);
    assert_eq!(crashed.regs, regs);
}

#[test]
fn joypad_register_reflects_buttons() {
    let mut cpu = loaded(&[]);
    cpu.bus.write8(JOYP_ADDR, 0x20);
    assert_eq!(cpu.bus.read8(JOYP_ADDR), 0xEF);
    cpu.press(Button::Left);
    assert_eq!(cpu.bus.read8(JOYP_ADDR), 0xED);
    assert_eq!(cpu.bus.read8(IF_ADDR) & 0x10, 0x10);
    cpu.bus.write8(JOYP_ADDR, 0x10);
    assert_eq!(cpu.bus.read8(JOYP_ADDR), 0xDF);
    cpu.press(Button::Start);
    assert_eq!(cpu.bus.read8(JOYP_ADDR), 0xD7);
    cpu.release(Button::Start);
    assert_eq!(cpu.bus.read8(JOYP_ADDR), 0xDF);
    cpu.release(Button::Left);
    cpu.bus.write8(JOYP_ADDR, 0x20);
    assert_eq!(cpu.bus.read8(JOYP_ADDR), 0xEF);
}

#[test]
fn press_requests_only_when_new() {
    let mut cpu = loaded(&[]);
    cpu.press(Button::A);
    cpu.bus.write8(IF_ADDR, 0x00);
    cpu.press(Button::A);
    assert_eq!(cpu.bus.read8(IF_ADDR), 0x00);
}

#[test]
fn axis_deadzone() {
    assert_eq!(axis_direction(0), AxisDirection::Centered);
    assert_eq!(axis_direction(10000), AxisDirection::Centered);
    assert_eq!(axis_direction(-10000), AxisDirection::Centered);
    assert_eq!(axis_direction(10001), AxisDirection::Positive);
    assert_eq!(axis_direction(-32768), AxisDirection::Negative);
    let mut cpu = loaded(&[]);
    cpu.set_axis(AxisDirection::Negative, Button::Left, Button::Right);
    assert_eq!(cpu.bus.buttons, 0x02);
    cpu.set_axis(AxisDirection::Positive, Button::Left, Button::Right);
    assert_eq!(cpu.bus.buttons, 0x01);
    cpu.set_axis(AxisDirection::Centered, Button::Left, Button::Right);
    assert_eq!(cpu.bus.buttons, 0x00);
}

#[test]
fn channel1_parameters() {
    let mut cpu = loaded(&[]);
    cpu.bus.write8(0xFF10, 0b0101_1011);
    cpu.bus.write8(0xFF11, 0b1000_0000);
    cpu.bus.write8(0xFF13, 0x34);
    cpu.bus.write8(0xFF14, 0x86);
    cpu.bus.write8(0xFF26, 0x81);
    assert_eq!(cpu.channel1_sweep_time(), 5);
    assert!(!cpu.channel1_sweep_increase());
    assert_eq!(cpu.channel1_sweep_shift(), 3);
    assert_eq!(cpu.channel1_wave_pattern_duty(), 2);
    assert_eq!(cpu.channel1_frequency(), 0x634);
    assert!(cpu.get_sound1());
}

#[test]
fn timer_interrupt_only_on_overflow() {
    let mut cpu = loaded(&[]);
    cpu.bus.write8(TAC_ADDR, 0x05);
    cpu.bus.write8(TIMA_ADDR, 0xF0);
    cpu.bus.write8(IF_ADDR, 0x00);
    cpu.advance(16 * 15);
    assert_eq!(cpu.bus.read8(TIMA_ADDR), 0xFF);
    assert_eq!(cpu.bus.read8(IF_ADDR), 0x00);
    assert_eq!(cpu.timer_cycles, 0);
    cpu.advance(20);
    assert_eq!(cpu.bus.read8(TIMA_ADDR), 0x00);
    assert_eq!(cpu.bus.read8(IF_ADDR), 0x04);
    assert_eq!(cpu.timer_cycles, 4);
}

#[test]
fn axis_press_requests_joypad() {
    let mut cpu = loaded(&[]);
    cpu.bus.write8(IF_ADDR, 0x00);
    cpu.set_axis(AxisDirection::Positive, Button::Up, Button::Down);
    assert_eq!(cpu.bus.buttons, 0x08);
    assert_eq!(cpu.bus.read8(IF_ADDR), 0x10);
    cpu.bus.write8(IF_ADDR, 0x00);
    cpu.set_axis(AxisDirection::Positive, Button::Up, Button::Down);
    assert_eq!(cpu.bus.read8(IF_ADDR), 0x00);
}
