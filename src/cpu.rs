//! CPU state: the register file, run state, cycle counters, and cartridge loading.
use vstd::prelude::*;
use crate::alu::Flags;
use crate::bus::{Bus, Mbc};

verus! {

/// Execution state of the processor. `Crashed` is sticky.
#[derive(Clone, Copy, Debug, PartialEq, Eq, Structural)]
pub enum RunState {
    Normal,
    Halted,
    Stopped,
    Crashed,
}

/// The opcode and address of the instruction that crashed the processor.
#[derive(Clone, Copy, Debug, PartialEq, Eq, Structural)]
pub struct CrashInfo {
    pub opcode: u8,
    pub addr: u16,
}

/// Why a cartridge image was refused.
#[derive(Clone, Copy, Debug, PartialEq, Eq, Structural)]
pub enum LoadError {
    /// The file could not be read.
    Unreadable,
    /// The image is too short to hold a header.
    TooShort,
    /// The cartridge type byte names a controller this emulator lacks.
    UnsupportedCartridge(u8),
    /// The ROM size code is out of range.
    BadRomSize(u8),
    /// The RAM size code is out of range.
    BadRamSize(u8),
}

/// The eight-bit registers, the flags, and the two 16-bit pointers.
#[derive(Clone, Copy, Debug, PartialEq, Eq, Structural)]
pub struct Registers {
    pub a: u8,
    pub b: u8,
    pub c: u8,
    pub d: u8,
    pub e: u8,
    pub h: u8,
    pub l: u8,
    pub f: Flags,
    pub sp: u16,
    pub pc: u16,
}

pub open spec fn pair(hi: u8, lo: u8) -> u16 {
    (hi * 256 + lo) as u16
}

/// Cartridge header offsets.
pub const HEADER_END: usize = 0x150;
pub const TITLE_START: usize = 0x134;
pub const TITLE_LEN: usize = 16;
pub const CART_TYPE_ADDR: usize = 0x147;
pub const ROM_SIZE_ADDR: usize = 0x148;
pub const RAM_SIZE_ADDR: usize = 0x149;
/// Where execution starts after a cartridge is loaded.
pub const ENTRY_POINT: u16 = 0x100;
pub const INITIAL_SP: u16 = 0xFFFE;

impl Registers {
    pub open spec fn bc(self) -> u16 { pair(self.b, self.c) }
    pub open spec fn de(self) -> u16 { pair(self.d, self.e) }
    pub open spec fn hl(self) -> u16 { pair(self.h, self.l) }

    /// The register with operand index `idx` (0 B, 1 C, 2 D, 3 E, 4 H, 5 L, 7 A;
    /// 6 is the byte at HL and is not a register).
    pub open spec fn r8(self, idx: u8) -> u8 {
        if idx == 0 { self.b }
        else if idx == 1 { self.c }
        else if idx == 2 { self.d }
        else if idx == 3 { self.e }
        else if idx == 4 { self.h }
        else if idx == 5 { self.l }
        else { self.a }
    }

    /// The registers with the one of index `idx` replaced by `v` (6 changes nothing).
    pub open spec fn with_r8(self, idx: u8, v: u8) -> Registers {
        if idx == 0 { Registers { b: v, ..self } }
        else if idx == 1 { Registers { c: v, ..self } }
        else if idx == 2 { Registers { d: v, ..self } }
        else if idx == 3 { Registers { e: v, ..self } }
        else if idx == 4 { Registers { h: v, ..self } }
        else if idx == 5 { Registers { l: v, ..self } }
        else if idx == 7 { Registers { a: v, ..self } }
        else { self }
    }

    pub fn get_hl(&self) -> (r: u16)
        ensures r == self.hl(),
    {
        self.h as u16 * 256 + self.l as u16
    }

    pub fn get_bc(&self) -> (r: u16)
        ensures r == self.bc(),
    {
        self.b as u16 * 256 + self.c as u16
    }

    pub fn get_de(&self) -> (r: u16)
        ensures r == self.de(),
    {
        self.d as u16 * 256 + self.e as u16
    }

    pub fn get_r8(&self, idx: u8) -> (r: u8)
        ensures r == self.r8(idx),
    {
        if idx == 0 { self.b }
        else if idx == 1 { self.c }
        else if idx == 2 { self.d }
        else if idx == 3 { self.e }
        else if idx == 4 { self.h }
        else if idx == 5 { self.l }
        else { self.a }
    }

    pub fn set_r8(&mut self, idx: u8, v: u8)
        ensures *final(self) == old(self).with_r8(idx, v),
    {
        if idx == 0 { self.b = v; }
        else if idx == 1 { self.c = v; }
        else if idx == 2 { self.d = v; }
        else if idx == 3 { self.e = v; }
        else if idx == 4 { self.h = v; }
        else if idx == 5 { self.l = v; }
        else if idx == 7 { self.a = v; }
    }
}

/// The whole machine: registers, bus, interrupt master enable, run state and
/// the cycle counters that pace the peripherals.
#[derive(Clone, Debug)]
pub struct Cpu {
    pub regs: Registers,
    pub bus: Bus,
    /// Interrupt master enable.
    pub ime: bool,
    /// Set by the enable-interrupts instruction; IME turns on after the next instruction.
    pub ime_scheduled: bool,
    /// The next opcode fetch does not advance the program counter.
    pub halt_bug: bool,
    pub state: RunState,
    pub crash: Option<CrashInfo>,
    /// Total cycles executed since the cartridge was loaded (saturating).
    pub total_cycles: u64,
    /// Cycles since the scanline counter last advanced.
    pub hsync_cycles: u64,
    /// Cycles since the timer counter last advanced.
    pub timer_cycles: u64,
    /// Cycles since the last simulated vertical blank.
    pub frame_cycles: u64,
}

/// The controller and whether there is external RAM, for a cartridge type byte.
pub open spec fn cart_kind(t: u8) -> Option<(Mbc, bool)> {
    if t == 0x00 { Some((Mbc::RomOnly, false)) }
    else if t == 0x01 { Some((Mbc::Mbc1, false)) }
    else if t == 0x02 || t == 0x03 { Some((Mbc::Mbc1, true)) }
    else if t == 0x08 || t == 0x09 { Some((Mbc::RomOnly, true)) }
    else { None }
}

fn cart_kind_of(t: u8) -> (r: Option<(Mbc, bool)>)
    ensures r == cart_kind(t),
{
    if t == 0x00 { Some((Mbc::RomOnly, false)) }
    else if t == 0x01 { Some((Mbc::Mbc1, false)) }
    else if t == 0x02 || t == 0x03 { Some((Mbc::Mbc1, true)) }
    else if t == 0x08 || t == 0x09 { Some((Mbc::RomOnly, true)) }
    else { None }
}

/// The error, if any, that a cartridge image is refused with.
pub open spec fn load_error(rom: Seq<u8>) -> Option<LoadError> {
    if rom.len() < HEADER_END { Some(LoadError::TooShort) }
    else if cart_kind(rom[CART_TYPE_ADDR as int]) is None { Some(LoadError::UnsupportedCartridge(rom[CART_TYPE_ADDR as int])) }
    else if rom[ROM_SIZE_ADDR as int] > 8 { Some(LoadError::BadRomSize(rom[ROM_SIZE_ADDR as int])) }
    else if rom[RAM_SIZE_ADDR as int] > 5 { Some(LoadError::BadRamSize(rom[RAM_SIZE_ADDR as int])) }
    else { None }
}

/// Register values at the entry point, as the boot program leaves them.
pub open spec fn initial_regs() -> Registers {
    Registers {
        a: 0x01, b: 0x00, c: 0x13, d: 0x00, e: 0xD8, h: 0x01, l: 0x4D,
        f: Flags { z: true, n: false, h: true, c: true },
        sp: INITIAL_SP, pc: ENTRY_POINT,
    }
}

impl Cpu {
    pub open spec fn wf(&self) -> bool {
        &&& self.bus.wf()
        &&& self.hsync_cycles < crate::timer::CYCLES_PER_HSYNC
        &&& self.timer_cycles < crate::timer::MAX_TIMER_PERIOD
        &&& self.frame_cycles < crate::timer::CPU_CYCLES_PER_VBLANK
    }

    /// `post` has the same interrupt, run state and cycle bookkeeping as `self`.
    pub open spec fn same_control(&self, post: Cpu) -> bool {
        &&& post.ime == self.ime
        &&& post.ime_scheduled == self.ime_scheduled
        &&& post.halt_bug == self.halt_bug
        &&& post.state == self.state
        &&& post.crash == self.crash
        &&& post.total_cycles == self.total_cycles
        &&& post.hsync_cycles == self.hsync_cycles
        &&& post.timer_cycles == self.timer_cycles
        &&& post.frame_cycles == self.frame_cycles
    }

    /// `post` differs from `self` at most in the bytes stored on the bus.
    pub open spec fn same_except_mem(&self, post: Cpu) -> bool {
        &&& post.regs == self.regs
        &&& post.bus.rom@ == self.bus.rom@
        &&& post.bus.rom_bank == self.bus.rom_bank
        &&& post.bus.mbc == self.bus.mbc
        &&& post.bus.has_ram == self.bus.has_ram
        &&& post.bus.div_counter == self.bus.div_counter
        &&& post.bus.buttons == self.bus.buttons
        &&& post.ime == self.ime
        &&& post.ime_scheduled == self.ime_scheduled
        &&& post.halt_bug == self.halt_bug
        &&& post.state == self.state
        &&& post.crash == self.crash
        &&& post.total_cycles == self.total_cycles
        &&& post.hsync_cycles == self.hsync_cycles
        &&& post.timer_cycles == self.timer_cycles
        &&& post.frame_cycles == self.frame_cycles
    }

    /// The state right after a cartridge is loaded: counters zero, run state normal.
    pub open spec fn is_fresh(&self) -> bool {
        &&& self.wf()
        &&& self.regs == initial_regs()
        &&& !self.ime && !self.ime_scheduled && !self.halt_bug
        &&& self.state == RunState::Normal
        &&& self.crash is None
        &&& self.total_cycles == 0 && self.hsync_cycles == 0
        &&& self.timer_cycles == 0 && self.frame_cycles == 0
        &&& self.bus.rom_bank == 1 && self.bus.div_counter == 0 && self.bus.buttons == 0
        &&& forall|i: int| 0 <= i < 0x10000 ==> #[trigger] self.bus.mem@[i] == 0
    }

    /// A machine with no cartridge: every ROM read sees the open bus.
    pub fn new() -> (r: Cpu)
        ensures
            r.is_fresh(),
            r.bus.rom@.len() == 0,
            r.bus.mbc == Mbc::RomOnly,
            !r.bus.has_ram,
    {
        Cpu::fresh(Vec::new(), Mbc::RomOnly, false)
    }

    fn fresh(rom: Vec<u8>, mbc: Mbc, has_ram: bool) -> (r: Cpu)
        ensures
            r.is_fresh(),
            r.bus.rom@ == rom@,
            r.bus.mbc == mbc,
            r.bus.has_ram == has_ram,
    {
        let mut mem: Vec<u8> = Vec::new();
        let mut i: usize = 0;
        while i < 0x10000
            invariant
                i <= 0x10000,
                mem@.len() == i,
                forall|j: int| 0 <= j < i ==> #[trigger] mem@[j] == 0,
            decreases 0x10000 - i,
        {
            mem.push(0);
            i = i + 1;
        }
        Cpu {
            regs: Registers {
                a: 0x01, b: 0x00, c: 0x13, d: 0x00, e: 0xD8, h: 0x01, l: 0x4D,
                f: Flags { z: true, n: false, h: true, c: true },
                sp: INITIAL_SP, pc: ENTRY_POINT,
            },
            bus: Bus { rom, mem, rom_bank: 1, mbc, has_ram, div_counter: 0, buttons: 0 },
            ime: false,
            ime_scheduled: false,
            halt_bug: false,
            state: RunState::Normal,
            crash: None,
            total_cycles: 0,
            hsync_cycles: 0,
            timer_cycles: 0,
            frame_cycles: 0,
        }
    }

    /// Parses the cartridge header and, when it is accepted, resets the whole
    /// machine to run it. A refused image leaves the machine untouched.
    pub fn load_rom(&mut self, data: &Vec<u8>) -> (r: Result<(), LoadError>)
        ensures
            load_error(data@) is Some <==> r is Err,
            r matches Err(e) ==> e == load_error(data@).unwrap() && *final(self) == *old(self),
            r is Ok ==> final(self).is_fresh() && final(self).bus.rom@ == data@
                && Some((final(self).bus.mbc, final(self).bus.has_ram)) == cart_kind(data@[CART_TYPE_ADDR as int]),
    {
        if data.len() < HEADER_END {
            return Err(LoadError::TooShort);
        }
        let t = data[CART_TYPE_ADDR];
        let kind = cart_kind_of(t);
        match kind {
            None => Err(LoadError::UnsupportedCartridge(t)),
            Some((mbc, has_ram)) => {
                if data[ROM_SIZE_ADDR] > 8 {
                    Err(LoadError::BadRomSize(data[ROM_SIZE_ADDR]))
                } else if data[RAM_SIZE_ADDR] > 5 {
                    Err(LoadError::BadRamSize(data[RAM_SIZE_ADDR]))
                } else {
                    let rom = data.clone();
                    *self = Cpu::fresh(rom, mbc, has_ram);
                    Ok(())
                }
            },
        }
    }

    /// The cartridge title: header bytes from the title field up to the first zero.
    pub fn game_title(&self) -> (r: Vec<u8>)
        requires
            self.wf(),
        ensures
            r@.len() <= TITLE_LEN,
            forall|i: int| 0 <= i < r@.len() ==> r@[i] != 0
                && #[trigger] r@[i] == crate::bus::rom_byte(self.bus.rom@, TITLE_START + i),
            r@.len() == TITLE_LEN || crate::bus::rom_byte(self.bus.rom@, TITLE_START + r@.len()) == 0,
    {
        let mut r: Vec<u8> = Vec::new();
        let mut i: usize = 0;
        while i < TITLE_LEN
            invariant
                i <= TITLE_LEN,
                r@.len() == i,
                forall|j: int| 0 <= j < i ==> r@[j] != 0
                    && #[trigger] r@[j] == crate::bus::rom_byte(self.bus.rom@, TITLE_START + j),
            decreases TITLE_LEN - i,
        {
            let k = TITLE_START + i;
            let b = if k < self.bus.rom.len() { self.bus.rom[k] } else { crate::bus::OPEN_BUS };
            if b == 0 {
                return r;
            }
            r.push(b);
            i = i + 1;
        }
        r
    }
}

} // verus!
