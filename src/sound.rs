//! Channel 1 parameters, decoded from the sound registers for an outside mixer.
use vstd::prelude::*;
use crate::cpu::Cpu;

verus! {

/// Sweep register: time in bits 6..4, direction in bit 3 (1 = decrease), shift in bits 2..0.
pub const NR10_ADDR: u16 = 0xFF10;
/// Length and duty register: duty pattern in bits 7..6.
pub const NR11_ADDR: u16 = 0xFF11;
/// Low eight bits of the frequency.
pub const NR13_ADDR: u16 = 0xFF13;
/// High three bits of the frequency in bits 2..0.
pub const NR14_ADDR: u16 = 0xFF14;
/// Sound on/off register: bit 0 reports channel 1 as on.
pub const NR52_ADDR: u16 = 0xFF26;

impl Cpu {
    pub open spec fn io(&self, addr: u16) -> int {
        self.bus.mem@[addr as int] as int
    }

    /// Sweep time code (0..7): the sweep steps every code/128 seconds, 0 turning it off.
    pub fn channel1_sweep_time(&self) -> (r: u8)
        requires
            self.wf(),
        ensures
            r as int == (self.io(NR10_ADDR) / 16) % 8,
    {
        (self.bus.get_io(NR10_ADDR) / 16) % 8
    }

    /// Whether the sweep raises the frequency.
    pub fn channel1_sweep_increase(&self) -> (r: bool)
        requires
            self.wf(),
        ensures
            r == ((self.io(NR10_ADDR) / 8) % 2 == 0),
    {
        (self.bus.get_io(NR10_ADDR) / 8) % 2 == 0
    }

    /// Number of sweep shift steps.
    pub fn channel1_sweep_shift(&self) -> (r: u8)
        requires
            self.wf(),
        ensures
            r as int == self.io(NR10_ADDR) % 8,
    {
        self.bus.get_io(NR10_ADDR) % 8
    }

    /// Wave pattern duty (0..3: 12.5%, 25%, 50%, 75%).
    pub fn channel1_wave_pattern_duty(&self) -> (r: u8)
        requires
            self.wf(),
        ensures
            r as int == self.io(NR11_ADDR) / 64,
    {
        self.bus.get_io(NR11_ADDR) / 64
    }

    /// The eleven-bit frequency value; the tone is 131072 / (2048 - value) Hz.
    pub fn channel1_frequency(&self) -> (r: u16)
        requires
            self.wf(),
        ensures
            r as int == self.io(NR13_ADDR) + (self.io(NR14_ADDR) % 8) * 256,
            r < 2048,
    {
        self.bus.get_io(NR13_ADDR) as u16 + (self.bus.get_io(NR14_ADDR) % 8) as u16 * 256
    }

    /// Whether channel 1 is on.
    pub fn get_sound1(&self) -> (r: bool)
        requires
            self.wf(),
        ensures
            r == (self.io(NR52_ADDR) % 2 == 1),
    {
        self.bus.get_io(NR52_ADDR) % 2 == 1
    }
}

} // verus!
