//! Core of an 8-bit handheld console emulator: register file and ALU,
//! memory bus, timer, interrupt controller and opcode dispatcher, with joypad
//! input, sound channel parameters and frame-rate bookkeeping for the host.
pub mod alu;
pub mod bus;
pub mod cpu;
pub mod interrupts;
pub mod timer;
pub mod exec;
pub mod fps;
pub mod joypad;
pub mod sound;
