//! Game Boy / Game Boy Color and Game Boy Advance emulation cores.
//!
//! The Game Boy side: the SM83 CPU, memory map, cartridge controllers, PPU,
//! timer, serial port, joypad, interrupts and save states. The Game Boy
//! Advance side (`gba`): the ARM7TDMI CPU, memory bus, I/O registers, DMA,
//! timers, keypad, cartridge backup, PPU, APU and the system that runs them
//! frame by frame.
use vstd::prelude::*;

pub mod bits;
pub mod cartridge;
pub mod cpu;
pub mod gba;
pub mod interrupt;
pub mod joypad;
pub mod mmu;
pub mod raster;
pub mod ppu;
pub mod savestate;
pub mod serial;
pub mod timer;

verus! {

} // verus!
