//! Game Boy Advance core: ARM7TDMI CPU, memory bus, I/O registers, DMA,
//! timers, keypad, cartridge backup and PPU.
pub mod keypad;
pub mod apu;
pub mod arm7tdmi;
pub mod bus;
pub mod cartridge;
pub mod dma;
pub mod eeprom;
pub mod emulator;
pub mod io;
pub mod io_state;
pub mod ppu;
pub mod timer;
