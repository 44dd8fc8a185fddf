pub mod util;
pub mod cpu;
pub mod bus;
pub mod nes;
pub mod ppu;
pub mod apu;
pub mod emulator;
