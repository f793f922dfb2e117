//! Core of a handheld game console emulator: CPU, memory bus, cartridge
//! controller, timer, joypad and pixel processing unit, each with its
//! behaviour stated as a contract over a mathematical model.

pub mod bits;
pub mod catridge;
pub mod cpu;
pub mod io_device;
pub mod joypad;
pub mod mmu;
pub mod ppu;
pub mod timer;
