//! A cycle-stepped NES core: CPU, PPU, APU, cartridge mappers and the bus
//! that ties them together.

pub mod mapper;
pub mod cpu;
pub mod ppu;
pub mod apu;
pub mod system;
pub mod renderer;
