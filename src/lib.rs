//! Processing core of an 8-bit handheld console: register file, memory routing
//! unit and instruction interpreter, each with a verified contract.
pub mod cartridge;
pub mod cpu;
pub mod error;
pub mod game_data;
pub mod gameboy;
pub mod hram;
pub mod lcd;
pub mod mmu;
pub mod ppu;
pub mod wram;
