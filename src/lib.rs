//! A cycle-counting emulator core for the original handheld Game Boy (DMG).
pub mod cartridge;
pub mod cpu;
pub mod gb;
pub mod instructions;
pub mod joypad;
pub mod mmu;
pub mod ppu;
pub mod serial;
pub mod timer;
pub mod utils;
