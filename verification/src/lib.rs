//! Core of a cycle-aware NES emulator: the 6502 CPU, the picture
//! processing unit, the system bus that couples them to ROM, RAM and
//! memory-mapped I/O, and the iNES ROM loader.
//!
//! The host window and input polling live outside this crate; a frame is
//! handed out as a plain pixel buffer and button state comes in as a
//! plain struct of booleans.

pub mod cpu;
pub mod instruction;
pub mod interconnect;
pub mod joypad;
pub mod mapper;
pub mod nes;
pub mod ppu;
pub mod rom;
pub mod video_driver;
pub mod vram;

pub use joypad::ButtonState;
