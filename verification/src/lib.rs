//! Core of a Game Boy (DMG) emulator: the memory bus, the LR35902-style CPU
//! with its two opcode tables, the scanline-based pixel-processing unit, the
//! joypad latch, and the pure state of the interactive debugger.
//!
//! Every executable function carries a contract; the host front end (window,
//! events, ROM file) lives outside this crate and talks to it through plain
//! values.

pub mod alu;
pub mod bus;
pub mod cb;
pub mod cpu;
pub mod debugger;
pub mod gpu;
pub mod instructions;
pub mod keys;
