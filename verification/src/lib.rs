//! A CHIP-8 / Super-CHIP interpreter core, verified with Verus.
//!
//! The crate models the whole machine — memory, registers, call stack,
//! timer, keypad and framebuffer — and proves that every instruction is
//! executed bit-for-bit as the architecture prescribes. A host is expected
//! to load a program image, call [`chip8::Chip8::tick`] at its chosen rate,
//! decrement the delay timer at a fixed cadence, forward key events and
//! render the framebuffer.

pub mod chip8;
pub mod instruction;
pub mod laws;
