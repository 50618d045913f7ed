//! A verified CHIP-8 interpreter core: registers, memory, call stack,
//! framebuffer with XOR sprite drawing, lazily evaluated countdown timers,
//! and an opcode decode/dispatch engine.
//!
//! Everything that touches the outside world (terminal output, keyboard
//! polling, the wall clock, program files) is kept out of this crate's
//! logic: callers hand in plain values (key slots, milliseconds, ROM bytes)
//! and receive plain values back.

pub mod alu;
pub mod cycle;
pub mod decode;
pub mod draw;
pub mod flow;
pub mod input;
pub mod laws;
pub mod machine;
pub mod timer;
pub mod transfer;

mod rng;
