//! A CHIP-8 virtual machine core: instruction decoding, a bounded call stack,
//! countdown timers and a single-step interpreter, with their contracts
//! proved by Verus.
//!
//! `machine` states what every instruction and every step does, over a
//! mathematical model of the machine; `interpreter` is proved to follow it.
pub mod callstack;
pub mod hex;
pub mod interpreter;
pub mod keycodes;
pub mod machine;
pub mod opcode;
pub mod platform_adapter;
pub mod quirk_flags;
pub mod sprite;
pub mod timer;
