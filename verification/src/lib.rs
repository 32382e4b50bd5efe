//! A simulator for a simple 16-bit word-addressed computer: a 65536-word
//! memory, eight general registers, a program counter, a condition-flag
//! register, and a fetch-decode-execute engine with a trap-based system-call
//! mechanism for input and output.
//!
//! Input and output are injectable: the machine consumes units from a scripted
//! input queue and appends bytes to an output buffer, so a host program can
//! feed real streams one unit at a time while tests run fully deterministically.

pub mod decode;
pub mod effects;
pub mod engine;
pub mod machine;
