//! Core of an SM83 (Game-Boy-class) CPU emulator: a register file with
//! flag-bit views, bit-level opcode classification, and a fetch-decode-execute
//! step over a flat 64KB memory image. Decoding and execution are specified
//! against a mathematical model of the machine state and proved to match it.

pub mod machine;
