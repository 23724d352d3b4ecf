//! Instruction-fetch decoder for an 8080-class 8-bit CPU.
//!
//! A caller hands one of the family decoders a fixed 3-byte window: the
//! candidate opcode byte plus the two bytes that may follow it (zero-padded
//! near the end of a stream). The decoder returns a typed instruction value
//! or a decode failure, and reports how many of the 3 bytes the instruction
//! occupies, so the caller can advance its read position.

pub mod bits;
pub mod data_inst;
pub mod error;
pub mod instruction;
pub mod logical_inst;
pub mod math_inst;
pub mod register;
