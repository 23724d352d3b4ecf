use vstd::prelude::*;

verus! {

/// The outcome failures any family decoder can report.
///
/// Every failure is returned to the immediate caller as a typed value; no
/// decode path panics, retries, or returns a partial result.
#[derive(Debug, Clone, Copy, PartialEq, Eq)]
pub enum Error {
    /// The leading byte, or its bit-field combination, names no instruction
    /// in the decoder's opcode space. Carries the whole 3-byte input window
    /// for diagnostics.
    IllegalInstruction([u8; 3]),
    /// A 3-bit field that should select one of the seven registers held an
    /// out-of-domain code (the code reserved for the memory pseudo-operand,
    /// or a value above 3 bits). Carries the offending code.
    InvalidRegister(u8),
    /// A 2-bit field held no register pair's code. All four 2-bit values do
    /// name a pair, so this is kept for defensive completeness only.
    InvalidRegisterPair(u8),
}

} // verus!
