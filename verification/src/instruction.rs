use vstd::prelude::*;

use crate::error::Error;

verus! {

/// The decode contract every instruction family implements: turn a fixed
/// 3-byte window (opcode byte plus the two bytes that may follow it) into a
/// typed instruction or a failure, and report how many of those bytes the
/// instruction occupies.
pub trait Instruction: Sized + Clone + Copy + PartialEq + Eq {
    /// What decoding a window yields, as a pure function of the window's
    /// bytes alone: exactly one instruction variant or exactly one error.
    spec fn spec_parse(w: [u8; 3]) -> Result<Self, Error>;

    /// The byte length of an already-decoded instruction, a pure function
    /// of the variant tag, never of operand values.
    spec fn spec_size(self) -> int;

    /// Decodes one instruction from the window, without reading past it and
    /// without mutating it. The result is pinned to the window's bytes
    /// alone, so decoding carries no hidden state.
    fn parse(buf: &[u8; 3]) -> (r: Result<Self, Error>)
        ensures
            r == Self::spec_parse(*buf),
    ;

    /// How many of the 3 window bytes the decoded instruction occupies in
    /// the code stream; a fetch loop advances its cursor by exactly this.
    fn size(&self) -> (n: usize)
        ensures
            n == self.spec_size(),
            1 <= n <= 3,
    ;
}

/// Determinism of the decode contract: for every family, equal windows
/// decode to identical results.
pub proof fn lemma_parse_deterministic<T: Instruction>(w1: [u8; 3], w2: [u8; 3])
    requires
        w1 == w2,
    ensures
        T::spec_parse(w1) == T::spec_parse(w2),
{
}

} // verus!
