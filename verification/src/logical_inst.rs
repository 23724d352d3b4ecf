use vstd::arithmetic::power2::lemma2_to64;
use vstd::prelude::*;

use crate::bits::{extract, lemma_extract_bound, lemma_extract_decomposes, Bits};
use crate::error::Error;
use crate::instruction::Instruction;
use crate::register::Register;

verus! {

/// The logical, rotate, and flag instructions: AND, XOR, OR, and compare in
/// register, memory, and immediate forms, the four accumulator rotates, and
/// the complement and carry-flag operations.
#[derive(Debug, Clone, Copy, PartialEq, Eq)]
pub enum LogicalInst {
    /// AND a register into the accumulator.
    AnaR { src: Register },
    /// AND the memory operand into the accumulator.
    AnaM,
    /// AND an immediate into the accumulator.
    Ani { imm: u8 },
    /// XOR a register into the accumulator.
    XraR { src: Register },
    /// XOR the memory operand into the accumulator.
    XraM,
    /// XOR an immediate into the accumulator.
    Xri { imm: u8 },
    /// OR a register into the accumulator.
    OraR { src: Register },
    /// OR the memory operand into the accumulator.
    OraM,
    /// OR an immediate into the accumulator.
    Ori { imm: u8 },
    /// Compare a register with the accumulator.
    CmpR { src: Register },
    /// Compare the memory operand with the accumulator.
    CmpM,
    /// Compare an immediate with the accumulator.
    Cpi { imm: u8 },
    /// Rotate the accumulator left.
    Rlc,
    /// Rotate the accumulator right.
    Rrc,
    /// Rotate the accumulator left through the carry.
    Ral,
    /// Rotate the accumulator right through the carry.
    Rar,
    /// Complement the accumulator.
    Cma,
    /// Complement the carry flag.
    Cmc,
    /// Set the carry flag.
    Stc,
}

/// The logical decode table: exact-match opcodes first, then the bit-field
/// general path, which requires the `10` prefix and reads the operation
/// from the upper half of the 3-bit middle field.
pub open spec fn spec_parse_logical(w: [u8; 3]) -> Result<LogicalInst, Error> {
    let b0 = w[0];
    if b0 == 0xA6 {
        Ok(LogicalInst::AnaM)
    } else if b0 == 0xE6 {
        Ok(LogicalInst::Ani { imm: w[1] })
    } else if b0 == 0xAE {
        Ok(LogicalInst::XraM)
    } else if b0 == 0xEE {
        Ok(LogicalInst::Xri { imm: w[1] })
    } else if b0 == 0xB6 {
        Ok(LogicalInst::OraM)
    } else if b0 == 0xF6 {
        Ok(LogicalInst::Ori { imm: w[1] })
    } else if b0 == 0xBE {
        Ok(LogicalInst::CmpM)
    } else if b0 == 0xFE {
        Ok(LogicalInst::Cpi { imm: w[1] })
    } else if b0 == 0x07 {
        Ok(LogicalInst::Rlc)
    } else if b0 == 0x0F {
        Ok(LogicalInst::Rrc)
    } else if b0 == 0x17 {
        Ok(LogicalInst::Ral)
    } else if b0 == 0x1F {
        Ok(LogicalInst::Rar)
    } else if b0 == 0x2F {
        Ok(LogicalInst::Cma)
    } else if b0 == 0x3F {
        Ok(LogicalInst::Cmc)
    } else if b0 == 0x37 {
        Ok(LogicalInst::Stc)
    } else {
        let prefix = extract(b0, 0, 2);
        let t0 = extract(b0, 2, 5);
        let t1 = extract(b0, 5, 8);
        if prefix != 0b10 {
            Err(Error::IllegalInstruction(w))
        } else if t0 == 0b100 {
            match Register::spec_from_code(t1) {
                Ok(src) => Ok(LogicalInst::AnaR { src }),
                Err(e) => Err(e),
            }
        } else if t0 == 0b101 {
            match Register::spec_from_code(t1) {
                Ok(src) => Ok(LogicalInst::XraR { src }),
                Err(e) => Err(e),
            }
        } else if t0 == 0b110 {
            match Register::spec_from_code(t1) {
                Ok(src) => Ok(LogicalInst::OraR { src }),
                Err(e) => Err(e),
            }
        } else if t0 == 0b111 {
            match Register::spec_from_code(t1) {
                Ok(src) => Ok(LogicalInst::CmpR { src }),
                Err(e) => Err(e),
            }
        } else {
            Err(Error::IllegalInstruction(w))
        }
    }
}

/// The byte length of each logical variant: 2 for the four immediate forms,
/// 1 for everything else.
pub open spec fn spec_logical_size(i: LogicalInst) -> int {
    match i {
        LogicalInst::Ani { .. } => 2,
        LogicalInst::Xri { .. } => 2,
        LogicalInst::Ori { .. } => 2,
        LogicalInst::Cpi { .. } => 2,
        _ => 1,
    }
}

impl Instruction for LogicalInst {
    open spec fn spec_parse(w: [u8; 3]) -> Result<LogicalInst, Error> {
        spec_parse_logical(w)
    }

    open spec fn spec_size(self) -> int {
        spec_logical_size(self)
    }

    fn parse(buf: &[u8; 3]) -> (r: Result<LogicalInst, Error>) {
        match buf[0] {
            0xA6 => return Ok(LogicalInst::AnaM),
            0xE6 => return Ok(LogicalInst::Ani { imm: buf[1] }),
            0xAE => return Ok(LogicalInst::XraM),
            0xEE => return Ok(LogicalInst::Xri { imm: buf[1] }),
            0xB6 => return Ok(LogicalInst::OraM),
            0xF6 => return Ok(LogicalInst::Ori { imm: buf[1] }),
            0xBE => return Ok(LogicalInst::CmpM),
            0xFE => return Ok(LogicalInst::Cpi { imm: buf[1] }),
            0x07 => return Ok(LogicalInst::Rlc),
            0x0F => return Ok(LogicalInst::Rrc),
            0x17 => return Ok(LogicalInst::Ral),
            0x1F => return Ok(LogicalInst::Rar),
            0x2F => return Ok(LogicalInst::Cma),
            0x3F => return Ok(LogicalInst::Cmc),
            0x37 => return Ok(LogicalInst::Stc),
            _ => {},
        }
        let bits = Bits::new(buf[0]);
        let prefix: u8 = bits.bit_range(0..2);
        let t0: u8 = bits.bit_range(2..5);
        let t1: u8 = bits.bit_range(5..8);
        if prefix != 0b10 {
            Err(Error::IllegalInstruction(*buf))
        } else if t0 == 0b100 {
            let src = Register::from_code(t1)?;
            Ok(LogicalInst::AnaR { src })
        } else if t0 == 0b101 {
            let src = Register::from_code(t1)?;
            Ok(LogicalInst::XraR { src })
        } else if t0 == 0b110 {
            let src = Register::from_code(t1)?;
            Ok(LogicalInst::OraR { src })
        } else if t0 == 0b111 {
            let src = Register::from_code(t1)?;
            Ok(LogicalInst::CmpR { src })
        } else {
            Err(Error::IllegalInstruction(*buf))
        }
    }

    fn size(&self) -> (n: usize) {
        match self {
            LogicalInst::Ani { .. } => 2,
            LogicalInst::Xri { .. } => 2,
            LogicalInst::Ori { .. } => 2,
            LogicalInst::Cpi { .. } => 2,
            _ => 1,
        }
    }
}

/// Exhaustiveness of the logical decoder over the whole opcode space: every
/// leading byte yields exactly one instruction or reports the window
/// illegal. The memory pseudo-operand's code never reaches register lookup:
/// the opcodes that carry it are all caught by exact match first.
pub proof fn lemma_logical_exhaustive(w: [u8; 3])
    ensures
        spec_parse_logical(w) is Ok || spec_parse_logical(w) == Err::<LogicalInst, Error>(
            Error::IllegalInstruction(w),
        ),
{
    lemma_extract_bound(w[0], 0, 2);
    lemma_extract_bound(w[0], 2, 5);
    lemma_extract_bound(w[0], 5, 8);
    lemma_extract_decomposes(w[0]);
    lemma2_to64();
}

/// Size/consumption agreement for the logical decoder: a decoded
/// instruction depends on exactly the bytes its size covers, so a window
/// that agrees on those bytes decodes to the very same instruction and the
/// trailing padding bytes are ignored.
pub proof fn lemma_logical_size_consumption(w1: [u8; 3], w2: [u8; 3], i: LogicalInst)
    requires
        spec_parse_logical(w1) == Ok::<LogicalInst, Error>(i),
        w2[0] == w1[0],
        spec_logical_size(i) >= 2 ==> w2[1] == w1[1],
        spec_logical_size(i) >= 3 ==> w2[2] == w1[2],
    ensures
        spec_parse_logical(w2) == Ok::<LogicalInst, Error>(i),
{
}

} // verus!
