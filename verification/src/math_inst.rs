use vstd::arithmetic::power2::lemma2_to64;
use vstd::prelude::*;

use crate::bits::{extract, lemma_extract_bound, lemma_extract_decomposes, Bits};
use crate::error::Error;
use crate::instruction::Instruction;
use crate::register::{Register, RegisterPair};

verus! {

/// The arithmetic instructions: add and subtract with and without
/// carry/borrow, increment and decrement, the 16-bit pair forms, and
/// decimal adjust.
#[derive(Debug, Clone, Copy, PartialEq, Eq)]
pub enum MathInst {
    /// Add a register to the accumulator.
    AddR { src: Register },
    /// Add the memory operand to the accumulator.
    AddM,
    /// Add an immediate to the accumulator.
    Adi { imm: u8 },
    /// Add a register and the carry to the accumulator.
    AdcR { src: Register },
    /// Add the memory operand and the carry to the accumulator.
    AdcM,
    /// Add an immediate and the carry to the accumulator.
    Aci { imm: u8 },
    /// Subtract a register from the accumulator.
    SubR { src: Register },
    /// Subtract the memory operand from the accumulator.
    SubM,
    /// Subtract an immediate from the accumulator.
    Sui { imm: u8 },
    /// Subtract a register and the borrow from the accumulator.
    SbbR { src: Register },
    /// Subtract the memory operand and the borrow from the accumulator.
    SbbM,
    /// Subtract an immediate and the borrow from the accumulator.
    Sbi { imm: u8 },
    /// Increment a register.
    InrR { dest: Register },
    /// Increment the memory operand.
    InrM,
    /// Decrement a register.
    DcrR { dest: Register },
    /// Decrement the memory operand.
    DcrM,
    /// Increment a register pair.
    Inx { rp: RegisterPair },
    /// Decrement a register pair.
    Dcx { rp: RegisterPair },
    /// Add a register pair to the HL pair.
    Dad { rp: RegisterPair },
    /// Decimal-adjust the accumulator.
    Daa,
}

/// The arithmetic decode table: exact-match opcodes first, then the
/// bit-field general path over a 2-bit prefix and two 3-bit fields.
pub open spec fn spec_parse_math(w: [u8; 3]) -> Result<MathInst, Error> {
    let b0 = w[0];
    if b0 == 0x27 {
        Ok(MathInst::Daa)
    } else if b0 == 0x34 {
        Ok(MathInst::InrM)
    } else if b0 == 0x35 {
        Ok(MathInst::DcrM)
    } else if b0 == 0x86 {
        Ok(MathInst::AddM)
    } else if b0 == 0x8E {
        Ok(MathInst::AdcM)
    } else if b0 == 0x96 {
        Ok(MathInst::SubM)
    } else if b0 == 0x9E {
        Ok(MathInst::SbbM)
    } else if b0 == 0xC6 {
        Ok(MathInst::Adi { imm: w[1] })
    } else if b0 == 0xCE {
        Ok(MathInst::Aci { imm: w[1] })
    } else if b0 == 0xD6 {
        Ok(MathInst::Sui { imm: w[1] })
    } else if b0 == 0xDE {
        Ok(MathInst::Sbi { imm: w[1] })
    } else {
        let prefix = extract(b0, 0, 2);
        let t0 = extract(b0, 2, 5);
        let t1 = extract(b0, 5, 8);
        if prefix == 0b00 {
            if t1 == 0b100 {
                match Register::spec_from_code(t0) {
                    Ok(dest) => Ok(MathInst::InrR { dest }),
                    Err(e) => Err(e),
                }
            } else if t1 == 0b101 {
                match Register::spec_from_code(t0) {
                    Ok(dest) => Ok(MathInst::DcrR { dest }),
                    Err(e) => Err(e),
                }
            } else {
                let rp_code = extract(b0, 2, 4);
                let disc = extract(b0, 4, 8);
                match RegisterPair::spec_from_code(rp_code) {
                    Ok(rp) => {
                        if disc == 0b0011 {
                            Ok(MathInst::Inx { rp })
                        } else if disc == 0b1001 {
                            Ok(MathInst::Dad { rp })
                        } else if disc == 0b1011 {
                            Ok(MathInst::Dcx { rp })
                        } else {
                            Err(Error::IllegalInstruction(w))
                        }
                    },
                    Err(e) => Err(e),
                }
            }
        } else if prefix == 0b10 {
            if t0 == 0b000 {
                match Register::spec_from_code(t1) {
                    Ok(src) => Ok(MathInst::AddR { src }),
                    Err(e) => Err(e),
                }
            } else if t0 == 0b001 {
                match Register::spec_from_code(t1) {
                    Ok(src) => Ok(MathInst::AdcR { src }),
                    Err(e) => Err(e),
                }
            } else if t0 == 0b010 {
                match Register::spec_from_code(t1) {
                    Ok(src) => Ok(MathInst::SubR { src }),
                    Err(e) => Err(e),
                }
            } else if t0 == 0b011 {
                match Register::spec_from_code(t1) {
                    Ok(src) => Ok(MathInst::SbbR { src }),
                    Err(e) => Err(e),
                }
            } else {
                Err(Error::IllegalInstruction(w))
            }
        } else {
            Err(Error::IllegalInstruction(w))
        }
    }
}

/// The byte length of each arithmetic variant: 2 for the four immediate
/// forms, 1 for everything else.
pub open spec fn spec_math_size(i: MathInst) -> int {
    match i {
        MathInst::Adi { .. } => 2,
        MathInst::Aci { .. } => 2,
        MathInst::Sui { .. } => 2,
        MathInst::Sbi { .. } => 2,
        _ => 1,
    }
}

impl Instruction for MathInst {
    open spec fn spec_parse(w: [u8; 3]) -> Result<MathInst, Error> {
        spec_parse_math(w)
    }

    open spec fn spec_size(self) -> int {
        spec_math_size(self)
    }

    fn parse(buf: &[u8; 3]) -> (r: Result<MathInst, Error>) {
        match buf[0] {
            0x27 => return Ok(MathInst::Daa),
            0x34 => return Ok(MathInst::InrM),
            0x35 => return Ok(MathInst::DcrM),
            0x86 => return Ok(MathInst::AddM),
            0x8E => return Ok(MathInst::AdcM),
            0x96 => return Ok(MathInst::SubM),
            0x9E => return Ok(MathInst::SbbM),
            0xC6 => return Ok(MathInst::Adi { imm: buf[1] }),
            0xCE => return Ok(MathInst::Aci { imm: buf[1] }),
            0xD6 => return Ok(MathInst::Sui { imm: buf[1] }),
            0xDE => return Ok(MathInst::Sbi { imm: buf[1] }),
            _ => {},
        }
        let bits = Bits::new(buf[0]);
        let prefix: u8 = bits.bit_range(0..2);
        let t0: u8 = bits.bit_range(2..5);
        let t1: u8 = bits.bit_range(5..8);
        if prefix == 0b00 {
            if t1 == 0b100 {
                let dest = Register::from_code(t0)?;
                Ok(MathInst::InrR { dest })
            } else if t1 == 0b101 {
                let dest = Register::from_code(t0)?;
                Ok(MathInst::DcrR { dest })
            } else {
                let rp_code: u8 = bits.bit_range(2..4);
                let disc: u8 = bits.bit_range(4..8);
                let rp = RegisterPair::from_code(rp_code)?;
                if disc == 0b0011 {
                    Ok(MathInst::Inx { rp })
                } else if disc == 0b1001 {
                    Ok(MathInst::Dad { rp })
                } else if disc == 0b1011 {
                    Ok(MathInst::Dcx { rp })
                } else {
                    Err(Error::IllegalInstruction(*buf))
                }
            }
        } else if prefix == 0b10 {
            if t0 == 0b000 {
                let src = Register::from_code(t1)?;
                Ok(MathInst::AddR { src })
            } else if t0 == 0b001 {
                let src = Register::from_code(t1)?;
                Ok(MathInst::AdcR { src })
            } else if t0 == 0b010 {
                let src = Register::from_code(t1)?;
                Ok(MathInst::SubR { src })
            } else if t0 == 0b011 {
                let src = Register::from_code(t1)?;
                Ok(MathInst::SbbR { src })
            } else {
                Err(Error::IllegalInstruction(*buf))
            }
        } else {
            Err(Error::IllegalInstruction(*buf))
        }
    }

    fn size(&self) -> (n: usize) {
        match self {
            MathInst::Adi { .. } => 2,
            MathInst::Aci { .. } => 2,
            MathInst::Sui { .. } => 2,
            MathInst::Sbi { .. } => 2,
            _ => 1,
        }
    }
}

/// Exhaustiveness of the arithmetic decoder over the whole opcode space:
/// every leading byte yields exactly one instruction or reports the window
/// illegal. The memory pseudo-operand's code never reaches register lookup:
/// the opcodes that carry it are all caught by exact match first.
pub proof fn lemma_math_exhaustive(w: [u8; 3])
    ensures
        spec_parse_math(w) is Ok || spec_parse_math(w) == Err::<MathInst, Error>(
            Error::IllegalInstruction(w),
        ),
{
    lemma_extract_bound(w[0], 0, 2);
    lemma_extract_bound(w[0], 2, 5);
    lemma_extract_bound(w[0], 5, 8);
    lemma_extract_bound(w[0], 2, 4);
    lemma_extract_decomposes(w[0]);
    lemma2_to64();
}

/// Size/consumption agreement for the arithmetic decoder: a decoded
/// instruction depends on exactly the bytes its size covers, so a window
/// that agrees on those bytes decodes to the very same instruction and the
/// trailing padding bytes are ignored.
pub proof fn lemma_math_size_consumption(w1: [u8; 3], w2: [u8; 3], i: MathInst)
    requires
        spec_parse_math(w1) == Ok::<MathInst, Error>(i),
        w2[0] == w1[0],
        spec_math_size(i) >= 2 ==> w2[1] == w1[1],
        spec_math_size(i) >= 3 ==> w2[2] == w1[2],
    ensures
        spec_parse_math(w2) == Ok::<MathInst, Error>(i),
{
}

} // verus!
