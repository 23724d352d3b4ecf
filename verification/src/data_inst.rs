use vstd::arithmetic::power2::lemma2_to64;
use vstd::prelude::*;

use crate::bits::{extract, lemma_extract_bound, Bits};
use crate::error::Error;
use crate::instruction::Instruction;
use crate::register::{Register, RegisterPair};

verus! {

/// A 16-bit direct address assembled little-endian from the two operand
/// bytes: low byte first, high byte second.
pub open spec fn spec_le_addr(lo: u8, hi: u8) -> u16 {
    (lo + hi * 256) as u16
}

/// Assembles the little-endian direct address held in two operand bytes.
fn le_addr(lo: u8, hi: u8) -> (a: u16)
    ensures
        a == spec_le_addr(lo, hi),
{
    lo as u16 + hi as u16 * 256
}

/// The data-movement instructions: moves between registers and memory,
/// immediate loads, direct-address loads and stores, and the register-pair
/// exchange.
#[derive(Debug, Clone, Copy, PartialEq, Eq)]
#[allow(inconsistent_fields)]
pub enum DataInst {
    /// Move between two registers.
    MovR { dest: Register, src: Register },
    /// Move to a register from the memory pseudo-operand.
    MovFromM { dest: Register },
    /// Move from a register to the memory pseudo-operand.
    MovToM { src: Register },
    /// Load an immediate into a register.
    MviR { dest: Register, imm: u8 },
    /// Load an immediate into the memory pseudo-operand.
    MviM { imm: u8 },
    /// Load a register pair with a 16-bit immediate, low byte first.
    Lxi { dest: RegisterPair, imm0: u8, imm1: u8 },
    /// Load the accumulator from a direct address.
    Lda { addr: u16 },
    /// Store the accumulator to a direct address.
    Sta { addr: u16 },
    /// Load HL from a direct address.
    Lhld { addr: u16 },
    /// Store HL to a direct address.
    Shld { addr: u16 },
    /// Load the accumulator indirectly through a register pair.
    Ldax { rp: RegisterPair },
    /// Store the accumulator indirectly through a register pair.
    Stax { rp: RegisterPair },
    /// Exchange the DE and HL register pairs.
    Xchg,
}

/// The data-movement decode table: exact-match opcodes first, then the
/// bit-field general path over a 2-bit prefix and two 3-bit fields.
pub open spec fn spec_parse_data(w: [u8; 3]) -> Result<DataInst, Error> {
    let b0 = w[0];
    if b0 == 0x36 {
        Ok(DataInst::MviM { imm: w[1] })
    } else if b0 == 0x3A {
        Ok(DataInst::Lda { addr: spec_le_addr(w[1], w[2]) })
    } else if b0 == 0x32 {
        Ok(DataInst::Sta { addr: spec_le_addr(w[1], w[2]) })
    } else if b0 == 0x2A {
        Ok(DataInst::Lhld { addr: spec_le_addr(w[1], w[2]) })
    } else if b0 == 0x22 {
        Ok(DataInst::Shld { addr: spec_le_addr(w[1], w[2]) })
    } else if b0 == 0xEB {
        Ok(DataInst::Xchg)
    } else {
        let prefix = extract(b0, 0, 2);
        let t0 = extract(b0, 2, 5);
        let t1 = extract(b0, 5, 8);
        if prefix == 0b00 {
            if t0 == 0b110 && t1 == 0b110 {
                Ok(DataInst::MviM { imm: w[1] })
            } else if t0 == 0b111 && t1 == 0b010 {
                Ok(DataInst::Lda { addr: spec_le_addr(w[1], w[2]) })
            } else if t1 == 0b110 {
                match Register::spec_from_code(t0) {
                    Ok(dest) => Ok(DataInst::MviR { dest, imm: w[1] }),
                    Err(e) => Err(e),
                }
            } else if t1 == 0b001 {
                match RegisterPair::spec_from_code((t0 / 2) as u8) {
                    Ok(dest) => Ok(DataInst::Lxi { dest, imm0: w[1], imm1: w[2] }),
                    Err(e) => Err(e),
                }
            } else {
                let rp_code = extract(b0, 2, 4);
                let disc = extract(b0, 4, 8);
                match RegisterPair::spec_from_code(rp_code) {
                    Ok(rp) => {
                        if disc == 0b1010 {
                            Ok(DataInst::Ldax { rp })
                        } else if disc == 0b0010 {
                            Ok(DataInst::Stax { rp })
                        } else {
                            Err(Error::IllegalInstruction(w))
                        }
                    },
                    Err(e) => Err(e),
                }
            }
        } else if prefix == 0b01 {
            if t0 == 0b110 && t1 == 0b110 {
                Err(Error::IllegalInstruction(w))
            } else if t1 == 0b110 {
                match Register::spec_from_code(t0) {
                    Ok(dest) => Ok(DataInst::MovFromM { dest }),
                    Err(e) => Err(e),
                }
            } else if t0 == 0b110 {
                match Register::spec_from_code(t1) {
                    Ok(src) => Ok(DataInst::MovToM { src }),
                    Err(e) => Err(e),
                }
            } else {
                match (Register::spec_from_code(t0), Register::spec_from_code(t1)) {
                    (Ok(dest), Ok(src)) => Ok(DataInst::MovR { dest, src }),
                    (Err(e), _) => Err(e),
                    (_, Err(e)) => Err(e),
                }
            }
        } else {
            Err(Error::IllegalInstruction(w))
        }
    }
}

/// The byte length of each data-movement variant: a pure function of the
/// variant tag alone.
pub open spec fn spec_data_size(i: DataInst) -> int {
    match i {
        DataInst::MovR { .. } => 1,
        DataInst::MovFromM { .. } => 1,
        DataInst::MovToM { .. } => 1,
        DataInst::Ldax { .. } => 1,
        DataInst::Stax { .. } => 1,
        DataInst::Xchg => 1,
        DataInst::MviR { .. } => 2,
        DataInst::MviM { .. } => 2,
        DataInst::Lxi { .. } => 3,
        DataInst::Lda { .. } => 3,
        DataInst::Sta { .. } => 3,
        DataInst::Lhld { .. } => 3,
        DataInst::Shld { .. } => 3,
    }
}

impl Instruction for DataInst {
    open spec fn spec_parse(w: [u8; 3]) -> Result<DataInst, Error> {
        spec_parse_data(w)
    }

    open spec fn spec_size(self) -> int {
        spec_data_size(self)
    }

    fn parse(buf: &[u8; 3]) -> (r: Result<DataInst, Error>) {
        match buf[0] {
            0x36 => return Ok(DataInst::MviM { imm: buf[1] }),
            0x3A => return Ok(DataInst::Lda { addr: le_addr(buf[1], buf[2]) }),
            0x32 => return Ok(DataInst::Sta { addr: le_addr(buf[1], buf[2]) }),
            0x2A => return Ok(DataInst::Lhld { addr: le_addr(buf[1], buf[2]) }),
            0x22 => return Ok(DataInst::Shld { addr: le_addr(buf[1], buf[2]) }),
            0xEB => return Ok(DataInst::Xchg),
            _ => {},
        }
        let bits = Bits::new(buf[0]);
        let prefix: u8 = bits.bit_range(0..2);
        let t0: u8 = bits.bit_range(2..5);
        let t1: u8 = bits.bit_range(5..8);
        if prefix == 0b00 {
            if t0 == 0b110 && t1 == 0b110 {
                Ok(DataInst::MviM { imm: buf[1] })
            } else if t0 == 0b111 && t1 == 0b010 {
                Ok(DataInst::Lda { addr: le_addr(buf[1], buf[2]) })
            } else if t1 == 0b110 {
                let dest = Register::from_code(t0)?;
                Ok(DataInst::MviR { dest, imm: buf[1] })
            } else if t1 == 0b001 {
                proof {
                    assert(t0 >> 1u8 == t0 / 2) by (bit_vector);
                }
                let dest = RegisterPair::from_code(t0 >> 1)?;
                Ok(DataInst::Lxi { dest, imm0: buf[1], imm1: buf[2] })
            } else {
                let rp_code: u8 = bits.bit_range(2..4);
                let disc: u8 = bits.bit_range(4..8);
                let rp = RegisterPair::from_code(rp_code)?;
                if disc == 0b1010 {
                    Ok(DataInst::Ldax { rp })
                } else if disc == 0b0010 {
                    Ok(DataInst::Stax { rp })
                } else {
                    Err(Error::IllegalInstruction(*buf))
                }
            }
        } else if prefix == 0b01 {
            if t0 == 0b110 && t1 == 0b110 {
                Err(Error::IllegalInstruction(*buf))
            } else if t1 == 0b110 {
                let dest = Register::from_code(t0)?;
                Ok(DataInst::MovFromM { dest })
            } else if t0 == 0b110 {
                let src = Register::from_code(t1)?;
                Ok(DataInst::MovToM { src })
            } else {
                let dest = Register::from_code(t0)?;
                let src = Register::from_code(t1)?;
                Ok(DataInst::MovR { dest, src })
            }
        } else {
            Err(Error::IllegalInstruction(*buf))
        }
    }

    fn size(&self) -> (n: usize) {
        match self {
            DataInst::MovR { .. } => 1,
            DataInst::MovFromM { .. } => 1,
            DataInst::MovToM { .. } => 1,
            DataInst::Ldax { .. } => 1,
            DataInst::Stax { .. } => 1,
            DataInst::Xchg => 1,
            DataInst::MviR { .. } => 2,
            DataInst::MviM { .. } => 2,
            DataInst::Lxi { .. } => 3,
            DataInst::Lda { .. } => 3,
            DataInst::Sta { .. } => 3,
            DataInst::Lhld { .. } => 3,
            DataInst::Shld { .. } => 3,
        }
    }
}

/// Exhaustiveness of the data-movement decoder over the whole opcode space:
/// every leading byte yields exactly one instruction or reports the window
/// illegal. In particular no path forwards the memory pseudo-operand's code
/// to register lookup, so the register errors never escape this decoder.
pub proof fn lemma_data_exhaustive(w: [u8; 3])
    ensures
        spec_parse_data(w) is Ok || spec_parse_data(w) == Err::<DataInst, Error>(
            Error::IllegalInstruction(w),
        ),
{
    lemma_extract_bound(w[0], 2, 5);
    lemma_extract_bound(w[0], 5, 8);
    lemma_extract_bound(w[0], 2, 4);
    lemma2_to64();
}

/// Size/consumption agreement for the data-movement decoder: a decoded
/// instruction depends on exactly the bytes its size covers, so a window
/// that agrees on those bytes decodes to the very same instruction and the
/// trailing padding bytes are ignored.
pub proof fn lemma_data_size_consumption(w1: [u8; 3], w2: [u8; 3], i: DataInst)
    requires
        spec_parse_data(w1) == Ok::<DataInst, Error>(i),
        w2[0] == w1[0],
        spec_data_size(i) >= 2 ==> w2[1] == w1[1],
        spec_data_size(i) >= 3 ==> w2[2] == w1[2],
    ensures
        spec_parse_data(w2) == Ok::<DataInst, Error>(i),
{
}

} // verus!
