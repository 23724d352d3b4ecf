use vstd::prelude::*;

use crate::error::Error;

verus! {

/// One of the seven single-byte CPU registers, each addressed by a unique
/// 3-bit code inside an opcode.
///
/// The codes are not sequential: `A` carries the numerically highest code,
/// out of alphabetic order, and code 6 is reserved for the memory
/// pseudo-operand, which the decoders handle structurally and never forward
/// to register lookup.
#[derive(Debug, Clone, Copy, PartialEq, Eq)]
pub enum Register {
    A,
    B,
    C,
    D,
    E,
    H,
    L,
}

impl Register {
    /// The 3-bit code this register occupies in an opcode's register fields.
    pub open spec fn spec_code(self) -> u8 {
        match self {
            Register::A => 7,
            Register::B => 0,
            Register::C => 1,
            Register::D => 2,
            Register::E => 3,
            Register::H => 4,
            Register::L => 5,
        }
    }

    /// What looking a code up returns: the register bound to `code`, or
    /// `InvalidRegister` for code 6 (the memory pseudo-operand) and for
    /// anything wider than 3 bits.
    pub open spec fn spec_from_code(code: u8) -> Result<Register, Error> {
        if code == 0 {
            Ok(Register::B)
        } else if code == 1 {
            Ok(Register::C)
        } else if code == 2 {
            Ok(Register::D)
        } else if code == 3 {
            Ok(Register::E)
        } else if code == 4 {
            Ok(Register::H)
        } else if code == 5 {
            Ok(Register::L)
        } else if code == 7 {
            Ok(Register::A)
        } else {
            Err(Error::InvalidRegister(code))
        }
    }

    /// Exact lookup of a register by its 3-bit code.
    pub fn from_code(code: u8) -> (r: Result<Register, Error>)
        ensures
            r == Register::spec_from_code(code),
    {
        match code {
            0 => Ok(Register::B),
            1 => Ok(Register::C),
            2 => Ok(Register::D),
            3 => Ok(Register::E),
            4 => Ok(Register::H),
            5 => Ok(Register::L),
            7 => Ok(Register::A),
            _ => Err(Error::InvalidRegister(code)),
        }
    }

    /// The code this register answers to, as a runtime value.
    pub fn code(&self) -> (c: u8)
        ensures
            c == self.spec_code(),
    {
        match self {
            Register::A => 7,
            Register::B => 0,
            Register::C => 1,
            Register::D => 2,
            Register::E => 3,
            Register::H => 4,
            Register::L => 5,
        }
    }
}

/// The code/register binding is exact: every register is found again under
/// its own code, so lookup never confuses two registers.
pub proof fn lemma_register_code_roundtrip(r: Register)
    ensures
        Register::spec_from_code(r.spec_code()) == Ok::<Register, Error>(r),
{
}

/// One of the four 16-bit register pairs, addressed by a unique 2-bit code,
/// sequential from 0.
#[derive(Debug, Clone, Copy, PartialEq, Eq)]
pub enum RegisterPair {
    BC,
    DE,
    HL,
    SP,
}

impl RegisterPair {
    /// The 2-bit code this pair occupies in an opcode's pair fields.
    pub open spec fn spec_code(self) -> u8 {
        match self {
            RegisterPair::BC => 0,
            RegisterPair::DE => 1,
            RegisterPair::HL => 2,
            RegisterPair::SP => 3,
        }
    }

    /// What looking a code up returns: the pair bound to `code`, or
    /// `InvalidRegisterPair` for anything wider than 2 bits.
    pub open spec fn spec_from_code(code: u8) -> Result<RegisterPair, Error> {
        if code == 0 {
            Ok(RegisterPair::BC)
        } else if code == 1 {
            Ok(RegisterPair::DE)
        } else if code == 2 {
            Ok(RegisterPair::HL)
        } else if code == 3 {
            Ok(RegisterPair::SP)
        } else {
            Err(Error::InvalidRegisterPair(code))
        }
    }

    /// Exact lookup of a register pair by its 2-bit code.
    pub fn from_code(code: u8) -> (r: Result<RegisterPair, Error>)
        ensures
            r == RegisterPair::spec_from_code(code),
    {
        match code {
            0 => Ok(RegisterPair::BC),
            1 => Ok(RegisterPair::DE),
            2 => Ok(RegisterPair::HL),
            3 => Ok(RegisterPair::SP),
            _ => Err(Error::InvalidRegisterPair(code)),
        }
    }

    /// The code this pair answers to, as a runtime value.
    pub fn code(&self) -> (c: u8)
        ensures
            c == self.spec_code(),
    {
        match self {
            RegisterPair::BC => 0,
            RegisterPair::DE => 1,
            RegisterPair::HL => 2,
            RegisterPair::SP => 3,
        }
    }
}

/// Every register pair is found again under its own code.
pub proof fn lemma_register_pair_code_roundtrip(rp: RegisterPair)
    ensures
        RegisterPair::spec_from_code(rp.spec_code()) == Ok::<RegisterPair, Error>(rp),
{
}

} // verus!
