use i8080_decode::data_inst::DataInst;
use i8080_decode::error::Error;
use i8080_decode::instruction::Instruction;
use i8080_decode::logical_inst::LogicalInst;
use i8080_decode::math_inst::MathInst;
use i8080_decode::register::{Register, RegisterPair};

fn is_window_illegal<T: Instruction + std::fmt::Debug>(r: &Result<T, Error>, w: [u8; 3]) -> bool {
    matches!(r, Err(Error::IllegalInstruction(bytes)) if *bytes == w)
}

#[test]
fn test_data_exhaustive_over_leading_bytes() {
    for b0 in 0..=255u8 {
        let w = [b0, 0x5A, 0xC3];
        let r = DataInst::parse(&w);
        assert!(
            r.is_ok() || is_window_illegal(&r, w),
            "leading byte 0b{:08b} gave {:?}",
            b0,
            r
        );
    }
}

#[test]
fn test_math_exhaustive_over_leading_bytes() {
    for b0 in 0..=255u8 {
        let w = [b0, 0x5A, 0xC3];
        let r = MathInst::parse(&w);
        assert!(
            r.is_ok() || is_window_illegal(&r, w),
            "leading byte 0b{:08b} gave {:?}",
            b0,
            r
        );
    }
}

#[test]
fn test_logical_exhaustive_over_leading_bytes() {
    for b0 in 0..=255u8 {
        let w = [b0, 0x5A, 0xC3];
        let r = LogicalInst::parse(&w);
        assert!(
            r.is_ok() || is_window_illegal(&r, w),
            "leading byte 0b{:08b} gave {:?}",
            b0,
            r
        );
    }
}

#[test]
fn test_decoding_is_deterministic() {
    for b0 in 0..=255u8 {
        let w = [b0, 0x11, 0x22];
        assert_eq!(DataInst::parse(&w), DataInst::parse(&w));
        assert_eq!(MathInst::parse(&w), MathInst::parse(&w));
        assert_eq!(LogicalInst::parse(&w), LogicalInst::parse(&w));
    }
}

#[test]
fn test_size_covers_exactly_the_consumed_bytes() {
    // Bytes at or past the reported size are padding: replacing them must
    // not change what was decoded.
    for b0 in 0..=255u8 {
        let w = [b0, 0x11, 0x22];
        if let Ok(inst) = DataInst::parse(&w) {
            let n = inst.size();
            assert!((1..=3).contains(&n));
            let altered = [b0, if n >= 2 { 0x11 } else { 0x77 }, if n >= 3 { 0x22 } else { 0x77 }];
            assert_eq!(DataInst::parse(&altered).unwrap(), inst);
        }
        if let Ok(inst) = MathInst::parse(&w) {
            let n = inst.size();
            assert!((1..=3).contains(&n));
            let altered = [b0, if n >= 2 { 0x11 } else { 0x77 }, if n >= 3 { 0x22 } else { 0x77 }];
            assert_eq!(MathInst::parse(&altered).unwrap(), inst);
        }
        if let Ok(inst) = LogicalInst::parse(&w) {
            let n = inst.size();
            assert!((1..=3).contains(&n));
            let altered = [b0, if n >= 2 { 0x11 } else { 0x77 }, if n >= 3 { 0x22 } else { 0x77 }];
            assert_eq!(LogicalInst::parse(&altered).unwrap(), inst);
        }
    }
}

#[test]
fn test_register_codes_roundtrip() {
    let registers = [
        Register::A,
        Register::B,
        Register::C,
        Register::D,
        Register::E,
        Register::H,
        Register::L,
    ];
    for r in registers {
        assert_eq!(Register::from_code(r.code()), Ok(r));
    }
    assert_eq!(Register::A.code(), 0b111);
    assert_eq!(Register::B.code(), 0b000);
    assert_eq!(Register::L.code(), 0b101);
}

#[test]
fn test_register_lookup_rejects_memory_code() {
    assert_eq!(Register::from_code(0b110), Err(Error::InvalidRegister(0b110)));
    assert_eq!(Register::from_code(8), Err(Error::InvalidRegister(8)));
    assert_eq!(Register::from_code(255), Err(Error::InvalidRegister(255)));
}

#[test]
fn test_register_pair_codes_roundtrip() {
    let pairs = [RegisterPair::BC, RegisterPair::DE, RegisterPair::HL, RegisterPair::SP];
    for rp in pairs {
        assert_eq!(RegisterPair::from_code(rp.code()), Ok(rp));
    }
    assert_eq!(RegisterPair::BC.code(), 0b00);
    assert_eq!(RegisterPair::SP.code(), 0b11);
}

#[test]
fn test_register_pair_lookup_rejects_wide_codes() {
    assert_eq!(RegisterPair::from_code(4), Err(Error::InvalidRegisterPair(4)));
    assert_eq!(RegisterPair::from_code(255), Err(Error::InvalidRegisterPair(255)));
}
