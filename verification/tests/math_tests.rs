use i8080_decode::error::Error;
use i8080_decode::instruction::Instruction;
use i8080_decode::math_inst::MathInst;
use i8080_decode::math_inst::MathInst::{
    Aci, AdcM, AdcR, AddM, AddR, Adi, Daa, Dad, DcrM, DcrR, Dcx, InrM, InrR, Inx, SbbM, SbbR,
    Sbi, SubM, SubR, Sui,
};
use i8080_decode::register::Register::{A, B, C, D};
use i8080_decode::register::RegisterPair::{DE, HL};

#[test]
fn test_math_parse() {
    let cases: &[([u8; 3], MathInst)] = &[
        ([0b10_000_111, 0, 0], AddR { src: A }),
        ([0b10_000_110, 0, 0], AddM),
        ([0b11_000_110, 0xFF, 0], Adi { imm: 0xFF }),
        ([0b10_001_000, 0, 0], AdcR { src: B }),
        ([0b10_001_110, 0, 0], AdcM),
        ([0b11_001_110, 0xAA, 0], Aci { imm: 0xAA }),
        ([0b10_010_010, 0, 0], SubR { src: D }),
        ([0b10_010_110, 0, 0], SubM),
        ([0b11_010_110, 0xAF, 0], Sui { imm: 0xAF }),
        ([0b10_011_001, 0, 0], SbbR { src: C }),
        ([0b10_011_110, 0, 0], SbbM),
        ([0b11_011_110, 0xCC, 0], Sbi { imm: 0xCC }),
        ([0b00_000_100, 0, 0], InrR { dest: B }),
        ([0b00_110_100, 0, 0], InrM),
        ([0b00_111_101, 0, 0], DcrR { dest: A }),
        ([0b00_110_101, 0, 0], DcrM),
        ([0b00_01_0011, 0, 0], Inx { rp: DE }),
        ([0b00_10_1011, 0, 0], Dcx { rp: HL }),
        ([0b00_01_1001, 0, 0], Dad { rp: DE }),
        ([0b00_100_111, 0, 0], Daa),
    ];
    for (bytes, inst) in cases {
        match MathInst::parse(bytes) {
            Ok(parsed) => assert_eq!(parsed, *inst),
            Err(e) => panic!("{:?}\nError parsing {:?}: Expected {:?}", e, bytes, inst),
        }
    }
}

#[test]
fn test_math_sizes() {
    assert_eq!(Adi { imm: 1 }.size(), 2);
    assert_eq!(Aci { imm: 1 }.size(), 2);
    assert_eq!(Sui { imm: 1 }.size(), 2);
    assert_eq!(Sbi { imm: 1 }.size(), 2);
    assert_eq!(AddR { src: A }.size(), 1);
    assert_eq!(AddM.size(), 1);
    assert_eq!(InrR { dest: B }.size(), 1);
    assert_eq!(Inx { rp: DE }.size(), 1);
    assert_eq!(Dad { rp: HL }.size(), 1);
    assert_eq!(Daa.size(), 1);
}

#[test]
fn test_math_immediates_use_second_byte_only() {
    assert_eq!(MathInst::parse(&[0b11_000_110, 0x01, 0x99]).unwrap(), Adi { imm: 0x01 });
    assert_eq!(MathInst::parse(&[0b11_001_110, 0x02, 0x99]).unwrap(), Aci { imm: 0x02 });
    assert_eq!(MathInst::parse(&[0b11_010_110, 0x03, 0x99]).unwrap(), Sui { imm: 0x03 });
    assert_eq!(MathInst::parse(&[0b11_011_110, 0x04, 0x99]).unwrap(), Sbi { imm: 0x04 });
}

#[test]
fn test_math_illegal_bytes() {
    // Prefix 01 belongs to the move space; the arithmetic decoder owns no
    // part of it.
    assert_eq!(
        MathInst::parse(&[0b01_000_000, 0, 0]),
        Err(Error::IllegalInstruction([0b01_000_000, 0, 0]))
    );
    // Prefix 00 with an unmatched pair discriminant.
    assert_eq!(
        MathInst::parse(&[0b00_00_0000, 0, 0]),
        Err(Error::IllegalInstruction([0, 0, 0]))
    );
    // Prefix 10 with a middle field from the logical decoder's half.
    assert_eq!(
        MathInst::parse(&[0b10_100_000, 0, 0]),
        Err(Error::IllegalInstruction([0b10_100_000, 0, 0]))
    );
}

#[test]
fn test_math_increment_accumulator() {
    assert_eq!(MathInst::parse(&[0b00_111_100, 0, 0]).unwrap(), InrR { dest: A });
}
