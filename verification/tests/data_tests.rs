use i8080_decode::data_inst::DataInst;
use i8080_decode::data_inst::DataInst::{
    Lda, Ldax, Lhld, Lxi, MovFromM, MovR, MovToM, MviM, MviR, Shld, Sta, Stax, Xchg,
};
use i8080_decode::error::Error;
use i8080_decode::instruction::Instruction;
use i8080_decode::register::Register::{A, B, C};
use i8080_decode::register::RegisterPair::{BC, DE, HL, SP};

#[test]
fn test_parse() {
    let cases: &[([u8; 3], DataInst)] = &[
        ([0b01_111_000, 0, 0], MovR { dest: A, src: B }),
        ([0b01_000_110, 0, 0], MovFromM { dest: B }),
        ([0b01_110_111, 0, 0], MovToM { src: A }),
        ([0b00_001_110, 0b1010, 0], MviR { dest: C, imm: 0b1010 }),
        ([0b00_110_110, 0xAA, 0], MviM { imm: 0xAA }),
        ([0b00_01_0001, 0xFF, 0x11], Lxi { dest: DE, imm0: 0xFF, imm1: 0x11 }),
        ([0b00111010, 0xFF, 0xAA], Lda { addr: 0xAAFF }),
        ([0b00110010, 0xFF, 0xAA], Sta { addr: 0xAAFF }),
        ([0b00101010, 0xFF, 0xAA], Lhld { addr: 0xAAFF }),
        ([0b00100010, 0xFF, 0xAA], Shld { addr: 0xAAFF }),
        ([0b00_00_1010, 0, 0], Ldax { rp: BC }),
        ([0b00_01_0010, 0, 0], Stax { rp: DE }),
        ([0b11101011, 0, 0], Xchg),
    ];
    for (bytes, inst) in cases {
        let parsed = match DataInst::parse(bytes) {
            Ok(p) => p,
            Err(e) => {
                let mut bytes_fmt = String::from("[");
                for (i, b) in bytes.iter().copied().enumerate() {
                    let formatted = if i == bytes.len() - 1 {
                        format!("0b{:08b}]", b)
                    } else {
                        format!("0b{:08b}, ", b)
                    };
                    bytes_fmt.push_str(&formatted);
                }
                panic!("{:?}\nError parsing {}: Expected {:?}", e, bytes_fmt, inst);
            }
        };
        assert_eq!(parsed, *inst);
    }
}

#[test]
fn test_data_sizes() {
    let one_byte = [
        MovR { dest: A, src: B },
        MovFromM { dest: B },
        MovToM { src: A },
        Ldax { rp: BC },
        Stax { rp: DE },
        Xchg,
    ];
    for inst in one_byte {
        assert_eq!(inst.size(), 1);
    }
    assert_eq!(MviR { dest: C, imm: 7 }.size(), 2);
    assert_eq!(MviM { imm: 7 }.size(), 2);
    assert_eq!(Lxi { dest: SP, imm0: 1, imm1: 2 }.size(), 3);
    assert_eq!(Lda { addr: 0 }.size(), 3);
    assert_eq!(Sta { addr: 0 }.size(), 3);
    assert_eq!(Lhld { addr: 0 }.size(), 3);
    assert_eq!(Shld { addr: 0 }.size(), 3);
}

#[test]
fn test_immediate_load_to_memory_scenario() {
    let window = [0b00110110, 0xAA, 0x00];
    let inst = DataInst::parse(&window).unwrap();
    assert_eq!(inst, MviM { imm: 0xAA });
    assert_eq!(inst.size(), 2);
}

#[test]
fn test_accumulator_load_little_endian_scenario() {
    let window = [0b00111010, 0xFF, 0xAA];
    let inst = DataInst::parse(&window).unwrap();
    assert_eq!(inst, Lda { addr: 0xAAFF });
    assert_eq!(inst.size(), 3);
}

#[test]
fn test_exchange_scenario() {
    let window = [0b11101011, 0, 0];
    let inst = DataInst::parse(&window).unwrap();
    assert_eq!(inst, Xchg);
    assert_eq!(inst.size(), 1);
}

#[test]
fn test_register_move_scenario() {
    let window = [0b01000001, 0, 0];
    let inst = DataInst::parse(&window).unwrap();
    assert_eq!(inst, MovR { dest: B, src: C });
    assert_eq!(inst.size(), 1);
}

#[test]
fn test_leading_zero_byte_is_illegal() {
    let window = [0b00000000, 0, 0];
    let result = DataInst::parse(&window);
    assert_eq!(result, Err(Error::IllegalInstruction([0, 0, 0])));
}

#[test]
fn test_both_operands_memory_is_illegal() {
    // Prefix 01 with both 3-bit fields set to the memory code names no
    // defined move; the decoder must not forward the memory code to
    // register lookup.
    let window = [0b01_110_110, 0, 0];
    let result = DataInst::parse(&window);
    assert_eq!(result, Err(Error::IllegalInstruction([0b01_110_110, 0, 0])));
}

#[test]
fn test_mov_with_accumulator_fields() {
    // The accumulator's code is the numerically highest; both field
    // positions must decode it.
    let window = [0b01_111_001, 0, 0];
    let inst = DataInst::parse(&window).unwrap();
    assert_eq!(inst, MovR { dest: A, src: C });
    let window = [0b00_111_110, 0x55, 0];
    let inst = DataInst::parse(&window).unwrap();
    assert_eq!(inst, MviR { dest: A, imm: 0x55 });
}

#[test]
fn test_lxi_all_pairs() {
    assert_eq!(
        DataInst::parse(&[0b00_00_0001, 0x34, 0x12]).unwrap(),
        Lxi { dest: BC, imm0: 0x34, imm1: 0x12 }
    );
    assert_eq!(
        DataInst::parse(&[0b00_10_0001, 0x01, 0x02]).unwrap(),
        Lxi { dest: HL, imm0: 0x01, imm1: 0x02 }
    );
    assert_eq!(
        DataInst::parse(&[0b00_11_0001, 0, 0]).unwrap(),
        Lxi { dest: SP, imm0: 0, imm1: 0 }
    );
}
