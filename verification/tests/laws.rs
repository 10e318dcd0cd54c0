use encoder_x86_64::encode::{encode, encoded_length};
use encoder_x86_64::error::EncodeError;
use encoder_x86_64::instruction::{Instruction, MemoryOperand, Operand, OperandSize, Register};
use encoder_x86_64::mnemonic::Mnemonic;

fn register(register: Register) -> Option<Operand> {
    Some(Operand::Register(register))
}

fn memory(
    size: OperandSize,
    base: Register,
    index: Option<Register>,
    displacement: i64,
) -> Option<Operand> {
    Some(Operand::Memory(MemoryOperand {
        size,
        segment: None,
        base: Some(base),
        index,
        scale: 1,
        displacement,
        label: None,
    }))
}

fn label(size: OperandSize, name: &str) -> Option<Operand> {
    Some(Operand::Memory(MemoryOperand {
        size,
        segment: None,
        base: None,
        index: None,
        scale: 1,
        displacement: 0,
        label: Some(name.to_string()),
    }))
}

fn two(mnemonic: Mnemonic, first: Option<Operand>, second: Option<Operand>) -> Instruction {
    Instruction { mnemonic, operands: [first, second, None, None] }
}

fn samples() -> Vec<Instruction> {
    vec![
        two(Mnemonic::MOV, register(Register::RAX), register(Register::RCX)),
        two(Mnemonic::MOV, register(Register::R9B), register(Register::CL)),
        two(Mnemonic::MOV, register(Register::R9B), register(Register::CH)),
        two(Mnemonic::MOV, register(Register::EAX), Some(Operand::Immediate32(7))),
        two(Mnemonic::MOV, register(Register::EAX), Some(Operand::Immediate64(7))),
        two(
            Mnemonic::MOV,
            register(Register::RAX),
            memory(OperandSize::Qword, Register::RBP, Some(Register::R9), 0x1234),
        ),
        two(
            Mnemonic::MOV,
            register(Register::RAX),
            memory(OperandSize::Qword, Register::RBP, Some(Register::RSP), 0),
        ),
        two(Mnemonic::LEA, register(Register::R11), label(OperandSize::Unsized, "entry")),
        two(Mnemonic::LEA, register(Register::R11), label(OperandSize::Unsized, "nowhere")),
        two(Mnemonic::MOVZX, register(Register::RAX), register(Register::CX)),
        two(Mnemonic::CWD, None, None),
    ]
}

const GENERAL: [[Register; 4]; 16] = [
    [Register::RAX, Register::EAX, Register::AX, Register::AL],
    [Register::RCX, Register::ECX, Register::CX, Register::CL],
    [Register::RDX, Register::EDX, Register::DX, Register::DL],
    [Register::RBX, Register::EBX, Register::BX, Register::BL],
    [Register::RSP, Register::ESP, Register::SP, Register::SPL],
    [Register::RBP, Register::EBP, Register::BP, Register::BPL],
    [Register::RSI, Register::ESI, Register::SI, Register::SIL],
    [Register::RDI, Register::EDI, Register::DI, Register::DIL],
    [Register::R8, Register::R8D, Register::R8W, Register::R8B],
    [Register::R9, Register::R9D, Register::R9W, Register::R9B],
    [Register::R10, Register::R10D, Register::R10W, Register::R10B],
    [Register::R11, Register::R11D, Register::R11W, Register::R11B],
    [Register::R12, Register::R12D, Register::R12W, Register::R12B],
    [Register::R13, Register::R13D, Register::R13W, Register::R13B],
    [Register::R14, Register::R14D, Register::R14W, Register::R14B],
    [Register::R15, Register::R15D, Register::R15W, Register::R15B],
];

const HIGH: [Register; 4] = [Register::AH, Register::CH, Register::DH, Register::BH];

#[test]
fn encoding_twice_gives_the_same_outcome() {
    let labels = vec![("entry", 0x40_1000u64)];
    for instruction in samples() {
        let first = encode(&instruction, 0x40_0000, &labels);
        let second = encode(&instruction, 0x40_0000, &labels);
        assert_eq!(first, second);
        let copy = instruction.clone();
        let other_labels = vec![("entry", 0x40_1000u64)];
        assert_eq!(encode(&copy, 0x40_0000, &other_labels), first);
    }
}

#[test]
fn address_changes_nothing_without_a_label() {
    let labels = vec![("entry", 0x40_1000u64)];
    let others = vec![("entry", 0x10u64), ("nowhere", 0x20)];
    for instruction in samples() {
        let at_zero = encode(&instruction, 0, &labels);
        let elsewhere = encode(&instruction, 0x7FFF_0000, &others);
        if instruction.has_label() {
            assert_ne!(at_zero, elsewhere);
        } else {
            assert_eq!(at_zero, elsewhere);
        }
    }
}

#[test]
fn address_changes_only_the_displacement_of_a_label() {
    let load = two(Mnemonic::LEA, register(Register::R11), label(OperandSize::Unsized, "entry"));
    let labels = vec![("entry", 0x1000u64)];
    assert_eq!(encode(&load, 0, &labels), Ok(vec![0x4C, 0x8D, 0x1D, 0xF9, 0x0F, 0x00, 0x00]));
    assert_eq!(encode(&load, 0x800, &labels), Ok(vec![0x4C, 0x8D, 0x1D, 0xF9, 0x07, 0x00, 0x00]));
    assert_eq!(encode(&load, 0x1000, &labels), Ok(vec![0x4C, 0x8D, 0x1D, 0xF9, 0xFF, 0xFF, 0xFF]));
}

#[test]
fn length_does_not_depend_on_immediate_values() {
    for value in [0u64, 1, 0x7F, 0x80, 0xFFFF_FFFF, u64::MAX] {
        assert_eq!(
            encode(
                &two(Mnemonic::MOV, register(Register::RAX), Some(Operand::Immediate64(value))),
                0,
                &vec![]
            )
            .map(|bytes| bytes.len()),
            Ok(10)
        );
        assert_eq!(
            encode(
                &two(
                    Mnemonic::MOV,
                    register(Register::RAX),
                    Some(Operand::Immediate32(value as u32))
                ),
                0,
                &vec![]
            )
            .map(|bytes| bytes.len()),
            Ok(7)
        );
        assert_eq!(
            encode(
                &two(
                    Mnemonic::MOV,
                    memory(OperandSize::Byte, Register::RAX, None, 0),
                    Some(Operand::Immediate8(value as u8))
                ),
                0,
                &vec![]
            )
            .map(|bytes| bytes.len()),
            Ok(3)
        );
    }
}

#[test]
fn length_does_not_depend_on_where_labels_are() {
    let load = two(Mnemonic::MOV, register(Register::EAX), label(OperandSize::Dword, "entry"));
    let other = two(Mnemonic::MOV, register(Register::EAX), label(OperandSize::Dword, "exit"));
    assert_eq!(encoded_length(&load), Ok(6));
    assert_eq!(encoded_length(&other), Ok(6));
    let places = [(0u64, 0u64), (0, 6), (0x1000, 0), (0x7000_0000, 0x1), (5, 0x7FFF_0000)];
    for (address, target) in places {
        let labels = vec![("entry", target), ("exit", target / 2)];
        assert_eq!(encode(&load, address, &labels).map(|bytes| bytes.len()), Ok(6));
        assert_eq!(encode(&other, address, &labels).map(|bytes| bytes.len()), Ok(6));
    }
}

#[test]
fn extended_register_in_reg_sets_rex_r() {
    for number in 0..16 {
        for width in 0..4 {
            let source = GENERAL[number][width];
            let target = GENERAL[3][width];
            let bytes = encode(&two(Mnemonic::MOV, register(target), register(source)), 0, &vec![])
                .unwrap();
            let at = if width == 2 { 1 } else { 0 };
            if number >= 8 {
                assert_eq!(bytes[at] & 0xF0, 0x40);
                assert_eq!(bytes[at] & 0b0100, 0b0100);
                assert_eq!(bytes[at] & 0b0001, 0);
            }
            let modrm = bytes[bytes.len() - 1];
            assert_eq!(modrm, 0xC0 | ((number as u8 % 8) << 3) | 3);
        }
    }
}

#[test]
fn extended_register_in_rm_sets_rex_b() {
    for number in 0..16 {
        for width in 0..4 {
            let target = GENERAL[number][width];
            let source = GENERAL[2][width];
            let bytes = encode(&two(Mnemonic::MOV, register(target), register(source)), 0, &vec![])
                .unwrap();
            let at = if width == 2 { 1 } else { 0 };
            if number >= 8 {
                assert_eq!(bytes[at] & 0xF0, 0x40);
                assert_eq!(bytes[at] & 0b0001, 0b0001);
                assert_eq!(bytes[at] & 0b0100, 0);
            }
            let modrm = bytes[bytes.len() - 1];
            assert_eq!(modrm, 0xC0 | (2 << 3) | (number as u8 % 8));
        }
    }
}

#[test]
fn extended_register_in_opcode_sets_rex_b() {
    for number in 0..16 {
        let target = GENERAL[number][1];
        let bytes = encode(
            &two(Mnemonic::MOV, register(target), Some(Operand::Immediate32(0x01020304))),
            0,
            &vec![],
        )
        .unwrap();
        if number >= 8 {
            assert_eq!(bytes, vec![0x41, 0xB8 + (number as u8 % 8), 0x04, 0x03, 0x02, 0x01]);
        } else {
            assert_eq!(bytes, vec![0xB8 + number as u8, 0x04, 0x03, 0x02, 0x01]);
        }
    }
}

#[test]
fn extended_base_and_index_set_rex_b_and_rex_x() {
    for base in 0..16 {
        for index in 0..16 {
            let operand = memory(
                OperandSize::Dword,
                GENERAL[base][0],
                Some(GENERAL[index][0]),
                0x100,
            );
            let outcome = encode(&two(Mnemonic::MOV, register(Register::EAX), operand), 0, &vec![]);
            if index % 8 == 4 {
                assert_eq!(outcome, Err(EncodeError::InvalidIndexRegister));
                continue;
            }
            let bytes = outcome.unwrap();
            let rex = (if base >= 8 { 1 } else { 0 }) | (if index >= 8 { 2 } else { 0 });
            if rex != 0 {
                assert_eq!(bytes[0], 0x40 | rex);
                assert_eq!(bytes.len(), 8);
            } else {
                assert_eq!(bytes.len(), 7);
            }
            let sib = bytes[bytes.len() - 5];
            assert_eq!(sib, ((index as u8 % 8) << 3) | (base as u8 % 8));
        }
    }
}

#[test]
fn high_byte_register_with_any_extended_register_is_refused() {
    for high in HIGH {
        for number in 8..16 {
            for width in 0..4 {
                let extended = GENERAL[number][width];
                for mnemonic in [Mnemonic::MOV, Mnemonic::MOVZX, Mnemonic::LEA, Mnemonic::CBW] {
                    assert_eq!(
                        encode(&two(mnemonic, register(high), register(extended)), 0, &vec![]),
                        Err(EncodeError::RexHighByteConflict)
                    );
                    assert_eq!(
                        encode(&two(mnemonic, register(extended), register(high)), 0, &vec![]),
                        Err(EncodeError::RexHighByteConflict)
                    );
                }
            }
            assert_eq!(
                encode(
                    &two(
                        Mnemonic::MOV,
                        register(high),
                        memory(OperandSize::Byte, GENERAL[number][0], None, 0)
                    ),
                    0,
                    &vec![]
                ),
                Err(EncodeError::RexHighByteConflict)
            );
        }
    }
}

#[test]
fn high_byte_register_with_legacy_byte_register_is_encoded() {
    let low = [Register::AL, Register::CL, Register::DL, Register::BL];
    for (number, high) in HIGH.iter().enumerate() {
        for (other, register_low) in low.iter().enumerate() {
            assert_eq!(
                encode(
                    &two(Mnemonic::MOV, register(*high), register(*register_low)),
                    0,
                    &vec![]
                ),
                Ok(vec![0x88, 0xC0 | ((other as u8) << 3) | (number as u8 + 4)])
            );
        }
    }
}
