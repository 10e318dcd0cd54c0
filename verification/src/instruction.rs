use crate::mnemonic::Mnemonic;
use vstd::prelude::*;

verus! {

/// One machine instruction to encode: a mnemonic and up to four operands.
/// Operands occupy the leading slots; the slots after the last one are `None`.
#[derive(Debug, PartialEq, Clone)]
pub struct Instruction {
    pub mnemonic: Mnemonic,
    pub operands: [Option<Operand>; 4],
}

/// One operand of an instruction.
#[derive(Debug, PartialEq, Clone)]
pub enum Operand {
    /// A register, named directly.
    Register(Register),
    Immediate8(u8),
    Immediate16(u16),
    Immediate32(u32),
    Immediate64(u64),
    /// A memory reference.
    Memory(MemoryOperand),
}

/// A memory reference `segment:[base + index*scale + displacement]`, or a
/// reference to a label that is addressed relative to the instruction
/// pointer.
#[derive(Debug, PartialEq, Clone)]
pub struct MemoryOperand {
    /// Width of the data that is read or written. `Unsized` leaves it open:
    /// for an instruction that uses only the address, and where the width
    /// follows from a register operand of the same instruction.
    pub size: OperandSize,
    /// `FS` or `GS`, when the reference overrides the default segment.
    pub segment: Option<Register>,
    /// A 64-bit general-purpose register.
    pub base: Option<Register>,
    /// A 64-bit general-purpose register other than `RSP` and `R12`, whose
    /// low bits 100 stand for "no index" in the SIB byte.
    pub index: Option<Register>,
    /// Factor applied to the index register: 1, 2, 4 or 8. Ignored when no
    /// index register is present.
    pub scale: u8,
    /// Signed offset added to the address; it has to fit in 32 bits.
    pub displacement: i64,
    /// Name of the label addressed relative to the instruction pointer. A
    /// label excludes base and index; `displacement` is then added to the
    /// label's address, and only the distance from the instruction to that
    /// sum has to fit in 32 bits.
    pub label: Option<String>,
}

/// Architectural register names.
#[derive(Debug, PartialEq, Eq, Clone, Copy, Structural)]
pub enum Register {
    RAX, EAX, AX, AL,
    RCX, ECX, CX, CL,
    RDX, EDX, DX, DL,
    RBX, EBX, BX, BL,
    RSP, ESP, SP, SPL,
    RBP, EBP, BP, BPL,
    RSI, ESI, SI, SIL,
    RDI, EDI, DI, DIL,
    R8, R8D, R8W, R8B,
    R9, R9D, R9W, R9B,
    R10, R10D, R10W, R10B,
    R11, R11D, R11W, R11B,
    R12, R12D, R12W, R12B,
    R13, R13D, R13W, R13B,
    R14, R14D, R14W, R14B,
    R15, R15D, R15W, R15B,
    /// Legacy high-byte registers: bits 8 to 15 of `RAX`, `RCX`, `RDX`, `RBX`.
    AH, CH, DH, BH,
    XMM0, YMM0, ZMM0,
    XMM1, YMM1, ZMM1,
    XMM2, YMM2, ZMM2,
    XMM3, YMM3, ZMM3,
    XMM4, YMM4, ZMM4,
    XMM5, YMM5, ZMM5,
    XMM6, YMM6, ZMM6,
    XMM7, YMM7, ZMM7,
    XMM8, YMM8, ZMM8,
    XMM9, YMM9, ZMM9,
    XMM10, YMM10, ZMM10,
    XMM11, YMM11, ZMM11,
    XMM12, YMM12, ZMM12,
    XMM13, YMM13, ZMM13,
    XMM14, YMM14, ZMM14,
    XMM15, YMM15, ZMM15,
    RIP, EIP, IP,
    RFLAGS, EFLAGS, FLAGS,
    GS,
    FS,
}

/// Static description of one encoding form of a mnemonic: its opcode bytes
/// and, slot by slot, the operands that it takes.
#[derive(Debug, PartialEq, Eq, Clone, Copy)]
pub struct InstructionDefinition {
    pub mnemonic: Mnemonic,
    /// The opcode is preceded by the escape byte `0F`.
    pub two_bytes: bool,
    pub primary_opcode: u8,
    /// A second opcode byte, written after the primary one.
    pub secondary_opcode: Option<u8>,
    pub operands: [Option<OperandDefinition>; 4],
}

/// Static description of one operand slot of an encoding form.
#[derive(Debug, PartialEq, Eq, Clone, Copy, Structural)]
pub struct OperandDefinition {
    pub encoding: OperandEncoding,
    pub access: OperandAccess,
    pub size: OperandSize,
    pub operand_type: OperandType,
}

/// The field of the encoded instruction that carries an operand.
#[derive(Debug, PartialEq, Eq, Clone, Copy, Structural)]
pub enum OperandEncoding {
    /// The `reg` field of the ModRM byte.
    ModRmReg,
    /// The `r/m` field of the ModRM byte, with SIB and displacement where
    /// the operand is a memory reference.
    ModRmRm,
    /// The SIB byte alone.
    SIB,
    /// The immediate bytes that end the instruction.
    Immediate,
    /// The low three bits of the opcode byte.
    Opcode,
}

/// How an instruction uses an operand. Informational; the encoding does not
/// depend on it.
#[derive(Debug, PartialEq, Eq, Clone, Copy, Structural)]
pub enum OperandAccess {
    Read,
    Write,
    ReadWrite,
}

/// The kind of operand that a slot takes.
#[derive(Debug, PartialEq, Eq, Clone, Copy, Structural)]
pub enum OperandType {
    Register(RegisterType),
    /// A memory reference to data of the given size, or of any size.
    Mem(Option<OperandSize>),
    Immediate,
}

/// The class of register that a slot takes.
#[derive(Debug, PartialEq, Eq, Clone, Copy, Structural)]
pub enum RegisterType {
    General,
    AVX,
}

/// Width class of an operand.
#[derive(Debug, PartialEq, Eq, Clone, Copy, Structural)]
pub enum OperandSize {
    Unsized,
    Byte,
    Word,
    Dword,
    Qword,
    XMMWord,
    YMMWord,
    ZMMWord,
}

/// The four flag bits of a REX prefix `0100WRXB`.
#[derive(Debug, PartialEq, Eq, Clone, Copy, Structural)]
pub enum REW {
    /// 64-bit operand size.
    W,
    /// Extends the `reg` field of ModRM.
    R,
    /// Extends the `index` field of SIB.
    X,
    /// Extends the `r/m` field of ModRM, the `base` field of SIB, or the
    /// register in the opcode byte.
    B,
}

/// The three fields of a ModRM byte.
#[allow(non_snake_case)]
#[derive(Debug, PartialEq, Eq, Clone, Copy, Structural)]
pub struct ModRM {
    /// Two bits.
    pub Mode: u8,
    /// Three bits.
    pub Register: u8,
    /// Three bits.
    pub RegOrMemory: u8,
}

/// The three fields of a SIB byte.
#[allow(non_snake_case)]
#[derive(Debug, PartialEq, Eq, Clone, Copy, Structural)]
pub struct SIB {
    /// Two bits.
    pub Scale: u8,
    /// Three bits.
    pub Index: u8,
    /// Three bits.
    pub Base: u8,
}

} // verus!
