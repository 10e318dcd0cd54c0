use crate::instruction::{OperandSize, Register, RegisterType};
use vstd::prelude::*;

verus! {

impl Register {
    /// The number by which the processor knows the register, 0 to 15.
    ///
    /// For a general-purpose or vector register this is the number that the
    /// `reg`, `r/m`, `index` and `base` fields carry (its low three bits) and
    /// that REX extends (its fourth bit). A high-byte register has the number
    /// it is encoded with when no REX byte is present. The remaining
    /// registers are never carried by an operand field: segment registers
    /// have their segment number, the instruction pointer has 5, the number
    /// that stands for it in `r/m`, and the flags register has 0.
    pub open spec fn spec_encoding_index(self) -> u8 {
        match self {
            Register::RAX | Register::EAX | Register::AX | Register::AL | Register::XMM0
            | Register::YMM0 | Register::ZMM0 | Register::RFLAGS | Register::EFLAGS
            | Register::FLAGS => 0,
            Register::RCX | Register::ECX | Register::CX | Register::CL | Register::XMM1
            | Register::YMM1 | Register::ZMM1 => 1,
            Register::RDX | Register::EDX | Register::DX | Register::DL | Register::XMM2
            | Register::YMM2 | Register::ZMM2 => 2,
            Register::RBX | Register::EBX | Register::BX | Register::BL | Register::XMM3
            | Register::YMM3 | Register::ZMM3 => 3,
            Register::RSP | Register::ESP | Register::SP | Register::SPL | Register::XMM4
            | Register::YMM4 | Register::ZMM4 | Register::AH | Register::FS => 4,
            Register::RBP | Register::EBP | Register::BP | Register::BPL | Register::XMM5
            | Register::YMM5 | Register::ZMM5 | Register::CH | Register::GS | Register::RIP
            | Register::EIP | Register::IP => 5,
            Register::RSI | Register::ESI | Register::SI | Register::SIL | Register::XMM6
            | Register::YMM6 | Register::ZMM6 | Register::DH => 6,
            Register::RDI | Register::EDI | Register::DI | Register::DIL | Register::XMM7
            | Register::YMM7 | Register::ZMM7 | Register::BH => 7,
            Register::R8 | Register::R8D | Register::R8W | Register::R8B | Register::XMM8
            | Register::YMM8 | Register::ZMM8 => 8,
            Register::R9 | Register::R9D | Register::R9W | Register::R9B | Register::XMM9
            | Register::YMM9 | Register::ZMM9 => 9,
            Register::R10 | Register::R10D | Register::R10W | Register::R10B | Register::XMM10
            | Register::YMM10 | Register::ZMM10 => 10,
            Register::R11 | Register::R11D | Register::R11W | Register::R11B | Register::XMM11
            | Register::YMM11 | Register::ZMM11 => 11,
            Register::R12 | Register::R12D | Register::R12W | Register::R12B | Register::XMM12
            | Register::YMM12 | Register::ZMM12 => 12,
            Register::R13 | Register::R13D | Register::R13W | Register::R13B | Register::XMM13
            | Register::YMM13 | Register::ZMM13 => 13,
            Register::R14 | Register::R14D | Register::R14W | Register::R14B | Register::XMM14
            | Register::YMM14 | Register::ZMM14 => 14,
            Register::R15 | Register::R15D | Register::R15W | Register::R15B | Register::XMM15
            | Register::YMM15 | Register::ZMM15 => 15,
        }
    }

    /// Computes [`Self::spec_encoding_index`].
    #[verifier::when_used_as_spec(spec_encoding_index)]
    pub fn encoding_index(self) -> (index: u8)
        ensures
            index == self.spec_encoding_index(),
            index <= 15,
    {
        match self {
            Register::RAX | Register::EAX | Register::AX | Register::AL | Register::XMM0
            | Register::YMM0 | Register::ZMM0 | Register::RFLAGS | Register::EFLAGS
            | Register::FLAGS => 0,
            Register::RCX | Register::ECX | Register::CX | Register::CL | Register::XMM1
            | Register::YMM1 | Register::ZMM1 => 1,
            Register::RDX | Register::EDX | Register::DX | Register::DL | Register::XMM2
            | Register::YMM2 | Register::ZMM2 => 2,
            Register::RBX | Register::EBX | Register::BX | Register::BL | Register::XMM3
            | Register::YMM3 | Register::ZMM3 => 3,
            Register::RSP | Register::ESP | Register::SP | Register::SPL | Register::XMM4
            | Register::YMM4 | Register::ZMM4 | Register::AH | Register::FS => 4,
            Register::RBP | Register::EBP | Register::BP | Register::BPL | Register::XMM5
            | Register::YMM5 | Register::ZMM5 | Register::CH | Register::GS | Register::RIP
            | Register::EIP | Register::IP => 5,
            Register::RSI | Register::ESI | Register::SI | Register::SIL | Register::XMM6
            | Register::YMM6 | Register::ZMM6 | Register::DH => 6,
            Register::RDI | Register::EDI | Register::DI | Register::DIL | Register::XMM7
            | Register::YMM7 | Register::ZMM7 | Register::BH => 7,
            Register::R8 | Register::R8D | Register::R8W | Register::R8B | Register::XMM8
            | Register::YMM8 | Register::ZMM8 => 8,
            Register::R9 | Register::R9D | Register::R9W | Register::R9B | Register::XMM9
            | Register::YMM9 | Register::ZMM9 => 9,
            Register::R10 | Register::R10D | Register::R10W | Register::R10B | Register::XMM10
            | Register::YMM10 | Register::ZMM10 => 10,
            Register::R11 | Register::R11D | Register::R11W | Register::R11B | Register::XMM11
            | Register::YMM11 | Register::ZMM11 => 11,
            Register::R12 | Register::R12D | Register::R12W | Register::R12B | Register::XMM12
            | Register::YMM12 | Register::ZMM12 => 12,
            Register::R13 | Register::R13D | Register::R13W | Register::R13B | Register::XMM13
            | Register::YMM13 | Register::ZMM13 => 13,
            Register::R14 | Register::R14D | Register::R14W | Register::R14B | Register::XMM14
            | Register::YMM14 | Register::ZMM14 => 14,
            Register::R15 | Register::R15D | Register::R15W | Register::R15B | Register::XMM15
            | Register::YMM15 | Register::ZMM15 => 15,
        }
    }

    /// Width of the register.
    pub open spec fn spec_width(self) -> OperandSize {
        match self {
            Register::RAX | Register::RCX | Register::RDX | Register::RBX | Register::RSP
            | Register::RBP | Register::RSI | Register::RDI | Register::R8 | Register::R9
            | Register::R10 | Register::R11 | Register::R12 | Register::R13 | Register::R14
            | Register::R15 | Register::RIP | Register::RFLAGS => OperandSize::Qword,
            Register::EAX | Register::ECX | Register::EDX | Register::EBX | Register::ESP
            | Register::EBP | Register::ESI | Register::EDI | Register::R8D | Register::R9D
            | Register::R10D | Register::R11D | Register::R12D | Register::R13D | Register::R14D
            | Register::R15D | Register::EIP | Register::EFLAGS => OperandSize::Dword,
            Register::AX | Register::CX | Register::DX | Register::BX | Register::SP
            | Register::BP | Register::SI | Register::DI | Register::R8W | Register::R9W
            | Register::R10W | Register::R11W | Register::R12W | Register::R13W | Register::R14W
            | Register::R15W | Register::IP | Register::FLAGS | Register::FS
            | Register::GS => OperandSize::Word,
            Register::AL | Register::CL | Register::DL | Register::BL | Register::SPL
            | Register::BPL | Register::SIL | Register::DIL | Register::R8B | Register::R9B
            | Register::R10B | Register::R11B | Register::R12B | Register::R13B | Register::R14B
            | Register::R15B | Register::AH | Register::CH | Register::DH
            | Register::BH => OperandSize::Byte,
            Register::XMM0 | Register::XMM1 | Register::XMM2 | Register::XMM3 | Register::XMM4
            | Register::XMM5 | Register::XMM6 | Register::XMM7 | Register::XMM8 | Register::XMM9
            | Register::XMM10 | Register::XMM11 | Register::XMM12 | Register::XMM13
            | Register::XMM14 | Register::XMM15 => OperandSize::XMMWord,
            Register::YMM0 | Register::YMM1 | Register::YMM2 | Register::YMM3 | Register::YMM4
            | Register::YMM5 | Register::YMM6 | Register::YMM7 | Register::YMM8 | Register::YMM9
            | Register::YMM10 | Register::YMM11 | Register::YMM12 | Register::YMM13
            | Register::YMM14 | Register::YMM15 => OperandSize::YMMWord,
            Register::ZMM0 | Register::ZMM1 | Register::ZMM2 | Register::ZMM3 | Register::ZMM4
            | Register::ZMM5 | Register::ZMM6 | Register::ZMM7 | Register::ZMM8 | Register::ZMM9
            | Register::ZMM10 | Register::ZMM11 | Register::ZMM12 | Register::ZMM13
            | Register::ZMM14 | Register::ZMM15 => OperandSize::ZMMWord,
        }
    }

    /// Computes [`Self::spec_width`].
    #[verifier::when_used_as_spec(spec_width)]
    pub fn width(self) -> (size: OperandSize)
        ensures
            size == self.spec_width(),
    {
        match self {
            Register::RAX | Register::RCX | Register::RDX | Register::RBX | Register::RSP
            | Register::RBP | Register::RSI | Register::RDI | Register::R8 | Register::R9
            | Register::R10 | Register::R11 | Register::R12 | Register::R13 | Register::R14
            | Register::R15 | Register::RIP | Register::RFLAGS => OperandSize::Qword,
            Register::EAX | Register::ECX | Register::EDX | Register::EBX | Register::ESP
            | Register::EBP | Register::ESI | Register::EDI | Register::R8D | Register::R9D
            | Register::R10D | Register::R11D | Register::R12D | Register::R13D | Register::R14D
            | Register::R15D | Register::EIP | Register::EFLAGS => OperandSize::Dword,
            Register::AX | Register::CX | Register::DX | Register::BX | Register::SP
            | Register::BP | Register::SI | Register::DI | Register::R8W | Register::R9W
            | Register::R10W | Register::R11W | Register::R12W | Register::R13W | Register::R14W
            | Register::R15W | Register::IP | Register::FLAGS | Register::FS
            | Register::GS => OperandSize::Word,
            Register::AL | Register::CL | Register::DL | Register::BL | Register::SPL
            | Register::BPL | Register::SIL | Register::DIL | Register::R8B | Register::R9B
            | Register::R10B | Register::R11B | Register::R12B | Register::R13B | Register::R14B
            | Register::R15B | Register::AH | Register::CH | Register::DH
            | Register::BH => OperandSize::Byte,
            Register::XMM0 | Register::XMM1 | Register::XMM2 | Register::XMM3 | Register::XMM4
            | Register::XMM5 | Register::XMM6 | Register::XMM7 | Register::XMM8 | Register::XMM9
            | Register::XMM10 | Register::XMM11 | Register::XMM12 | Register::XMM13
            | Register::XMM14 | Register::XMM15 => OperandSize::XMMWord,
            Register::YMM0 | Register::YMM1 | Register::YMM2 | Register::YMM3 | Register::YMM4
            | Register::YMM5 | Register::YMM6 | Register::YMM7 | Register::YMM8 | Register::YMM9
            | Register::YMM10 | Register::YMM11 | Register::YMM12 | Register::YMM13
            | Register::YMM14 | Register::YMM15 => OperandSize::YMMWord,
            Register::ZMM0 | Register::ZMM1 | Register::ZMM2 | Register::ZMM3 | Register::ZMM4
            | Register::ZMM5 | Register::ZMM6 | Register::ZMM7 | Register::ZMM8 | Register::ZMM9
            | Register::ZMM10 | Register::ZMM11 | Register::ZMM12 | Register::ZMM13
            | Register::ZMM14 | Register::ZMM15 => OperandSize::ZMMWord,
        }
    }

    /// The class of operand slot that accepts the register, or `None` for a
    /// register that no operand slot accepts (instruction pointer, flags,
    /// segment registers).
    pub open spec fn spec_register_type(self) -> Option<RegisterType> {
        match self {
            Register::RAX | Register::EAX | Register::AX | Register::AL | Register::RCX
            | Register::ECX | Register::CX | Register::CL | Register::RDX | Register::EDX
            | Register::DX | Register::DL | Register::RBX | Register::EBX | Register::BX
            | Register::BL | Register::RSP | Register::ESP | Register::SP | Register::SPL
            | Register::RBP | Register::EBP | Register::BP | Register::BPL | Register::RSI
            | Register::ESI | Register::SI | Register::SIL | Register::RDI | Register::EDI
            | Register::DI | Register::DIL | Register::R8 | Register::R8D | Register::R8W
            | Register::R8B | Register::R9 | Register::R9D | Register::R9W | Register::R9B
            | Register::R10 | Register::R10D | Register::R10W | Register::R10B | Register::R11
            | Register::R11D | Register::R11W | Register::R11B | Register::R12 | Register::R12D
            | Register::R12W | Register::R12B | Register::R13 | Register::R13D | Register::R13W
            | Register::R13B | Register::R14 | Register::R14D | Register::R14W | Register::R14B
            | Register::R15 | Register::R15D | Register::R15W | Register::R15B | Register::AH
            | Register::CH | Register::DH | Register::BH => Some(RegisterType::General),
            Register::XMM0 | Register::YMM0 | Register::ZMM0 | Register::XMM1 | Register::YMM1
            | Register::ZMM1 | Register::XMM2 | Register::YMM2 | Register::ZMM2 | Register::XMM3
            | Register::YMM3 | Register::ZMM3 | Register::XMM4 | Register::YMM4 | Register::ZMM4
            | Register::XMM5 | Register::YMM5 | Register::ZMM5 | Register::XMM6 | Register::YMM6
            | Register::ZMM6 | Register::XMM7 | Register::YMM7 | Register::ZMM7 | Register::XMM8
            | Register::YMM8 | Register::ZMM8 | Register::XMM9 | Register::YMM9 | Register::ZMM9
            | Register::XMM10 | Register::YMM10 | Register::ZMM10 | Register::XMM11
            | Register::YMM11 | Register::ZMM11 | Register::XMM12 | Register::YMM12
            | Register::ZMM12 | Register::XMM13 | Register::YMM13 | Register::ZMM13
            | Register::XMM14 | Register::YMM14 | Register::ZMM14 | Register::XMM15
            | Register::YMM15 | Register::ZMM15 => Some(RegisterType::AVX),
            _ => None,
        }
    }

    /// Computes [`Self::spec_register_type`].
    #[verifier::when_used_as_spec(spec_register_type)]
    pub fn register_type(self) -> (kind: Option<RegisterType>)
        ensures
            kind == self.spec_register_type(),
    {
        match self {
            Register::RAX | Register::EAX | Register::AX | Register::AL | Register::RCX
            | Register::ECX | Register::CX | Register::CL | Register::RDX | Register::EDX
            | Register::DX | Register::DL | Register::RBX | Register::EBX | Register::BX
            | Register::BL | Register::RSP | Register::ESP | Register::SP | Register::SPL
            | Register::RBP | Register::EBP | Register::BP | Register::BPL | Register::RSI
            | Register::ESI | Register::SI | Register::SIL | Register::RDI | Register::EDI
            | Register::DI | Register::DIL | Register::R8 | Register::R8D | Register::R8W
            | Register::R8B | Register::R9 | Register::R9D | Register::R9W | Register::R9B
            | Register::R10 | Register::R10D | Register::R10W | Register::R10B | Register::R11
            | Register::R11D | Register::R11W | Register::R11B | Register::R12 | Register::R12D
            | Register::R12W | Register::R12B | Register::R13 | Register::R13D | Register::R13W
            | Register::R13B | Register::R14 | Register::R14D | Register::R14W | Register::R14B
            | Register::R15 | Register::R15D | Register::R15W | Register::R15B | Register::AH
            | Register::CH | Register::DH | Register::BH => Some(RegisterType::General),
            Register::XMM0 | Register::YMM0 | Register::ZMM0 | Register::XMM1 | Register::YMM1
            | Register::ZMM1 | Register::XMM2 | Register::YMM2 | Register::ZMM2 | Register::XMM3
            | Register::YMM3 | Register::ZMM3 | Register::XMM4 | Register::YMM4 | Register::ZMM4
            | Register::XMM5 | Register::YMM5 | Register::ZMM5 | Register::XMM6 | Register::YMM6
            | Register::ZMM6 | Register::XMM7 | Register::YMM7 | Register::ZMM7 | Register::XMM8
            | Register::YMM8 | Register::ZMM8 | Register::XMM9 | Register::YMM9 | Register::ZMM9
            | Register::XMM10 | Register::YMM10 | Register::ZMM10 | Register::XMM11
            | Register::YMM11 | Register::ZMM11 | Register::XMM12 | Register::YMM12
            | Register::ZMM12 | Register::XMM13 | Register::YMM13 | Register::ZMM13
            | Register::XMM14 | Register::YMM14 | Register::ZMM14 | Register::XMM15
            | Register::YMM15 | Register::ZMM15 => Some(RegisterType::AVX),
            _ => None,
        }
    }

    /// The register is one of `AH`, `CH`, `DH`, `BH`.
    pub open spec fn spec_is_legacy_high_byte(self) -> bool {
        self == Register::AH || self == Register::CH || self == Register::DH || self
            == Register::BH
    }

    /// Computes [`Self::spec_is_legacy_high_byte`].
    #[verifier::when_used_as_spec(spec_is_legacy_high_byte)]
    pub fn is_legacy_high_byte(self) -> (high: bool)
        ensures
            high == self.spec_is_legacy_high_byte(),
    {
        matches!(self, Register::AH | Register::CH | Register::DH | Register::BH)
    }

    /// The register is one of `SPL`, `BPL`, `SIL`, `DIL`: the low bytes that
    /// share their numbers with the high-byte registers and are told apart
    /// from them by the presence of a REX byte.
    pub open spec fn spec_is_uniform_low_byte(self) -> bool {
        self == Register::SPL || self == Register::BPL || self == Register::SIL || self
            == Register::DIL
    }

    /// Computes [`Self::spec_is_uniform_low_byte`].
    #[verifier::when_used_as_spec(spec_is_uniform_low_byte)]
    pub fn is_uniform_low_byte(self) -> (low: bool)
        ensures
            low == self.spec_is_uniform_low_byte(),
    {
        matches!(self, Register::SPL | Register::BPL | Register::SIL | Register::DIL)
    }

    /// The register's number needs a fourth bit.
    pub open spec fn spec_is_extended(self) -> bool {
        self.spec_encoding_index() >= 8
    }

    /// Computes [`Self::spec_is_extended`].
    #[verifier::when_used_as_spec(spec_is_extended)]
    pub fn is_extended(self) -> (extended: bool)
        ensures
            extended == self.spec_is_extended(),
    {
        self.encoding_index() >= 8
    }

    /// The low three bits of the register's number.
    pub open spec fn spec_low_bits(self) -> u8 {
        (self.spec_encoding_index() % 8) as u8
    }

    /// Computes [`Self::spec_low_bits`].
    #[verifier::when_used_as_spec(spec_low_bits)]
    pub fn low_bits(self) -> (bits: u8)
        ensures
            bits == self.spec_low_bits(),
            bits <= 7,
    {
        self.encoding_index() % 8
    }

    /// An instruction that names the register cannot be encoded without a
    /// REX byte.
    pub open spec fn spec_requires_rex(self) -> bool {
        self.spec_is_extended() || self.spec_is_uniform_low_byte()
    }

    /// Computes [`Self::spec_requires_rex`].
    #[verifier::when_used_as_spec(spec_requires_rex)]
    pub fn requires_rex(self) -> (needed: bool)
        ensures
            needed == self.spec_requires_rex(),
    {
        self.is_extended() || self.is_uniform_low_byte()
    }

    /// The register is a 64-bit general-purpose register, the only kind that
    /// can serve as base or index of a memory reference.
    pub open spec fn spec_is_address_register(self) -> bool {
        self.spec_register_type() == Some(RegisterType::General) && self.spec_width()
            == OperandSize::Qword
    }

    /// Computes [`Self::spec_is_address_register`].
    #[verifier::when_used_as_spec(spec_is_address_register)]
    pub fn is_address_register(self) -> (ok: bool)
        ensures
            ok == self.spec_is_address_register(),
    {
        let general = match self.register_type() {
            Some(RegisterType::General) => true,
            _ => false,
        };
        general && self.width() == OperandSize::Qword
    }

    /// Number, extension bit and width of the register.
    pub fn classify(self) -> (class: (u8, bool, OperandSize))
        ensures
            class.0 == self.spec_encoding_index(),
            class.0 <= 15,
            class.1 == (self.spec_encoding_index() >= 8),
            class.2 == self.spec_width(),
    {
        let index = self.encoding_index();
        (index, index >= 8, self.width())
    }
}

} // verus!
