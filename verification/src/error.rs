use vstd::prelude::*;

verus! {

/// Why an instruction could not be encoded. Every failure is final for the
/// call that reports it; no bytes are produced alongside an error.
#[derive(Debug, PartialEq, Eq, Clone, Copy, Structural)]
pub enum EncodeError {
    /// The definition table holds no entry for the mnemonic.
    UnsupportedInstruction,
    /// The mnemonic is known, but no entry fits the operands supplied.
    NoMatchingEncodingForm,
    /// The index register of a memory operand has no encoding in a SIB byte.
    InvalidIndexRegister,
    /// A displacement does not fit in 32 signed bits.
    DisplacementOverflow,
    /// The memory operand is outside the 64-bit addressing forms that are
    /// encoded here.
    UnsupportedAddressingMode,
    /// A legacy high-byte register meets an operand or prefix that forces a
    /// REX byte.
    RexHighByteConflict,
    /// A 64-bit immediate appears anywhere but in `MOV r64, imm64`.
    InvalidImmediateWidth,
    /// A memory operand names a label that the label table does not hold.
    UndefinedLabel,
}

} // verus!
