use vstd::prelude::*;

verus! {

/// Identity of a machine instruction, independent of its operands.
///
/// The data-movement mnemonics have entries in the definition table. The
/// accumulator conversions (`CBW` to `CQO`) are named so that callers can
/// refer to them, but no entry exists for them.
#[derive(Debug, PartialEq, Eq, Clone, Copy, Structural)]
pub enum Mnemonic {
    MOV,
    LEA,
    MOVZX,
    MOVSX,
    MOVSXD,
    CBW,
    CWDE,
    CDQE,
    CWD,
    CDQ,
    CQO,
}

impl Mnemonic {
    /// The definition table of this encoder has forms of the mnemonic.
    pub open spec fn spec_is_supported(self) -> bool {
        match self {
            Mnemonic::MOV | Mnemonic::LEA | Mnemonic::MOVZX | Mnemonic::MOVSX
            | Mnemonic::MOVSXD => true,
            _ => false,
        }
    }

    /// Computes [`Self::spec_is_supported`].
    #[verifier::when_used_as_spec(spec_is_supported)]
    pub fn is_supported(self) -> (supported: bool)
        ensures
            supported == self.spec_is_supported(),
    {
        match self {
            Mnemonic::MOV | Mnemonic::LEA | Mnemonic::MOVZX | Mnemonic::MOVSX
            | Mnemonic::MOVSXD => true,
            _ => false,
        }
    }
}

} // verus!
