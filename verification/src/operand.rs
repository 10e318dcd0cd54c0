use crate::instruction::{Instruction, MemoryOperand, Operand, Register};
use vstd::prelude::*;

verus! {

/// The register, if there is one, is a legacy high-byte register.
pub open spec fn is_high_byte(register: Option<Register>) -> bool {
    register is Some && register->0.spec_is_legacy_high_byte()
}

/// The register, if there is one, cannot be encoded without a REX byte.
pub open spec fn is_rex_register(register: Option<Register>) -> bool {
    register is Some && register->0.spec_requires_rex()
}

impl MemoryOperand {
    /// The reference names a legacy high-byte register as segment, base or
    /// index.
    pub open spec fn spec_names_high_byte(&self) -> bool {
        is_high_byte(self.segment) || is_high_byte(self.base) || is_high_byte(self.index)
    }

    /// Computes [`Self::spec_names_high_byte`].
    #[verifier::when_used_as_spec(spec_names_high_byte)]
    pub fn names_high_byte(&self) -> (named: bool)
        ensures
            named == self.spec_names_high_byte(),
    {
        let segment = match self.segment {
            Some(register) => register.is_legacy_high_byte(),
            None => false,
        };
        let base = match self.base {
            Some(register) => register.is_legacy_high_byte(),
            None => false,
        };
        let index = match self.index {
            Some(register) => register.is_legacy_high_byte(),
            None => false,
        };
        segment || base || index
    }

    /// The reference names, as segment, base or index, a register that
    /// cannot be encoded without a REX byte.
    pub open spec fn spec_names_rex_register(&self) -> bool {
        is_rex_register(self.segment) || is_rex_register(self.base) || is_rex_register(
            self.index,
        )
    }

    /// Computes [`Self::spec_names_rex_register`].
    #[verifier::when_used_as_spec(spec_names_rex_register)]
    pub fn names_rex_register(&self) -> (named: bool)
        ensures
            named == self.spec_names_rex_register(),
    {
        let segment = match self.segment {
            Some(register) => register.requires_rex(),
            None => false,
        };
        let base = match self.base {
            Some(register) => register.requires_rex(),
            None => false,
        };
        let index = match self.index {
            Some(register) => register.requires_rex(),
            None => false,
        };
        segment || base || index
    }
}

impl Operand {
    /// Number of immediate bytes that the operand stands for; zero for a
    /// register or a memory reference.
    pub open spec fn spec_immediate_width(&self) -> u8 {
        match self {
            Operand::Immediate8(_) => 1,
            Operand::Immediate16(_) => 2,
            Operand::Immediate32(_) => 4,
            Operand::Immediate64(_) => 8,
            _ => 0,
        }
    }

    /// Computes [`Self::spec_immediate_width`].
    #[verifier::when_used_as_spec(spec_immediate_width)]
    pub fn immediate_width(&self) -> (width: u8)
        ensures
            width == self.spec_immediate_width(),
    {
        match self {
            Operand::Immediate8(_) => 1,
            Operand::Immediate16(_) => 2,
            Operand::Immediate32(_) => 4,
            Operand::Immediate64(_) => 8,
            _ => 0,
        }
    }

    /// The value of an immediate operand; zero for a register or a memory
    /// reference.
    pub open spec fn spec_immediate_value(&self) -> u64 {
        match self {
            Operand::Immediate8(value) => *value as u64,
            Operand::Immediate16(value) => *value as u64,
            Operand::Immediate32(value) => *value as u64,
            Operand::Immediate64(value) => *value,
            _ => 0,
        }
    }

    /// Computes [`Self::spec_immediate_value`].
    #[verifier::when_used_as_spec(spec_immediate_value)]
    pub fn immediate_value(&self) -> (value: u64)
        ensures
            value == self.spec_immediate_value(),
    {
        match self {
            Operand::Immediate8(value) => *value as u64,
            Operand::Immediate16(value) => *value as u64,
            Operand::Immediate32(value) => *value as u64,
            Operand::Immediate64(value) => *value,
            _ => 0,
        }
    }

    /// The operand is, or refers to memory through, a legacy high-byte
    /// register.
    pub open spec fn spec_names_high_byte(&self) -> bool {
        match self {
            Operand::Register(register) => register.spec_is_legacy_high_byte(),
            Operand::Memory(memory) => memory.spec_names_high_byte(),
            _ => false,
        }
    }

    /// Computes [`Self::spec_names_high_byte`].
    #[verifier::when_used_as_spec(spec_names_high_byte)]
    pub fn names_high_byte(&self) -> (named: bool)
        ensures
            named == self.spec_names_high_byte(),
    {
        match self {
            Operand::Register(register) => register.is_legacy_high_byte(),
            Operand::Memory(memory) => memory.names_high_byte(),
            _ => false,
        }
    }

    /// The operand is, or refers to memory through, a register that cannot
    /// be encoded without a REX byte.
    pub open spec fn spec_names_rex_register(&self) -> bool {
        match self {
            Operand::Register(register) => register.spec_requires_rex(),
            Operand::Memory(memory) => memory.spec_names_rex_register(),
            _ => false,
        }
    }

    /// Computes [`Self::spec_names_rex_register`].
    #[verifier::when_used_as_spec(spec_names_rex_register)]
    pub fn names_rex_register(&self) -> (named: bool)
        ensures
            named == self.spec_names_rex_register(),
    {
        match self {
            Operand::Register(register) => register.requires_rex(),
            Operand::Memory(memory) => memory.names_rex_register(),
            _ => false,
        }
    }

    /// The operand is one of the registers `SPL`, `BPL`, `SIL`, `DIL`.
    pub open spec fn spec_is_uniform_low_byte(&self) -> bool {
        self matches Operand::Register(register) && register.spec_is_uniform_low_byte()
    }

    /// Computes [`Self::spec_is_uniform_low_byte`].
    #[verifier::when_used_as_spec(spec_is_uniform_low_byte)]
    pub fn is_uniform_low_byte(&self) -> (low: bool)
        ensures
            low == self.spec_is_uniform_low_byte(),
    {
        match self {
            Operand::Register(register) => register.is_uniform_low_byte(),
            _ => false,
        }
    }

    /// The operand is a memory reference to a label.
    pub open spec fn spec_is_label(&self) -> bool {
        self matches Operand::Memory(memory) && memory.label is Some
    }

    /// Computes [`Self::spec_is_label`].
    #[verifier::when_used_as_spec(spec_is_label)]
    pub fn is_label(&self) -> (label: bool)
        ensures
            label == self.spec_is_label(),
    {
        match self {
            Operand::Memory(memory) => memory.label.is_some(),
            _ => false,
        }
    }
}

/// The operand, if it is a register.
pub open spec fn operand_register(operand: Option<Operand>) -> Option<Register> {
    match operand {
        Some(Operand::Register(register)) => Some(register),
        _ => None,
    }
}

/// Number of immediate bytes that the operand stands for; zero where there
/// is no operand.
pub open spec fn operand_immediate_width(operand: Option<Operand>) -> u8 {
    match operand {
        Some(operand) => operand.spec_immediate_width(),
        None => 0,
    }
}

/// The value of the operand, if it is an immediate; zero otherwise.
pub open spec fn operand_immediate_value(operand: Option<Operand>) -> u64 {
    match operand {
        Some(operand) => operand.spec_immediate_value(),
        None => 0,
    }
}

impl Instruction {
    /// Some operand is, or refers to memory through, a legacy high-byte
    /// register.
    pub open spec fn spec_names_high_byte(&self) -> bool {
        exists|slot: int|
            0 <= slot < 4 && (#[trigger] self.operands[slot]) is Some
                && self.operands[slot]->0.spec_names_high_byte()
    }

    /// Some operand is, or refers to memory through, a register that cannot
    /// be encoded without a REX byte.
    pub open spec fn spec_names_rex_register(&self) -> bool {
        exists|slot: int|
            0 <= slot < 4 && (#[trigger] self.operands[slot]) is Some
                && self.operands[slot]->0.spec_names_rex_register()
    }

    /// Some operand is one of the registers `SPL`, `BPL`, `SIL`, `DIL`.
    pub open spec fn spec_has_uniform_low_byte(&self) -> bool {
        exists|slot: int|
            0 <= slot < 4 && (#[trigger] self.operands[slot]) is Some
                && self.operands[slot]->0.spec_is_uniform_low_byte()
    }

    /// Some operand is a memory reference to a label.
    pub open spec fn spec_has_label(&self) -> bool {
        exists|slot: int|
            0 <= slot < 4 && (#[trigger] self.operands[slot]) is Some
                && self.operands[slot]->0.spec_is_label()
    }

    /// Computes [`Self::spec_names_high_byte`].
    #[verifier::when_used_as_spec(spec_names_high_byte)]
    pub fn names_high_byte(&self) -> (named: bool)
        ensures
            named == self.spec_names_high_byte(),
    {
        let mut slot: usize = 0;
        while slot < 4
            invariant
                slot <= 4,
                forall|earlier: int|
                    0 <= earlier < slot ==> !((#[trigger] self.operands[earlier]) is Some
                        && self.operands[earlier]->0.spec_names_high_byte()),
            decreases 4 - slot,
        {
            if let Some(operand) = &self.operands[slot] {
                if operand.names_high_byte() {
                    return true;
                }
            }
            slot = slot + 1;
        }
        false
    }

    /// Computes [`Self::spec_names_rex_register`].
    #[verifier::when_used_as_spec(spec_names_rex_register)]
    pub fn names_rex_register(&self) -> (named: bool)
        ensures
            named == self.spec_names_rex_register(),
    {
        let mut slot: usize = 0;
        while slot < 4
            invariant
                slot <= 4,
                forall|earlier: int|
                    0 <= earlier < slot ==> !((#[trigger] self.operands[earlier]) is Some
                        && self.operands[earlier]->0.spec_names_rex_register()),
            decreases 4 - slot,
        {
            if let Some(operand) = &self.operands[slot] {
                if operand.names_rex_register() {
                    return true;
                }
            }
            slot = slot + 1;
        }
        false
    }

    /// Computes [`Self::spec_has_uniform_low_byte`].
    #[verifier::when_used_as_spec(spec_has_uniform_low_byte)]
    pub fn has_uniform_low_byte(&self) -> (found: bool)
        ensures
            found == self.spec_has_uniform_low_byte(),
    {
        let mut slot: usize = 0;
        while slot < 4
            invariant
                slot <= 4,
                forall|earlier: int|
                    0 <= earlier < slot ==> !((#[trigger] self.operands[earlier]) is Some
                        && self.operands[earlier]->0.spec_is_uniform_low_byte()),
            decreases 4 - slot,
        {
            if let Some(operand) = &self.operands[slot] {
                if operand.is_uniform_low_byte() {
                    return true;
                }
            }
            slot = slot + 1;
        }
        false
    }

    /// Computes [`Self::spec_has_label`].
    #[verifier::when_used_as_spec(spec_has_label)]
    pub fn has_label(&self) -> (found: bool)
        ensures
            found == self.spec_has_label(),
    {
        let mut slot: usize = 0;
        while slot < 4
            invariant
                slot <= 4,
                forall|earlier: int|
                    0 <= earlier < slot ==> !((#[trigger] self.operands[earlier]) is Some
                        && self.operands[earlier]->0.spec_is_label()),
            decreases 4 - slot,
        {
            if let Some(operand) = &self.operands[slot] {
                if operand.is_label() {
                    return true;
                }
            }
            slot = slot + 1;
        }
        false
    }
}

} // verus!
