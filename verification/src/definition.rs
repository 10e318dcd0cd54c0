use crate::error::EncodeError;
use crate::instruction::{
    Instruction, InstructionDefinition, Operand, OperandDefinition, OperandEncoding, OperandSize,
    OperandType, Register,
};
use crate::mnemonic::Mnemonic;
use crate::operand::operand_register;
use vstd::prelude::*;

verus! {

/// The operand size that an immediate of `width` bytes has.
pub open spec fn immediate_size(width: u8) -> OperandSize {
    if width == 1 {
        OperandSize::Byte
    } else if width == 2 {
        OperandSize::Word
    } else if width == 4 {
        OperandSize::Dword
    } else if width == 8 {
        OperandSize::Qword
    } else {
        OperandSize::Unsized
    }
}

/// Whether the slot is filled and takes a register of the given size.
pub open spec fn slot_is_register_of(slot: Option<OperandDefinition>, size: OperandSize) -> bool {
    slot is Some && slot->0.operand_type is Register && slot->0.size == size
}

impl OperandDefinition {
    /// The slot, as part of `form`, takes `operand`: kind and size agree,
    /// and the slot's field can carry an operand of that kind.
    ///
    /// A register goes into a slot of its own class and width, carried by
    /// either field of ModRM or by the opcode. An immediate goes into an
    /// immediate slot of its own width. A memory reference goes into a
    /// memory slot that is carried by the `r/m` field. Where the slot names
    /// a size, the reference has that size, or it leaves its size open and
    /// the form has a register slot of that size, from which the size of the
    /// reference then follows.
    pub open spec fn spec_accepts(&self, operand: Operand, form: &InstructionDefinition) -> bool {
        match operand {
            Operand::Register(register) => {
                &&& register.spec_register_type() is Some
                &&& self.operand_type == OperandType::Register(register.spec_register_type()->0)
                &&& self.size == register.spec_width()
                &&& (self.encoding == OperandEncoding::ModRmReg || self.encoding
                    == OperandEncoding::ModRmRm || self.encoding == OperandEncoding::Opcode)
            },
            Operand::Memory(memory) => {
                &&& self.encoding == OperandEncoding::ModRmRm
                &&& match self.operand_type {
                    OperandType::Mem(None) => true,
                    OperandType::Mem(Some(size)) => memory.size == size || (memory.size
                        == OperandSize::Unsized && form.spec_has_register_of(size)),
                    _ => false,
                }
            },
            _ => {
                &&& self.operand_type == OperandType::Immediate
                &&& self.size == immediate_size(operand.spec_immediate_width())
                &&& self.encoding == OperandEncoding::Immediate
            },
        }
    }

    /// Decides whether the slot, as part of `form`, takes `operand`.
    pub fn accepts(&self, operand: &Operand, form: &InstructionDefinition) -> (fits: bool)
        ensures
            fits == self.spec_accepts(*operand, form),
    {
        match operand {
            Operand::Register(register) => {
                let class_fits = match (register.register_type(), self.operand_type) {
                    (Some(class), OperandType::Register(wanted)) => class == wanted,
                    _ => false,
                };
                class_fits && self.size == register.width() && (self.encoding
                    == OperandEncoding::ModRmReg || self.encoding == OperandEncoding::ModRmRm
                    || self.encoding == OperandEncoding::Opcode)
            },
            Operand::Memory(memory) => {
                let size_fits = match self.operand_type {
                    OperandType::Mem(None) => true,
                    OperandType::Mem(Some(size)) => size == memory.size || (memory.size
                        == OperandSize::Unsized && form.has_register_of(size)),
                    _ => false,
                };
                size_fits && self.encoding == OperandEncoding::ModRmRm
            },
            _ => {
                let width = operand.immediate_width();
                let size = if width == 1 {
                    OperandSize::Byte
                } else if width == 2 {
                    OperandSize::Word
                } else if width == 4 {
                    OperandSize::Dword
                } else {
                    OperandSize::Qword
                };
                self.operand_type == OperandType::Immediate && self.size == size && self.encoding
                    == OperandEncoding::Immediate
            },
        }
    }
}

/// A slot of the definition `form` takes the operand in the same slot of an
/// instruction: both are empty, or both are filled and the operand fits.
pub open spec fn slot_accepts(
    slot: Option<OperandDefinition>,
    operand: Option<Operand>,
    form: &InstructionDefinition,
) -> bool {
    match (slot, operand) {
        (None, None) => true,
        (Some(definition), Some(operand)) => definition.spec_accepts(operand, form),
        _ => false,
    }
}

/// Whether the slot is filled and carried by the field `encoding`.
pub open spec fn slot_uses(slot: Option<OperandDefinition>, encoding: OperandEncoding) -> bool {
    slot is Some && slot->0.encoding == encoding
}

impl InstructionDefinition {
    /// Some slot of the form takes a register of the given size.
    pub open spec fn spec_has_register_of(&self, size: OperandSize) -> bool {
        exists|slot: int|
            0 <= slot < 4 && slot_is_register_of(#[trigger] self.operands[slot], size)
    }

    /// Finds out whether some slot of the form takes a register of the given
    /// size.
    pub fn has_register_of(&self, size: OperandSize) -> (found: bool)
        ensures
            found == self.spec_has_register_of(size),
    {
        let mut slot: usize = 0;
        while slot < 4
            invariant
                slot <= 4,
                forall|earlier: int|
                    0 <= earlier < slot ==> !slot_is_register_of(
                        #[trigger] self.operands[earlier],
                        size,
                    ),
            decreases 4 - slot,
        {
            if let Some(definition) = self.operands[slot] {
                let register = match definition.operand_type {
                    OperandType::Register(_) => true,
                    _ => false,
                };
                if register && definition.size == size {
                    return true;
                }
            }
            slot = slot + 1;
        }
        false
    }

    /// Number of operand slots that are carried by the field `encoding`.
    pub open spec fn spec_count_of(&self, encoding: OperandEncoding) -> nat {
        (if slot_uses(self.operands[0], encoding) { 1nat } else { 0 })
        + (if slot_uses(self.operands[1], encoding) { 1nat } else { 0 })
        + (if slot_uses(self.operands[2], encoding) { 1nat } else { 0 })
        + (if slot_uses(self.operands[3], encoding) { 1nat } else { 0 })
    }

    /// The first slot that is carried by the field `encoding`.
    pub open spec fn spec_slot_of(&self, encoding: OperandEncoding) -> Option<int> {
        if slot_uses(self.operands[0], encoding) {
            Some(0int)
        } else if slot_uses(self.operands[1], encoding) {
            Some(1int)
        } else if slot_uses(self.operands[2], encoding) {
            Some(2int)
        } else if slot_uses(self.operands[3], encoding) {
            Some(3int)
        } else {
            None
        }
    }

    /// The definition describes an encoding that can be emitted: no field
    /// carries two operands, no operand stands in the SIB byte alone, a
    /// register in `reg` comes with an operand in `r/m`, and a register in
    /// the opcode excludes `r/m` (both would need REX.B) and a second opcode
    /// byte, and leaves the low three bits of the opcode free.
    pub open spec fn spec_is_encodable(&self) -> bool {
        &&& self.spec_count_of(OperandEncoding::ModRmReg) <= 1
        &&& self.spec_count_of(OperandEncoding::ModRmRm) <= 1
        &&& self.spec_count_of(OperandEncoding::Opcode) <= 1
        &&& self.spec_count_of(OperandEncoding::Immediate) <= 1
        &&& self.spec_count_of(OperandEncoding::SIB) == 0
        &&& (self.spec_count_of(OperandEncoding::ModRmReg) == 1 ==> self.spec_count_of(
            OperandEncoding::ModRmRm,
        ) == 1)
        &&& (self.spec_count_of(OperandEncoding::Opcode) == 1 ==> {
            &&& self.spec_count_of(OperandEncoding::ModRmRm) == 0
            &&& self.primary_opcode % 8 == 0
            &&& self.secondary_opcode is None
        })
    }

    /// The definition is a form of the instruction's mnemonic, can be
    /// emitted, and each of its slots takes the operand in the same slot of
    /// the instruction.
    pub open spec fn spec_matches(&self, instruction: Instruction) -> bool {
        &&& self.mnemonic == instruction.mnemonic
        &&& self.spec_is_encodable()
        &&& slot_accepts(self.operands[0], instruction.operands[0], self)
        &&& slot_accepts(self.operands[1], instruction.operands[1], self)
        &&& slot_accepts(self.operands[2], instruction.operands[2], self)
        &&& slot_accepts(self.operands[3], instruction.operands[3], self)
    }

    /// The operand of `instruction` that stands in the first slot carried by
    /// the field `encoding`.
    pub open spec fn spec_operand_in(
        &self,
        instruction: Instruction,
        encoding: OperandEncoding,
    ) -> Option<Operand> {
        match self.spec_slot_of(encoding) {
            Some(slot) => instruction.operands[slot],
            None => None,
        }
    }

    /// The register operand of `instruction` that stands in the first slot
    /// carried by the field `encoding`.
    pub open spec fn spec_register_in(
        &self,
        instruction: Instruction,
        encoding: OperandEncoding,
    ) -> Option<Register> {
        operand_register(self.spec_operand_in(instruction, encoding))
    }

    /// Counts the operand slots that are carried by the field `encoding`.
    pub fn count_of(&self, encoding: OperandEncoding) -> (count: usize)
        ensures
            count == self.spec_count_of(encoding),
    {
        let mut count: usize = 0;
        let mut slot: usize = 0;
        while slot < 4
            invariant
                slot <= 4,
                count <= slot,
                count == (if slot > 0 && slot_uses(self.operands[0], encoding) {
                    1nat
                } else {
                    0
                }) + (if slot > 1 && slot_uses(self.operands[1], encoding) {
                    1nat
                } else {
                    0
                }) + (if slot > 2 && slot_uses(self.operands[2], encoding) {
                    1nat
                } else {
                    0
                }) + (if slot > 3 && slot_uses(self.operands[3], encoding) {
                    1nat
                } else {
                    0
                }),
            decreases 4 - slot,
        {
            if let Some(definition) = self.operands[slot] {
                if definition.encoding == encoding {
                    count = count + 1;
                }
            }
            slot = slot + 1;
        }
        count
    }

    /// Finds the first slot that is carried by the field `encoding`.
    pub fn slot_of(&self, encoding: OperandEncoding) -> (slot: Option<usize>)
        ensures
            match slot {
                Some(s) => self.spec_slot_of(encoding) == Some(s as int) && s < 4,
                None => self.spec_slot_of(encoding) is None,
            },
    {
        let mut slot: usize = 0;
        while slot < 4
            invariant
                slot <= 4,
                forall|earlier: int| 0 <= earlier < slot ==> !slot_uses(
                    #[trigger] self.operands[earlier],
                    encoding,
                ),
            decreases 4 - slot,
        {
            if let Some(definition) = self.operands[slot] {
                if definition.encoding == encoding {
                    return Some(slot);
                }
            }
            slot = slot + 1;
        }
        None
    }

    /// Decides whether the definition describes an encoding that can be
    /// emitted.
    pub fn is_encodable(&self) -> (ok: bool)
        ensures
            ok == self.spec_is_encodable(),
    {
        let in_reg = self.count_of(OperandEncoding::ModRmReg);
        let in_rm = self.count_of(OperandEncoding::ModRmRm);
        let in_opcode = self.count_of(OperandEncoding::Opcode);
        let in_immediate = self.count_of(OperandEncoding::Immediate);
        let in_sib = self.count_of(OperandEncoding::SIB);
        in_reg <= 1 && in_rm <= 1 && in_opcode <= 1 && in_immediate <= 1 && in_sib == 0 && (in_reg
            != 1 || in_rm == 1) && (in_opcode != 1 || (in_rm == 0 && self.primary_opcode % 8 == 0
            && self.secondary_opcode.is_none()))
    }

    /// Decides whether the definition is the form to encode `instruction`
    /// with.
    pub fn matches(&self, instruction: &Instruction) -> (fits: bool)
        ensures
            fits == self.spec_matches(*instruction),
    {
        if self.mnemonic != instruction.mnemonic || !self.is_encodable() {
            return false;
        }
        let mut slot: usize = 0;
        while slot < 4
            invariant
                slot <= 4,
                forall|earlier: int| 0 <= earlier < slot ==> slot_accepts(
                    #[trigger] self.operands[earlier],
                    instruction.operands[earlier],
                    self,
                ),
            decreases 4 - slot,
        {
            let fits = match (&self.operands[slot], &instruction.operands[slot]) {
                (None, None) => true,
                (Some(definition), Some(operand)) => definition.accepts(operand, self),
                _ => false,
            };
            if !fits {
                return false;
            }
            slot = slot + 1;
        }
        true
    }
}

impl Instruction {
    /// The instruction is `MOV r64, imm64`, the one instruction that takes a
    /// 64-bit immediate.
    pub open spec fn spec_is_mov_imm64(&self) -> bool {
        &&& self.mnemonic == Mnemonic::MOV
        &&& self.operands[0] matches Some(Operand::Register(register))
        &&& register.spec_is_address_register()
        &&& self.operands[1] matches Some(Operand::Immediate64(_))
        &&& self.operands[2] is None
        &&& self.operands[3] is None
    }

    /// Some operand is a 64-bit immediate.
    pub open spec fn spec_has_imm64(&self) -> bool {
        ||| self.operands[0] matches Some(Operand::Immediate64(_))
        ||| self.operands[1] matches Some(Operand::Immediate64(_))
        ||| self.operands[2] matches Some(Operand::Immediate64(_))
        ||| self.operands[3] matches Some(Operand::Immediate64(_))
    }

    /// Decides whether the instruction is `MOV r64, imm64`.
    pub fn is_mov_imm64(&self) -> (ok: bool)
        ensures
            ok == self.spec_is_mov_imm64(),
    {
        let first = match &self.operands[0] {
            Some(Operand::Register(register)) => register.is_address_register(),
            _ => false,
        };
        let second = match &self.operands[1] {
            Some(Operand::Immediate64(_)) => true,
            _ => false,
        };
        self.mnemonic == Mnemonic::MOV && first && second && self.operands[2].is_none()
            && self.operands[3].is_none()
    }

    /// Finds out whether some operand is a 64-bit immediate.
    pub fn has_imm64(&self) -> (found: bool)
        ensures
            found == self.spec_has_imm64(),
    {
        let mut slot: usize = 0;
        while slot < 4
            invariant
                slot <= 4,
                forall|earlier: int| 0 <= earlier < slot ==> !(
                    #[trigger] self.operands[earlier] matches Some(Operand::Immediate64(_))),
            decreases 4 - slot,
        {
            if let Some(Operand::Immediate64(_)) = &self.operands[slot] {
                return true;
            }
            slot = slot + 1;
        }
        false
    }
}

/// Some definition from position `from` on is a form of `mnemonic`.
pub open spec fn knows_mnemonic_from(
    table: Seq<InstructionDefinition>,
    mnemonic: Mnemonic,
    from: int,
) -> bool
    decreases table.len() - from,
{
    if from < 0 || from >= table.len() {
        false
    } else {
        table[from].mnemonic == mnemonic || knows_mnemonic_from(table, mnemonic, from + 1)
    }
}

/// Position of the first definition, from position `from` on, that matches
/// `instruction`.
pub open spec fn first_match_from(
    table: Seq<InstructionDefinition>,
    instruction: Instruction,
    from: int,
) -> Option<int>
    decreases table.len() - from,
{
    if from < 0 || from >= table.len() {
        None
    } else if table[from].spec_matches(instruction) {
        Some(from)
    } else {
        first_match_from(table, instruction, from + 1)
    }
}

/// The definition that `instruction` is encoded with, by its position in
/// `table`: the first one that matches.
///
/// A mnemonic without any definition is unsupported. A 64-bit immediate is
/// refused everywhere but in `MOV r64, imm64`. Apart from that, an
/// instruction that no definition matches has no encoding form.
pub open spec fn spec_select_definition(
    table: Seq<InstructionDefinition>,
    instruction: Instruction,
) -> Result<int, EncodeError> {
    if !knows_mnemonic_from(table, instruction.mnemonic, 0) {
        Err(EncodeError::UnsupportedInstruction)
    } else if instruction.spec_has_imm64() && !instruction.spec_is_mov_imm64() {
        Err(EncodeError::InvalidImmediateWidth)
    } else {
        match first_match_from(table, instruction, 0) {
            Some(position) => Ok(position),
            None => Err(EncodeError::NoMatchingEncodingForm),
        }
    }
}

/// The mnemonic is known exactly when some definition of the table has it.
pub proof fn lemma_knows_mnemonic(table: Seq<InstructionDefinition>, mnemonic: Mnemonic, from: int)
    requires
        0 <= from,
    ensures
        knows_mnemonic_from(table, mnemonic, from) <==> exists|position: int|
            from <= position < table.len() && (#[trigger] table[position]).mnemonic == mnemonic,
    decreases table.len() - from,
{
    if from < table.len() {
        lemma_knows_mnemonic(table, mnemonic, from + 1);
        if table[from].mnemonic == mnemonic {
            assert(from <= from < table.len() && table[from].mnemonic == mnemonic);
        }
    }
}

/// The selected position holds a matching definition, and no position
/// before it does; nothing is selected exactly when nothing matches.
pub proof fn lemma_first_match(
    table: Seq<InstructionDefinition>,
    instruction: Instruction,
    from: int,
)
    requires
        0 <= from,
    ensures
        match first_match_from(table, instruction, from) {
            Some(position) => {
                &&& from <= position < table.len()
                &&& table[position].spec_matches(instruction)
                &&& forall|earlier: int|
                    from <= earlier < position ==> !(#[trigger] table[earlier]).spec_matches(
                        instruction,
                    )
            },
            None => forall|position: int|
                from <= position < table.len() ==> !(#[trigger] table[position]).spec_matches(
                    instruction,
                ),
        },
    decreases table.len() - from,
{
    if from < table.len() {
        lemma_first_match(table, instruction, from + 1);
    }
}

/// The definitions of `table` that are forms of `mnemonic`, in the order of
/// the table.
pub open spec fn forms_of(table: Seq<InstructionDefinition>, mnemonic: Mnemonic) -> Seq<
    InstructionDefinition,
> {
    table.filter(|definition: InstructionDefinition| definition.mnemonic == mnemonic)
}

/// Looks up the forms of `mnemonic`, in the order of the table. A mnemonic
/// without any form is unsupported.
pub fn lookup(table: &Vec<InstructionDefinition>, mnemonic: Mnemonic) -> (found: Result<
    Vec<InstructionDefinition>,
    EncodeError,
>)
    ensures
        match found {
            Ok(forms) => forms@ == forms_of(table@, mnemonic) && forms@.len() > 0,
            Err(error) => error == EncodeError::UnsupportedInstruction && forms_of(
                table@,
                mnemonic,
            ).len() == 0,
        },
        found is Ok <==> knows_mnemonic_from(table@, mnemonic, 0),
{
    let ghost wanted = |definition: InstructionDefinition| definition.mnemonic == mnemonic;
    let mut forms: Vec<InstructionDefinition> = Vec::new();
    let mut position: usize = 0;
    assert(table@.take(0) =~= Seq::<InstructionDefinition>::empty());
    while position < table.len()
        invariant
            position <= table.len(),
            wanted == |definition: InstructionDefinition| definition.mnemonic == mnemonic,
            forms@ == table@.take(position as int).filter(wanted),
            forms@.len() > 0 <==> exists|earlier: int|
                0 <= earlier < position && (#[trigger] table@[earlier]).mnemonic == mnemonic,
        decreases table.len() - position,
    {
        let definition = table[position];
        proof {
            let before = table@.take(position as int);
            let one = seq![definition];
            assert(table@.take(position + 1) =~= before + one);
            Seq::filter_distributes_over_add(before, one, wanted);
            reveal_with_fuel(Seq::filter, 2);
            assert(one.drop_last() =~= Seq::<InstructionDefinition>::empty());
            assert(one.filter(wanted) =~= if wanted(definition) {
                one
            } else {
                Seq::<InstructionDefinition>::empty()
            });
        }
        if definition.mnemonic == mnemonic {
            forms.push(definition);
        }
        position = position + 1;
    }
    assert(table@.take(position as int) =~= table@);
    proof {
        lemma_knows_mnemonic(table@, mnemonic, 0);
    }
    if forms.len() == 0 {
        Err(EncodeError::UnsupportedInstruction)
    } else {
        Ok(forms)
    }
}

/// Finds out whether the table holds a definition for `mnemonic`.
pub fn knows_mnemonic(table: &Vec<InstructionDefinition>, mnemonic: Mnemonic) -> (known: bool)
    ensures
        known == knows_mnemonic_from(table@, mnemonic, 0),
{
    let mut position: usize = 0;
    while position < table.len()
        invariant
            position <= table.len(),
            knows_mnemonic_from(table@, mnemonic, position as int) == knows_mnemonic_from(
                table@,
                mnemonic,
                0,
            ),
        decreases table.len() - position,
    {
        if table[position].mnemonic == mnemonic {
            return true;
        }
        position = position + 1;
    }
    false
}

/// Selects the definition to encode `instruction` with and returns its
/// position in `table`.
pub fn select_definition(
    table: &Vec<InstructionDefinition>,
    instruction: &Instruction,
) -> (selected: Result<usize, EncodeError>)
    ensures
        match selected {
            Ok(position) => spec_select_definition(table@, *instruction) == Ok::<
                int,
                EncodeError,
            >(position as int) && position < table.len() && table[position as int].spec_matches(
                *instruction,
            ),
            Err(error) => spec_select_definition(table@, *instruction) == Err::<int, EncodeError>(
                error,
            ),
        },
{
    if !knows_mnemonic(table, instruction.mnemonic) {
        return Err(EncodeError::UnsupportedInstruction);
    }
    if instruction.has_imm64() && !instruction.is_mov_imm64() {
        return Err(EncodeError::InvalidImmediateWidth);
    }
    let mut position: usize = 0;
    while position < table.len()
        invariant
            position <= table.len(),
            knows_mnemonic_from(table@, instruction.mnemonic, 0),
            !(instruction.spec_has_imm64() && !instruction.spec_is_mov_imm64()),
            first_match_from(table@, *instruction, position as int) == first_match_from(
                table@,
                *instruction,
                0,
            ),
        decreases table.len() - position,
    {
        if table[position].matches(instruction) {
            return Ok(position);
        }
        position = position + 1;
    }
    Err(EncodeError::NoMatchingEncodingForm)
}

} // verus!
