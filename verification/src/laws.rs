use crate::definition::{lemma_first_match, slot_accepts, slot_uses, spec_select_definition};
use crate::fields::{is_rex_byte, lemma_rex_flags, rex_flag};
use crate::encode::{encoded, operand_displacement, spec_encode_with, spec_encoded_length_with};
use crate::error::EncodeError;
use crate::instruction::{
    Instruction, InstructionDefinition, Operand, OperandEncoding, Register, REW,
};
use crate::layout::{operand_rm_form, operand_segment_override};
use crate::operand::{operand_immediate_value, operand_immediate_width, operand_register};
use vstd::prelude::*;

verus! {

/// Two operands differ at most in the value of an immediate, in the name of
/// a label, and in the displacement that is added to a label's address.
pub open spec fn same_operand_shape(left: Option<Operand>, right: Option<Operand>) -> bool {
    match (left, right) {
        (None, None) => true,
        (Some(Operand::Register(a)), Some(Operand::Register(b))) => a == b,
        (Some(Operand::Immediate8(_)), Some(Operand::Immediate8(_))) => true,
        (Some(Operand::Immediate16(_)), Some(Operand::Immediate16(_))) => true,
        (Some(Operand::Immediate32(_)), Some(Operand::Immediate32(_))) => true,
        (Some(Operand::Immediate64(_)), Some(Operand::Immediate64(_))) => true,
        (Some(Operand::Memory(a)), Some(Operand::Memory(b))) => {
            &&& a.size == b.size
            &&& a.segment == b.segment
            &&& a.base == b.base
            &&& a.index == b.index
            &&& a.scale == b.scale
            &&& (a.label is Some <==> b.label is Some)
            &&& (a.label is None ==> a.displacement == b.displacement)
        },
        _ => false,
    }
}

/// Two instructions have the same mnemonic and operands of the same shape.
pub open spec fn same_shape(left: Instruction, right: Instruction) -> bool {
    &&& left.mnemonic == right.mnemonic
    &&& same_operand_shape(left.operands[0], right.operands[0])
    &&& same_operand_shape(left.operands[1], right.operands[1])
    &&& same_operand_shape(left.operands[2], right.operands[2])
    &&& same_operand_shape(left.operands[3], right.operands[3])
}

/// Two operands are the same in every respect; labels are the same when
/// their names hold the same characters.
pub open spec fn same_operand(left: Option<Operand>, right: Option<Operand>) -> bool {
    match (left, right) {
        (None, None) => true,
        (Some(Operand::Register(a)), Some(Operand::Register(b))) => a == b,
        (Some(Operand::Immediate8(a)), Some(Operand::Immediate8(b))) => a == b,
        (Some(Operand::Immediate16(a)), Some(Operand::Immediate16(b))) => a == b,
        (Some(Operand::Immediate32(a)), Some(Operand::Immediate32(b))) => a == b,
        (Some(Operand::Immediate64(a)), Some(Operand::Immediate64(b))) => a == b,
        (Some(Operand::Memory(a)), Some(Operand::Memory(b))) => {
            &&& a.size == b.size
            &&& a.segment == b.segment
            &&& a.base == b.base
            &&& a.index == b.index
            &&& a.scale == b.scale
            &&& a.displacement == b.displacement
            &&& match (a.label, b.label) {
                (None, None) => true,
                (Some(first), Some(second)) => first@ == second@,
                _ => false,
            }
        },
        _ => false,
    }
}

/// Two instructions have the same mnemonic and the same operands.
pub open spec fn same_instruction(left: Instruction, right: Instruction) -> bool {
    &&& left.mnemonic == right.mnemonic
    &&& same_operand(left.operands[0], right.operands[0])
    &&& same_operand(left.operands[1], right.operands[1])
    &&& same_operand(left.operands[2], right.operands[2])
    &&& same_operand(left.operands[3], right.operands[3])
}

/// Encoding is a function of instruction, address and label table: two runs
/// on the same three end the same way, with the same bytes or with the same
/// error.
pub proof fn lemma_encoding_is_deterministic(
    table: Seq<InstructionDefinition>,
    instruction: Instruction,
    current_address: u64,
    labels: Seq<(Seq<char>, u64)>,
    first: Result<Vec<u8>, EncodeError>,
    second: Result<Vec<u8>, EncodeError>,
)
    requires
        encoded(first) == spec_encode_with(table, instruction, current_address, labels),
        encoded(second) == spec_encode_with(table, instruction, current_address, labels),
    ensures
        encoded(first) == encoded(second),
{
}

/// Instructions that are the same have the same shape.
proof fn lemma_same_instruction_same_shape(left: Instruction, right: Instruction)
    requires
        same_instruction(left, right),
    ensures
        same_shape(left, right),
{
    assert(same_operand_shape(left.operands[0], right.operands[0]));
    assert(same_operand_shape(left.operands[1], right.operands[1]));
    assert(same_operand_shape(left.operands[2], right.operands[2]));
    assert(same_operand_shape(left.operands[3], right.operands[3]));
}

/// Under one definition, the operands that two instructions which are the
/// same have in one field are the same.
proof fn lemma_same_operand_in(
    definition: InstructionDefinition,
    left: Instruction,
    right: Instruction,
    encoding: OperandEncoding,
)
    requires
        same_instruction(left, right),
    ensures
        same_operand(
            definition.spec_operand_in(left, encoding),
            definition.spec_operand_in(right, encoding),
        ),
{
}

/// Operands that are the same have the same immediate value and, at the
/// same place and with the same labels, the same displacement.
proof fn lemma_same_operand_same_values(
    left: Option<Operand>,
    right: Option<Operand>,
    current_address: u64,
    length: nat,
    labels: Seq<(Seq<char>, u64)>,
)
    requires
        same_operand(left, right),
    ensures
        operand_immediate_value(left) == operand_immediate_value(right),
        operand_displacement(left, current_address, length, labels) == operand_displacement(
            right,
            current_address,
            length,
            labels,
        ),
{
}

/// Under one definition, two instructions that are the same end the same
/// way.
proof fn lemma_same_instruction_same_form_encoding(
    definition: InstructionDefinition,
    left: Instruction,
    right: Instruction,
    current_address: u64,
    labels: Seq<(Seq<char>, u64)>,
)
    requires
        same_instruction(left, right),
    ensures
        definition.spec_encode(left, current_address, labels) == definition.spec_encode(
            right,
            current_address,
            labels,
        ),
{
    lemma_same_instruction_same_shape(left, right);
    lemma_shape_decides_layout(definition, left, right);
    lemma_same_operand_in(definition, left, right, OperandEncoding::ModRmRm);
    lemma_same_operand_in(definition, left, right, OperandEncoding::Immediate);
    if definition.spec_layout(left) is Ok {
        let layout = definition.spec_layout(left)->Ok_0;
        lemma_same_operand_same_values(
            definition.spec_operand_in(left, OperandEncoding::ModRmRm),
            definition.spec_operand_in(right, OperandEncoding::ModRmRm),
            current_address,
            layout.spec_length(),
            labels,
        );
        lemma_same_operand_same_values(
            definition.spec_operand_in(left, OperandEncoding::Immediate),
            definition.spec_operand_in(right, OperandEncoding::Immediate),
            current_address,
            layout.spec_length(),
            labels,
        );
    }
}

/// The encoding of an instruction depends on what the instruction holds and
/// on nothing else about it: two instructions with the same mnemonic and the
/// same operands, at the same address and with the same labels, end the same
/// way.
pub proof fn lemma_same_instruction_same_encoding(
    table: Seq<InstructionDefinition>,
    left: Instruction,
    right: Instruction,
    current_address: u64,
    labels: Seq<(Seq<char>, u64)>,
)
    requires
        same_instruction(left, right),
    ensures
        spec_encode_with(table, left, current_address, labels) == spec_encode_with(
            table,
            right,
            current_address,
            labels,
        ),
{
    lemma_same_instruction_same_shape(left, right);
    lemma_shape_decides_names(left, right);
    lemma_shape_decides_first_match(table, left, right, 0);
    lemma_shape_decides_acceptance(table[0], left, right);
    if spec_select_definition(table, left) is Ok {
        let position = spec_select_definition(table, left)->Ok_0;
        lemma_same_instruction_same_form_encoding(
            table[position],
            left,
            right,
            current_address,
            labels,
        );
    }
}

/// The address of an instruction and the label table bear on its encoding
/// only where an operand refers to a label.
pub proof fn lemma_address_matters_only_for_labels(
    table: Seq<InstructionDefinition>,
    instruction: Instruction,
    first_address: u64,
    first_labels: Seq<(Seq<char>, u64)>,
    second_address: u64,
    second_labels: Seq<(Seq<char>, u64)>,
)
    requires
        !instruction.spec_has_label(),
    ensures
        spec_encode_with(table, instruction, first_address, first_labels) == spec_encode_with(
            table,
            instruction,
            second_address,
            second_labels,
        ),
{
    if spec_select_definition(table, instruction) is Ok {
        let position = spec_select_definition(table, instruction)->Ok_0;
        let definition = table[position];
        match definition.spec_slot_of(OperandEncoding::ModRmRm) {
            Some(slot) => {
                assert(0 <= slot < 4);
                assert(!(instruction.operands[slot] is Some
                    && instruction.operands[slot]->0.spec_is_label()));
            },
            None => {},
        }
    }
}

/// Every definition matches both of two instructions of the same shape, or
/// neither.
proof fn lemma_shape_decides_acceptance(
    definition: InstructionDefinition,
    left: Instruction,
    right: Instruction,
)
    requires
        same_shape(left, right),
    ensures
        definition.spec_matches(left) == definition.spec_matches(right),
        left.spec_has_imm64() == right.spec_has_imm64(),
        left.spec_is_mov_imm64() == right.spec_is_mov_imm64(),
{
}

/// Instructions of the same shape select the same definition.
proof fn lemma_shape_decides_first_match(
    table: Seq<InstructionDefinition>,
    left: Instruction,
    right: Instruction,
    from: int,
)
    requires
        same_shape(left, right),
        0 <= from,
    ensures
        crate::definition::first_match_from(table, left, from)
            == crate::definition::first_match_from(table, right, from),
    decreases table.len() - from,
{
    if from < table.len() {
        lemma_shape_decides_acceptance(table[from], left, right);
        lemma_shape_decides_first_match(table, left, right, from + 1);
    }
}

/// Instructions of the same shape name the same kinds of registers.
proof fn lemma_shape_decides_names(left: Instruction, right: Instruction)
    requires
        same_shape(left, right),
    ensures
        left.spec_names_high_byte() == right.spec_names_high_byte(),
        left.spec_names_rex_register() == right.spec_names_rex_register(),
        left.spec_has_uniform_low_byte() == right.spec_has_uniform_low_byte(),
{
    assert forall|slot: int| 0 <= slot < 4 implies ({
        &&& (#[trigger] left.operands[slot]) is Some <==> right.operands[slot] is Some
        &&& left.operands[slot] is Some ==> {
            &&& left.operands[slot]->0.spec_names_high_byte()
                == right.operands[slot]->0.spec_names_high_byte()
            &&& left.operands[slot]->0.spec_names_rex_register()
                == right.operands[slot]->0.spec_names_rex_register()
            &&& left.operands[slot]->0.spec_is_uniform_low_byte()
                == right.operands[slot]->0.spec_is_uniform_low_byte()
        }
    }) by {
        assert(same_operand_shape(left.operands[slot], right.operands[slot]));
    }
    if left.spec_names_high_byte() {
        let slot = choose|slot: int|
            0 <= slot < 4 && (#[trigger] left.operands[slot]) is Some
                && left.operands[slot]->0.spec_names_high_byte();
        assert(right.operands[slot] is Some && right.operands[slot]->0.spec_names_high_byte());
    }
    if right.spec_names_high_byte() {
        let slot = choose|slot: int|
            0 <= slot < 4 && (#[trigger] right.operands[slot]) is Some
                && right.operands[slot]->0.spec_names_high_byte();
        assert(left.operands[slot] is Some && left.operands[slot]->0.spec_names_high_byte());
    }
    if left.spec_names_rex_register() {
        let slot = choose|slot: int|
            0 <= slot < 4 && (#[trigger] left.operands[slot]) is Some
                && left.operands[slot]->0.spec_names_rex_register();
        assert(right.operands[slot] is Some && right.operands[slot]->0.spec_names_rex_register());
    }
    if right.spec_names_rex_register() {
        let slot = choose|slot: int|
            0 <= slot < 4 && (#[trigger] right.operands[slot]) is Some
                && right.operands[slot]->0.spec_names_rex_register();
        assert(left.operands[slot] is Some && left.operands[slot]->0.spec_names_rex_register());
    }
    if left.spec_has_uniform_low_byte() {
        let slot = choose|slot: int|
            0 <= slot < 4 && (#[trigger] left.operands[slot]) is Some
                && left.operands[slot]->0.spec_is_uniform_low_byte();
        assert(right.operands[slot] is Some && right.operands[slot]->0.spec_is_uniform_low_byte());
    }
    if right.spec_has_uniform_low_byte() {
        let slot = choose|slot: int|
            0 <= slot < 4 && (#[trigger] right.operands[slot]) is Some
                && right.operands[slot]->0.spec_is_uniform_low_byte();
        assert(left.operands[slot] is Some && left.operands[slot]->0.spec_is_uniform_low_byte());
    }
}

/// Operands of the same shape are laid out alike.
proof fn lemma_shape_decides_projections(left: Option<Operand>, right: Option<Operand>)
    requires
        same_operand_shape(left, right),
    ensures
        operand_register(left) == operand_register(right),
        operand_immediate_width(left) == operand_immediate_width(right),
        operand_rm_form(left) == operand_rm_form(right),
        operand_segment_override(left) == operand_segment_override(right),
{
}

/// Under one definition, the operands that two instructions of the same
/// shape have in one field are of the same shape.
proof fn lemma_shape_of_operand_in(
    definition: InstructionDefinition,
    left: Instruction,
    right: Instruction,
    encoding: OperandEncoding,
)
    requires
        same_shape(left, right),
    ensures
        same_operand_shape(
            definition.spec_operand_in(left, encoding),
            definition.spec_operand_in(right, encoding),
        ),
{
}

/// The layout of an instruction, and with it the length of its encoding,
/// follows from its shape: two instructions of the same shape have the same
/// layout under every definition.
pub proof fn lemma_shape_decides_layout(
    definition: InstructionDefinition,
    left: Instruction,
    right: Instruction,
)
    requires
        same_shape(left, right),
    ensures
        definition.spec_layout(left) == definition.spec_layout(right),
{
    lemma_shape_decides_acceptance(definition, left, right);
    lemma_shape_decides_names(left, right);
    lemma_shape_of_operand_in(definition, left, right, OperandEncoding::ModRmRm);
    lemma_shape_of_operand_in(definition, left, right, OperandEncoding::ModRmReg);
    lemma_shape_of_operand_in(definition, left, right, OperandEncoding::Opcode);
    lemma_shape_of_operand_in(definition, left, right, OperandEncoding::Immediate);
    lemma_shape_decides_projections(
        definition.spec_operand_in(left, OperandEncoding::ModRmRm),
        definition.spec_operand_in(right, OperandEncoding::ModRmRm),
    );
    lemma_shape_decides_projections(
        definition.spec_operand_in(left, OperandEncoding::ModRmReg),
        definition.spec_operand_in(right, OperandEncoding::ModRmReg),
    );
    lemma_shape_decides_projections(
        definition.spec_operand_in(left, OperandEncoding::Opcode),
        definition.spec_operand_in(right, OperandEncoding::Opcode),
    );
    lemma_shape_decides_projections(
        definition.spec_operand_in(left, OperandEncoding::Immediate),
        definition.spec_operand_in(right, OperandEncoding::Immediate),
    );
    assert(definition.spec_rm_form(left) == definition.spec_rm_form(right));
    assert(definition.spec_rex(left) == definition.spec_rex(right));
}

/// The length of an encoding is decided before the values of immediates and
/// the addresses of labels are known: instructions of the same shape have
/// encodings of the same length, wherever they are placed and whatever the
/// labels are bound to.
pub proof fn lemma_shape_decides_length(
    table: Seq<InstructionDefinition>,
    left: Instruction,
    right: Instruction,
)
    requires
        same_shape(left, right),
    ensures
        spec_encoded_length_with(table, left) == spec_encoded_length_with(table, right),
{
    lemma_shape_decides_names(left, right);
    lemma_shape_decides_first_match(table, left, right, 0);
    lemma_shape_decides_acceptance(table[0], left, right);
    if spec_select_definition(table, left) is Ok {
        let position = spec_select_definition(table, left)->Ok_0;
        lemma_shape_decides_layout(table[position], left, right);
    }
}

/// Where an instruction that can be encoded names a register numbered 8 or
/// above, the byte after the legacy prefixes is a REX byte, and in it the
/// flag is set that belongs to the field which carries the register: REX.R
/// for a register operand in `reg`, REX.B for one in `r/m` or in the opcode,
/// REX.B for the base of a memory reference and REX.X for its index.
pub proof fn lemma_extended_register_sets_rex(
    table: Seq<InstructionDefinition>,
    instruction: Instruction,
    current_address: u64,
    labels: Seq<(Seq<char>, u64)>,
    slot: int,
)
    requires
        0 <= slot < 4,
        spec_encode_with(table, instruction, current_address, labels) is Ok,
    ensures
        ({
            let bytes = spec_encode_with(table, instruction, current_address, labels)->Ok_0;
            let definition = table[spec_select_definition(table, instruction)->Ok_0];
            let at = definition.spec_layout(instruction)->Ok_0.spec_prefix_bytes().len() as int;
            match instruction.operands[slot] {
                Some(Operand::Register(register)) => register.spec_is_extended() ==> {
                    &&& at < bytes.len()
                    &&& is_rex_byte(bytes[at])
                    &&& definition.operands[slot] is Some
                    &&& definition.operands[slot]->0.encoding == OperandEncoding::ModRmReg
                        ==> rex_flag(bytes[at], REW::R)
                    &&& definition.operands[slot]->0.encoding != OperandEncoding::ModRmReg
                        ==> rex_flag(bytes[at], REW::B)
                },
                Some(Operand::Memory(memory)) => {
                    &&& memory.base is Some && memory.base->0.spec_is_extended() ==> {
                        &&& at < bytes.len()
                        &&& is_rex_byte(bytes[at])
                        &&& rex_flag(bytes[at], REW::B)
                    }
                    &&& memory.index is Some && memory.index->0.spec_is_extended() ==> {
                        &&& at < bytes.len()
                        &&& is_rex_byte(bytes[at])
                        &&& rex_flag(bytes[at], REW::X)
                    }
                },
                _ => true,
            }
        }),
{
    lemma_first_match(table, instruction, 0);
    let position = spec_select_definition(table, instruction)->Ok_0;
    let definition = table[position];
    assert(definition.spec_matches(instruction));
    let layout = definition.spec_layout(instruction)->Ok_0;
    let displacement = definition.spec_displacement(
        instruction,
        current_address,
        layout.spec_length(),
        labels,
    )->Ok_0;
    let bytes = layout.spec_bytes(
        displacement as int,
        definition.spec_immediate(instruction) as nat,
    );
    let at = layout.spec_prefix_bytes().len() as int;
    lemma_rex_flags(
        definition.spec_rex_w(),
        definition.spec_rex_r(instruction),
        definition.spec_rex_x(instruction),
        definition.spec_rex_b(instruction),
    );
    assert(slot_accepts(definition.operands[slot], instruction.operands[slot], &definition));
    if layout.rex is Some {
        assert(bytes[at] == layout.rex->0);
    }
    match instruction.operands[slot] {
        Some(Operand::Register(register)) => {
            if register.spec_is_extended() {
                let encoding = definition.operands[slot]->0.encoding;
                assert(slot_uses(definition.operands[slot], encoding));
                assert(definition.spec_slot_of(encoding) == Some(slot));
                assert(definition.spec_register_in(instruction, encoding) == Some(register));
            }
        },
        Some(Operand::Memory(memory)) => {
            assert(slot_uses(definition.operands[slot], OperandEncoding::ModRmRm));
            assert(definition.spec_slot_of(OperandEncoding::ModRmRm) == Some(slot));
        },
        _ => {},
    }
}

/// An instruction that names a legacy high-byte register together with a
/// register that cannot be encoded without a REX byte (every register
/// numbered 8 or above is one) is refused, whatever else holds of it.
pub proof fn lemma_high_byte_excludes_rex(
    table: Seq<InstructionDefinition>,
    instruction: Instruction,
    current_address: u64,
    labels: Seq<(Seq<char>, u64)>,
)
    requires
        instruction.spec_names_high_byte(),
        instruction.spec_names_rex_register(),
    ensures
        spec_encode_with(table, instruction, current_address, labels) == Err::<
            Seq<u8>,
            EncodeError,
        >(EncodeError::RexHighByteConflict),
{
}

/// An instruction with a register operand numbered 8 or above in one slot
/// and a legacy high-byte register in another is refused.
pub proof fn lemma_high_byte_excludes_extended(
    table: Seq<InstructionDefinition>,
    instruction: Instruction,
    current_address: u64,
    labels: Seq<(Seq<char>, u64)>,
    high: int,
    extended: int,
)
    requires
        0 <= high < 4,
        0 <= extended < 4,
        instruction.operands[high] matches Some(Operand::Register(register))
            && register.spec_is_legacy_high_byte(),
        instruction.operands[extended] matches Some(Operand::Register(register))
            && register.spec_is_extended(),
    ensures
        spec_encode_with(table, instruction, current_address, labels) == Err::<
            Seq<u8>,
            EncodeError,
        >(EncodeError::RexHighByteConflict),
{
    assert(instruction.operands[high] is Some
        && instruction.operands[high]->0.spec_names_high_byte());
    assert(instruction.operands[extended] is Some
        && instruction.operands[extended]->0.spec_names_rex_register());
}

} // verus!
