use crate::definition::{select_definition, spec_select_definition};
use crate::error::EncodeError;
use crate::instruction::{Instruction, InstructionDefinition, Operand, OperandEncoding};
use crate::operand::operand_immediate_value;
use crate::table::{init_instruction_map, instruction_table};
use vstd::prelude::*;

verus! {

/// The outcome of an encoding with the bytes as a sequence.
pub open spec fn encoded(outcome: Result<Vec<u8>, EncodeError>) -> Result<Seq<u8>, EncodeError> {
    match outcome {
        Ok(bytes) => Ok(bytes@),
        Err(error) => Err(error),
    }
}

/// The value of the displacement of an operand that stands in `r/m`, in an
/// instruction that starts at `current_address` and is `length` bytes long.
/// Zero where the operand is no memory reference.
pub open spec fn operand_displacement(
    operand: Option<Operand>,
    current_address: u64,
    length: nat,
    labels: Seq<(Seq<char>, u64)>,
) -> Result<i64, EncodeError> {
    match operand {
        Some(Operand::Memory(memory)) => memory.spec_displacement_value(
            current_address,
            length,
            labels,
        ),
        _ => Ok(0i64),
    }
}

impl InstructionDefinition {
    /// The value of the displacement of `instruction`, encoded with this
    /// form, when the instruction starts at `current_address` and is
    /// `length` bytes long. Zero where no memory reference stands in `r/m`.
    pub open spec fn spec_displacement(
        &self,
        instruction: Instruction,
        current_address: u64,
        length: nat,
        labels: Seq<(Seq<char>, u64)>,
    ) -> Result<i64, EncodeError> {
        operand_displacement(
            self.spec_operand_in(instruction, OperandEncoding::ModRmRm),
            current_address,
            length,
            labels,
        )
    }

    /// The value of the immediate of `instruction`, encoded with this form.
    /// Zero where the form has no immediate.
    pub open spec fn spec_immediate(&self, instruction: Instruction) -> u64 {
        operand_immediate_value(self.spec_operand_in(instruction, OperandEncoding::Immediate))
    }

    /// The bytes of `instruction`, encoded with this form at
    /// `current_address`.
    ///
    /// The layout comes first, and with it the length; the displacement to a
    /// label is measured from the end of the instruction, which the length
    /// gives.
    pub open spec fn spec_encode(
        &self,
        instruction: Instruction,
        current_address: u64,
        labels: Seq<(Seq<char>, u64)>,
    ) -> Result<Seq<u8>, EncodeError> {
        match self.spec_layout(instruction) {
            Err(error) => Err(error),
            Ok(layout) => match self.spec_displacement(
                instruction,
                current_address,
                layout.spec_length(),
                labels,
            ) {
                Err(error) => Err(error),
                Ok(displacement) => Ok(
                    layout.spec_bytes(
                        displacement as int,
                        self.spec_immediate(instruction) as nat,
                    ),
                ),
            },
        }
    }

    /// Encodes `instruction` with this form, for placement at
    /// `current_address`.
    pub fn encode(
        &self,
        instruction: &Instruction,
        current_address: u64,
        labels: &Vec<(&str, u64)>,
    ) -> (outcome: Result<Vec<u8>, EncodeError>)
        ensures
            encoded(outcome) == self.spec_encode(
                *instruction,
                current_address,
                labels.deep_view(),
            ),
    {
        let layout = self.layout(instruction)?;
        let displacement = match self.operand_in(instruction, OperandEncoding::ModRmRm) {
            Some(Operand::Memory(memory)) => memory.displacement_value(
                current_address,
                layout.length(),
                labels,
            )?,
            _ => 0,
        };
        let immediate = match self.operand_in(instruction, OperandEncoding::Immediate) {
            Some(operand) => operand.immediate_value(),
            None => 0,
        };
        Ok(layout.emit(displacement, immediate))
    }
}

/// The bytes of `instruction` at `current_address`, by the definitions of
/// `table`.
///
/// An instruction that names a legacy high-byte register together with a
/// register that needs a REX byte is refused before anything else is looked
/// at. Then the first matching definition is selected and the instruction is
/// encoded with it.
pub open spec fn spec_encode_with(
    table: Seq<InstructionDefinition>,
    instruction: Instruction,
    current_address: u64,
    labels: Seq<(Seq<char>, u64)>,
) -> Result<Seq<u8>, EncodeError> {
    if instruction.spec_names_high_byte() && instruction.spec_names_rex_register() {
        Err(EncodeError::RexHighByteConflict)
    } else {
        match spec_select_definition(table, instruction) {
            Err(error) => Err(error),
            Ok(position) => table[position].spec_encode(instruction, current_address, labels),
        }
    }
}

/// The bytes of `instruction` at `current_address`, by the definition table
/// of this encoder.
pub open spec fn spec_encode(
    instruction: Instruction,
    current_address: u64,
    labels: Seq<(Seq<char>, u64)>,
) -> Result<Seq<u8>, EncodeError> {
    spec_encode_with(instruction_table(), instruction, current_address, labels)
}

/// The length of the encoding of `instruction` by the definitions of
/// `table`, as far as the shape of the instruction decides it: neither the
/// address of the instruction nor the addresses of labels are looked at.
pub open spec fn spec_encoded_length_with(
    table: Seq<InstructionDefinition>,
    instruction: Instruction,
) -> Result<nat, EncodeError> {
    if instruction.spec_names_high_byte() && instruction.spec_names_rex_register() {
        Err(EncodeError::RexHighByteConflict)
    } else {
        match spec_select_definition(table, instruction) {
            Err(error) => Err(error),
            Ok(position) => match table[position].spec_layout(instruction) {
                Err(error) => Err(error),
                Ok(layout) => Ok(layout.spec_length()),
            },
        }
    }
}

/// The encoding of an instruction has the length that was computed from its
/// shape; and where no length can be computed, the instruction cannot be
/// encoded, for the same reason.
pub proof fn lemma_length_is_known_before_values(
    table: Seq<InstructionDefinition>,
    instruction: Instruction,
    current_address: u64,
    labels: Seq<(Seq<char>, u64)>,
)
    ensures
        match spec_encoded_length_with(table, instruction) {
            Ok(length) => match spec_encode_with(table, instruction, current_address, labels) {
                Ok(bytes) => bytes.len() == length,
                Err(error) => error == EncodeError::UndefinedLabel || error
                    == EncodeError::DisplacementOverflow,
            },
            Err(error) => spec_encode_with(table, instruction, current_address, labels) == Err::<
                Seq<u8>,
                EncodeError,
            >(error),
        },
{
    if spec_select_definition(table, instruction) is Ok {
        let position = spec_select_definition(table, instruction)->Ok_0;
        let definition = table[position];
        if definition.spec_layout(instruction) is Ok {
            let layout = definition.spec_layout(instruction)->Ok_0;
            let displacement = definition.spec_displacement(
                instruction,
                current_address,
                layout.spec_length(),
                labels,
            );
            if displacement is Ok {
                layout.lemma_length(
                    displacement->Ok_0 as int,
                    definition.spec_immediate(instruction) as nat,
                );
            }
        }
    }
}

/// The outcome of computing a length, with the length as a number.
pub open spec fn counted(outcome: Result<usize, EncodeError>) -> Result<nat, EncodeError> {
    match outcome {
        Ok(count) => Ok(count as nat),
        Err(error) => Err(error),
    }
}

/// Computes the length that the encoding of `instruction` will have, before
/// the addresses of labels are known.
pub fn encoded_length_with(
    table: &Vec<InstructionDefinition>,
    instruction: &Instruction,
) -> (length: Result<usize, EncodeError>)
    ensures
        counted(length) == spec_encoded_length_with(table@, *instruction),
{
    if instruction.names_high_byte() && instruction.names_rex_register() {
        return Err(EncodeError::RexHighByteConflict);
    }
    let position = select_definition(table, instruction)?;
    let layout = table[position].layout(instruction)?;
    Ok(layout.length())
}

/// Computes the length that the encoding of `instruction` will have, by the
/// definition table of this encoder.
pub fn encoded_length(instruction: &Instruction) -> (length: Result<usize, EncodeError>)
    ensures
        counted(length) == spec_encoded_length_with(instruction_table(), *instruction),
{
    let table = init_instruction_map();
    encoded_length_with(&table, instruction)
}

/// Encodes `instruction` by the definitions of `table`.
pub fn encode_with(
    table: &Vec<InstructionDefinition>,
    instruction: &Instruction,
    current_address: u64,
    labels: &Vec<(&str, u64)>,
) -> (outcome: Result<Vec<u8>, EncodeError>)
    ensures
        encoded(outcome) == spec_encode_with(
            table@,
            *instruction,
            current_address,
            labels.deep_view(),
        ),
        outcome matches Ok(bytes) ==> spec_encoded_length_with(table@, *instruction) == Ok::<
            nat,
            EncodeError,
        >(bytes@.len()),
        instruction.spec_names_high_byte() && instruction.spec_names_rex_register() ==> outcome
            == Err::<Vec<u8>, EncodeError>(EncodeError::RexHighByteConflict),
{
    proof {
        lemma_length_is_known_before_values(
            table@,
            *instruction,
            current_address,
            labels.deep_view(),
        );
    }
    if instruction.names_high_byte() && instruction.names_rex_register() {
        return Err(EncodeError::RexHighByteConflict);
    }
    let position = select_definition(table, instruction)?;
    table[position].encode(instruction, current_address, labels)
}

/// Encodes one instruction for placement at `current_address`.
///
/// `label_address_list` binds the name of every label that a memory operand
/// may refer to to its absolute address.
pub fn encode(
    instruction: &Instruction,
    current_address: u64,
    label_address_list: &Vec<(&str, u64)>,
) -> (outcome: Result<Vec<u8>, EncodeError>)
    ensures
        encoded(outcome) == spec_encode(
            *instruction,
            current_address,
            label_address_list.deep_view(),
        ),
        outcome matches Ok(bytes) ==> spec_encoded_length_with(instruction_table(), *instruction)
            == Ok::<nat, EncodeError>(bytes@.len()),
        instruction.spec_names_high_byte() && instruction.spec_names_rex_register() ==> outcome
            == Err::<Vec<u8>, EncodeError>(EncodeError::RexHighByteConflict),
{
    let table = init_instruction_map();
    encode_with(&table, instruction, current_address, label_address_list)
}

} // verus!
