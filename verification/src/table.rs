use crate::instruction::{
    InstructionDefinition, OperandAccess, OperandDefinition, OperandEncoding, OperandSize,
    OperandType, RegisterType,
};
use crate::definition::{knows_mnemonic_from, lemma_knows_mnemonic};
use crate::mnemonic::Mnemonic;
use vstd::prelude::*;

verus! {

/// A slot for a general-purpose register of the given size, carried by the
/// field `encoding`.
pub open spec fn spec_register_slot(
    encoding: OperandEncoding,
    access: OperandAccess,
    size: OperandSize,
) -> Option<OperandDefinition> {
    Some(
        OperandDefinition {
            encoding,
            access,
            size,
            operand_type: OperandType::Register(RegisterType::General),
        },
    )
}

/// Computes [`spec_register_slot`].
#[verifier::when_used_as_spec(spec_register_slot)]
pub fn register_slot(encoding: OperandEncoding, access: OperandAccess, size: OperandSize) -> (slot:
    Option<OperandDefinition>)
    ensures
        slot == spec_register_slot(encoding, access, size),
{
    Some(
        OperandDefinition {
            encoding,
            access,
            size,
            operand_type: OperandType::Register(RegisterType::General),
        },
    )
}

/// A slot for a memory reference to data of the given size.
pub open spec fn spec_memory_slot(access: OperandAccess, size: OperandSize) -> Option<
    OperandDefinition,
> {
    Some(
        OperandDefinition {
            encoding: OperandEncoding::ModRmRm,
            access,
            size,
            operand_type: OperandType::Mem(Some(size)),
        },
    )
}

/// Computes [`spec_memory_slot`].
#[verifier::when_used_as_spec(spec_memory_slot)]
pub fn memory_slot(access: OperandAccess, size: OperandSize) -> (slot: Option<OperandDefinition>)
    ensures
        slot == spec_memory_slot(access, size),
{
    Some(
        OperandDefinition {
            encoding: OperandEncoding::ModRmRm,
            access,
            size,
            operand_type: OperandType::Mem(Some(size)),
        },
    )
}

/// A slot for a memory reference of which only the address is used.
pub open spec fn spec_address_slot() -> Option<OperandDefinition> {
    Some(
        OperandDefinition {
            encoding: OperandEncoding::ModRmRm,
            access: OperandAccess::Read,
            size: OperandSize::Unsized,
            operand_type: OperandType::Mem(None),
        },
    )
}

/// Computes [`spec_address_slot`].
#[verifier::when_used_as_spec(spec_address_slot)]
pub fn address_slot() -> (slot: Option<OperandDefinition>)
    ensures
        slot == spec_address_slot(),
{
    Some(
        OperandDefinition {
            encoding: OperandEncoding::ModRmRm,
            access: OperandAccess::Read,
            size: OperandSize::Unsized,
            operand_type: OperandType::Mem(None),
        },
    )
}

/// A slot for an immediate of the given size.
pub open spec fn spec_immediate_slot(size: OperandSize) -> Option<OperandDefinition> {
    Some(
        OperandDefinition {
            encoding: OperandEncoding::Immediate,
            access: OperandAccess::Read,
            size,
            operand_type: OperandType::Immediate,
        },
    )
}

/// Computes [`spec_immediate_slot`].
#[verifier::when_used_as_spec(spec_immediate_slot)]
pub fn immediate_slot(size: OperandSize) -> (slot: Option<OperandDefinition>)
    ensures
        slot == spec_immediate_slot(size),
{
    Some(
        OperandDefinition {
            encoding: OperandEncoding::Immediate,
            access: OperandAccess::Read,
            size,
            operand_type: OperandType::Immediate,
        },
    )
}

/// A form with two operands and a single opcode byte after the optional
/// escape byte.
pub open spec fn spec_binary_form(
    mnemonic: Mnemonic,
    two_bytes: bool,
    opcode: u8,
    first: Option<OperandDefinition>,
    second: Option<OperandDefinition>,
) -> InstructionDefinition {
    InstructionDefinition {
        mnemonic,
        two_bytes,
        primary_opcode: opcode,
        secondary_opcode: None,
        operands: [first, second, None, None],
    }
}

/// Computes [`spec_binary_form`].
#[verifier::when_used_as_spec(spec_binary_form)]
pub fn binary_form(
    mnemonic: Mnemonic,
    two_bytes: bool,
    opcode: u8,
    first: Option<OperandDefinition>,
    second: Option<OperandDefinition>,
) -> (form: InstructionDefinition)
    ensures
        form == spec_binary_form(mnemonic, two_bytes, opcode, first, second),
{
    InstructionDefinition {
        mnemonic,
        two_bytes,
        primary_opcode: opcode,
        secondary_opcode: None,
        operands: [first, second, None, None],
    }
}

/// Zero for byte operands and one for wider ones: the bit by which the
/// opcodes of most instructions tell the two apart.
pub open spec fn spec_wide_bit(size: OperandSize) -> u8 {
    if size == OperandSize::Byte {
        0
    } else {
        1
    }
}

/// Computes [`spec_wide_bit`].
#[verifier::when_used_as_spec(spec_wide_bit)]
pub fn wide_bit(size: OperandSize) -> (bit: u8)
    ensures
        bit == spec_wide_bit(size),
{
    if size == OperandSize::Byte {
        0
    } else {
        1
    }
}

/// The size of the immediate that `MOV` stores to memory of the given size:
/// the size itself, but a doubleword (sign-extended by the processor) for a
/// quadword.
pub open spec fn spec_stored_immediate_size(size: OperandSize) -> OperandSize {
    if size == OperandSize::Qword {
        OperandSize::Dword
    } else {
        size
    }
}

/// Computes [`spec_stored_immediate_size`].
#[verifier::when_used_as_spec(spec_stored_immediate_size)]
pub fn stored_immediate_size(size: OperandSize) -> (immediate: OperandSize)
    ensures
        immediate == spec_stored_immediate_size(size),
{
    if size == OperandSize::Qword {
        OperandSize::Dword
    } else {
        size
    }
}

/// The forms of `MOV` for operands of one size, in the order in which they
/// are tried: register or memory from register (`88`/`89`), register from
/// memory (`8A`/`8B`), register from immediate with the register in the
/// opcode (`B0`/`B8`), and memory from immediate (`C6`/`C7`).
pub open spec fn mov_forms(size: OperandSize) -> Seq<InstructionDefinition> {
    seq![
        binary_form(
            Mnemonic::MOV,
            false,
            (0x88 + wide_bit(size)) as u8,
            register_slot(OperandEncoding::ModRmRm, OperandAccess::Write, size),
            register_slot(OperandEncoding::ModRmReg, OperandAccess::Read, size),
        ),
        binary_form(
            Mnemonic::MOV,
            false,
            (0x88 + wide_bit(size)) as u8,
            memory_slot(OperandAccess::Write, size),
            register_slot(OperandEncoding::ModRmReg, OperandAccess::Read, size),
        ),
        binary_form(
            Mnemonic::MOV,
            false,
            (0x8A + wide_bit(size)) as u8,
            register_slot(OperandEncoding::ModRmReg, OperandAccess::Write, size),
            memory_slot(OperandAccess::Read, size),
        ),
        binary_form(
            Mnemonic::MOV,
            false,
            (0xB0 + 8 * wide_bit(size)) as u8,
            register_slot(OperandEncoding::Opcode, OperandAccess::Write, size),
            immediate_slot(size),
        ),
        binary_form(
            Mnemonic::MOV,
            false,
            (0xC6 + wide_bit(size)) as u8,
            memory_slot(OperandAccess::Write, size),
            immediate_slot(stored_immediate_size(size)),
        ),
    ]
}

/// `MOV r64, imm32` (`C7 /0`): the register stands in `r/m` and the
/// processor sign-extends the doubleword.
pub open spec fn mov_sign_extended_form() -> InstructionDefinition {
    binary_form(
        Mnemonic::MOV,
        false,
        0xC7,
        register_slot(OperandEncoding::ModRmRm, OperandAccess::Write, OperandSize::Qword),
        immediate_slot(OperandSize::Dword),
    )
}

/// `LEA` (`8D`) into a register of the given size, from a memory reference
/// of any size.
pub open spec fn lea_form(size: OperandSize) -> InstructionDefinition {
    binary_form(
        Mnemonic::LEA,
        false,
        0x8D,
        register_slot(OperandEncoding::ModRmReg, OperandAccess::Write, size),
        address_slot(),
    )
}

/// The two forms of a widening move from a source of size `from` into a
/// register of size `to`: from a register and from memory.
pub open spec fn widening_forms(
    mnemonic: Mnemonic,
    two_bytes: bool,
    opcode: u8,
    to: OperandSize,
    from: OperandSize,
) -> Seq<InstructionDefinition> {
    seq![
        binary_form(
            mnemonic,
            two_bytes,
            opcode,
            register_slot(OperandEncoding::ModRmReg, OperandAccess::Write, to),
            register_slot(OperandEncoding::ModRmRm, OperandAccess::Read, from),
        ),
        binary_form(
            mnemonic,
            two_bytes,
            opcode,
            register_slot(OperandEncoding::ModRmReg, OperandAccess::Write, to),
            memory_slot(OperandAccess::Read, from),
        ),
    ]
}

/// The forms of a move that extends a byte or a word: `0F` and `opcode` for
/// a byte source into a word, doubleword or quadword, `0F` and `opcode + 1`
/// for a word source into a doubleword or quadword.
pub open spec fn extending_forms(mnemonic: Mnemonic, opcode: u8) -> Seq<InstructionDefinition> {
    widening_forms(mnemonic, true, opcode, OperandSize::Word, OperandSize::Byte) + widening_forms(
        mnemonic,
        true,
        opcode,
        OperandSize::Dword,
        OperandSize::Byte,
    ) + widening_forms(mnemonic, true, opcode, OperandSize::Qword, OperandSize::Byte)
        + widening_forms(
        mnemonic,
        true,
        (opcode + 1) as u8,
        OperandSize::Dword,
        OperandSize::Word,
    ) + widening_forms(mnemonic, true, (opcode + 1) as u8, OperandSize::Qword, OperandSize::Word)
}

/// The definition table: the encoding forms of every supported mnemonic.
///
/// `MOV` for the four operand sizes and `MOV r64, imm32`; `LEA` into a
/// word, doubleword or quadword register; `MOVZX` (`0F B6`, `0F B7`) and
/// `MOVSX` (`0F BE`, `0F BF`); `MOVSXD r64, r/m32` (`63`).
pub open spec fn instruction_table() -> Seq<InstructionDefinition> {
    mov_forms(OperandSize::Byte) + mov_forms(OperandSize::Word) + mov_forms(OperandSize::Dword)
        + mov_forms(OperandSize::Qword) + seq![
        mov_sign_extended_form(),
        lea_form(OperandSize::Word),
        lea_form(OperandSize::Dword),
        lea_form(OperandSize::Qword),
    ] + extending_forms(Mnemonic::MOVZX, 0xB6) + extending_forms(Mnemonic::MOVSX, 0xBE)
        + widening_forms(Mnemonic::MOVSXD, false, 0x63, OperandSize::Qword, OperandSize::Dword)
}

/// Whether every definition of `forms` describes an encoding that can be
/// emitted.
pub open spec fn all_encodable(forms: Seq<InstructionDefinition>) -> bool {
    forall|position: int|
        0 <= position < forms.len() ==> (#[trigger] forms[position]).spec_is_encodable()
}

/// The forms of `MOV` can be emitted.
proof fn lemma_mov_forms_are_encodable(size: OperandSize)
    ensures
        all_encodable(mov_forms(size)),
{
}

/// The forms of a widening move can be emitted.
proof fn lemma_widening_forms_are_encodable(
    mnemonic: Mnemonic,
    two_bytes: bool,
    opcode: u8,
    to: OperandSize,
    from: OperandSize,
)
    ensures
        all_encodable(widening_forms(mnemonic, two_bytes, opcode, to, from)),
{
}

/// The forms of an extending move can be emitted.
proof fn lemma_extending_forms_are_encodable(mnemonic: Mnemonic, opcode: u8)
    ensures
        all_encodable(extending_forms(mnemonic, opcode)),
{
    lemma_widening_forms_are_encodable(
        mnemonic,
        true,
        opcode,
        OperandSize::Word,
        OperandSize::Byte,
    );
    lemma_widening_forms_are_encodable(
        mnemonic,
        true,
        opcode,
        OperandSize::Dword,
        OperandSize::Byte,
    );
    lemma_widening_forms_are_encodable(
        mnemonic,
        true,
        opcode,
        OperandSize::Qword,
        OperandSize::Byte,
    );
    lemma_widening_forms_are_encodable(
        mnemonic,
        true,
        (opcode + 1) as u8,
        OperandSize::Dword,
        OperandSize::Word,
    );
    lemma_widening_forms_are_encodable(
        mnemonic,
        true,
        (opcode + 1) as u8,
        OperandSize::Qword,
        OperandSize::Word,
    );
}

/// Every definition of the table describes an encoding that can be emitted.
pub proof fn lemma_table_is_encodable()
    ensures
        all_encodable(instruction_table()),
{
    lemma_mov_forms_are_encodable(OperandSize::Byte);
    lemma_mov_forms_are_encodable(OperandSize::Word);
    lemma_mov_forms_are_encodable(OperandSize::Dword);
    lemma_mov_forms_are_encodable(OperandSize::Qword);
    lemma_extending_forms_are_encodable(Mnemonic::MOVZX, 0xB6);
    lemma_extending_forms_are_encodable(Mnemonic::MOVSX, 0xBE);
    lemma_widening_forms_are_encodable(
        Mnemonic::MOVSXD,
        false,
        0x63,
        OperandSize::Qword,
        OperandSize::Dword,
    );
}

/// The table has forms of exactly the supported mnemonics.
pub proof fn lemma_table_knows_supported(mnemonic: Mnemonic)
    ensures
        knows_mnemonic_from(instruction_table(), mnemonic, 0) == mnemonic.spec_is_supported(),
{
    let table = instruction_table();
    lemma_knows_mnemonic(table, mnemonic, 0);
    assert(table.len() == 46);
    assert(table[0].mnemonic == Mnemonic::MOV);
    assert(table[21].mnemonic == Mnemonic::LEA);
    assert(table[24].mnemonic == Mnemonic::MOVZX);
    assert(table[34].mnemonic == Mnemonic::MOVSX);
    assert(table[44].mnemonic == Mnemonic::MOVSXD);
    assert forall|position: int| 0 <= position < table.len() implies (
    #[trigger] table[position]).mnemonic.spec_is_supported() by {
        if position < 21 {
        } else if position < 24 {
        } else if position < 34 {
        } else if position < 44 {
        } else {
        }
    }
}

/// Appends the forms of `MOV` for operands of one size.
fn push_mov_forms(table: &mut Vec<InstructionDefinition>, size: OperandSize)
    ensures
        final(table)@ == old(table)@ + mov_forms(size),
{
    let wide = wide_bit(size);
    table.push(
        binary_form(
            Mnemonic::MOV,
            false,
            0x88 + wide,
            register_slot(OperandEncoding::ModRmRm, OperandAccess::Write, size),
            register_slot(OperandEncoding::ModRmReg, OperandAccess::Read, size),
        ),
    );
    table.push(
        binary_form(
            Mnemonic::MOV,
            false,
            0x88 + wide,
            memory_slot(OperandAccess::Write, size),
            register_slot(OperandEncoding::ModRmReg, OperandAccess::Read, size),
        ),
    );
    table.push(
        binary_form(
            Mnemonic::MOV,
            false,
            0x8A + wide,
            register_slot(OperandEncoding::ModRmReg, OperandAccess::Write, size),
            memory_slot(OperandAccess::Read, size),
        ),
    );
    table.push(
        binary_form(
            Mnemonic::MOV,
            false,
            0xB0 + 8 * wide,
            register_slot(OperandEncoding::Opcode, OperandAccess::Write, size),
            immediate_slot(size),
        ),
    );
    table.push(
        binary_form(
            Mnemonic::MOV,
            false,
            0xC6 + wide,
            memory_slot(OperandAccess::Write, size),
            immediate_slot(stored_immediate_size(size)),
        ),
    );
    assert(table@ =~= old(table)@ + mov_forms(size));
}

/// Appends the two forms of a widening move between two sizes.
fn push_widening_forms(
    table: &mut Vec<InstructionDefinition>,
    mnemonic: Mnemonic,
    two_bytes: bool,
    opcode: u8,
    to: OperandSize,
    from: OperandSize,
)
    ensures
        final(table)@ == old(table)@ + widening_forms(mnemonic, two_bytes, opcode, to, from),
{
    table.push(
        binary_form(
            mnemonic,
            two_bytes,
            opcode,
            register_slot(OperandEncoding::ModRmReg, OperandAccess::Write, to),
            register_slot(OperandEncoding::ModRmRm, OperandAccess::Read, from),
        ),
    );
    table.push(
        binary_form(
            mnemonic,
            two_bytes,
            opcode,
            register_slot(OperandEncoding::ModRmReg, OperandAccess::Write, to),
            memory_slot(OperandAccess::Read, from),
        ),
    );
    assert(table@ =~= old(table)@ + widening_forms(mnemonic, two_bytes, opcode, to, from));
}

/// Appends the forms of a move that extends a byte or a word.
fn push_extending_forms(table: &mut Vec<InstructionDefinition>, mnemonic: Mnemonic, opcode: u8)
    requires
        opcode < 0xFF,
    ensures
        final(table)@ == old(table)@ + extending_forms(mnemonic, opcode),
{
    push_widening_forms(table, mnemonic, true, opcode, OperandSize::Word, OperandSize::Byte);
    push_widening_forms(table, mnemonic, true, opcode, OperandSize::Dword, OperandSize::Byte);
    push_widening_forms(table, mnemonic, true, opcode, OperandSize::Qword, OperandSize::Byte);
    push_widening_forms(table, mnemonic, true, opcode + 1, OperandSize::Dword, OperandSize::Word);
    push_widening_forms(table, mnemonic, true, opcode + 1, OperandSize::Qword, OperandSize::Word);
    assert(table@ =~= old(table)@ + extending_forms(mnemonic, opcode));
}

/// Builds the definition table.
pub fn init_instruction_map() -> (table: Vec<InstructionDefinition>)
    ensures
        table@ == instruction_table(),
{
    let mut table: Vec<InstructionDefinition> = Vec::new();
    push_mov_forms(&mut table, OperandSize::Byte);
    push_mov_forms(&mut table, OperandSize::Word);
    push_mov_forms(&mut table, OperandSize::Dword);
    push_mov_forms(&mut table, OperandSize::Qword);
    table.push(
        binary_form(
            Mnemonic::MOV,
            false,
            0xC7,
            register_slot(OperandEncoding::ModRmRm, OperandAccess::Write, OperandSize::Qword),
            immediate_slot(OperandSize::Dword),
        ),
    );
    table.push(
        binary_form(
            Mnemonic::LEA,
            false,
            0x8D,
            register_slot(OperandEncoding::ModRmReg, OperandAccess::Write, OperandSize::Word),
            address_slot(),
        ),
    );
    table.push(
        binary_form(
            Mnemonic::LEA,
            false,
            0x8D,
            register_slot(OperandEncoding::ModRmReg, OperandAccess::Write, OperandSize::Dword),
            address_slot(),
        ),
    );
    table.push(
        binary_form(
            Mnemonic::LEA,
            false,
            0x8D,
            register_slot(OperandEncoding::ModRmReg, OperandAccess::Write, OperandSize::Qword),
            address_slot(),
        ),
    );
    push_extending_forms(&mut table, Mnemonic::MOVZX, 0xB6);
    push_extending_forms(&mut table, Mnemonic::MOVSX, 0xBE);
    push_widening_forms(
        &mut table,
        Mnemonic::MOVSXD,
        false,
        0x63,
        OperandSize::Qword,
        OperandSize::Dword,
    );
    assert(table@ =~= instruction_table());
    table
}

} // verus!
