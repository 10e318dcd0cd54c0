use crate::address::AddressForm;
use crate::definition::{slot_accepts, slot_uses};
use crate::fields::{le_bytes, lemma_rex_flags, rex_flag, twos_complement};
use crate::instruction::{
    Instruction, InstructionDefinition, MemoryOperand, Operand, OperandEncoding, Register, REW,
};
use crate::layout::Layout;
use vstd::prelude::*;

verus! {

/// The number of the register that a three-bit field stands for, together
/// with the REX flag that extends the field.
pub open spec fn register_number(field: u8, extension: bool) -> int {
    field + if extension {
        8int
    } else {
        0int
    }
}

/// The number of a register that may be absent.
pub open spec fn number_of(register: Option<Register>) -> Option<int> {
    match register {
        Some(register) => Some(register.spec_encoding_index() as int),
        None => None,
    }
}

/// The factor that the `scale` field of SIB stands for.
pub open spec fn scale_factor(field: u8) -> int {
    if field == 0 {
        1
    } else if field == 1 {
        2
    } else if field == 2 {
        4
    } else {
        8
    }
}

/// What the processor takes ModRM, SIB and the REX flags of a memory
/// reference to mean.
pub struct AddressReading {
    /// The address is relative to the instruction pointer.
    pub relative: bool,
    /// Number of the base register.
    pub base: Option<int>,
    /// Number of the index register.
    pub index: Option<int>,
    /// Factor applied to the index register.
    pub scale: int,
    /// Number of displacement bytes that the processor expects.
    pub displacement_width: int,
}

/// Number of displacement bytes that the processor expects after a ModRM
/// byte with the given `mod` field, where a base register is present.
pub open spec fn read_displacement_width(mode: u8) -> int {
    if mode == 1 {
        1
    } else if mode == 2 {
        4
    } else {
        0
    }
}

/// The rules by which the processor, in 64-bit mode, reads a memory
/// reference.
///
/// `r/m` 100 announces a SIB byte. Without one, `mod` 00 with `r/m` 101 is
/// an address relative to the instruction pointer, with four displacement
/// bytes; every other `r/m` is the base register. With a SIB byte, the index
/// field 100 without REX.X means that there is no index; the base field 101
/// with `mod` 00 means that there is no base, and four displacement bytes.
/// In both tests for 101 the REX flag is not looked at.
pub open spec fn read_address(form: AddressForm) -> AddressReading {
    match form.sib {
        None => if form.mode == 0 && form.rm == 5 {
            AddressReading {
                relative: true,
                base: None,
                index: None,
                scale: 1,
                displacement_width: 4,
            }
        } else {
            AddressReading {
                relative: false,
                base: Some(register_number(form.rm, form.rex_b)),
                index: None,
                scale: 1,
                displacement_width: read_displacement_width(form.mode),
            }
        },
        Some(sib) => AddressReading {
            relative: false,
            base: if form.mode == 0 && sib.Base == 5 {
                None
            } else {
                Some(register_number(sib.Base, form.rex_b))
            },
            index: if sib.Index == 4 && !form.rex_x {
                None
            } else {
                Some(register_number(sib.Index, form.rex_x))
            },
            scale: scale_factor(sib.Scale),
            displacement_width: if form.mode == 0 && sib.Base == 5 {
                4
            } else {
                read_displacement_width(form.mode)
            },
        },
    }
}

/// The number that `count` bytes stand for, least significant byte first.
pub open spec fn le_value(bytes: Seq<u8>) -> nat
    decreases bytes.len(),
{
    if bytes.len() == 0 {
        0
    } else {
        bytes[0] as nat + 256 * le_value(bytes.skip(1))
    }
}

/// The number 256 to the power of `count`.
pub open spec fn byte_range(count: nat) -> nat
    decreases count,
{
    if count == 0 {
        1
    } else {
        256 * byte_range((count - 1) as nat)
    }
}

/// The signed number that `count` bytes in two's complement stand for.
pub open spec fn signed_value(bytes: Seq<u8>) -> int {
    if 2 * le_value(bytes) >= byte_range(bytes.len()) {
        le_value(bytes) - byte_range(bytes.len())
    } else {
        le_value(bytes) as int
    }
}

/// A number that fits in `count` bytes is read back from the bytes it was
/// written to.
pub proof fn lemma_le_bytes_read_back(value: nat, count: nat)
    requires
        value < byte_range(count),
    ensures
        le_bytes(value, count).len() == count,
        le_value(le_bytes(value, count)) == value,
    decreases count,
{
    if count > 0 {
        let rest = le_bytes(value / 256, (count - 1) as nat);
        assert(value / 256 < byte_range((count - 1) as nat));
        lemma_le_bytes_read_back(value / 256, (count - 1) as nat);
        let bytes = le_bytes(value, count);
        assert(bytes == seq![(value % 256) as u8] + rest);
        assert(bytes.skip(1) =~= rest);
        assert(bytes[0] == (value % 256) as u8);
    }
}

/// A displacement of one or four bytes is read back, sign and all, from the
/// bytes it was written to.
pub proof fn lemma_displacement_is_read_back(layout: Layout, displacement: int)
    requires
        layout.displacement_width == 1 || layout.displacement_width == 4,
        layout.holds_displacement(displacement),
    ensures
        signed_value(
            le_bytes(
                twos_complement(displacement, layout.displacement_width as nat),
                layout.displacement_width as nat,
            ),
        ) == displacement,
{
    let count = layout.displacement_width as nat;
    assert(byte_range(1) == 0x100) by {
        reveal_with_fuel(byte_range, 2);
    }
    assert(byte_range(4) == 0x1_0000_0000) by {
        reveal_with_fuel(byte_range, 5);
    }
    lemma_le_bytes_read_back(twos_complement(displacement, count), count);
}

/// The processor reads a memory reference as it was meant.
///
/// It expects a SIB byte exactly where one was written, and as many
/// displacement bytes as were written. It takes the reference to be
/// relative to the instruction pointer exactly where the operand names a
/// label. Otherwise the base, the index and the scale that it reads are
/// those of the operand.
pub proof fn lemma_address_is_read_back(operand: MemoryOperand)
    requires
        operand.spec_address_form() is Ok,
    ensures
        ({
            let form = operand.spec_address_form()->Ok_0;
            let reading = read_address(form);
            &&& form.mode <= 2
            &&& form.sib is Some <==> form.rm == 4
            &&& reading.displacement_width == form.displacement_width
            &&& reading.relative <==> operand.label is Some
            &&& operand.label is None ==> {
                &&& reading.base == number_of(operand.base)
                &&& reading.index == number_of(operand.index)
                &&& operand.index is Some ==> reading.scale == operand.scale
            }
        }),
{
}

/// The flags of the REX byte of a layout; all are clear where the layout
/// has no REX byte.
pub open spec fn layout_flag(layout: Layout, flag: REW) -> bool {
    layout.rex is Some && rex_flag(layout.rex->0, flag)
}

/// The processor reads the register operands of an instruction as they were
/// meant.
///
/// The number of a register operand is read back from the field that
/// carries it and the REX flag that extends the field. A register in `r/m`
/// comes with `mod` 11. A byte register numbered 4 to 7 is read as a
/// high-byte register exactly where there is no REX byte: a layout with a
/// high-byte register has none, a layout with `SPL`, `BPL`, `SIL` or `DIL`
/// has one.
pub proof fn lemma_registers_are_read_back(
    definition: InstructionDefinition,
    instruction: Instruction,
    slot: int,
)
    requires
        0 <= slot < 4,
        definition.spec_layout(instruction) is Ok,
        instruction.operands[slot] matches Some(Operand::Register(_)),
    ensures
        ({
            let layout = definition.spec_layout(instruction)->Ok_0;
            let register = instruction.operands[slot]->0->Register_0;
            let number = register.spec_encoding_index() as int;
            &&& definition.operands[slot] is Some
            &&& match definition.operands[slot]->0.encoding {
                OperandEncoding::ModRmReg => layout.modrm is Some && register_number(
                    layout.modrm->0.Register,
                    layout_flag(layout, REW::R),
                ) == number,
                OperandEncoding::ModRmRm => layout.modrm is Some && layout.modrm->0.Mode == 3
                    && register_number(layout.modrm->0.RegOrMemory, layout_flag(layout, REW::B))
                    == number,
                OperandEncoding::Opcode => layout.modrm is None && register_number(
                    (layout.opcode - definition.primary_opcode) as u8,
                    layout_flag(layout, REW::B),
                ) == number,
                _ => false,
            }
            &&& register.spec_is_legacy_high_byte() ==> layout.rex is None
            &&& register.spec_is_uniform_low_byte() ==> layout.rex is Some
        }),
{
    let layout = definition.spec_layout(instruction)->Ok_0;
    let register = instruction.operands[slot]->0->Register_0;
    assert(definition.spec_matches(instruction));
    assert(slot_accepts(definition.operands[slot], instruction.operands[slot], &definition));
    let encoding = definition.operands[slot]->0.encoding;
    assert(slot_uses(definition.operands[slot], encoding));
    assert(definition.spec_slot_of(encoding) == Some(slot));
    assert(definition.spec_register_in(instruction, encoding) == Some(register));
    lemma_rex_flags(
        definition.spec_rex_w(),
        definition.spec_rex_r(instruction),
        definition.spec_rex_x(instruction),
        definition.spec_rex_b(instruction),
    );
    assert(instruction.operands[slot] is Some);
    if register.spec_is_legacy_high_byte() {
        assert(instruction.operands[slot]->0.spec_names_high_byte());
        assert(instruction.spec_names_high_byte());
    }
    if register.spec_is_uniform_low_byte() {
        assert(instruction.operands[slot]->0.spec_is_uniform_low_byte());
        assert(instruction.spec_has_uniform_low_byte());
    }
}

} // verus!
