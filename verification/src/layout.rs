use crate::address::{fits_i32, fits_i8, segment_prefix, segment_prefix_byte, AddressForm};
use crate::error::EncodeError;
use crate::fields::{le_bytes, lemma_le_bytes_len, push_le_bytes, rex_byte, twos_complement};
use crate::instruction::{
    Instruction, InstructionDefinition, ModRM, Operand, OperandEncoding, OperandSize, Register,
    SIB,
};
use crate::operand::operand_immediate_width;
use vstd::prelude::*;

verus! {

/// Everything about the encoding of one instruction that follows from its
/// definition and the shape of its operands: which bytes are present and
/// what all of them are, except for the values of displacement and
/// immediate.
#[derive(Debug, PartialEq, Eq, Clone, Copy, Structural)]
pub struct Layout {
    /// The segment override prefix.
    pub segment: Option<u8>,
    /// Whether the operand-size override prefix `66` is present.
    pub operand_size_override: bool,
    /// The REX byte.
    pub rex: Option<u8>,
    /// Whether the escape byte `0F` precedes the opcode.
    pub escape: bool,
    /// The opcode byte, with the register's low bits added where the opcode
    /// carries a register.
    pub opcode: u8,
    pub secondary_opcode: Option<u8>,
    pub modrm: Option<ModRM>,
    pub sib: Option<SIB>,
    /// Number of displacement bytes: 0, 1 or 4.
    pub displacement_width: u8,
    /// Number of immediate bytes: 0, 1, 2, 4 or 8.
    pub immediate_width: u8,
}

/// The sequence that holds `byte` if there is one.
pub open spec fn optional_byte(byte: Option<u8>) -> Seq<u8> {
    match byte {
        Some(value) => seq![value],
        None => Seq::empty(),
    }
}

/// One if `present`, else zero.
pub open spec fn count_if(present: bool) -> nat {
    if present {
        1
    } else {
        0
    }
}

impl Layout {
    /// The fields of ModRM and SIB fit their bits, and the widths are widths
    /// that the processor knows.
    pub open spec fn well_formed(self) -> bool {
        &&& self.modrm is Some ==> self.modrm->0.well_formed()
        &&& self.sib is Some ==> self.sib->0.well_formed()
        &&& (self.displacement_width == 0 || self.displacement_width == 1
            || self.displacement_width == 4)
        &&& (self.immediate_width == 0 || self.immediate_width == 1 || self.immediate_width == 2
            || self.immediate_width == 4 || self.immediate_width == 8)
    }

    /// The displacement can be written in the bytes that the layout has for
    /// it.
    pub open spec fn holds_displacement(self, displacement: int) -> bool {
        if self.displacement_width == 1 {
            fits_i8(displacement)
        } else if self.displacement_width == 4 {
            fits_i32(displacement)
        } else {
            true
        }
    }

    /// Number of bytes of the encoded instruction.
    pub open spec fn spec_length(self) -> nat {
        count_if(self.segment is Some) + count_if(self.operand_size_override) + count_if(
            self.rex is Some,
        ) + count_if(self.escape) + 1 + count_if(self.secondary_opcode is Some) + count_if(
            self.modrm is Some,
        ) + count_if(self.sib is Some) + self.displacement_width as nat
            + self.immediate_width as nat
    }

    /// The legacy prefixes: segment override, then operand-size override.
    pub open spec fn spec_prefix_bytes(self) -> Seq<u8> {
        optional_byte(self.segment) + optional_byte(
            if self.operand_size_override {
                Some(0x66u8)
            } else {
                None
            },
        )
    }

    /// The opcode bytes: escape byte, opcode, second opcode byte.
    pub open spec fn spec_opcode_bytes(self) -> Seq<u8> {
        optional_byte(
            if self.escape {
                Some(0x0Fu8)
            } else {
                None
            },
        ) + seq![self.opcode] + optional_byte(self.secondary_opcode)
    }

    /// The ModRM byte, then the SIB byte.
    pub open spec fn spec_modrm_bytes(self) -> Seq<u8> {
        optional_byte(
            match self.modrm {
                Some(modrm) => Some(modrm.spec_pack()),
                None => None,
            },
        ) + optional_byte(
            match self.sib {
                Some(sib) => Some(sib.spec_pack()),
                None => None,
            },
        )
    }

    /// The encoded instruction: legacy prefixes, REX, opcode, ModRM, SIB,
    /// then the displacement in two's complement and the immediate, both
    /// least significant byte first.
    pub open spec fn spec_bytes(self, displacement: int, immediate: nat) -> Seq<u8> {
        self.spec_prefix_bytes() + optional_byte(self.rex) + self.spec_opcode_bytes()
            + self.spec_modrm_bytes() + le_bytes(
            twos_complement(displacement, self.displacement_width as nat),
            self.displacement_width as nat,
        ) + le_bytes(immediate, self.immediate_width as nat)
    }

    /// The encoded instruction has the length that the layout announces,
    /// whatever the displacement and the immediate are.
    pub proof fn lemma_length(self, displacement: int, immediate: nat)
        ensures
            self.spec_bytes(displacement, immediate).len() == self.spec_length(),
    {
        lemma_le_bytes_len(
            twos_complement(displacement, self.displacement_width as nat),
            self.displacement_width as nat,
        );
        lemma_le_bytes_len(immediate, self.immediate_width as nat);
    }

    /// Counts the bytes of the encoded instruction.
    pub fn length(&self) -> (length: usize)
        ensures
            length == self.spec_length(),
            length <= 8 + 255 + 255,
    {
        let mut length: usize = 1;
        if self.segment.is_some() {
            length = length + 1;
        }
        if self.operand_size_override {
            length = length + 1;
        }
        if self.rex.is_some() {
            length = length + 1;
        }
        if self.escape {
            length = length + 1;
        }
        if self.secondary_opcode.is_some() {
            length = length + 1;
        }
        if self.modrm.is_some() {
            length = length + 1;
        }
        if self.sib.is_some() {
            length = length + 1;
        }
        length + self.displacement_width as usize + self.immediate_width as usize
    }

    /// Writes the instruction out.
    pub fn emit(&self, displacement: i64, immediate: u64) -> (bytes: Vec<u8>)
        requires
            self.well_formed(),
            self.holds_displacement(displacement as int),
        ensures
            bytes@ == self.spec_bytes(displacement as int, immediate as nat),
            bytes@.len() == self.spec_length(),
    {
        let mut bytes: Vec<u8> = Vec::new();
        self.push_prefix_bytes(&mut bytes);
        push_optional(&mut bytes, self.rex);
        self.push_opcode_bytes(&mut bytes);
        self.push_modrm_bytes(&mut bytes);
        self.push_displacement_bytes(&mut bytes, displacement);
        push_le_bytes(&mut bytes, immediate, self.immediate_width as usize);
        proof {
            assert(Seq::<u8>::empty() + self.spec_prefix_bytes() =~= self.spec_prefix_bytes());
            self.lemma_length(displacement as int, immediate as nat);
        }
        bytes
    }

    /// Appends the legacy prefixes.
    fn push_prefix_bytes(&self, out: &mut Vec<u8>)
        ensures
            final(out)@ == old(out)@ + self.spec_prefix_bytes(),
    {
        push_optional(out, self.segment);
        push_optional(
            out,
            if self.operand_size_override {
                Some(0x66)
            } else {
                None
            },
        );
        assert(out@ =~= old(out)@ + self.spec_prefix_bytes());
    }

    /// Appends the opcode bytes.
    fn push_opcode_bytes(&self, out: &mut Vec<u8>)
        ensures
            final(out)@ == old(out)@ + self.spec_opcode_bytes(),
    {
        push_optional(
            out,
            if self.escape {
                Some(0x0F)
            } else {
                None
            },
        );
        out.push(self.opcode);
        push_optional(out, self.secondary_opcode);
        assert(out@ =~= old(out)@ + self.spec_opcode_bytes());
    }

    /// Appends the ModRM byte and the SIB byte.
    fn push_modrm_bytes(&self, out: &mut Vec<u8>)
        requires
            self.well_formed(),
        ensures
            final(out)@ == old(out)@ + self.spec_modrm_bytes(),
    {
        push_optional(
            out,
            match self.modrm {
                Some(modrm) => Some(modrm.pack()),
                None => None,
            },
        );
        push_optional(
            out,
            match self.sib {
                Some(sib) => Some(sib.pack()),
                None => None,
            },
        );
        assert(out@ =~= old(out)@ + self.spec_modrm_bytes());
    }

    /// Appends the displacement in two's complement.
    fn push_displacement_bytes(&self, out: &mut Vec<u8>, displacement: i64)
        requires
            self.well_formed(),
            self.holds_displacement(displacement as int),
        ensures
            final(out)@ == old(out)@ + le_bytes(
                twos_complement(displacement as int, self.displacement_width as nat),
                self.displacement_width as nat,
            ),
    {
        let unsigned: u64 = if displacement >= 0 {
            displacement as u64
        } else if self.displacement_width == 1 {
            (displacement + 0x100) as u64
        } else if self.displacement_width == 4 {
            (displacement + 0x1_0000_0000) as u64
        } else {
            0
        };
        assert(le_bytes(unsigned as nat, 0) == le_bytes(
            twos_complement(displacement as int, 0),
            0,
        ));
        push_le_bytes(out, unsigned, self.displacement_width as usize);
    }
}

/// Appends `byte`, if there is one, to `out`.
fn push_optional(out: &mut Vec<u8>, byte: Option<u8>)
    ensures
        final(out)@ == old(out)@ + optional_byte(byte),
{
    if let Some(value) = byte {
        out.push(value);
        assert(out@ =~= old(out)@ + optional_byte(byte));
    } else {
        assert(out@ =~= old(out)@ + optional_byte(byte));
    }
}

/// The low three bits of the register's number; zero where there is no
/// register.
pub open spec fn low_bits_of(register: Option<Register>) -> u8 {
    match register {
        Some(register) => register.spec_low_bits(),
        None => 0,
    }
}

/// The layout in ModRM, SIB and displacement of an operand that stands in
/// `r/m`: that of a register, or that of a memory reference where it can be
/// resolved.
pub open spec fn operand_rm_form(operand: Option<Operand>) -> Result<
    Option<AddressForm>,
    EncodeError,
> {
    match operand {
        Some(Operand::Register(register)) => Ok(Some(register.spec_direct_form())),
        Some(Operand::Memory(memory)) => match memory.spec_address_form() {
            Ok(form) => Ok(Some(form)),
            Err(error) => Err(error),
        },
        _ => Ok(None),
    }
}

/// The segment override prefix of an operand, where it is a memory
/// reference with a segment that can be selected.
pub open spec fn operand_segment_override(operand: Option<Operand>) -> Option<u8> {
    match operand {
        Some(Operand::Memory(memory)) => match memory.segment {
            Some(segment) => segment_prefix(segment),
            None => None,
        },
        _ => None,
    }
}

impl InstructionDefinition {
    /// The operand width of the form: the size of its first operand. A
    /// width of a word calls for the operand-size override, a width of a
    /// quadword for REX.W.
    pub open spec fn spec_operand_width(&self) -> OperandSize {
        match self.operands[0] {
            Some(first) => first.size,
            None => OperandSize::Unsized,
        }
    }

    /// The layout in ModRM, SIB and displacement of the operand that stands
    /// in `r/m`, if the form has one.
    pub open spec fn spec_rm_form(&self, instruction: Instruction) -> Result<
        Option<AddressForm>,
        EncodeError,
    > {
        operand_rm_form(self.spec_operand_in(instruction, OperandEncoding::ModRmRm))
    }

    /// The segment override prefix of the memory reference in `r/m`.
    pub open spec fn spec_segment_override(&self, instruction: Instruction) -> Option<u8> {
        operand_segment_override(self.spec_operand_in(instruction, OperandEncoding::ModRmRm))
    }

    /// REX.W: the operand width is a quadword.
    pub open spec fn spec_rex_w(&self) -> bool {
        self.spec_operand_width() == OperandSize::Qword
    }

    /// REX.R: the register in the `reg` field of ModRM is an extended one.
    pub open spec fn spec_rex_r(&self, instruction: Instruction) -> bool {
        self.spec_register_in(instruction, OperandEncoding::ModRmReg) matches Some(register)
            && register.spec_is_extended()
    }

    /// REX.X: the index register of the memory reference is an extended one.
    pub open spec fn spec_rex_x(&self, instruction: Instruction) -> bool {
        self.spec_rm_form(instruction) matches Ok(Some(form)) && form.rex_x
    }

    /// REX.B: the register in `r/m`, the base register of the memory
    /// reference, or the register in the opcode is an extended one.
    pub open spec fn spec_rex_b(&self, instruction: Instruction) -> bool {
        ||| self.spec_rm_form(instruction) matches Ok(Some(form)) && form.rex_b
        ||| self.spec_register_in(instruction, OperandEncoding::Opcode) matches Some(register)
            && register.spec_is_extended()
    }

    /// The REX byte of the instruction, if it has one: whenever one of its
    /// four flags is set, and whenever an operand is one of the low-byte
    /// registers that only a REX byte selects.
    pub open spec fn spec_rex(&self, instruction: Instruction) -> Option<u8> {
        let w = self.spec_rex_w();
        let r = self.spec_rex_r(instruction);
        let x = self.spec_rex_x(instruction);
        let b = self.spec_rex_b(instruction);
        if w || r || x || b || instruction.spec_has_uniform_low_byte() {
            Some(rex_byte(w, r, x, b))
        } else {
            None
        }
    }

    /// The layout of `instruction` when encoded with this form.
    ///
    /// There is none where the form does not match, where the memory
    /// reference cannot be resolved, or where the instruction names a legacy
    /// high-byte register and needs a REX byte; the three are looked at in
    /// this order.
    ///
    /// The segment override comes from the memory reference and the
    /// operand-size override from an operand width of a word. The opcode is
    /// the primary opcode of the form, with the low bits of the register
    /// that the opcode carries added to it. A ModRM byte is present where an
    /// operand stands in `r/m`; its `reg` field holds the low bits of the
    /// register in `reg`, or zero where the form has none.
    pub open spec fn spec_layout(&self, instruction: Instruction) -> Result<Layout, EncodeError> {
        if !self.spec_matches(instruction) {
            Err(EncodeError::NoMatchingEncodingForm)
        } else {
            match self.spec_rm_form(instruction) {
                Err(error) => Err(error),
                Ok(rm) => if self.spec_rex(instruction) is Some
                    && instruction.spec_names_high_byte() {
                    Err(EncodeError::RexHighByteConflict)
                } else {
                    Ok(
                        Layout {
                            segment: self.spec_segment_override(instruction),
                            operand_size_override: self.spec_operand_width()
                                == OperandSize::Word,
                            rex: self.spec_rex(instruction),
                            escape: self.two_bytes,
                            opcode: (self.primary_opcode + low_bits_of(
                                self.spec_register_in(instruction, OperandEncoding::Opcode),
                            )) as u8,
                            secondary_opcode: self.secondary_opcode,
                            modrm: match rm {
                                Some(form) => Some(
                                    ModRM {
                                        Mode: form.mode,
                                        Register: low_bits_of(
                                            self.spec_register_in(
                                                instruction,
                                                OperandEncoding::ModRmReg,
                                            ),
                                        ),
                                        RegOrMemory: form.rm,
                                    },
                                ),
                                None => None,
                            },
                            sib: match rm {
                                Some(form) => form.sib,
                                None => None,
                            },
                            displacement_width: match rm {
                                Some(form) => form.displacement_width,
                                None => 0,
                            },
                            immediate_width: operand_immediate_width(
                                self.spec_operand_in(instruction, OperandEncoding::Immediate),
                            ),
                        },
                    )
                },
            }
        }
    }

    /// The operand of `instruction` in the first slot that the field
    /// `encoding` carries.
    pub fn operand_in<'a>(&self, instruction: &'a Instruction, encoding: OperandEncoding) -> (found:
        Option<&'a Operand>)
        ensures
            match found {
                Some(operand) => self.spec_operand_in(*instruction, encoding) == Some(*operand),
                None => self.spec_operand_in(*instruction, encoding) is None,
            },
    {
        match self.slot_of(encoding) {
            Some(slot) => match &instruction.operands[slot] {
                Some(operand) => Some(operand),
                None => None,
            },
            None => None,
        }
    }

    /// The register operand of `instruction` in the first slot that the
    /// field `encoding` carries.
    pub fn register_in(&self, instruction: &Instruction, encoding: OperandEncoding) -> (found:
        Option<Register>)
        ensures
            found == self.spec_register_in(*instruction, encoding),
    {
        match self.operand_in(instruction, encoding) {
            Some(Operand::Register(register)) => Some(*register),
            _ => None,
        }
    }

    /// Resolves the layout in ModRM, SIB and displacement of the operand that
    /// stands in `r/m`, if the form has one.
    pub fn rm_form(&self, instruction: &Instruction) -> (form: Result<
        Option<AddressForm>,
        EncodeError,
    >)
        ensures
            form == self.spec_rm_form(*instruction),
            form matches Ok(Some(resolved)) ==> resolved.well_formed(),
    {
        match self.operand_in(instruction, OperandEncoding::ModRmRm) {
            Some(Operand::Register(register)) => Ok(Some(register.direct_form())),
            Some(Operand::Memory(memory)) => match memory.address_form() {
                Ok(form) => Ok(Some(form)),
                Err(error) => Err(error),
            },
            _ => Ok(None),
        }
    }

    /// Finds the segment override prefix of the memory reference in `r/m`.
    pub fn segment_override(&self, instruction: &Instruction) -> (prefix: Option<u8>)
        ensures
            prefix == self.spec_segment_override(*instruction),
    {
        match self.operand_in(instruction, OperandEncoding::ModRmRm) {
            Some(Operand::Memory(memory)) => match memory.segment {
                Some(segment) => segment_prefix_byte(segment),
                None => None,
            },
            _ => None,
        }
    }

    /// Composes the REX byte of the instruction, if it has one, given the
    /// layout of the operand in `r/m`.
    fn rex_with(&self, instruction: &Instruction, rm: Option<AddressForm>) -> (rex: Option<u8>)
        requires
            self.spec_rm_form(*instruction) == Ok::<Option<AddressForm>, EncodeError>(rm),
        ensures
            rex == self.spec_rex(*instruction),
    {
        let w = match self.operands[0] {
            Some(first) => first.size == OperandSize::Qword,
            None => false,
        };
        let r = match self.register_in(instruction, OperandEncoding::ModRmReg) {
            Some(register) => register.is_extended(),
            None => false,
        };
        let x = match rm {
            Some(form) => form.rex_x,
            None => false,
        };
        let in_opcode = match self.register_in(instruction, OperandEncoding::Opcode) {
            Some(register) => register.is_extended(),
            None => false,
        };
        let b = match rm {
            Some(form) => form.rex_b || in_opcode,
            None => in_opcode,
        };
        if w || r || x || b || instruction.has_uniform_low_byte() {
            Some(rex_byte(w, r, x, b))
        } else {
            None
        }
    }

    /// Lays `instruction` out for encoding with this form.
    pub fn layout(&self, instruction: &Instruction) -> (layout: Result<Layout, EncodeError>)
        ensures
            layout == self.spec_layout(*instruction),
            layout is Ok ==> layout->Ok_0.well_formed(),
    {
        if !self.matches(instruction) {
            return Err(EncodeError::NoMatchingEncodingForm);
        }
        let rm = self.rm_form(instruction)?;
        let rex = self.rex_with(instruction, rm);
        if rex.is_some() && instruction.names_high_byte() {
            return Err(EncodeError::RexHighByteConflict);
        }
        let width = match self.operands[0] {
            Some(first) => first.size,
            None => OperandSize::Unsized,
        };
        let in_opcode = self.register_in(instruction, OperandEncoding::Opcode);
        let low = match in_opcode {
            Some(register) => register.low_bits(),
            None => 0,
        };
        let reg = match self.register_in(instruction, OperandEncoding::ModRmReg) {
            Some(register) => register.low_bits(),
            None => 0,
        };
        let immediate_width = match self.operand_in(instruction, OperandEncoding::Immediate) {
            Some(operand) => operand.immediate_width(),
            None => 0,
        };
        assert(in_opcode is Some ==> self.primary_opcode % 8 == 0);
        let (modrm, sib, displacement_width) = match rm {
            Some(form) => (
                Some(ModRM { Mode: form.mode, Register: reg, RegOrMemory: form.rm }),
                form.sib,
                form.displacement_width,
            ),
            None => (None, None, 0),
        };
        Ok(
            Layout {
                segment: self.segment_override(instruction),
                operand_size_override: width == OperandSize::Word,
                rex,
                escape: self.two_bytes,
                opcode: self.primary_opcode + low,
                secondary_opcode: self.secondary_opcode,
                modrm,
                sib,
                displacement_width,
                immediate_width,
            },
        )
    }
}

} // verus!
