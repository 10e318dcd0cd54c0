use crate::error::EncodeError;
use crate::instruction::{MemoryOperand, Register, SIB};
use vstd::prelude::*;
use vstd::string::StringSliceAdditionalSpecFns;
use vstd::utf8::{decode_utf8, encode_utf8_decode_utf8};

verus! {

/// How the operand in `r/m` is laid out in ModRM, SIB and displacement:
/// everything about its encoding but the value of the displacement.
#[derive(Debug, PartialEq, Eq, Clone, Copy, Structural)]
pub struct AddressForm {
    /// The `mod` field of ModRM: 0, 1 or 2 for a memory reference, 3 for a
    /// register.
    pub mode: u8,
    /// The `r/m` field of ModRM.
    pub rm: u8,
    /// The SIB byte, where the reference needs one.
    pub sib: Option<SIB>,
    /// Number of displacement bytes: 0, 1 or 4.
    pub displacement_width: u8,
    /// The index register's number needs its fourth bit, carried by REX.X.
    pub rex_x: bool,
    /// The base register's number needs its fourth bit, carried by REX.B.
    pub rex_b: bool,
}

/// `value` can be written as a signed 8-bit displacement.
pub open spec fn fits_i8(value: int) -> bool {
    -0x80 <= value <= 0x7F
}

/// `value` can be written as a signed 32-bit displacement.
pub open spec fn fits_i32(value: int) -> bool {
    -0x8000_0000 <= value <= 0x7FFF_FFFF
}

/// The `mod` field for a reference through `base` with the given
/// displacement. The shortest form is chosen, except that a base whose low
/// bits are 101 cannot use the form without displacement, which the
/// processor reads as "no base".
pub open spec fn displacement_mode(base: Register, displacement: int) -> u8 {
    if displacement == 0 && base.spec_low_bits() != 5 {
        0
    } else if fits_i8(displacement) {
        1
    } else {
        2
    }
}

/// Number of displacement bytes that follow a ModRM byte with a base
/// register and the given `mod` field.
pub open spec fn mode_displacement_width(mode: u8) -> u8 {
    if mode == 0 {
        0
    } else if mode == 1 {
        1
    } else {
        4
    }
}

/// The `scale` field of SIB for a factor of 1, 2, 4 or 8.
pub open spec fn scale_field(scale: u8) -> Option<u8> {
    if scale == 1 {
        Some(0u8)
    } else if scale == 2 {
        Some(1u8)
    } else if scale == 4 {
        Some(2u8)
    } else if scale == 8 {
        Some(3u8)
    } else {
        None
    }
}

/// The prefix byte that selects a segment, for the two segments that can be
/// selected.
pub open spec fn segment_prefix(segment: Register) -> Option<u8> {
    match segment {
        Register::FS => Some(0x64u8),
        Register::GS => Some(0x65u8),
        _ => None,
    }
}

/// The address bound to `name` by the first entry of `labels` that has that
/// name, looking from position `from` on.
pub open spec fn label_address_from(
    labels: Seq<(Seq<char>, u64)>,
    name: Seq<char>,
    from: int,
) -> Option<u64>
    decreases labels.len() - from,
{
    if from < 0 || from >= labels.len() {
        None
    } else if labels[from].0 == name {
        Some(labels[from].1)
    } else {
        label_address_from(labels, name, from + 1)
    }
}

/// The address bound to `name` by the first entry of `labels` that has that
/// name.
pub open spec fn label_address(labels: Seq<(Seq<char>, u64)>, name: Seq<char>) -> Option<u64> {
    label_address_from(labels, name, 0)
}

/// A label is bound to the address in the first entry that has its name;
/// it is bound to none exactly when no entry has its name.
pub proof fn lemma_label_address_is_first(
    labels: Seq<(Seq<char>, u64)>,
    name: Seq<char>,
    from: int,
)
    requires
        0 <= from,
    ensures
        match label_address_from(labels, name, from) {
            Some(address) => exists|position: int|
                {
                    &&& from <= position < labels.len()
                    &&& #[trigger] labels[position] == (name, address)
                    &&& forall|earlier: int|
                        from <= earlier < position ==> (#[trigger] labels[earlier]).0 != name
                },
            None => forall|position: int|
                from <= position < labels.len() ==> (#[trigger] labels[position]).0 != name,
        },
    decreases labels.len() - from,
{
    if from < labels.len() {
        lemma_label_address_is_first(labels, name, from + 1);
        if labels[from].0 == name {
            assert(labels[from] == (name, labels[from].1));
        } else {
            match label_address_from(labels, name, from + 1) {
                Some(address) => {
                    let position = choose|position: int|
                        {
                            &&& from + 1 <= position < labels.len()
                            &&& #[trigger] labels[position] == (name, address)
                            &&& forall|earlier: int|
                                from + 1 <= earlier < position ==> (
                                #[trigger] labels[earlier]).0 != name
                        };
                    assert(labels[position] == (name, address));
                },
                None => {},
            }
        }
    }
}

impl MemoryOperand {
    /// The segment override, if any, names a segment that can be selected.
    pub open spec fn segment_is_valid(&self) -> bool {
        match self.segment {
            None => true,
            Some(segment) => segment_prefix(segment) is Some,
        }
    }

    /// The layout of the reference.
    ///
    /// A label is addressed relative to the instruction pointer: `mod` 00,
    /// `r/m` 101 and four displacement bytes, and it excludes base and index.
    /// Otherwise base and index are 64-bit general-purpose registers. A base
    /// whose low bits are 100 goes through a SIB byte without index, since
    /// `r/m` 100 announces that byte. An index always goes through a SIB
    /// byte; without a base, the SIB base field is 101 with `mod` 00 and four
    /// displacement bytes. A register whose low bits are 100 cannot be an
    /// index. A reference with neither label, base nor index is not encoded.
    pub open spec fn spec_address_form(&self) -> Result<AddressForm, EncodeError> {
        if !self.segment_is_valid() {
            Err(EncodeError::UnsupportedAddressingMode)
        } else if self.label is Some {
            if self.base is Some || self.index is Some {
                Err(EncodeError::UnsupportedAddressingMode)
            } else {
                Ok(
                    AddressForm {
                        mode: 0,
                        rm: 5,
                        sib: None,
                        displacement_width: 4,
                        rex_x: false,
                        rex_b: false,
                    },
                )
            }
        } else if self.base is Some && !self.base->0.spec_is_address_register() {
            Err(EncodeError::UnsupportedAddressingMode)
        } else if self.index is Some {
            let index = self.index->0;
            if !index.spec_is_address_register() {
                Err(EncodeError::UnsupportedAddressingMode)
            } else if index.spec_low_bits() == 4 {
                Err(EncodeError::InvalidIndexRegister)
            } else if scale_field(self.scale) is None {
                Err(EncodeError::UnsupportedAddressingMode)
            } else if !fits_i32(self.displacement as int) {
                Err(EncodeError::DisplacementOverflow)
            } else if self.base is Some {
                let base = self.base->0;
                let mode = displacement_mode(base, self.displacement as int);
                Ok(
                    AddressForm {
                        mode,
                        rm: 4,
                        sib: Some(
                            SIB {
                                Scale: scale_field(self.scale)->0,
                                Index: index.spec_low_bits(),
                                Base: base.spec_low_bits(),
                            },
                        ),
                        displacement_width: mode_displacement_width(mode),
                        rex_x: index.spec_is_extended(),
                        rex_b: base.spec_is_extended(),
                    },
                )
            } else {
                Ok(
                    AddressForm {
                        mode: 0,
                        rm: 4,
                        sib: Some(
                            SIB {
                                Scale: scale_field(self.scale)->0,
                                Index: index.spec_low_bits(),
                                Base: 5,
                            },
                        ),
                        displacement_width: 4,
                        rex_x: index.spec_is_extended(),
                        rex_b: false,
                    },
                )
            }
        } else if self.base is Some {
            let base = self.base->0;
            if !fits_i32(self.displacement as int) {
                Err(EncodeError::DisplacementOverflow)
            } else {
                let mode = displacement_mode(base, self.displacement as int);
                Ok(
                    AddressForm {
                        mode,
                        rm: base.spec_low_bits(),
                        sib: if base.spec_low_bits() == 4 {
                            Some(SIB { Scale: 0, Index: 4, Base: 4 })
                        } else {
                            None
                        },
                        displacement_width: mode_displacement_width(mode),
                        rex_x: false,
                        rex_b: base.spec_is_extended(),
                    },
                )
            }
        } else {
            Err(EncodeError::UnsupportedAddressingMode)
        }
    }

    /// The value written into the displacement bytes of an instruction that
    /// starts at `current_address` and is `length` bytes long.
    ///
    /// For a label this is the distance from the end of the instruction to
    /// the label's address, moved by the operand's own displacement; it must
    /// fit in 32 signed bits. Otherwise it is the operand's displacement.
    pub open spec fn spec_displacement_value(
        &self,
        current_address: u64,
        length: nat,
        labels: Seq<(Seq<char>, u64)>,
    ) -> Result<i64, EncodeError> {
        match self.label {
            None => Ok(self.displacement),
            Some(name) => match label_address(labels, name@) {
                None => Err(EncodeError::UndefinedLabel),
                Some(target) => {
                    let distance = target + self.displacement - (current_address + length);
                    if fits_i32(distance) {
                        Ok(distance as i64)
                    } else {
                        Err(EncodeError::DisplacementOverflow)
                    }
                },
            },
        }
    }
}

impl Register {
    /// The layout of a register that stands in `r/m`: `mod` 11 and the low
    /// bits of the register's number, with the fourth bit in REX.B.
    pub open spec fn spec_direct_form(self) -> AddressForm {
        AddressForm {
            mode: 3,
            rm: self.spec_low_bits(),
            sib: None,
            displacement_width: 0,
            rex_x: false,
            rex_b: self.spec_is_extended(),
        }
    }

    /// Computes [`Self::spec_direct_form`].
    #[verifier::when_used_as_spec(spec_direct_form)]
    pub fn direct_form(self) -> (form: AddressForm)
        ensures
            form == self.spec_direct_form(),
            form.well_formed(),
    {
        AddressForm {
            mode: 3,
            rm: self.low_bits(),
            sib: None,
            displacement_width: 0,
            rex_x: false,
            rex_b: self.is_extended(),
        }
    }
}

impl AddressForm {
    /// The fields fit the bits that carry them.
    pub open spec fn well_formed(self) -> bool {
        &&& self.mode <= 3
        &&& self.rm <= 7
        &&& (self.sib is Some ==> self.sib->0.well_formed() && self.rm == 4)
        &&& (self.displacement_width == 0 || self.displacement_width == 1
            || self.displacement_width == 4)
    }
}

/// Every layout that a memory reference resolves to is well formed.
pub proof fn lemma_address_form_well_formed(operand: MemoryOperand)
    requires
        operand.spec_address_form() is Ok,
    ensures
        operand.spec_address_form()->Ok_0.well_formed(),
{
}

/// Compares two string slices by their characters. The two are compared
/// byte by byte in their encoding as UTF-8, which is the same for the same
/// characters only.
pub fn same_text(left: &str, right: &str) -> (same: bool)
    ensures
        same == (left@ == right@),
{
    let first = left.as_bytes();
    let second = right.as_bytes();
    proof {
        encode_utf8_decode_utf8(left@);
        encode_utf8_decode_utf8(right@);
    }
    if first.len() != second.len() {
        return false;
    }
    let mut position: usize = 0;
    while position < first.len()
        invariant
            position <= first.len(),
            first.len() == second.len(),
            first@ == left.spec_bytes(),
            second@ == right.spec_bytes(),
            decode_utf8(left.spec_bytes()) == left@,
            decode_utf8(right.spec_bytes()) == right@,
            forall|earlier: int| 0 <= earlier < position ==> first@[earlier] == second@[earlier],
        decreases first.len() - position,
    {
        if first[position] != second[position] {
            return false;
        }
        position = position + 1;
    }
    assert(first@ =~= second@);
    true
}

/// Looks `name` up in the label table. Where several entries have the name,
/// the first one counts.
pub fn find_label(labels: &Vec<(&str, u64)>, name: &str) -> (address: Option<u64>)
    ensures
        address == label_address(labels.deep_view(), name@),
{
    let mut position: usize = 0;
    while position < labels.len()
        invariant
            position <= labels.len(),
            label_address_from(labels.deep_view(), name@, position as int) == label_address(
                labels.deep_view(),
                name@,
            ),
        decreases labels.len() - position,
    {
        assert(labels.deep_view()[position as int].0 == labels@[position as int].0@);
        assert(labels.deep_view()[position as int].1 == labels@[position as int].1);
        if same_text(labels[position].0, name) {
            return Some(labels[position].1);
        }
        position = position + 1;
    }
    None
}

/// Chooses the `mod` field for a reference through `base`.
fn mode_for(base: Register, displacement: i64) -> (mode: u8)
    ensures
        mode == displacement_mode(base, displacement as int),
{
    if displacement == 0 && base.low_bits() != 5 {
        0
    } else if -0x80 <= displacement && displacement <= 0x7F {
        1
    } else {
        2
    }
}

/// Translates a scale factor into the `scale` field of SIB.
fn scale_bits(scale: u8) -> (field: Option<u8>)
    ensures
        field == scale_field(scale),
{
    if scale == 1 {
        Some(0)
    } else if scale == 2 {
        Some(1)
    } else if scale == 4 {
        Some(2)
    } else if scale == 8 {
        Some(3)
    } else {
        None
    }
}

/// The prefix byte for a segment override, for `FS` and `GS`.
pub fn segment_prefix_byte(segment: Register) -> (prefix: Option<u8>)
    ensures
        prefix == segment_prefix(segment),
{
    match segment {
        Register::FS => Some(0x64),
        Register::GS => Some(0x65),
        _ => None,
    }
}

impl MemoryOperand {
    /// Resolves the layout of the reference in ModRM, SIB and displacement.
    pub fn address_form(&self) -> (form: Result<AddressForm, EncodeError>)
        ensures
            form == self.spec_address_form(),
            form is Ok ==> form->Ok_0.well_formed(),
    {
        if let Some(segment) = self.segment {
            if segment_prefix_byte(segment).is_none() {
                return Err(EncodeError::UnsupportedAddressingMode);
            }
        }
        if self.label.is_some() {
            if self.base.is_some() || self.index.is_some() {
                return Err(EncodeError::UnsupportedAddressingMode);
            }
            return Ok(
                AddressForm {
                    mode: 0,
                    rm: 5,
                    sib: None,
                    displacement_width: 4,
                    rex_x: false,
                    rex_b: false,
                },
            );
        }
        if let Some(base) = self.base {
            if !base.is_address_register() {
                return Err(EncodeError::UnsupportedAddressingMode);
            }
        }
        let in_range = -0x8000_0000 <= self.displacement && self.displacement <= 0x7FFF_FFFF;
        match (self.index, self.base) {
            (Some(index), base) => {
                if !index.is_address_register() {
                    return Err(EncodeError::UnsupportedAddressingMode);
                }
                if index.low_bits() == 4 {
                    return Err(EncodeError::InvalidIndexRegister);
                }
                let scale = match scale_bits(self.scale) {
                    Some(field) => field,
                    None => {
                        return Err(EncodeError::UnsupportedAddressingMode);
                    },
                };
                if !in_range {
                    return Err(EncodeError::DisplacementOverflow);
                }
                match base {
                    Some(base) => {
                        let mode = mode_for(base, self.displacement);
                        Ok(
                            AddressForm {
                                mode,
                                rm: 4,
                                sib: Some(
                                    SIB {
                                        Scale: scale,
                                        Index: index.low_bits(),
                                        Base: base.low_bits(),
                                    },
                                ),
                                displacement_width: if mode == 0 {
                                    0
                                } else if mode == 1 {
                                    1
                                } else {
                                    4
                                },
                                rex_x: index.is_extended(),
                                rex_b: base.is_extended(),
                            },
                        )
                    },
                    None => Ok(
                        AddressForm {
                            mode: 0,
                            rm: 4,
                            sib: Some(SIB { Scale: scale, Index: index.low_bits(), Base: 5 }),
                            displacement_width: 4,
                            rex_x: index.is_extended(),
                            rex_b: false,
                        },
                    ),
                }
            },
            (None, Some(base)) => {
                if !in_range {
                    return Err(EncodeError::DisplacementOverflow);
                }
                let mode = mode_for(base, self.displacement);
                let low = base.low_bits();
                Ok(
                    AddressForm {
                        mode,
                        rm: low,
                        sib: if low == 4 {
                            Some(SIB { Scale: 0, Index: 4, Base: 4 })
                        } else {
                            None
                        },
                        displacement_width: if mode == 0 {
                            0
                        } else if mode == 1 {
                            1
                        } else {
                            4
                        },
                        rex_x: false,
                        rex_b: base.is_extended(),
                    },
                )
            },
            (None, None) => Err(EncodeError::UnsupportedAddressingMode),
        }
    }

    /// Computes the value of the displacement for an instruction that starts
    /// at `current_address` and is `length` bytes long.
    pub fn displacement_value(
        &self,
        current_address: u64,
        length: usize,
        labels: &Vec<(&str, u64)>,
    ) -> (value: Result<i64, EncodeError>)
        ensures
            value == self.spec_displacement_value(
                current_address,
                length as nat,
                labels.deep_view(),
            ),
    {
        match &self.label {
            None => Ok(self.displacement),
            Some(name) => match find_label(labels, name.as_str()) {
                None => Err(EncodeError::UndefinedLabel),
                Some(target) => {
                    let end: i128 = current_address as i128 + length as i128;
                    let distance: i128 = target as i128 + self.displacement as i128 - end;
                    if -0x8000_0000 <= distance && distance <= 0x7FFF_FFFF {
                        Ok(distance as i64)
                    } else {
                        Err(EncodeError::DisplacementOverflow)
                    }
                },
            },
        }
    }
}

} // verus!
