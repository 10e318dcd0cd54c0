use crate::instruction::{ModRM, REW, SIB};
use vstd::prelude::*;

verus! {

impl ModRM {
    /// Each field fits in the bits that the byte gives it.
    pub open spec fn well_formed(self) -> bool {
        self.Mode <= 3 && self.Register <= 7 && self.RegOrMemory <= 7
    }

    /// The byte `mode:2 | reg:3 | r/m:3`, most significant field first.
    pub open spec fn spec_pack(self) -> u8 {
        (self.Mode * 64 + self.Register * 8 + self.RegOrMemory) as u8
    }

    /// Computes [`Self::spec_pack`].
    #[verifier::when_used_as_spec(spec_pack)]
    pub fn pack(self) -> (byte: u8)
        requires
            self.well_formed(),
        ensures
            byte == self.spec_pack(),
            byte == self.Mode * 64 + self.Register * 8 + self.RegOrMemory,
    {
        let mode = self.Mode;
        let reg = self.Register;
        let rm = self.RegOrMemory;
        assert((mode << 6u8) | (reg << 3u8) | rm == mode * 64 + reg * 8 + rm) by (bit_vector)
            requires
                mode <= 3,
                reg <= 7,
                rm <= 7,
        ;
        (mode << 6u8) | (reg << 3u8) | rm
    }
}

impl SIB {
    /// Each field fits in the bits that the byte gives it.
    pub open spec fn well_formed(self) -> bool {
        self.Scale <= 3 && self.Index <= 7 && self.Base <= 7
    }

    /// The byte `scale:2 | index:3 | base:3`, most significant field first.
    pub open spec fn spec_pack(self) -> u8 {
        (self.Scale * 64 + self.Index * 8 + self.Base) as u8
    }

    /// Computes [`Self::spec_pack`].
    #[verifier::when_used_as_spec(spec_pack)]
    pub fn pack(self) -> (byte: u8)
        requires
            self.well_formed(),
        ensures
            byte == self.spec_pack(),
            byte == self.Scale * 64 + self.Index * 8 + self.Base,
    {
        let scale = self.Scale;
        let index = self.Index;
        let base = self.Base;
        assert((scale << 6u8) | (index << 3u8) | base == scale * 64 + index * 8 + base)
            by (bit_vector)
            requires
                scale <= 3,
                index <= 7,
                base <= 7,
        ;
        (scale << 6u8) | (index << 3u8) | base
    }
}

impl REW {
    /// The value of the flag within the REX byte.
    pub open spec fn spec_bit(self) -> u8 {
        match self {
            REW::W => 8,
            REW::R => 4,
            REW::X => 2,
            REW::B => 1,
        }
    }

    /// Computes [`Self::spec_bit`].
    #[verifier::when_used_as_spec(spec_bit)]
    pub fn bit(self) -> (value: u8)
        ensures
            value == self.spec_bit(),
    {
        match self {
            REW::W => 8,
            REW::R => 4,
            REW::X => 2,
            REW::B => 1,
        }
    }
}

/// The value that a flag contributes to the REX byte when it is set.
pub open spec fn flag_value(set: bool, flag: REW) -> int {
    if set {
        flag.spec_bit() as int
    } else {
        0
    }
}

/// The REX byte `0100WRXB`.
pub open spec fn spec_rex_byte(w: bool, r: bool, x: bool, b: bool) -> u8 {
    (0x40 + flag_value(w, REW::W) + flag_value(r, REW::R) + flag_value(x, REW::X) + flag_value(
        b,
        REW::B,
    )) as u8
}

/// Computes [`spec_rex_byte`].
#[verifier::when_used_as_spec(spec_rex_byte)]
pub fn rex_byte(w: bool, r: bool, x: bool, b: bool) -> (byte: u8)
    ensures
        byte == spec_rex_byte(w, r, x, b),
        0x40 <= byte <= 0x4F,
{
    let mut byte: u8 = 0x40;
    if w {
        byte = byte + REW::W.bit();
    }
    if r {
        byte = byte + REW::R.bit();
    }
    if x {
        byte = byte + REW::X.bit();
    }
    if b {
        byte = byte + REW::B.bit();
    }
    byte
}

/// Whether `flag` is set in the REX byte `byte`.
pub open spec fn rex_flag(byte: u8, flag: REW) -> bool {
    (byte / flag.spec_bit()) % 2 == 1
}

/// Whether `byte` is a REX byte: its high four bits are `0100`.
pub open spec fn is_rex_byte(byte: u8) -> bool {
    0x40 <= byte <= 0x4F
}

/// Each flag can be read back from the REX byte that was composed of the
/// four.
pub proof fn lemma_rex_flags(w: bool, r: bool, x: bool, b: bool)
    ensures
        is_rex_byte(spec_rex_byte(w, r, x, b)),
        rex_flag(spec_rex_byte(w, r, x, b), REW::W) == w,
        rex_flag(spec_rex_byte(w, r, x, b), REW::R) == r,
        rex_flag(spec_rex_byte(w, r, x, b), REW::X) == x,
        rex_flag(spec_rex_byte(w, r, x, b), REW::B) == b,
{
}

/// The fields of the ModRM byte `byte`.
pub open spec fn modrm_fields(byte: u8) -> ModRM {
    ModRM { Mode: byte / 64, Register: ((byte / 8) % 8) as u8, RegOrMemory: byte % 8 }
}

/// The fields of the SIB byte `byte`.
pub open spec fn sib_fields(byte: u8) -> SIB {
    SIB { Scale: byte / 64, Index: ((byte / 8) % 8) as u8, Base: byte % 8 }
}

/// The fields of a ModRM byte and of a SIB byte are read back from the byte
/// that they were packed into.
pub proof fn lemma_fields_are_read_back(modrm: ModRM, sib: SIB)
    requires
        modrm.well_formed(),
        sib.well_formed(),
    ensures
        modrm_fields(modrm.spec_pack()) == modrm,
        sib_fields(sib.spec_pack()) == sib,
{
    lemma_three_fields(modrm.Mode as int, modrm.Register as int, modrm.RegOrMemory as int);
    lemma_three_fields(sib.Scale as int, sib.Index as int, sib.Base as int);
}

/// Three fields of two, three and three bits are read back from their sum
/// by division.
proof fn lemma_three_fields(high: int, middle: int, low: int)
    requires
        0 <= high <= 3,
        0 <= middle <= 7,
        0 <= low <= 7,
    ensures
        0 <= high * 64 + middle * 8 + low <= 255,
        (high * 64 + middle * 8 + low) / 64 == high,
        ((high * 64 + middle * 8 + low) / 8) % 8 == middle,
        (high * 64 + middle * 8 + low) % 8 == low,
{
    let byte = high * 64 + middle * 8 + low;
    assert(byte == 8 * (high * 8 + middle) + low);
    assert(byte / 8 == high * 8 + middle);
    assert(byte == 64 * high + (middle * 8 + low));
}

/// The `count` low-order bytes of `value`, least significant first.
pub open spec fn le_bytes(value: nat, count: nat) -> Seq<u8>
    decreases count,
{
    if count == 0 {
        Seq::empty()
    } else {
        seq![(value % 256) as u8] + le_bytes(value / 256, (count - 1) as nat)
    }
}

/// The unsigned number whose `count` low-order bytes represent `value` in
/// two's complement.
pub open spec fn twos_complement(value: int, count: nat) -> nat {
    if value >= 0 {
        value as nat
    } else if count == 1 {
        (value + 0x100) as nat
    } else if count == 2 {
        (value + 0x1_0000) as nat
    } else if count == 4 {
        (value + 0x1_0000_0000) as nat
    } else {
        (value + 0x1_0000_0000_0000_0000) as nat
    }
}

/// As many bytes are written as were asked for.
pub proof fn lemma_le_bytes_len(value: nat, count: nat)
    ensures
        le_bytes(value, count).len() == count,
    decreases count,
{
    if count > 0 {
        lemma_le_bytes_len(value / 256, (count - 1) as nat);
    }
}

/// Appends the `count` low-order bytes of `value` to `out`, least significant
/// first.
pub fn push_le_bytes(out: &mut Vec<u8>, value: u64, count: usize)
    ensures
        final(out)@ == old(out)@ + le_bytes(value as nat, count as nat),
{
    let mut rest = value;
    let mut done: usize = 0;
    while done < count
        invariant
            done <= count,
            out@ + le_bytes(rest as nat, (count - done) as nat) == old(out)@ + le_bytes(
                value as nat,
                count as nat,
            ),
        decreases count - done,
    {
        let ghost before = out@;
        out.push((rest % 256) as u8);
        proof {
            let tail = le_bytes((rest / 256) as nat, (count - done - 1) as nat);
            assert(le_bytes(rest as nat, (count - done) as nat) == seq![(rest % 256) as u8]
                + tail);
            assert(out@ + tail =~= before + (seq![(rest % 256) as u8] + tail));
        }
        rest = rest / 256;
        done = done + 1;
    }
    assert(out@ + le_bytes(rest as nat, 0) =~= out@);
}

} // verus!
