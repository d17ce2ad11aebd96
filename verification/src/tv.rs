//! The two television-standard encodings of the header.
//!
//! The format records the television standard twice: as a whole-byte code
//! and as the low two bits of a packed flag byte. The two encodings are
//! independent and need not agree.

use vstd::prelude::*;

verus! {

/// Television standard as the whole-byte code gives it.
#[derive(Clone, Copy, Debug, PartialEq, Eq, Structural)]
pub enum TvStandardA {
    Ntsc,
    Pal,
    Unknown,
}

/// Television standard as the low two bits of the packed flag byte give it.
#[derive(Clone, Copy, Debug, PartialEq, Eq, Structural)]
pub enum TvStandardB {
    Ntsc,
    Pal,
    DualCompatible,
}

impl TvStandardA {
    /// Code 0 is NTSC, code 1 is PAL, every other code is unknown.
    pub open spec fn spec_from_code(code: u8) -> Self {
        if code == 0 {
            TvStandardA::Ntsc
        } else if code == 1 {
            TvStandardA::Pal
        } else {
            TvStandardA::Unknown
        }
    }

    /// Reads the whole-byte code.
    #[verifier::when_used_as_spec(spec_from_code)]
    pub fn from_code(code: u8) -> (standard: Self)
        ensures
            standard == Self::spec_from_code(code),
    {
        if code == 0 {
            TvStandardA::Ntsc
        } else if code == 1 {
            TvStandardA::Pal
        } else {
            TvStandardA::Unknown
        }
    }

    /// The label of the standard.
    pub open spec fn spec_name(self) -> Seq<char> {
        match self {
            TvStandardA::Ntsc => "NTSC"@,
            TvStandardA::Pal => "PAL"@,
            TvStandardA::Unknown => "(Unknown)"@,
        }
    }

    /// The label of the standard.
    pub fn name(self) -> (label: &'static str)
        ensures
            label@ == self.spec_name(),
    {
        match self {
            TvStandardA::Ntsc => "NTSC",
            TvStandardA::Pal => "PAL",
            TvStandardA::Unknown => "(Unknown)",
        }
    }
}

impl TvStandardB {
    /// Of the low two bits of `flag`, 0 is NTSC, 1 is PAL, 2 and 3 are
    /// dual-compatible. The other bits do not count.
    pub open spec fn spec_from_flag(flag: u8) -> Self {
        if flag & 0b11 == 0 {
            TvStandardB::Ntsc
        } else if flag & 0b11 == 1 {
            TvStandardB::Pal
        } else {
            TvStandardB::DualCompatible
        }
    }

    /// Reads the low two bits of the packed flag byte.
    #[verifier::when_used_as_spec(spec_from_flag)]
    pub fn from_flag(flag: u8) -> (standard: Self)
        ensures
            standard == Self::spec_from_flag(flag),
    {
        let bits: u8 = flag & 0b11;
        if bits == 0 {
            TvStandardB::Ntsc
        } else if bits == 1 {
            TvStandardB::Pal
        } else {
            TvStandardB::DualCompatible
        }
    }

    /// The label of the standard.
    pub open spec fn spec_name(self) -> Seq<char> {
        match self {
            TvStandardB::Ntsc => "NTSC"@,
            TvStandardB::Pal => "PAL"@,
            TvStandardB::DualCompatible => "Dual Compatible"@,
        }
    }

    /// The label of the standard.
    pub fn name(self) -> (label: &'static str)
        ensures
            label@ == self.spec_name(),
    {
        match self {
            TvStandardB::Ntsc => "NTSC",
            TvStandardB::Pal => "PAL",
            TvStandardB::DualCompatible => "Dual Compatible",
        }
    }
}

/// Of the packed flag byte only the low two bits decide the standard, and
/// of their four values exactly 2 and 3 mean dual-compatible.
pub proof fn lemma_two_bit_standard(flag: u8)
    ensures
        flag & 0b11 == flag % 4,
        TvStandardB::spec_from_flag(flag) == TvStandardB::spec_from_flag(flag & 0b11),
        TvStandardB::spec_from_flag(flag) == TvStandardB::Ntsc <==> flag % 4 == 0,
        TvStandardB::spec_from_flag(flag) == TvStandardB::Pal <==> flag % 4 == 1,
        TvStandardB::spec_from_flag(flag) == TvStandardB::DualCompatible <==> (flag % 4 == 2
            || flag % 4 == 3),
{
    assert(flag & 0b11 == flag % 4) by (bit_vector);
    assert((flag & 0b11) & 0b11 == flag & 0b11) by (bit_vector);
}

} // verus!
