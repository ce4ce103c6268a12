//! What a stencil test does to the stencil value.

use vstd::prelude::*;

verus! {

#[derive(Debug, Copy, Clone, PartialEq, Eq, Structural)]
pub enum Enum {
    Keep,
    Zero,
    Replace,
    IncrSat,
    DecrSat,
    Invert,
    Incr,
    Decr,
    Count,
}

#[derive(Debug, Copy, Clone, PartialEq, Eq, Structural)]
pub enum Mask {
    KeepMask,
    ZeroMask,
    ReplaceMask,
    IncrSatMask,
    DecrSatMask,
    InvertMask,
    IncrMask,
    DecrMask,
    CountMask,
}

impl Mask {
    /// The bits that the mask stands for.
    pub open spec fn spec_bits(self) -> u32 {
        match self {
            Mask::KeepMask => 0x1,
            Mask::ZeroMask => 0x2,
            Mask::ReplaceMask => 0x4,
            Mask::IncrSatMask => 0x8,
            Mask::DecrSatMask => 0x10,
            Mask::InvertMask => 0x20,
            Mask::IncrMask => 0x40,
            Mask::DecrMask => 0x80,
            Mask::CountMask => 0x100,
        }
    }

    #[verifier::when_used_as_spec(spec_bits)]
    pub fn bits(self) -> (bits: u32)
        ensures
            bits == self.spec_bits(),
    {
        match self {
            Mask::KeepMask => 0x1,
            Mask::ZeroMask => 0x2,
            Mask::ReplaceMask => 0x4,
            Mask::IncrSatMask => 0x8,
            Mask::DecrSatMask => 0x10,
            Mask::InvertMask => 0x20,
            Mask::IncrMask => 0x40,
            Mask::DecrMask => 0x80,
            Mask::CountMask => 0x100,
        }
    }
}

/// The name of each value; `Count` is no value and has none.
pub open spec fn value_name(e: Enum) -> Seq<char> {
    match e {
        Enum::Keep => "Keep"@,
        Enum::Zero => "Zero"@,
        Enum::Replace => "Replace"@,
        Enum::IncrSat => "IncrSat"@,
        Enum::DecrSat => "DecrSat"@,
        Enum::Invert => "Invert"@,
        Enum::Incr => "Incr"@,
        Enum::Decr => "Decr"@,
        Enum::Count => "unsupported"@,
    }
}

pub fn to_string(e: Enum) -> (name: &'static str)
    ensures
        name@ == value_name(e),
{
    match e {
        Enum::Keep => "Keep",
        Enum::Zero => "Zero",
        Enum::Replace => "Replace",
        Enum::IncrSat => "IncrSat",
        Enum::DecrSat => "DecrSat",
        Enum::Invert => "Invert",
        Enum::Incr => "Incr",
        Enum::Decr => "Decr",
        Enum::Count => "unsupported",
    }
}

} // verus!
