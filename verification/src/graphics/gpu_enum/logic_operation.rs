//! The logical operation of the output merger.

use vstd::prelude::*;

verus! {

#[derive(Debug, Copy, Clone, PartialEq, Eq, Structural)]
pub enum Enum {
    Clear,
    SetAll,
    Copy,
    CopyInverted,
    Noop,
    Invert,
    And,
    Nand,
    Or,
    Nor,
    Xor,
    Equiv,
    AndReverse,
    AndInverted,
    OrReverse,
    OrInverted,
    Count,
}

#[derive(Debug, Copy, Clone, PartialEq, Eq, Structural)]
pub enum Mask {
    ClearMask,
    SetMask,
    CopyMask,
    CopyInvertedMask,
    NoopMask,
    InvertMask,
    AndMask,
    NandMask,
    OrMask,
    NorMask,
    XorMask,
    EquivMask,
    AndReverseMask,
    AndInvertedMask,
    OrReverseMask,
    OrInvertedMask,
    CountMask,
}

impl Mask {
    /// The bits that the mask stands for.
    pub open spec fn spec_bits(self) -> u32 {
        match self {
            Mask::ClearMask => 0x1,
            Mask::SetMask => 0x2,
            Mask::CopyMask => 0x4,
            Mask::CopyInvertedMask => 0x8,
            Mask::NoopMask => 0x10,
            Mask::InvertMask => 0x20,
            Mask::AndMask => 0x40,
            Mask::NandMask => 0x80,
            Mask::OrMask => 0x100,
            Mask::NorMask => 0x200,
            Mask::XorMask => 0x400,
            Mask::EquivMask => 0x800,
            Mask::AndReverseMask => 0x1000,
            Mask::AndInvertedMask => 0x2000,
            Mask::OrReverseMask => 0x4000,
            Mask::OrInvertedMask => 0x8000,
            Mask::CountMask => 0x10000,
        }
    }

    #[verifier::when_used_as_spec(spec_bits)]
    pub fn bits(self) -> (bits: u32)
        ensures
            bits == self.spec_bits(),
    {
        match self {
            Mask::ClearMask => 0x1,
            Mask::SetMask => 0x2,
            Mask::CopyMask => 0x4,
            Mask::CopyInvertedMask => 0x8,
            Mask::NoopMask => 0x10,
            Mask::InvertMask => 0x20,
            Mask::AndMask => 0x40,
            Mask::NandMask => 0x80,
            Mask::OrMask => 0x100,
            Mask::NorMask => 0x200,
            Mask::XorMask => 0x400,
            Mask::EquivMask => 0x800,
            Mask::AndReverseMask => 0x1000,
            Mask::AndInvertedMask => 0x2000,
            Mask::OrReverseMask => 0x4000,
            Mask::OrInvertedMask => 0x8000,
            Mask::CountMask => 0x10000,
        }
    }
}

/// The name of each value; `Count` is no value and has none.
pub open spec fn value_name(e: Enum) -> Seq<char> {
    match e {
        Enum::Clear => "Clear"@,
        Enum::SetAll => "Set"@,
        Enum::Copy => "Copy"@,
        Enum::CopyInverted => "CopyInverted"@,
        Enum::Noop => "Noop"@,
        Enum::Invert => "Invert"@,
        Enum::And => "And"@,
        Enum::Nand => "Nand"@,
        Enum::Or => "Or"@,
        Enum::Nor => "Nor"@,
        Enum::Xor => "Xor"@,
        Enum::Equiv => "Equiv"@,
        Enum::AndReverse => "AndReverse"@,
        Enum::AndInverted => "AndInverted"@,
        Enum::OrReverse => "OrReverse"@,
        Enum::OrInverted => "OrInverted"@,
        Enum::Count => "unsupported"@,
    }
}

pub fn to_string(e: Enum) -> (name: &'static str)
    ensures
        name@ == value_name(e),
{
    match e {
        Enum::Clear => "Clear",
        Enum::SetAll => "Set",
        Enum::Copy => "Copy",
        Enum::CopyInverted => "CopyInverted",
        Enum::Noop => "Noop",
        Enum::Invert => "Invert",
        Enum::And => "And",
        Enum::Nand => "Nand",
        Enum::Or => "Or",
        Enum::Nor => "Nor",
        Enum::Xor => "Xor",
        Enum::Equiv => "Equiv",
        Enum::AndReverse => "AndReverse",
        Enum::AndInverted => "AndInverted",
        Enum::OrReverse => "OrReverse",
        Enum::OrInverted => "OrInverted",
        Enum::Count => "unsupported",
    }
}

} // verus!
