//! The width of the indices in an index buffer.

use vstd::prelude::*;

verus! {

#[derive(Debug, Copy, Clone, PartialEq, Eq, Structural)]
pub enum Enum {
    Uint16,
    Uint32,
    Count,
}

#[derive(Debug, Copy, Clone, PartialEq, Eq, Structural)]
pub enum Mask {
    Uint16Mask,
    Uint32Mask,
    CountMask,
}

impl Mask {
    /// The bits that the mask stands for.
    pub open spec fn spec_bits(self) -> u32 {
        match self {
            Mask::Uint16Mask => 0x1,
            Mask::Uint32Mask => 0x2,
            Mask::CountMask => 0x4,
        }
    }

    #[verifier::when_used_as_spec(spec_bits)]
    pub fn bits(self) -> (bits: u32)
        ensures
            bits == self.spec_bits(),
    {
        match self {
            Mask::Uint16Mask => 0x1,
            Mask::Uint32Mask => 0x2,
            Mask::CountMask => 0x4,
        }
    }
}

/// The name of each value; `Count` is no value and has none.
pub open spec fn value_name(e: Enum) -> Seq<char> {
    match e {
        Enum::Uint16 => "Uint16"@,
        Enum::Uint32 => "Uint32"@,
        Enum::Count => "unsupported"@,
    }
}

pub fn to_string(e: Enum) -> (name: &'static str)
    ensures
        name@ == value_name(e),
{
    match e {
        Enum::Uint16 => "Uint16",
        Enum::Uint32 => "Uint32",
        Enum::Count => "unsupported",
    }
}

} // verus!
