//! Whether depth values are written.

use vstd::prelude::*;

verus! {

#[derive(Debug, Copy, Clone, PartialEq, Eq, Structural)]
pub enum Enum {
    Zero,
    All,
    Count,
}

#[derive(Debug, Copy, Clone, PartialEq, Eq, Structural)]
pub enum Mask {
    ZeroMask,
    AllMask,
    CountMask,
}

impl Mask {
    /// The bits that the mask stands for.
    pub open spec fn spec_bits(self) -> u32 {
        match self {
            Mask::ZeroMask => 0x1,
            Mask::AllMask => 0x2,
            Mask::CountMask => 0x4,
        }
    }

    #[verifier::when_used_as_spec(spec_bits)]
    pub fn bits(self) -> (bits: u32)
        ensures
            bits == self.spec_bits(),
    {
        match self {
            Mask::ZeroMask => 0x1,
            Mask::AllMask => 0x2,
            Mask::CountMask => 0x4,
        }
    }
}

/// The name of each value; `Count` is no value and has none.
pub open spec fn value_name(e: Enum) -> Seq<char> {
    match e {
        Enum::Zero => "Zero"@,
        Enum::All => "All"@,
        Enum::Count => "unsupported"@,
    }
}

pub fn to_string(e: Enum) -> (name: &'static str)
    ensures
        name@ == value_name(e),
{
    match e {
        Enum::Zero => "Zero",
        Enum::All => "All",
        Enum::Count => "unsupported",
    }
}

} // verus!
