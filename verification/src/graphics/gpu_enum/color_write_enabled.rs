//! Which colour channels a blend state writes.

use vstd::prelude::*;

verus! {

#[derive(Debug, Copy, Clone, PartialEq, Eq, Structural)]
pub enum Enum {
    Red,
    Green,
    Blue,
    Alpha,
    All,
    Count,
}

#[derive(Debug, Copy, Clone, PartialEq, Eq, Structural)]
pub enum Mask {
    RedMask,
    GreenMask,
    BlueMask,
    AlphaMask,
    AllMask,
}

impl Mask {
    /// The bits that the mask stands for.
    pub open spec fn spec_bits(self) -> u32 {
        match self {
            Mask::RedMask => 0x1,
            Mask::GreenMask => 0x2,
            Mask::BlueMask => 0x4,
            Mask::AlphaMask => 0x8,
            Mask::AllMask => 0xf,
        }
    }

    #[verifier::when_used_as_spec(spec_bits)]
    pub fn bits(self) -> (bits: u32)
        ensures
            bits == self.spec_bits(),
    {
        match self {
            Mask::RedMask => 0x1,
            Mask::GreenMask => 0x2,
            Mask::BlueMask => 0x4,
            Mask::AlphaMask => 0x8,
            Mask::AllMask => 0xf,
        }
    }
}

/// The name of each value; `Count` is no value and has none.
pub open spec fn value_name(e: Enum) -> Seq<char> {
    match e {
        Enum::Red => "Red"@,
        Enum::Green => "Green"@,
        Enum::Blue => "Blue"@,
        Enum::Alpha => "Alpha"@,
        Enum::All => "All"@,
        Enum::Count => "unsupported"@,
    }
}

pub fn to_string(e: Enum) -> (name: &'static str)
    ensures
        name@ == value_name(e),
{
    match e {
        Enum::Red => "Red",
        Enum::Green => "Green",
        Enum::Blue => "Blue",
        Enum::Alpha => "Alpha",
        Enum::All => "All",
        Enum::Count => "unsupported",
    }
}

} // verus!
