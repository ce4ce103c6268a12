//! Whether clockwise faces count as front faces.

use vstd::prelude::*;

verus! {

#[derive(Debug, Copy, Clone, PartialEq, Eq, Structural)]
pub enum Enum {
    True,
    False,
    Count,
}

#[derive(Debug, Copy, Clone, PartialEq, Eq, Structural)]
pub enum Mask {
    TrueMask,
    FalseMask,
    CountMask,
}

impl Mask {
    /// The bits that the mask stands for.
    pub open spec fn spec_bits(self) -> u32 {
        match self {
            Mask::TrueMask => 0x1,
            Mask::FalseMask => 0x2,
            Mask::CountMask => 0x4,
        }
    }

    #[verifier::when_used_as_spec(spec_bits)]
    pub fn bits(self) -> (bits: u32)
        ensures
            bits == self.spec_bits(),
    {
        match self {
            Mask::TrueMask => 0x1,
            Mask::FalseMask => 0x2,
            Mask::CountMask => 0x4,
        }
    }
}

/// The name of each value; `Count` is no value and has none.
pub open spec fn value_name(e: Enum) -> Seq<char> {
    match e {
        Enum::True => "True"@,
        Enum::False => "False"@,
        Enum::Count => "unsupported"@,
    }
}

pub fn to_string(e: Enum) -> (name: &'static str)
    ensures
        name@ == value_name(e),
{
    match e {
        Enum::True => "True",
        Enum::False => "False",
        Enum::Count => "unsupported",
    }
}

} // verus!
