//! How often the contents of a resource change.

use vstd::prelude::*;

verus! {

#[derive(Debug, Copy, Clone, PartialEq, Eq, Structural)]
pub enum Enum {
    Immutable,
    Dynamic,
    Stream,
    Count,
}

#[derive(Debug, Copy, Clone, PartialEq, Eq, Structural)]
pub enum Mask {
    ImmutableMask,
    DynamicMask,
    StreamMask,
    CountMask,
}

impl Mask {
    /// The bits that the mask stands for.
    pub open spec fn spec_bits(self) -> u32 {
        match self {
            Mask::ImmutableMask => 0x1,
            Mask::DynamicMask => 0x2,
            Mask::StreamMask => 0x4,
            Mask::CountMask => 0x8,
        }
    }

    #[verifier::when_used_as_spec(spec_bits)]
    pub fn bits(self) -> (bits: u32)
        ensures
            bits == self.spec_bits(),
    {
        match self {
            Mask::ImmutableMask => 0x1,
            Mask::DynamicMask => 0x2,
            Mask::StreamMask => 0x4,
            Mask::CountMask => 0x8,
        }
    }
}

/// The name of each value; `Count` is no value and has none.
pub open spec fn value_name(e: Enum) -> Seq<char> {
    match e {
        Enum::Immutable => "Immutable"@,
        Enum::Dynamic => "Dynamic"@,
        Enum::Stream => "Stream"@,
        Enum::Count => "unsupported"@,
    }
}

pub fn to_string(e: Enum) -> (name: &'static str)
    ensures
        name@ == value_name(e),
{
    match e {
        Enum::Immutable => "Immutable",
        Enum::Dynamic => "Dynamic",
        Enum::Stream => "Stream",
        Enum::Count => "unsupported",
    }
}

} // verus!
