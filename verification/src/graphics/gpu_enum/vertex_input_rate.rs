//! Whether a vertex stream advances per vertex or per instance.

use vstd::prelude::*;

verus! {

#[derive(Debug, Copy, Clone, PartialEq, Eq, Structural)]
pub enum Enum {
    PerVertex,
    PerInstance,
    Count,
}

#[derive(Debug, Copy, Clone, PartialEq, Eq, Structural)]
pub enum Mask {
    PerVertexMask,
    PerInstanceMask,
    CountMask,
}

impl Mask {
    /// The bits that the mask stands for.
    pub open spec fn spec_bits(self) -> u32 {
        match self {
            Mask::PerVertexMask => 0x1,
            Mask::PerInstanceMask => 0x2,
            Mask::CountMask => 0x4,
        }
    }

    #[verifier::when_used_as_spec(spec_bits)]
    pub fn bits(self) -> (bits: u32)
        ensures
            bits == self.spec_bits(),
    {
        match self {
            Mask::PerVertexMask => 0x1,
            Mask::PerInstanceMask => 0x2,
            Mask::CountMask => 0x4,
        }
    }
}

/// The name of each value; `Count` is no value and has none.
pub open spec fn value_name(e: Enum) -> Seq<char> {
    match e {
        Enum::PerVertex => "PerVertex"@,
        Enum::PerInstance => "PerInstance"@,
        Enum::Count => "unsupported"@,
    }
}

pub fn to_string(e: Enum) -> (name: &'static str)
    ensures
        name@ == value_name(e),
{
    match e {
        Enum::PerVertex => "PerVertex",
        Enum::PerInstance => "PerInstance",
        Enum::Count => "unsupported",
    }
}

} // verus!
