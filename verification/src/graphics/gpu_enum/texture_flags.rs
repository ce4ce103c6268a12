//! What a texture can be bound as.

use vstd::prelude::*;

verus! {

#[derive(Debug, Copy, Clone, PartialEq, Eq, Structural)]
pub enum Enum {
    Default,
    RenderTarget,
    Compute,
    Count,
}

#[derive(Debug, Copy, Clone, PartialEq, Eq, Structural)]
pub enum Mask {
    DefaultMask,
    RenderTargetMask,
    ComputeMask,
}

impl Mask {
    /// The bits that the mask stands for.
    pub open spec fn spec_bits(self) -> u32 {
        match self {
            Mask::DefaultMask => 0x1,
            Mask::RenderTargetMask => 0x2,
            Mask::ComputeMask => 0x4,
        }
    }

    #[verifier::when_used_as_spec(spec_bits)]
    pub fn bits(self) -> (bits: u32)
        ensures
            bits == self.spec_bits(),
    {
        match self {
            Mask::DefaultMask => 0x1,
            Mask::RenderTargetMask => 0x2,
            Mask::ComputeMask => 0x4,
        }
    }
}

/// The name of each value; `Count` is no value and has none.
pub open spec fn value_name(e: Enum) -> Seq<char> {
    match e {
        Enum::Default => "Default"@,
        Enum::RenderTarget => "RenderTarget"@,
        Enum::Compute => "Compute"@,
        Enum::Count => "unsupported"@,
    }
}

pub fn to_string(e: Enum) -> (name: &'static str)
    ensures
        name@ == value_name(e),
{
    match e {
        Enum::Default => "Default",
        Enum::RenderTarget => "RenderTarget",
        Enum::Compute => "Compute",
        Enum::Count => "unsupported",
    }
}

} // verus!
