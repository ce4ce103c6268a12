//! The dimensionality of a texture.

use vstd::prelude::*;

verus! {

#[derive(Debug, Copy, Clone, PartialEq, Eq, Structural)]
pub enum Enum {
    Texture1D,
    Texture2D,
    Texture3D,
    Texture1DArray,
    Texture2DArray,
    TextureCubeArray,
    Count,
}

#[derive(Debug, Copy, Clone, PartialEq, Eq, Structural)]
pub enum Mask {
    Texture1DMask,
    Texture2DMask,
    Texture3DMask,
    Texture1DArrayMask,
    Texture2DArrayMask,
    TextureCubeArrayMask,
    CountMask,
}

impl Mask {
    /// The bits that the mask stands for.
    pub open spec fn spec_bits(self) -> u32 {
        match self {
            Mask::Texture1DMask => 0x1,
            Mask::Texture2DMask => 0x2,
            Mask::Texture3DMask => 0x4,
            Mask::Texture1DArrayMask => 0x8,
            Mask::Texture2DArrayMask => 0x10,
            Mask::TextureCubeArrayMask => 0x20,
            Mask::CountMask => 0x40,
        }
    }

    #[verifier::when_used_as_spec(spec_bits)]
    pub fn bits(self) -> (bits: u32)
        ensures
            bits == self.spec_bits(),
    {
        match self {
            Mask::Texture1DMask => 0x1,
            Mask::Texture2DMask => 0x2,
            Mask::Texture3DMask => 0x4,
            Mask::Texture1DArrayMask => 0x8,
            Mask::Texture2DArrayMask => 0x10,
            Mask::TextureCubeArrayMask => 0x20,
            Mask::CountMask => 0x40,
        }
    }
}

/// The name of each value; `Count` is no value and has none.
pub open spec fn value_name(e: Enum) -> Seq<char> {
    match e {
        Enum::Texture1D => "Texture1D"@,
        Enum::Texture2D => "Texture2D"@,
        Enum::Texture3D => "Texture3D"@,
        Enum::Texture1DArray => "Texture1DArray"@,
        Enum::Texture2DArray => "Texture2DArray"@,
        Enum::TextureCubeArray => "TextureCubeArray"@,
        Enum::Count => "unsupported"@,
    }
}

pub fn to_string(e: Enum) -> (name: &'static str)
    ensures
        name@ == value_name(e),
{
    match e {
        Enum::Texture1D => "Texture1D",
        Enum::Texture2D => "Texture2D",
        Enum::Texture3D => "Texture3D",
        Enum::Texture1DArray => "Texture1DArray",
        Enum::Texture2DArray => "Texture2DArray",
        Enum::TextureCubeArray => "TextureCubeArray",
        Enum::Count => "unsupported",
    }
}

} // verus!
