//! The kind of primitive a pipeline assembles.

use vstd::prelude::*;

verus! {

#[derive(Debug, Copy, Clone, PartialEq, Eq, Structural)]
pub enum Enum {
    Unknown,
    Point,
    Line,
    Triangle,
    Patch,
    Count,
}

#[derive(Debug, Copy, Clone, PartialEq, Eq, Structural)]
pub enum Mask {
    UnknownMask,
    PointMask,
    LineMask,
    TriangleMask,
    PatchMask,
    CountMask,
}

impl Mask {
    /// The bits that the mask stands for.
    pub open spec fn spec_bits(self) -> u32 {
        match self {
            Mask::UnknownMask => 0x1,
            Mask::PointMask => 0x2,
            Mask::LineMask => 0x4,
            Mask::TriangleMask => 0x8,
            Mask::PatchMask => 0x10,
            Mask::CountMask => 0x20,
        }
    }

    #[verifier::when_used_as_spec(spec_bits)]
    pub fn bits(self) -> (bits: u32)
        ensures
            bits == self.spec_bits(),
    {
        match self {
            Mask::UnknownMask => 0x1,
            Mask::PointMask => 0x2,
            Mask::LineMask => 0x4,
            Mask::TriangleMask => 0x8,
            Mask::PatchMask => 0x10,
            Mask::CountMask => 0x20,
        }
    }
}

/// The name of each value; `Count` is no value and has none.
pub open spec fn value_name(e: Enum) -> Seq<char> {
    match e {
        Enum::Unknown => "Unknown"@,
        Enum::Point => "Point"@,
        Enum::Line => "Line"@,
        Enum::Triangle => "Triangle"@,
        Enum::Patch => "Patch"@,
        Enum::Count => "unsupported"@,
    }
}

pub fn to_string(e: Enum) -> (name: &'static str)
    ensures
        name@ == value_name(e),
{
    match e {
        Enum::Unknown => "Unknown",
        Enum::Point => "Point",
        Enum::Line => "Line",
        Enum::Triangle => "Triangle",
        Enum::Patch => "Patch",
        Enum::Count => "unsupported",
    }
}

} // verus!
