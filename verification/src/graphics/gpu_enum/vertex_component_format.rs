//! The layout of one vertex attribute.

use vstd::prelude::*;

verus! {

#[derive(Debug, Copy, Clone, PartialEq, Eq, Structural)]
pub enum Enum {
    Float,
    Float2,
    Float3,
    Float4,
    Mat4,
    Byte,
    Byte4N,
    UByte,
    UByte4N,
    Short2,
    Short2N,
    Short4,
    Short4N,
    Uint,
    Uint2,
    Uint4,
    Count,
}

/// The name of each value; `Count` is no value and has none.
pub open spec fn value_name(e: Enum) -> Seq<char> {
    match e {
        Enum::Float => "Float"@,
        Enum::Float2 => "Float2"@,
        Enum::Float3 => "Float3"@,
        Enum::Float4 => "Float4"@,
        Enum::Mat4 => "Mat4"@,
        Enum::Byte => "Byte"@,
        Enum::Byte4N => "Byte4N"@,
        Enum::UByte => "UByte"@,
        Enum::UByte4N => "UByte4N"@,
        Enum::Short2 => "Short2"@,
        Enum::Short2N => "Short2N"@,
        Enum::Short4 => "Short4"@,
        Enum::Short4N => "Short4N"@,
        Enum::Uint => "Uint"@,
        Enum::Uint2 => "Uint2"@,
        Enum::Uint4 => "Uint4"@,
        Enum::Count => "unsupported"@,
    }
}

pub fn to_string(e: Enum) -> (name: &'static str)
    ensures
        name@ == value_name(e),
{
    match e {
        Enum::Float => "Float",
        Enum::Float2 => "Float2",
        Enum::Float3 => "Float3",
        Enum::Float4 => "Float4",
        Enum::Mat4 => "Mat4",
        Enum::Byte => "Byte",
        Enum::Byte4N => "Byte4N",
        Enum::UByte => "UByte",
        Enum::UByte4N => "UByte4N",
        Enum::Short2 => "Short2",
        Enum::Short2N => "Short2N",
        Enum::Short4 => "Short4",
        Enum::Short4N => "Short4N",
        Enum::Uint => "Uint",
        Enum::Uint2 => "Uint2",
        Enum::Uint4 => "Uint4",
        Enum::Count => "unsupported",
    }
}

} // verus!
