//! What a texture format stores: depth, stencil, or both.

use super::super::vk;
use vstd::prelude::*;

verus! {

/// Whether `value` is one of the three formats that hold depth and stencil
/// together.
pub open spec fn spec_is_depth_stencil(value: vk::Format) -> bool {
    value == vk::FORMAT_D16_UNORM_S8_UINT || value == vk::FORMAT_D24_UNORM_S8_UINT || value
        == vk::FORMAT_D32_SFLOAT_S8_UINT
}

/// Whether `value` lies from `FORMAT_D16_UNORM` up to, but not including,
/// `FORMAT_S8_UINT`, or among the formats that hold depth and stencil.
pub open spec fn spec_has_depth(value: vk::Format) -> bool {
    (vk::FORMAT_D16_UNORM <= value < vk::FORMAT_S8_UINT) || (vk::FORMAT_D16_UNORM_S8_UINT <= value
        <= vk::FORMAT_D32_SFLOAT_S8_UINT)
}

/// Whether `value` lies from `FORMAT_S8_UINT` up to `FORMAT_D32_SFLOAT_S8_UINT`.
pub open spec fn spec_has_stencil(value: vk::Format) -> bool {
    vk::FORMAT_S8_UINT <= value <= vk::FORMAT_D32_SFLOAT_S8_UINT
}

/// Whether the format holds depth and stencil together.
#[inline]
#[verifier::when_used_as_spec(spec_is_depth_stencil)]
pub fn is_depth_stencil(value: vk::Format) -> (b: bool)
    ensures
        b == spec_is_depth_stencil(value),
{
    value == vk::FORMAT_D16_UNORM_S8_UINT || value == vk::FORMAT_D24_UNORM_S8_UINT || value
        == vk::FORMAT_D32_SFLOAT_S8_UINT
}

/// Whether the format lies from `FORMAT_D16_UNORM` up to, but not including,
/// `FORMAT_D32_SFLOAT`.
#[inline]
pub fn is_depth_only(value: vk::Format) -> (b: bool)
    ensures
        b == (vk::FORMAT_D16_UNORM <= value < vk::FORMAT_D32_SFLOAT),
{
    vk::FORMAT_D16_UNORM <= value && value < vk::FORMAT_D32_SFLOAT
}

#[inline]
pub fn is_stencil_only(value: vk::Format) -> (b: bool)
    ensures
        b == (value == vk::FORMAT_S8_UINT),
{
    value == vk::FORMAT_S8_UINT
}

/// Whether the format holds depth, alone or beside stencil.
#[inline]
#[verifier::when_used_as_spec(spec_has_depth)]
pub fn has_depth(value: vk::Format) -> (b: bool)
    ensures
        b == spec_has_depth(value),
{
    (vk::FORMAT_D16_UNORM <= value && value < vk::FORMAT_S8_UINT) || (vk::FORMAT_D16_UNORM_S8_UINT
        <= value && value <= vk::FORMAT_D32_SFLOAT_S8_UINT)
}

/// Whether the format holds stencil, alone or beside depth.
#[inline]
#[verifier::when_used_as_spec(spec_has_stencil)]
pub fn has_stencil(value: vk::Format) -> (b: bool)
    ensures
        b == spec_has_stencil(value),
{
    vk::FORMAT_S8_UINT <= value && value <= vk::FORMAT_D32_SFLOAT_S8_UINT
}

/// Whether the format holds depth or stencil.
#[inline]
pub fn has_depth_or_stencil(value: vk::Format) -> (b: bool)
    ensures
        b == (vk::FORMAT_D16_UNORM <= value <= vk::FORMAT_D32_SFLOAT_S8_UINT),
        b == (has_depth(value) || has_stencil(value)),
{
    vk::FORMAT_D16_UNORM <= value && value <= vk::FORMAT_D32_SFLOAT_S8_UINT
}

/// A format that holds depth and stencil together holds depth and holds
/// stencil, and a format of stencil alone holds no depth.
pub proof fn lemma_depth_stencil_holds_both(value: vk::Format)
    ensures
        is_depth_stencil(value) ==> has_depth(value) && has_stencil(value),
        value == vk::FORMAT_S8_UINT ==> has_stencil(value) && !has_depth(value),
{
}

} // verus!
