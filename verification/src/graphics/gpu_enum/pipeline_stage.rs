//! The stages that a barrier orders.

use vstd::prelude::*;

verus! {

#[derive(Debug, Copy, Clone, PartialEq, Eq, Structural)]
pub enum Enum {
    DrawIndirect,
    VertexInput,
    VertexShader,
    FragmentShader,
    RenderTarget,
    ComputeShader,
    Transfer,
}

#[derive(Debug, Copy, Clone, PartialEq, Eq, Structural)]
pub enum Mask {
    DrawIndirectMask,
    VertexInputMask,
    VertexShaderMask,
    FragmentShaderMask,
    RenderTargetMask,
    ComputeShaderMask,
    TransferMask,
}

impl Mask {
    /// The bits that the mask stands for.
    pub open spec fn spec_bits(self) -> u32 {
        match self {
            Mask::DrawIndirectMask => 0x1,
            Mask::VertexInputMask => 0x2,
            Mask::VertexShaderMask => 0x4,
            Mask::FragmentShaderMask => 0x8,
            Mask::RenderTargetMask => 0x10,
            Mask::ComputeShaderMask => 0x20,
            Mask::TransferMask => 0x40,
        }
    }

    #[verifier::when_used_as_spec(spec_bits)]
    pub fn bits(self) -> (bits: u32)
        ensures
            bits == self.spec_bits(),
    {
        match self {
            Mask::DrawIndirectMask => 0x1,
            Mask::VertexInputMask => 0x2,
            Mask::VertexShaderMask => 0x4,
            Mask::FragmentShaderMask => 0x8,
            Mask::RenderTargetMask => 0x10,
            Mask::ComputeShaderMask => 0x20,
            Mask::TransferMask => 0x40,
        }
    }
}

} // verus!
