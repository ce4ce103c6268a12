//! The kinds of resource whose destruction can be deferred.

use vstd::prelude::*;

verus! {

#[derive(Debug, Copy, Clone, PartialEq, Eq, Structural)]
pub enum Enum {
    Buffer,
    Texture,
    Pipeline,
    Sampler,
    DescriptorSetLayout,
    DescriptorSet,
    RenderPass,
    ShaderState,
    Count,
}

} // verus!
