//! What a render pass draws into.

use vstd::prelude::*;

verus! {

#[derive(Debug, Copy, Clone, PartialEq, Eq, Structural)]
pub enum Enum {
    Geometry,
    Swapchain,
    Compute,
}

} // verus!
