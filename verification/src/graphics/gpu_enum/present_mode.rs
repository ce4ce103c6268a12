//! How finished frames reach the display.

use vstd::prelude::*;

verus! {

#[derive(Debug, Copy, Clone, PartialEq, Eq, Structural)]
pub enum Enum {
    Immediate,
    VSync,
    VSyncFast,
    VSyncRelaxed,
    Count,
}

} // verus!
