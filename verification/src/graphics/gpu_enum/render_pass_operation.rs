//! What happens to an attachment when a pass begins.

use vstd::prelude::*;

verus! {

#[derive(Debug, Copy, Clone, PartialEq, Eq, Structural)]
pub enum Enum {
    DontCare,
    Load,
    Clear,
    Count,
}

} // verus!
