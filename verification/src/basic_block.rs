//! Basic blocks: where a builder can be positioned, and where branches lead.

use vstd::prelude::*;

verus! {

/// A reference to a block of a function. The block itself belongs to the
/// engine; the number only names it.
#[derive(Clone, Copy, Debug, PartialEq, Eq, Structural)]
pub struct BasicBlock {
    pub handle: u64,
}

impl BasicBlock {
    /// The reference to the block that `handle` names.
    pub fn new(handle: u64) -> (r: BasicBlock)
        ensures
            r.handle == handle,
    {
        BasicBlock { handle }
    }

    /// The number that names the block.
    pub fn as_raw(&self) -> (r: u64)
        ensures
            r == self.handle,
    {
        self.handle
    }
}

} // verus!
