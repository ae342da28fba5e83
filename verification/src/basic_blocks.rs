//! Basic blocks: straight-line statement runs, each ended by a terminator.

use vstd::prelude::*;

use crate::idx::Idx;
use crate::syntax::{Statement, Terminator};

verus! {

/// A basic block of a body: a dense index into the body's block table.
/// Index zero is the entry block.
#[derive(Debug, Clone, Copy, PartialEq, Eq, Structural)]
pub struct BasicBlock(pub usize);

impl BasicBlock {
    /// The entry block of a body: the block with index zero.
    pub open spec fn spec_entry_block() -> BasicBlock {
        BasicBlock(0)
    }

    /// Returns the entry block: the block with index zero.
    pub fn entry_block() -> (r: BasicBlock)
        ensures
            r == BasicBlock::spec_entry_block(),
    {
        BasicBlock(0)
    }
}

/// The contents of a basic block: its statements in execution order, then
/// the terminator that hands control on.
#[derive(Debug)]
pub struct BasicBlockData {
    /// The statements, in execution order.
    pub statements: Vec<Statement>,
    /// The operation that ends the block.
    pub terminator: Terminator,
}

impl Idx for BasicBlock {
    open spec fn widx(&self) -> int {
        self.0 as int
    }

    open spec fn from_widx(idx: int) -> BasicBlock {
        BasicBlock(idx as usize)
    }

    proof fn widx_in_range(&self) {
    }

    proof fn from_widx_widx(idx: int) {
    }

    fn new(idx: usize) -> BasicBlock {
        BasicBlock(idx)
    }

    fn idx(&self) -> usize {
        self.0
    }

    fn incr(&mut self) {
        self.0 = self.0 + 1;
    }

    fn incr_by(&mut self, by: usize) {
        self.0 = self.0 + by;
    }
}

} // verus!
