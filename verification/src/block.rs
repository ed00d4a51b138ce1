//! One cell of the board and what occupies it.

use vstd::prelude::*;

verus! {

/// What occupies a cell.
#[derive(Debug, Clone, Copy, PartialEq, Eq, Structural)]
pub enum BlockType {
    Vacant,
    OccupiedSnake,
    OccupiedFruit,
}

/// One cell of the board.
#[derive(Debug, Clone, Copy)]
pub struct Block {
    pub kind: BlockType,
}

impl Block {
    /// A vacant cell.
    pub fn new() -> (r: Block)
        ensures
            r.kind == BlockType::Vacant,
    {
        Block { kind: BlockType::Vacant }
    }

    pub fn set_type(&mut self, kind: BlockType)
        ensures
            final(self).kind == kind,
    {
        self.kind = kind;
    }

    pub open spec fn spec_is_occupied(&self) -> bool {
        self.kind != BlockType::Vacant
    }

    /// Whether the snake or a fruit is on the cell.
    #[verifier::when_used_as_spec(spec_is_occupied)]
    pub fn is_occupied(&self) -> (r: bool)
        ensures
            r == self.spec_is_occupied(),
    {
        match self.kind {
            BlockType::OccupiedSnake | BlockType::OccupiedFruit => true,
            BlockType::Vacant => false,
        }
    }
}

impl Default for Block {
    fn default() -> (r: Block)
        ensures
            r.kind == BlockType::Vacant,
    {
        Block { kind: BlockType::Vacant }
    }
}

} // verus!
