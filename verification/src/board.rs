//! The board: a sparse mapping from cells to the blocks that occupy them.

use crate::block::{Block, BlockView};
use crate::coordinate::representable;
use std::collections::HashMap;
use vstd::prelude::*;

verus! {

broadcast use vstd::std_specs::hash::group_hash_axioms;

/// The number under which the cell `cell` is filed. No two cells share one.
pub open spec fn cell_key(cell: (int, int)) -> int {
    (cell.0 + 0x8000_0000) * 0x1_0000_0000 + (cell.1 + 0x8000_0000)
}

fn key_of(x: i32, y: i32) -> (key: u64)
    ensures
        key == cell_key((x as int, y as int)),
{
    let column: u64 = (x as i64 + 0x8000_0000) as u64;
    let row: u64 = (y as i64 + 0x8000_0000) as u64;
    column * 0x1_0000_0000 + row
}

/// The terrain of the game. A cell without a block holds no terrain.
pub struct Board {
    cells: HashMap<u64, Block>,
}

impl View for Board {
    type V = Map<(int, int), BlockView>;

    closed spec fn view(&self) -> Map<(int, int), BlockView> {
        Map::new(
            |cell: (int, int)|
                representable(cell) && self.cells@.contains_key(cell_key(cell) as u64),
            |cell: (int, int)| self.cells@[cell_key(cell) as u64]@,
        )
    }
}

impl Board {
    /// A board without terrain.
    pub fn new() -> (board: Self)
        ensures
            board@ == Map::<(int, int), BlockView>::empty(),
    {
        let board = Board { cells: HashMap::new() };
        assert(board@ =~= Map::<(int, int), BlockView>::empty());
        board
    }

    /// Puts `block` on the cell (`x`, `y`), in place of what was there.
    pub fn insert(&mut self, x: i32, y: i32, block: Block)
        ensures
            final(self)@ == old(self)@.insert((x as int, y as int), block@),
    {
        let key = key_of(x, y);
        self.cells.insert(key, block);
        assert(self@ =~= old(self)@.insert((x as int, y as int), block@));
    }

    /// The block on the cell (`x`, `y`), if there is one.
    pub fn get(&self, x: i32, y: i32) -> (found: Option<&Block>)
        ensures
            match found {
                Some(block) => self@.contains_key((x as int, y as int)) && block@ == self@[(
                    x as int,
                    y as int,
                )],
                None => !self@.contains_key((x as int, y as int)),
            },
    {
        let key = key_of(x, y);
        self.cells.get(&key)
    }
}

/// Only cells whose coordinates can be stored hold terrain.
pub proof fn terrain_is_representable(board: &Board, cell: (int, int))
    requires
        board@.contains_key(cell),
    ensures
        representable(cell),
{
}

} // verus!
