//! The blocks that terrain is made of.

use vstd::prelude::*;
use vstd::std_specs::cmp::PartialEqSpecImpl;
use vstd::string::StringExecFns;

verus! {

/// One kind of terrain or content that can occupy a cell of the board.
#[derive(Debug)]
pub enum Block {
    Grass,
    Sand,
    Rock,
    Cinderblock,
    Flowerbush,
    Barrier,
    Water,
    /// A sign, with the text that is shown to whoever steps on it.
    Sign(String),
    /// An object that is collected by stepping on it, named by a character.
    Object(char),
}

/// The mathematical value of a [`Block`]: the text of a sign is a sequence of
/// characters.
pub enum BlockView {
    Grass,
    Sand,
    Rock,
    Cinderblock,
    Flowerbush,
    Barrier,
    Water,
    Sign(Seq<char>),
    Object(char),
}

impl View for Block {
    type V = BlockView;

    open spec fn view(&self) -> BlockView {
        match self {
            Block::Grass => BlockView::Grass,
            Block::Sand => BlockView::Sand,
            Block::Rock => BlockView::Rock,
            Block::Cinderblock => BlockView::Cinderblock,
            Block::Flowerbush => BlockView::Flowerbush,
            Block::Barrier => BlockView::Barrier,
            Block::Water => BlockView::Water,
            Block::Sign(text) => BlockView::Sign(text@),
            Block::Object(name) => BlockView::Object(*name),
        }
    }
}

/// The name under which a block is shown to the player.
pub open spec fn block_name(block: BlockView) -> Seq<char> {
    match block {
        BlockView::Grass => "Grass"@,
        BlockView::Sand => "Sand"@,
        BlockView::Rock => "Rock"@,
        BlockView::Cinderblock => "Cinderblock"@,
        BlockView::Flowerbush => "Flowers"@,
        BlockView::Barrier => "Barrier"@,
        BlockView::Water => "Water"@,
        BlockView::Sign(_) => "Sign"@,
        BlockView::Object(name) => "Object called '"@.push(name) + "'"@,
    }
}

impl Block {
    /// The name under which the block is shown to the player.
    pub fn to_string(&self) -> (name: String)
        ensures
            name@ == block_name(self@),
    {
        match self {
            Block::Grass => String::from_str("Grass"),
            Block::Sand => String::from_str("Sand"),
            Block::Rock => String::from_str("Rock"),
            Block::Cinderblock => String::from_str("Cinderblock"),
            Block::Flowerbush => String::from_str("Flowers"),
            Block::Barrier => String::from_str("Barrier"),
            Block::Water => String::from_str("Water"),
            Block::Sign(_) => String::from_str("Sign"),
            Block::Object(name) => {
                let mut text = String::from_str("Object called '");
                text.push(*name);
                text.append("'");
                text
            },
        }
    }
}

impl Clone for Block {
    fn clone(&self) -> (copy: Self)
        ensures
            copy@ == self@,
    {
        match self {
            Block::Grass => Block::Grass,
            Block::Sand => Block::Sand,
            Block::Rock => Block::Rock,
            Block::Cinderblock => Block::Cinderblock,
            Block::Flowerbush => Block::Flowerbush,
            Block::Barrier => Block::Barrier,
            Block::Water => Block::Water,
            Block::Sign(text) => Block::Sign(text.clone()),
            Block::Object(name) => Block::Object(*name),
        }
    }
}

impl PartialEq for Block {
    /// Two blocks are equal when they are of the same kind and, for signs and
    /// objects, carry the same text or name.
    fn eq(&self, other: &Block) -> (same: bool) {
        match (self, other) {
            (Block::Grass, Block::Grass) => true,
            (Block::Sand, Block::Sand) => true,
            (Block::Rock, Block::Rock) => true,
            (Block::Cinderblock, Block::Cinderblock) => true,
            (Block::Flowerbush, Block::Flowerbush) => true,
            (Block::Barrier, Block::Barrier) => true,
            (Block::Water, Block::Water) => true,
            (Block::Sign(mine), Block::Sign(theirs)) => *mine == *theirs,
            (Block::Object(mine), Block::Object(theirs)) => *mine == *theirs,
            _ => false,
        }
    }
}

impl PartialEqSpecImpl for Block {
    open spec fn obeys_eq_spec() -> bool {
        true
    }

    open spec fn eq_spec(&self, other: &Block) -> bool {
        self@ == other@
    }
}

impl Eq for Block {

}

} // verus!
