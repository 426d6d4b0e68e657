//! How blocks look on the screen.

use crate::block::{Block, BlockView};
use vstd::prelude::*;

verus! {

/// The colours that blocks are painted in.
#[derive(Debug, Clone, Copy, PartialEq, Eq, Structural)]
pub enum Colour {
    Green,
    Yellow,
    Gray,
    Red,
    Magenta,
    White,
    Blue,
}

/// One cell of the screen: a character, and the colour behind it if it has
/// one.
#[derive(Debug, Clone, Copy, PartialEq, Eq, Structural)]
pub struct Tile {
    pub glyph: char,
    pub background: Option<Colour>,
}

/// The character that marks a sign.
pub const SIGN_GLYPH: char = '\u{1F4AC}';

/// The tile that shows `block`: terrain is a blank in the colour of the
/// terrain, a sign is a speech balloon, an object is its name.
pub open spec fn tile(block: BlockView) -> Tile {
    match block {
        BlockView::Grass => Tile { glyph: ' ', background: Some(Colour::Green) },
        BlockView::Sand => Tile { glyph: ' ', background: Some(Colour::Yellow) },
        BlockView::Rock => Tile { glyph: ' ', background: Some(Colour::Gray) },
        BlockView::Cinderblock => Tile { glyph: ' ', background: Some(Colour::Red) },
        BlockView::Flowerbush => Tile { glyph: ' ', background: Some(Colour::Magenta) },
        BlockView::Barrier => Tile { glyph: ' ', background: Some(Colour::White) },
        BlockView::Water => Tile { glyph: ' ', background: Some(Colour::Blue) },
        BlockView::Sign(_) => Tile { glyph: SIGN_GLYPH, background: None },
        BlockView::Object(name) => Tile { glyph: name, background: None },
    }
}

/// The character that is left on a cell when the player steps off it: the
/// speech balloon on a sign, a blank anywhere else.
pub open spec fn vacated(block: Option<BlockView>) -> char {
    match block {
        Some(BlockView::Sign(_)) => SIGN_GLYPH,
        _ => ' ',
    }
}

/// The tile that shows `block`.
pub fn tile_of(block: &Block) -> (shown: Tile)
    ensures
        shown == tile(block@),
{
    match block {
        Block::Grass => Tile { glyph: ' ', background: Some(Colour::Green) },
        Block::Sand => Tile { glyph: ' ', background: Some(Colour::Yellow) },
        Block::Rock => Tile { glyph: ' ', background: Some(Colour::Gray) },
        Block::Cinderblock => Tile { glyph: ' ', background: Some(Colour::Red) },
        Block::Flowerbush => Tile { glyph: ' ', background: Some(Colour::Magenta) },
        Block::Barrier => Tile { glyph: ' ', background: Some(Colour::White) },
        Block::Water => Tile { glyph: ' ', background: Some(Colour::Blue) },
        Block::Sign(_) => Tile { glyph: SIGN_GLYPH, background: None },
        Block::Object(name) => Tile { glyph: *name, background: None },
    }
}

/// The view of a block that may be missing.
pub open spec fn seen(block: Option<&Block>) -> Option<BlockView> {
    match block {
        Some(block) => Some(block@),
        None => None,
    }
}

/// The character that is left on a cell that holds `block` when the player
/// steps off it.
pub fn vacated_glyph(block: Option<&Block>) -> (glyph: char)
    ensures
        glyph == vacated(seen(block)),
{
    match block {
        Some(Block::Sign(_)) => SIGN_GLYPH,
        _ => ' ',
    }
}

} // verus!
