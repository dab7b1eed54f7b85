use vstd::prelude::*;

use crate::snake::Cell;

verus! {

/// An axis-aligned rectangle in pixels: its top-left corner and its size.
#[derive(Clone, Copy, Debug, PartialEq, Eq, Structural)]
pub struct Rect {
    pub x: i64,
    pub y: i64,
    pub w: i64,
    pub h: i64,
}

/// What a renderer draws for one state of a game: the area to clear, one
/// filled square per segment, the playfield's border, and where the
/// game-over text goes when the game has ended.
pub struct Frame {
    pub clear: Rect,
    pub squares: Vec<Rect>,
    pub border: Rect,
    pub game_over_at: Option<(i64, i64)>,
}

/// The square that covers cell `p` on a grid of cells of side `side`.
pub open spec fn square_of(p: Cell, side: int) -> Rect {
    Rect { x: (p.0 * side) as i64, y: (p.1 * side) as i64, w: side as i64, h: side as i64 }
}

/// The whole playfield.
pub open spec fn field_rect(width: nat, height: nat) -> Rect {
    Rect { x: 0, y: 0, w: width as i64, h: height as i64 }
}

/// Where the game-over text starts: 80 pixels left of the middle of the
/// playfield, at half its height.
pub open spec fn game_over_point(width: nat, height: nat) -> (i64, i64) {
    ((width as int / 2 - 80) as i64, (height as int / 2) as i64)
}

} // verus!
