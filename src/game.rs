use vstd::prelude::*;

use crate::frame::{field_rect, game_over_point, square_of, Frame, Rect};
use crate::snake::{advance, movable, Cell, Snake};
use crate::traits::{key_direction, Game, DIRECTION};

verus! {

/// Side of a grid cell, in pixels.
pub const CELL_SIZE: u32 = 10;

/// Column and row of the snake's first segment in a new game.
pub const START: i32 = 10;

/// What a game is, seen from outside.
pub struct GameView {
    pub body: Seq<Cell>,
    pub direction: DIRECTION,
    pub width: nat,
    pub height: nat,
    pub cell_size: nat,
    pub game_over: bool,
}

/// A head outside the playfield's grid of `width / cell_size` columns and
/// `height / cell_size` rows.
pub open spec fn out_of_bounds(h: Cell, width: nat, height: nat, cell_size: nat) -> bool {
    ||| h.0 < 0
    ||| h.0 >= width as int / cell_size as int
    ||| h.1 < 0
    ||| h.1 >= height as int / cell_size as int
}

/// The states that a game goes through: one segment, the fixed cell size,
/// and, while the game runs, a head that can take one more step.
pub open spec fn valid(g: GameView) -> bool {
    &&& g.body.len() == 1
    &&& g.cell_size == CELL_SIZE as nat
    &&& g.width <= u32::MAX
    &&& g.height <= u32::MAX
    &&& !g.game_over ==> movable(g.body[0])
}

/// A new game on a playfield of the given size.
pub open spec fn initial(width: nat, height: nat) -> GameView {
    initial_at(width, height, START)
}

/// A new game whose snake starts at (start, start).
pub open spec fn initial_at(width: nat, height: nat, start: i32) -> GameView {
    GameView {
        body: seq![(start, start)],
        direction: DIRECTION::RIGHT,
        width,
        height,
        cell_size: CELL_SIZE as nat,
        game_over: false,
    }
}

/// One tick: nothing once the game is over; otherwise one step of the
/// snake, and the game ends if the new head left the playfield.
pub open spec fn tick(g: GameView) -> GameView {
    if g.game_over {
        g
    } else {
        let body = advance(g.body, g.direction);
        GameView {
            body,
            game_over: out_of_bounds(body[0], g.width, g.height, g.cell_size),
            ..g
        }
    }
}

/// The state after `n` ticks.
pub open spec fn ticks(g: GameView, n: nat) -> GameView
    decreases n,
{
    if n == 0 {
        g
    } else {
        tick(ticks(g, (n - 1) as nat))
    }
}

/// Once the game is over, any number of ticks leaves it as it is.
pub proof fn lemma_game_over_is_final(g: GameView, n: nat)
    requires
        g.game_over,
    ensures
        ticks(g, n) == g,
    decreases n,
{
    if n > 0 {
        lemma_game_over_is_final(g, (n - 1) as nat);
    }
}

/// Ticks never change the playfield, so resetting after any number of ticks
/// gives the same state as a new game on the original playfield: one segment
/// at (START, START), heading right, not over.
pub proof fn lemma_reset_after_ticks(g: GameView, n: nat)
    ensures
        ticks(g, n).width == g.width,
        ticks(g, n).height == g.height,
        ticks(g, n).cell_size == g.cell_size,
        initial(ticks(g, n).width, ticks(g, n).height) == initial(g.width, g.height),
        initial(g.width, g.height).body == seq![(START, START)],
        initial(g.width, g.height).direction == DIRECTION::RIGHT,
        !initial(g.width, g.height).game_over,
    decreases n,
{
    if n > 0 {
        lemma_reset_after_ticks(g, (n - 1) as nat);
    }
}

/// Every tick keeps a game in its valid states and keeps its snake's length.
pub proof fn lemma_ticks_keep_valid(g: GameView, n: nat)
    requires
        valid(g),
    ensures
        valid(ticks(g, n)),
        ticks(g, n).body.len() == g.body.len(),
    decreases n,
{
    if n > 0 {
        lemma_ticks_keep_valid(g, (n - 1) as nat);
        let h = ticks(g, (n - 1) as nat);
        if !h.game_over {
            assert(advance(h.body, h.direction).len() == 1);
        }
    }
}

/// A snake game on a playfield of fixed size.
pub struct Game2D {
    snake: Snake,
    width: u32,
    height: u32,
    cell_size: u32,
    game_over: bool,
}

impl View for Game2D {
    type V = GameView;

    closed spec fn view(&self) -> GameView {
        GameView {
            body: self.snake.body@,
            direction: self.snake.direction,
            width: self.width as nat,
            height: self.height as nat,
            cell_size: self.cell_size as nat,
            game_over: self.game_over,
        }
    }
}

impl Game2D {

    /// A new game: one segment at (START, START), heading right, running.
    pub fn new(width: u32, height: u32) -> (r: Game2D)
        ensures
            valid(r@),
            r@ == initial(width as nat, height as nat),
    {
        Game2D::with_start(width, height, START)
    }

    /// A new game whose snake starts at (start, start), heading right.
    pub fn with_start(width: u32, height: u32, start: i32) -> (r: Game2D)
        requires
            movable((start, start)),
        ensures
            valid(r@),
            r@ == initial_at(width as nat, height as nat, start),
    {
        Game2D {
            snake: Snake::new(start),
            width,
            height,
            cell_size: CELL_SIZE,
            game_over: false,
        }
    }

    /// The snake's segments, head first.
    pub fn body(&self) -> (r: &Vec<Cell>)
        ensures
            r@ == self@.body,
    {
        &self.snake.body
    }

    /// The first segment of the snake.
    pub fn head_position(&self) -> (r: Cell)
        requires
            valid(self@),
        ensures
            r == self@.body[0],
    {
        self.snake.head_position()
    }

    pub fn direction(&self) -> (r: DIRECTION)
        ensures
            r == self@.direction,
    {
        self.snake.direction
    }

    pub fn is_game_over(&self) -> (r: bool)
        ensures
            r == self@.game_over,
    {
        self.game_over
    }

    pub fn width(&self) -> (r: u32)
        ensures
            r as nat == self@.width,
    {
        self.width
    }

    pub fn height(&self) -> (r: u32)
        ensures
            r as nat == self@.height,
    {
        self.height
    }

    pub fn cell_size(&self) -> (r: u32)
        ensures
            r as nat == self@.cell_size,
    {
        self.cell_size
    }

    /// What to draw for the current state.
    pub fn frame(&self) -> (r: Frame)
        requires
            valid(self@),
        ensures
            r.clear == field_rect(self@.width, self@.height),
            r.border == field_rect(self@.width, self@.height),
            r.squares@.len() == self@.body.len(),
            forall|i: int|
                0 <= i < self@.body.len() ==> r.squares@[i] == square_of(
                    self@.body[i],
                    self@.cell_size as int,
                ),
            r.game_over_at == (if self@.game_over {
                Some(game_over_point(self@.width, self@.height))
            } else {
                None
            }),
    {
        let side = self.cell_size as i64;
        let mut squares: Vec<Rect> = Vec::new();
        let mut i: usize = 0;
        while i < self.snake.body.len()
            invariant
                side == CELL_SIZE as i64,
                i <= self.snake.body@.len(),
                squares@.len() == i,
                forall|j: int|
                    0 <= j < i ==> squares@[j] == square_of(self.snake.body@[j], side as int),
            decreases self.snake.body@.len() - i,
        {
            let (x, y) = self.snake.body[i];
            squares.push(Rect { x: x as i64 * side, y: y as i64 * side, w: side, h: side });
            i += 1;
        }
        let field = Rect { x: 0, y: 0, w: self.width as i64, h: self.height as i64 };
        let game_over_at = if self.game_over {
            Some((self.width as i64 / 2 - 80, self.height as i64 / 2))
        } else {
            None
        };
        Frame { clear: field, squares, border: field, game_over_at }
    }

    /// Steers the snake by a key of the keyboard: an arrow key sets the
    /// direction, and any other key changes nothing.
    pub fn handle_key(&mut self, key: &str)
        ensures
            final(self)@ == (match key_direction(key@) {
                Some(d) => GameView { direction: d, ..old(self)@ },
                None => old(self)@,
            }),
    {
        match DIRECTION::from_key(key) {
            Some(d) => self.change_direction(d),
            None => {},
        }
    }

    /// Advances the game by one tick.
    pub fn update(&mut self)
        requires
            valid(old(self)@),
        ensures
            valid(final(self)@),
            final(self)@ == tick(old(self)@),
    {
        if self.game_over {
            return;
        }
        self.snake.update();
        let (head_x, head_y) = self.snake.head_position();
        let cols = (self.width / self.cell_size) as i64;
        let rows = (self.height / self.cell_size) as i64;
        if head_x < 0 || head_x as i64 >= cols || head_y < 0 || head_y as i64 >= rows {
            self.game_over = true;
        }
    }

    /// Sets the snake's direction, whether or not the game is over.
    pub fn change_direction(&mut self, dir: DIRECTION)
        ensures
            final(self)@ == (GameView { direction: dir, ..old(self)@ }),
    {
        self.snake.change_direction(dir);
    }

    /// Starts a new game on the same playfield.
    pub fn reset(&mut self)
        ensures
            valid(final(self)@),
            final(self)@ == initial(old(self)@.width, old(self)@.height),
    {
        *self = Game2D::new(self.width, self.height);
    }
}

impl Game for Game2D {
    open spec fn wf(&self) -> bool {
        valid(self@)
    }

    fn update(&mut self)
        ensures
            valid(final(self)@),
            final(self)@ == tick(old(self)@),
    {
        Game2D::update(self);
    }

    fn reset(&mut self)
        ensures
            valid(final(self)@),
            final(self)@ == initial(old(self)@.width, old(self)@.height),
    {
        Game2D::reset(self);
    }

    fn change_direction(&mut self, dir: DIRECTION)
        ensures
            final(self)@ == (GameView { direction: dir, ..old(self)@ }),
    {
        Game2D::change_direction(self, dir);
    }
}

} // verus!
