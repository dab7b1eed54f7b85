use vstd::prelude::*;

use crate::traits::DIRECTION;

verus! {

/// A grid cell, as (column, row).
pub type Cell = (i32, i32);

/// The cell one unit away from `p` in direction `d`.
pub open spec fn moved(p: Cell, d: DIRECTION) -> Cell {
    match d {
        DIRECTION::UP => (p.0, (p.1 - 1) as i32),
        DIRECTION::RIGHT => ((p.0 + 1) as i32, p.1),
        DIRECTION::DOWN => (p.0, (p.1 + 1) as i32),
        DIRECTION::LEFT => ((p.0 - 1) as i32, p.1),
    }
}

/// The coordinate that a step from `p` in direction `d` changes stays in
/// the range of `i32`.
pub open spec fn can_step(p: Cell, d: DIRECTION) -> bool {
    match d {
        DIRECTION::UP => p.1 > i32::MIN,
        DIRECTION::RIGHT => p.0 < i32::MAX,
        DIRECTION::DOWN => p.1 < i32::MAX,
        DIRECTION::LEFT => p.0 > i32::MIN,
    }
}

/// Each direction moves by one unit along one axis: up lowers the row,
/// right raises the column, down raises the row, left lowers the column.
pub proof fn lemma_moved_offsets(p: Cell, d: DIRECTION)
    requires
        can_step(p, d),
    ensures
        d == DIRECTION::UP ==> moved(p, d).0 == p.0 && moved(p, d).1 == p.1 - 1,
        d == DIRECTION::RIGHT ==> moved(p, d).0 == p.0 + 1 && moved(p, d).1 == p.1,
        d == DIRECTION::DOWN ==> moved(p, d).0 == p.0 && moved(p, d).1 == p.1 + 1,
        d == DIRECTION::LEFT ==> moved(p, d).0 == p.0 - 1 && moved(p, d).1 == p.1,
{
}

/// A cell can be left in any direction without leaving the range of `i32`.
pub open spec fn movable(p: Cell) -> bool {
    &&& i32::MIN < p.0 < i32::MAX
    &&& i32::MIN < p.1 < i32::MAX
}

/// One step of a body: the head moves in direction `d`, and every other
/// segment takes the place of the one before it, so the last one is dropped.
pub open spec fn advance(body: Seq<Cell>, d: DIRECTION) -> Seq<Cell> {
    if body.len() == 0 {
        body
    } else {
        seq![moved(body[0], d)] + body.drop_last()
    }
}

/// One step of a non-empty body puts the moved head in front of the body
/// without its last segment.
pub proof fn lemma_advance_drops_tail(body: Seq<Cell>, d: DIRECTION)
    requires
        body.len() >= 1,
    ensures
        advance(body, d)[0] == moved(body[0], d),
        advance(body, d).subrange(1, body.len() as int) == body.subrange(0, body.len() - 1),
        advance(body, d).len() == body.len(),
{
    assert(advance(body, d).subrange(1, body.len() as int) =~= body.subrange(0, body.len() - 1));
}

/// The body after one step for each heading in `ds`, taken in order.
pub open spec fn run(body: Seq<Cell>, ds: Seq<DIRECTION>) -> Seq<Cell>
    decreases ds.len(),
{
    if ds.len() == 0 {
        body
    } else {
        advance(run(body, ds.drop_last()), ds.last())
    }
}

/// Stepping never changes how many segments a body has, whatever the
/// headings of the steps.
pub proof fn lemma_run_keeps_length(body: Seq<Cell>, ds: Seq<DIRECTION>)
    ensures
        run(body, ds).len() == body.len(),
    decreases ds.len(),
{
    if ds.len() > 0 {
        lemma_run_keeps_length(body, ds.drop_last());
    }
}

/// The snake: its segments, head first, and the direction it travels in.
pub struct Snake {
    pub body: Vec<Cell>,
    pub direction: DIRECTION,
}

impl Snake {
    /// A snake always has a head.
    pub open spec fn wf(&self) -> bool {
        self.body@.len() >= 1
    }

    pub open spec fn head(&self) -> Cell {
        self.body@[0]
    }

    /// A snake of one segment at (start, start), heading right.
    pub fn new(start: i32) -> (r: Snake)
        ensures
            r.wf(),
            r.body@ == seq![(start, start)],
            r.direction == DIRECTION::RIGHT,
    {
        Snake { body: vec![(start, start)], direction: DIRECTION::RIGHT }
    }

    /// Moves the head one cell along the current direction and drops the tail.
    pub fn update(&mut self)
        requires
            old(self).wf(),
            can_step(old(self).head(), old(self).direction),
        ensures
            final(self).wf(),
            final(self).direction == old(self).direction,
            final(self).body@ == advance(old(self).body@, old(self).direction),
            final(self).body@ == seq![moved(old(self).head(), old(self).direction)]
                + old(self).body@.drop_last(),
            final(self).body@.len() == old(self).body@.len(),
            final(self).head() == moved(old(self).head(), old(self).direction),
    {
        let (x, y) = self.body[0];
        let new_head: Cell = match self.direction {
            DIRECTION::UP => (x, y - 1),
            DIRECTION::RIGHT => (x + 1, y),
            DIRECTION::DOWN => (x, y + 1),
            DIRECTION::LEFT => (x - 1, y),
        };
        self.body.insert(0, new_head);
        self.body.pop();
        assert(self.body@ =~= seq![new_head] + old(self).body@.drop_last());
    }

    /// Sets the direction of travel; any direction is accepted.
    pub fn change_direction(&mut self, dir: DIRECTION)
        ensures
            final(self).direction == dir,
            final(self).body@ == old(self).body@,
    {
        self.direction = dir;
    }

    /// The first segment.
    pub fn head_position(&self) -> (r: Cell)
        requires
            self.wf(),
        ensures
            r == self.head(),
    {
        self.body[0]
    }
}

} // verus!
