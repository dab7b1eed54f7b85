use vstd::prelude::*;

verus! {

/// The four directions in which the snake can travel.
#[derive(Clone, Copy, Debug, PartialEq, Eq, Structural)]
pub enum DIRECTION {
    UP,
    RIGHT,
    DOWN,
    LEFT,
}

/// The direction that a key of the keyboard selects, if any.
pub open spec fn key_direction(key: Seq<char>) -> Option<DIRECTION> {
    if key == "ArrowUp"@ {
        Some(DIRECTION::UP)
    } else if key == "ArrowRight"@ {
        Some(DIRECTION::RIGHT)
    } else if key == "ArrowDown"@ {
        Some(DIRECTION::DOWN)
    } else if key == "ArrowLeft"@ {
        Some(DIRECTION::LEFT)
    } else {
        None
    }
}

fn same_text(a: &str, b: &str) -> (r: bool)
    ensures
        r == (a@ == b@),
{
    a.to_owned() == b.to_owned()
}

impl DIRECTION {
    /// The direction that the key named `key` selects: one of the four arrow
    /// keys, and `None` for every other key.
    pub fn from_key(key: &str) -> (r: Option<DIRECTION>)
        ensures
            r == key_direction(key@),
    {
        if same_text(key, "ArrowUp") {
            Some(DIRECTION::UP)
        } else if same_text(key, "ArrowRight") {
            Some(DIRECTION::RIGHT)
        } else if same_text(key, "ArrowDown") {
            Some(DIRECTION::DOWN)
        } else if same_text(key, "ArrowLeft") {
            Some(DIRECTION::LEFT)
        } else {
            None
        }
    }
}

/// A game that is advanced tick by tick and steered by a direction.
pub trait Game {
    /// The states in which the game can be advanced.
    spec fn wf(&self) -> bool;

    /// Advances the game by one tick.
    fn update(&mut self)
        requires
            old(self).wf(),
        ensures
            final(self).wf(),
    ;

    /// Starts the game over.
    fn reset(&mut self)
        ensures
            final(self).wf(),
    ;

    /// Sets the direction of travel.
    fn change_direction(&mut self, dir: DIRECTION)
        ensures
            old(self).wf() ==> final(self).wf(),
    ;
}

} // verus!
