use vstd::prelude::*;
use crate::types::{Actor, ActionType, Direction, in_i32, placed, step_x, step_y};

verus! {

/// `a` after taking back its move: a move of at least one step in some
/// direction is reversed; any other action leaves the actor where it is.
pub open spec fn undone(a: Actor) -> Actor {
    match a.action {
        ActionType::Move(d, n) => if n >= 1 {
            placed(a, a.x - step_x(d, n as int), a.y - step_y(d, n as int))
        } else {
            a
        },
        _ => a,
    }
}

/// Whether taking back `a`'s move keeps its coordinates within `i32`.
pub open spec fn undo_fits(a: Actor) -> bool {
    match a.action {
        ActionType::Move(d, n) => n >= 1 ==> in_i32(a.x - step_x(d, n as int)) && in_i32(a.y - step_y(d, n as int)),
        _ => true,
    }
}

impl Actor {
    /// Moves the actor back by the distance of its move action.
    pub fn undo_action(&mut self)
        requires
            undo_fits(*old(self)),
        ensures
            *final(self) == undone(*old(self)),
    {
        match self.action {
            ActionType::Move(direction, distance) => {
                if distance < 1 {
                    return;
                }
                match direction {
                    Direction::Up => {
                        self.y += distance;
                    },
                    Direction::Down => {
                        self.y -= distance;
                    },
                    Direction::Left => {
                        self.x += distance;
                    },
                    Direction::Right => {
                        self.x -= distance;
                    },
                    Direction::Nowhere => {},
                }
            },
            ActionType::Open(_) => {},
            ActionType::Stand => {},
            ActionType::Idle => {},
        }
    }
}

} // verus!
