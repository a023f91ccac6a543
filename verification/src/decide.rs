use vstd::prelude::*;
use crate::types::{Actor, ActorType, ActionType, Direction, GlobalStateMod, with_action};

verus! {

/// The key code that quits the game ('q').
pub const KEY_QUIT: i32 = 113;
/// The key code that starts an "open" command ('o').
pub const KEY_OPEN: i32 = 111;
/// The key code for left ('h').
pub const KEY_LEFT: i32 = 104;
/// The key code for down ('j').
pub const KEY_DOWN: i32 = 106;
/// The key code for up ('k').
pub const KEY_UP: i32 = 107;
/// The key code for right ('l').
pub const KEY_RIGHT: i32 = 108;

/// What the decision for one actor is fed: the start of its turn, or a key
/// pressed by the player who controls it.
#[derive(Clone, Copy, Debug, PartialEq, Eq, Structural)]
pub enum PlayerInput {
    Start,
    FirstKey(i32),
    SecondKey(i32),
}

/// Where a decision stands: made (with what it asks of the game), or
/// waiting for the first or the second key of a player's command.
#[derive(Clone, Copy, Debug, PartialEq, Eq, Structural)]
pub enum Decision {
    Decided(GlobalStateMod),
    NeedFirstKey,
    NeedSecondKey,
}

/// The direction that a movement key names, if any.
pub open spec fn key_direction(k: int) -> Option<Direction> {
    if k == KEY_LEFT {
        Some(Direction::Left)
    } else if k == KEY_DOWN {
        Some(Direction::Down)
    } else if k == KEY_UP {
        Some(Direction::Up)
    } else if k == KEY_RIGHT {
        Some(Direction::Right)
    } else {
        None
    }
}

/// The first index at or after `i` of a player-controlled actor.
pub open spec fn first_player_from(actors: Seq<Actor>, i: nat) -> Option<int>
    decreases actors.len() - i,
{
    if i >= actors.len() {
        None
    } else if actors[i as int].kind is Player {
        Some(i as int)
    } else {
        first_player_from(actors, i + 1)
    }
}

/// The direction from `me` towards `target`: horizontal first, then
/// vertical, none when they share a cell.
pub open spec fn direction_toward(me: Actor, target: Actor) -> Direction {
    if target.x > me.x {
        Direction::Right
    } else if target.x < me.x {
        Direction::Left
    } else if target.y > me.y {
        Direction::Down
    } else if target.y < me.y {
        Direction::Up
    } else {
        Direction::Nowhere
    }
}

/// Where a robot at `index` heads: towards the first player, or nowhere
/// when there is none.
pub open spec fn robot_heading(actors: Seq<Actor>, index: int) -> Direction {
    match first_player_from(actors, 0) {
        Some(p) => direction_toward(actors[index], actors[p]),
        None => Direction::Nowhere,
    }
}

/// The action that actor `index` holds after being fed `input`.
pub open spec fn decided_action(actors: Seq<Actor>, index: int, input: PlayerInput) -> ActionType {
    match input {
        PlayerInput::Start => match actors[index].kind {
            ActorType::Robot => ActionType::Move(robot_heading(actors, index), 1),
            _ => ActionType::Idle,
        },
        PlayerInput::FirstKey(k) => match key_direction(k as int) {
            Some(d) => ActionType::Move(d, 1),
            None => actors[index].action,
        },
        PlayerInput::SecondKey(k) => match key_direction(k as int) {
            Some(d) => ActionType::Open(d),
            None => actors[index].action,
        },
    }
}

/// Where the decision for actor `index` stands after being fed `input`.
pub open spec fn decision_result(actors: Seq<Actor>, index: int, input: PlayerInput) -> Decision {
    match input {
        PlayerInput::Start => match actors[index].kind {
            ActorType::Player => Decision::NeedFirstKey,
            _ => Decision::Decided(GlobalStateMod::Proceed),
        },
        PlayerInput::FirstKey(k) => if k == KEY_QUIT {
            Decision::Decided(GlobalStateMod::Quit)
        } else if k == KEY_OPEN {
            Decision::NeedSecondKey
        } else {
            Decision::Decided(GlobalStateMod::Proceed)
        },
        PlayerInput::SecondKey(k) => Decision::Decided(GlobalStateMod::Proceed),
    }
}

/// The direction a robot at `index` heads in: towards the first player.
fn robot_direction(index: usize, actors: &Vec<Actor>) -> (d: Direction)
    requires
        index < actors.len(),
    ensures
        d == robot_heading(actors@, index as int),
{
    let mut player_direction = Direction::Nowhere;
    let mut i: usize = 0;
    while i < actors.len()
        invariant
            index < actors.len(),
            i <= actors.len(),
            first_player_from(actors@, 0) == first_player_from(actors@, i as nat),
            player_direction == Direction::Nowhere,
        decreases actors.len() - i,
    {
        match actors[i].kind {
            ActorType::Player => {
                let me = actors[index];
                let act = actors[i];
                if act.x > me.x {
                    player_direction = Direction::Right;
                } else if act.x < me.x {
                    player_direction = Direction::Left;
                } else if act.y > me.y {
                    player_direction = Direction::Down;
                } else if act.y < me.y {
                    player_direction = Direction::Up;
                } else {
                    player_direction = Direction::Nowhere;
                }
                return player_direction;
            },
            ActorType::Robot => {
                player_direction = Direction::Nowhere;
            },
            ActorType::Passive => {
                player_direction = Direction::Nowhere;
            },
        }
        i = i + 1;
    }
    player_direction
}

/// Works out the action of actor `index` from `input` without changing
/// anything: the new action and where the decision stands.
pub fn next_action(index: usize, actors: &Vec<Actor>, input: PlayerInput) -> (r: (ActionType, Decision))
    requires
        index < actors.len(),
    ensures
        r.0 == decided_action(actors@, index as int, input),
        r.1 == decision_result(actors@, index as int, input),
{
    let current = actors[index].action;
    match input {
        PlayerInput::Start => match actors[index].kind {
            ActorType::Player => (ActionType::Idle, Decision::NeedFirstKey),
            ActorType::Robot => {
                let d = robot_direction(index, actors);
                (ActionType::Move(d, 1), Decision::Decided(GlobalStateMod::Proceed))
            },
            ActorType::Passive => (ActionType::Idle, Decision::Decided(GlobalStateMod::Proceed)),
        },
        PlayerInput::FirstKey(k) => {
            if k == KEY_QUIT {
                (current, Decision::Decided(GlobalStateMod::Quit))
            } else if k == KEY_LEFT {
                (ActionType::Move(Direction::Left, 1), Decision::Decided(GlobalStateMod::Proceed))
            } else if k == KEY_DOWN {
                (ActionType::Move(Direction::Down, 1), Decision::Decided(GlobalStateMod::Proceed))
            } else if k == KEY_UP {
                (ActionType::Move(Direction::Up, 1), Decision::Decided(GlobalStateMod::Proceed))
            } else if k == KEY_RIGHT {
                (ActionType::Move(Direction::Right, 1), Decision::Decided(GlobalStateMod::Proceed))
            } else if k == KEY_OPEN {
                (current, Decision::NeedSecondKey)
            } else {
                (current, Decision::Decided(GlobalStateMod::Proceed))
            }
        },
        PlayerInput::SecondKey(k) => {
            if k == KEY_LEFT {
                (ActionType::Open(Direction::Left), Decision::Decided(GlobalStateMod::Proceed))
            } else if k == KEY_DOWN {
                (ActionType::Open(Direction::Down), Decision::Decided(GlobalStateMod::Proceed))
            } else if k == KEY_UP {
                (ActionType::Open(Direction::Up), Decision::Decided(GlobalStateMod::Proceed))
            } else if k == KEY_RIGHT {
                (ActionType::Open(Direction::Right), Decision::Decided(GlobalStateMod::Proceed))
            } else {
                (current, Decision::Decided(GlobalStateMod::Proceed))
            }
        },
    }
}

/// Decides what actor `index` does this turn, one step at a time: at the
/// start of its turn its action is cleared; a robot then heads for the first
/// player and a passive actor stays idle, while a player's command is read
/// key by key ('q' quits, 'h' 'j' 'k' 'l' move, 'o' then a direction opens).
pub fn decide_action(index: usize, actors: &mut Vec<Actor>, input: PlayerInput) -> (r: Decision)
    requires
        index < old(actors).len(),
    ensures
        final(actors)@ == old(actors)@.update(
            index as int,
            with_action(old(actors)@[index as int], decided_action(old(actors)@, index as int, input)),
        ),
        r == decision_result(old(actors)@, index as int, input),
{
    let (action, decision) = next_action(index, actors, input);
    let mut a = actors[index];
    a.action = action;
    actors.set(index, a);
    decision
}

} // verus!
