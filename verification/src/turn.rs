use vstd::prelude::*;
use crate::types::{Actor, Collision, CollisionType, GlobalState, GlobalStateMod, WorldTile, with_action};
use crate::decide::{Decision, PlayerInput, decide_action, decided_action, decision_result, next_action};
use crate::act::{action_fits, actors_after_try, messages_after_try, texts, try_action, try_result,
    world_after_try, action_fits_check};

verus! {

/// Which key, if any, the actor whose turn it is waits for.
#[derive(Clone, Copy, Debug, PartialEq, Eq, Structural)]
pub enum Pending {
    Nothing,
    FirstKey,
    SecondKey,
}

/// How far a round of turns has got: the actor whose turn it is, and the
/// key it waits for.
#[derive(Clone, Copy, Debug, PartialEq, Eq, Structural)]
pub struct Turn {
    pub index: usize,
    pub pending: Pending,
}

/// What a step of the round asks of its caller: to step again, to read a
/// key and step again with it, or nothing more (the round is over).
#[derive(Clone, Copy, Debug, PartialEq, Eq, Structural)]
pub enum TurnRequest {
    Continue,
    ReadKey,
    Finished,
}

/// What the decision of the current actor is fed in this step.
pub open spec fn turn_input(turn: Turn, key: i32) -> PlayerInput {
    match turn.pending {
        Pending::Nothing => PlayerInput::Start,
        Pending::FirstKey => PlayerInput::FirstKey(key),
        Pending::SecondKey => PlayerInput::SecondKey(key),
    }
}

/// The actors once the current actor's decision has taken in this step's input.
pub open spec fn actors_decided(turn: Turn, key: i32, actors: Seq<Actor>) -> Seq<Actor> {
    actors.update(
        turn.index as int,
        with_action(actors[turn.index as int], decided_action(actors, turn.index as int, turn_input(turn, key))),
    )
}

/// Where the current actor's decision stands after this step's input.
pub open spec fn turn_decision(turn: Turn, key: i32, actors: Seq<Actor>) -> Decision {
    decision_result(actors, turn.index as int, turn_input(turn, key))
}

/// Whether the step can carry out the current actor's action with
/// coordinates that fit in `i32`.
pub open spec fn turn_step_fits(turn: Turn, key: i32, actors: Seq<Actor>) -> bool {
    turn.index < actors.len() && turn_decision(turn, key, actors) == Decision::Decided(GlobalStateMod::Proceed)
        ==> action_fits(actors_decided(turn, key, actors)[turn.index as int])
}

impl Turn {
    /// The start of a round: the first actor's turn, no key awaited.
    pub fn new() -> (t: Turn)
        ensures
            t == (Turn { index: 0, pending: Pending::Nothing }),
    {
        Turn { index: 0, pending: Pending::Nothing }
    }
}

/// Tells whether `actions` can take this step without leaving `i32`
/// coordinates; a step that would leave them is an arithmetic overflow.
pub fn actions_fit(turn: &Turn, key: i32, actors: &Vec<Actor>) -> (r: bool)
    ensures
        r == turn_step_fits(*turn, key, actors@),
{
    if turn.index >= actors.len() {
        return true;
    }
    let input = match turn.pending {
        Pending::Nothing => PlayerInput::Start,
        Pending::FirstKey => PlayerInput::FirstKey(key),
        Pending::SecondKey => PlayerInput::SecondKey(key),
    };
    let (action, decision) = next_action(turn.index, actors, input);
    match decision {
        Decision::Decided(GlobalStateMod::Proceed) => {
            let mut a = actors[turn.index];
            a.action = action;
            action_fits_check(&a)
        },
        _ => true,
    }
}

/// One step of a round in which every actor, in order, decides and carries
/// out its action. A step feeds the current actor's decision (with `key`
/// when a key is awaited). When the decision waits for a key, the step asks
/// for one. When the player quits, the game is marked done and the round
/// ends. Otherwise the actor carries out its action, what it ran into is
/// logged in `collision_list` as (actor, what, kind), and the turn passes
/// to the next actor. Once every actor has had its turn the round is over.
pub fn actions(
    turn: &mut Turn,
    key: i32,
    world: &mut Vec<WorldTile>,
    actors: &mut Vec<Actor>,
    collision_list: &mut Vec<(usize, usize, CollisionType)>,
    game_state: &mut GlobalState,
    debug_messages: &mut Vec<String>,
) -> (r: TurnRequest)
    requires
        turn_step_fits(*old(turn), key, old(actors)@),
    ensures
        old(turn).index >= old(actors).len() ==> {
            &&& r == TurnRequest::Finished
            &&& *final(turn) == *old(turn)
            &&& final(actors)@ == old(actors)@
            &&& final(world)@ == old(world)@
            &&& final(collision_list)@ == old(collision_list)@
            &&& *final(game_state) == *old(game_state)
            &&& final(debug_messages)@ == old(debug_messages)@
        },
        old(turn).index < old(actors).len() ==> {
            let decided = actors_decided(*old(turn), key, old(actors)@);
            let i = old(turn).index as int;
            match turn_decision(*old(turn), key, old(actors)@) {
                Decision::NeedFirstKey => {
                    &&& r == TurnRequest::ReadKey
                    &&& *final(turn) == (Turn { index: old(turn).index, pending: Pending::FirstKey })
                    &&& final(actors)@ == decided
                    &&& final(world)@ == old(world)@
                    &&& final(collision_list)@ == old(collision_list)@
                    &&& *final(game_state) == *old(game_state)
                    &&& final(debug_messages)@ == old(debug_messages)@
                },
                Decision::NeedSecondKey => {
                    &&& r == TurnRequest::ReadKey
                    &&& *final(turn) == (Turn { index: old(turn).index, pending: Pending::SecondKey })
                    &&& final(actors)@ == decided
                    &&& final(world)@ == old(world)@
                    &&& final(collision_list)@ == old(collision_list)@
                    &&& *final(game_state) == *old(game_state)
                    &&& final(debug_messages)@ == old(debug_messages)@
                },
                Decision::Decided(GlobalStateMod::Quit) => {
                    &&& r == TurnRequest::Finished
                    &&& *final(turn) == (Turn { index: old(actors).len(), pending: Pending::Nothing })
                    &&& final(actors)@ == decided
                    &&& final(world)@ == old(world)@
                    &&& final(collision_list)@ == old(collision_list)@
                    &&& *final(game_state) == GlobalState::Done
                    &&& final(debug_messages)@ == old(debug_messages)@
                },
                Decision::Decided(GlobalStateMod::Proceed) => {
                    &&& r == TurnRequest::Continue
                    &&& *final(turn) == (Turn { index: (i + 1) as usize, pending: Pending::Nothing })
                    &&& final(actors)@ == actors_after_try(i, decided, old(world)@)
                    &&& final(world)@ == world_after_try(i, decided, old(world)@)
                    &&& texts(final(debug_messages)@) == messages_after_try(i, decided, old(world)@, texts(old(debug_messages)@))
                    &&& final(collision_list)@ == match try_result(i, decided, old(world)@) {
                        Collision::Collision(j, t) => old(collision_list)@.push((i as usize, j, t)),
                        Collision::NoCollision => old(collision_list)@,
                    }
                    &&& *final(game_state) == *old(game_state)
                },
            }
        },
{
    if turn.index >= actors.len() {
        return TurnRequest::Finished;
    }
    let index = turn.index;
    let input = match turn.pending {
        Pending::Nothing => PlayerInput::Start,
        Pending::FirstKey => PlayerInput::FirstKey(key),
        Pending::SecondKey => PlayerInput::SecondKey(key),
    };
    match decide_action(index, actors, input) {
        Decision::NeedFirstKey => {
            turn.pending = Pending::FirstKey;
            TurnRequest::ReadKey
        },
        Decision::NeedSecondKey => {
            turn.pending = Pending::SecondKey;
            TurnRequest::ReadKey
        },
        Decision::Decided(GlobalStateMod::Quit) => {
            *game_state = GlobalState::Done;
            turn.index = actors.len();
            turn.pending = Pending::Nothing;
            TurnRequest::Finished
        },
        Decision::Decided(GlobalStateMod::Proceed) => {
            match try_action(index, actors, world, debug_messages) {
                Collision::Collision(ind2, ctype) => {
                    collision_list.push((index, ind2, ctype));
                },
                Collision::NoCollision => {},
            }
            turn.index = index + 1;
            turn.pending = Pending::Nothing;
            TurnRequest::Continue
        },
    }
}

} // verus!
