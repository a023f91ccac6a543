use vstd::prelude::*;
use crate::types::{Actor, ActionType, Collision, Direction, WorldTile, in_i32, placed, step_x, step_y};
use crate::world::{check_collision_list, check_world_tile_list, collision_at, first_tile_from,
    toggle_message, toggled, world_tile_toggle_door, lemma_first_tile_from};

verus! {

broadcast use vstd::string::to_string_from_display_ensures_for_str;

/// The strings of a list of messages.
pub open spec fn texts(v: Seq<String>) -> Seq<Seq<char>> {
    v.map_values(|s: String| s@)
}

/// The cell `n` steps from actor `a` in direction `d`.
pub open spec fn target_x(a: Actor, d: Direction, n: int) -> int {
    a.x + step_x(d, n)
}

/// The cell `n` steps from actor `a` in direction `d`.
pub open spec fn target_y(a: Actor, d: Direction, n: int) -> int {
    a.y + step_y(d, n)
}

/// Whether the cell that `a`'s action aims at has coordinates within `i32`.
pub open spec fn action_fits(a: Actor) -> bool {
    match a.action {
        ActionType::Move(d, n) => in_i32(target_x(a, d, n as int)) && in_i32(target_y(a, d, n as int)),
        ActionType::Open(d) => in_i32(target_x(a, d, 1)) && in_i32(target_y(a, d, 1)),
        _ => true,
    }
}

/// What actor `index` runs into when it carries out its action: for a move,
/// whatever stands on the target cell; otherwise nothing.
pub open spec fn try_result(index: int, actors: Seq<Actor>, world: Seq<WorldTile>) -> Collision {
    let a = actors[index];
    match a.action {
        ActionType::Move(d, n) => if d is Nowhere {
            Collision::NoCollision
        } else {
            collision_at(target_x(a, d, n as int), target_y(a, d, n as int), actors, world)
        },
        _ => Collision::NoCollision,
    }
}

/// The actors after actor `index` carries out its action: a move onto a
/// free cell takes place, anything else leaves the actors as they are.
pub open spec fn actors_after_try(index: int, actors: Seq<Actor>, world: Seq<WorldTile>) -> Seq<Actor> {
    let a = actors[index];
    match a.action {
        ActionType::Move(d, n) => if !(d is Nowhere) && try_result(index, actors, world) is NoCollision {
            actors.update(index, placed(a, target_x(a, d, n as int), target_y(a, d, n as int)))
        } else {
            actors
        },
        _ => actors,
    }
}

/// The tile that actor `index` tries to open: the first tile on the cell
/// next to it in the direction of its open action.
pub open spec fn opened_tile(index: int, actors: Seq<Actor>, world: Seq<WorldTile>) -> Option<int> {
    let a = actors[index];
    match a.action {
        ActionType::Open(d) => if d is Nowhere {
            None
        } else {
            first_tile_from(world, target_x(a, d, 1), target_y(a, d, 1), 0)
        },
        _ => None,
    }
}

/// The world after actor `index` carries out its action: the tile it opens,
/// if any, is toggled.
pub open spec fn world_after_try(index: int, actors: Seq<Actor>, world: Seq<WorldTile>) -> Seq<WorldTile> {
    match opened_tile(index, actors, world) {
        Some(t) => world.update(t, WorldTile { tile: toggled(world[t].tile), ..world[t] }),
        None => world,
    }
}

/// The messages after actor `index` carries out its action: opening a tile
/// reports what happened to it.
pub open spec fn messages_after_try(index: int, actors: Seq<Actor>, world: Seq<WorldTile>, msgs: Seq<Seq<char>>) -> Seq<Seq<char>> {
    match opened_tile(index, actors, world) {
        Some(t) => msgs.push(toggle_message(world[t].tile)),
        None => msgs,
    }
}

/// Tells whether the cell that `a`'s action aims at has coordinates within
/// `i32`, so that `try_action` can carry it out.
pub fn action_fits_check(a: &Actor) -> (r: bool)
    ensures
        r == action_fits(*a),
{
    let (d, n) = match a.action {
        ActionType::Move(d, n) => (d, n as i64),
        ActionType::Open(d) => (d, 1i64),
        _ => {
            return true;
        },
    };
    let x = a.x as i64;
    let y = a.y as i64;
    let (tx, ty) = match d {
        Direction::Left => (x - n, y),
        Direction::Right => (x + n, y),
        Direction::Up => (x, y - n),
        Direction::Down => (x, y + n),
        Direction::Nowhere => (x, y),
    };
    i32::MIN as i64 <= tx && tx <= i32::MAX as i64 && i32::MIN as i64 <= ty && ty <= i32::MAX as i64
}

/// Carries out actor `index`'s action. A move goes ahead when nothing stands
/// on the target cell, and otherwise reports what is in the way. Opening
/// toggles the first tile on the neighbouring cell and logs a message.
pub fn try_action(
    index: usize,
    actors: &mut Vec<Actor>,
    world: &mut Vec<WorldTile>,
    debug_messages: &mut Vec<String>,
) -> (r: Collision)
    requires
        index < old(actors).len(),
        action_fits(old(actors)@[index as int]),
    ensures
        r == try_result(index as int, old(actors)@, old(world)@),
        final(actors)@ == actors_after_try(index as int, old(actors)@, old(world)@),
        final(world)@ == world_after_try(index as int, old(actors)@, old(world)@),
        texts(final(debug_messages)@) == messages_after_try(
            index as int,
            old(actors)@,
            old(world)@,
            texts(old(debug_messages)@),
        ),
{
    let a = actors[index];
    match a.action {
        ActionType::Move(direction, distance) => match direction {
            Direction::Up => {
                match check_collision_list(a.x, a.y - distance, actors, world) {
                    Collision::NoCollision => {
                        let mut b = a;
                        b.y = a.y - distance;
                        actors.set(index, b);
                    },
                    Collision::Collision(i, ctype) => {
                        return Collision::Collision(i, ctype);
                    },
                }
            },
            Direction::Down => {
                match check_collision_list(a.x, a.y + distance, actors, world) {
                    Collision::NoCollision => {
                        let mut b = a;
                        b.y = a.y + distance;
                        actors.set(index, b);
                    },
                    Collision::Collision(i, ctype) => {
                        return Collision::Collision(i, ctype);
                    },
                }
            },
            Direction::Left => {
                match check_collision_list(a.x - distance, a.y, actors, world) {
                    Collision::NoCollision => {
                        let mut b = a;
                        b.x = a.x - distance;
                        actors.set(index, b);
                    },
                    Collision::Collision(i, ctype) => {
                        return Collision::Collision(i, ctype);
                    },
                }
            },
            Direction::Right => {
                match check_collision_list(a.x + distance, a.y, actors, world) {
                    Collision::NoCollision => {
                        let mut b = a;
                        b.x = a.x + distance;
                        actors.set(index, b);
                    },
                    Collision::Collision(i, ctype) => {
                        return Collision::Collision(i, ctype);
                    },
                }
            },
            Direction::Nowhere => {},
        },
        ActionType::Open(direction) => {
            if direction == Direction::Nowhere {
                return Collision::NoCollision;
            }
            let (tx, ty) = match direction {
                Direction::Left => (a.x - 1, a.y),
                Direction::Right => (a.x + 1, a.y),
                Direction::Up => (a.x, a.y - 1),
                _ => (a.x, a.y + 1),
            };
            assert(tx == target_x(a, direction, 1) && ty == target_y(a, direction, 1));
            let found = check_world_tile_list(tx, ty, world);
            proof {
                lemma_first_tile_from(world@, tx as int, ty as int, 0);
            }
            match found {
                Collision::NoCollision => {
                    return Collision::NoCollision;
                },
                Collision::Collision(t, _) => {
                    let ghost fo = first_tile_from(world@, tx as int, ty as int, 0);
                    assert(fo is Some && fo->0 < world.len());
                    assert((fo->0) as usize == t);
                    assert(fo == Some(t as int));
                    let mut tile = world[t];
                    let (_, message) = world_tile_toggle_door(&mut tile);
                    world.set(t, tile);
                    let ghost old_msgs = debug_messages@;
                    debug_messages.push(message.to_string());
                    proof {
                        assert(texts(debug_messages@) =~= texts(old_msgs).push(message@));
                        assert(opened_tile(index as int, old(actors)@, old(world)@) == Some(t as int));
                    }
                },
            }
        },
        ActionType::Stand => {},
        ActionType::Idle => {},
    }
    Collision::NoCollision
}

} // verus!
