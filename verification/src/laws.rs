use vstd::prelude::*;
use crate::types::{Actor, ActionType, CollisionType, Direction, GlobalStateMod, TileType, WorldTile, actor_at,
    in_i32, placed, with_action};
use crate::world::{blocking_tile_at, collision_at, first_actor_from, first_blocking_tile_from, is_door,
    is_solid, lemma_first_actor_from, lemma_first_blocking_tile_from, toggled};
use crate::actor::undone;
use crate::act::{action_fits, actors_after_try, messages_after_try, world_after_try, target_x, target_y, try_result};
use crate::decide::{Decision, KEY_QUIT, PlayerInput, decided_action, decision_result, direction_toward};
use crate::update::{last_five, resolve_all, resolve_fits, resolve_step, settle_count, settle_pass, settle_pass_upto,
    settle_rounds, settle_visit, settled, settles, settles_within, survivors, pass_fits_upto, lemma_clean_pass_upto_unchanged,
    lemma_rounds_stable};

verus! {

/// No two actors stand on the same cell.
pub open spec fn cells_distinct(s: Seq<Actor>) -> bool {
    forall|i: int, j: int| 0 <= i < j < s.len() ==> !actor_at(#[trigger] s[i], s[j].x as int, #[trigger] s[j].y as int)
}

/// `t` holds the same actors as `s`, on the same cells, in the same order.
pub open spec fn same_cells(s: Seq<Actor>, t: Seq<Actor>) -> bool {
    &&& s.len() == t.len()
    &&& forall|i: int| 0 <= i < s.len() ==> (#[trigger] t[i]).x == s[i].x && t[i].y == s[i].y
}

/// Taking back a move that was carried out puts the actor back where it stood.
pub proof fn law_undo_reverses_move(a: Actor, d: Direction, n: i32)
    requires
        a.action == ActionType::Move(d, n),
        n >= 1,
        in_i32(target_x(a, d, n as int)),
        in_i32(target_y(a, d, n as int)),
    ensures
        undone(placed(a, target_x(a, d, n as int), target_y(a, d, n as int))) == a,
{
}

/// Taking back anything but a move of at least one step changes nothing.
pub proof fn law_undo_only_moves(a: Actor)
    requires
        !(a.action matches ActionType::Move(_, n) && n >= 1),
    ensures
        undone(a) == a,
{
}

/// Toggling a tile twice restores it, and toggling changes whether it
/// blocks exactly when it is a door.
pub proof fn law_toggle_twice(t: TileType)
    ensures
        toggled(toggled(t)) == t,
        is_solid(toggled(t)) != is_solid(t) <==> is_door(t),
{
}

/// A move that goes ahead ends on a cell where no actor stood and no
/// blocking tile lies; a move that is refused names the first actor on the
/// target cell, or, when there is none, the first blocking tile there.
pub proof fn law_move_lands_on_free_cell(index: int, actors: Seq<Actor>, world: Seq<WorldTile>, d: Direction, n: i32)
    requires
        0 <= index < actors.len(),
        actors.len() <= usize::MAX,
        world.len() <= usize::MAX,
        actors[index].action == ActionType::Move(d, n),
        !(d is Nowhere),
    ensures
        ({
            let tx = target_x(actors[index], d, n as int);
            let ty = target_y(actors[index], d, n as int);
            match try_result(index, actors, world) {
                crate::types::Collision::NoCollision => {
                    &&& forall|j: int| 0 <= j < actors.len() ==> !actor_at(#[trigger] actors[j], tx, ty)
                    &&& forall|t: int| 0 <= t < world.len() ==> !blocking_tile_at(#[trigger] world[t], tx, ty)
                },
                crate::types::Collision::Collision(k, CollisionType::Actor) => {
                    &&& k < actors.len()
                    &&& actor_at(actors[k as int], tx, ty)
                    &&& forall|j: int| 0 <= j < k ==> !actor_at(#[trigger] actors[j], tx, ty)
                },
                crate::types::Collision::Collision(k, CollisionType::World) => {
                    &&& k < world.len()
                    &&& blocking_tile_at(world[k as int], tx, ty)
                    &&& forall|j: int| 0 <= j < actors.len() ==> !actor_at(#[trigger] actors[j], tx, ty)
                    &&& forall|t: int| 0 <= t < k ==> !blocking_tile_at(#[trigger] world[t], tx, ty)
                },
            }
        }),
{
    let tx = target_x(actors[index], d, n as int);
    let ty = target_y(actors[index], d, n as int);
    lemma_first_actor_from(actors, tx, ty, 0);
    lemma_first_blocking_tile_from(world, tx, ty, 0);
    assert(try_result(index, actors, world) == collision_at(tx, ty, actors, world));
    match first_actor_from(actors, tx, ty, 0) {
        Some(k) => {
            assert((k as usize) as int == k);
        },
        None => {
            match first_blocking_tile_from(world, tx, ty, 0) {
                Some(k) => {
                    assert((k as usize) as int == k);
                },
                None => {},
            }
        },
    }
}

/// Carrying out an action moves at most the acting actor.
pub proof fn law_try_touches_only_actor(index: int, actors: Seq<Actor>, world: Seq<WorldTile>)
    requires
        0 <= index < actors.len(),
    ensures
        actors_after_try(index, actors, world).len() == actors.len(),
        forall|j: int| 0 <= j < actors.len() && j != index ==> #[trigger] actors_after_try(index, actors, world)[j] == actors[j],
{
}

/// Only the quit key ends the game.
pub proof fn law_only_quit_key_quits(actors: Seq<Actor>, index: int, input: PlayerInput)
    ensures
        decision_result(actors, index, input) == Decision::Decided(GlobalStateMod::Quit)
            <==> input == PlayerInput::FirstKey(KEY_QUIT),
{
}

/// A step in the direction a robot heads brings it one cell closer to its
/// target (counting steps along rows and columns); it heads nowhere only
/// when it already shares the target's cell.
pub proof fn law_heading_closes_in(me: Actor, target: Actor)
    ensures
        ({
            let d = direction_toward(me, target);
            let dist = |a: int, b: int| if a >= b { a - b } else { b - a };
            &&& d is Nowhere <==> actor_at(target, me.x as int, me.y as int)
            &&& !(d is Nowhere) ==> dist(target_x(me, d, 1), target.x as int) + dist(target_y(me, d, 1), target.y as int)
                == dist(me.x as int, target.x as int) + dist(me.y as int, target.y as int) - 1
        }),
{
}

/// A pass that finds no clash has every actor first on its own cell.
proof fn lemma_clean_pass_first_on_cell(s: Seq<Actor>, k: nat)
    requires
        k <= s.len(),
        settle_pass_upto(s, k).1,
    ensures
        forall|i: int| 0 <= i < k ==> first_actor_from(s, (#[trigger] s[i]).x as int, s[i].y as int, 0) == Some(i),
    decreases k,
{
    if k > 0 {
        lemma_clean_pass_first_on_cell(s, (k - 1) as nat);
        lemma_clean_pass_upto_unchanged(s, (k - 1) as nat);
        let i = k - 1;
        lemma_first_actor_from(s, s[i].x as int, s[i].y as int, 0);
    }
}

/// Once the actors are at rest, a further pass finds no clash and changes
/// nothing, and no two of them share a cell.
pub proof fn law_rest_is_stable(actors: Seq<Actor>)
    requires
        settles(actors),
    ensures
        settle_pass(settled(actors)) == (settled(actors), true),
        cells_distinct(settled(actors)),
{
    let s = settled(actors);
    lemma_clean_pass_upto_unchanged(s, s.len());
    lemma_clean_pass_first_on_cell(s, s.len());
    assert forall|i: int, j: int| 0 <= i < j < s.len() implies !actor_at(#[trigger] s[i], s[j].x as int, #[trigger] s[j].y as int) by {
        assert(first_actor_from(s, s[j].x as int, s[j].y as int, 0) == Some(j));
        lemma_first_actor_from(s, s[j].x as int, s[j].y as int, 0);
    }
}

/// Fights change health only: every actor keeps its cell.
pub proof fn law_fights_keep_cells(actors: Seq<Actor>, list: Seq<(usize, usize, CollisionType)>)
    requires
        resolve_fits(actors, list),
    ensures
        same_cells(actors, resolve_all(actors, list).0),
    decreases list.len(),
{
    if list.len() > 0 {
        let step = resolve_step(actors, list[0]);
        law_fights_keep_cells(step.0, list.drop_first());
    }
}

/// Every survivor is one of the actors, and they come in the same order.
proof fn lemma_survivors_from(s: Seq<Actor>)
    ensures
        survivors(s).len() <= s.len(),
        forall|k: int| 0 <= k < survivors(s).len() ==> exists|i: int| 0 <= i < s.len() && #[trigger] survivors(s)[k] == s[i],
    decreases s.len(),
{
    if s.len() > 0 {
        lemma_survivors_from(s.drop_last());
        let r = survivors(s.drop_last());
        assert forall|k: int| 0 <= k < survivors(s).len() implies exists|i: int| 0 <= i < s.len() && #[trigger] survivors(s)[k] == s[i] by {
            if k < r.len() {
                let i = choose|i: int| 0 <= i < s.drop_last().len() && r[k] == s.drop_last()[i];
                assert(survivors(s)[k] == s[i]);
            } else {
                assert(survivors(s)[k] == s[s.len() - 1]);
            }
        }
    }
}

/// Removing the dead keeps actors on distinct cells, and leaves none without health.
pub proof fn law_survivors(s: Seq<Actor>)
    ensures
        forall|k: int| 0 <= k < survivors(s).len() ==> (#[trigger] survivors(s)[k]).health != 0,
        cells_distinct(s) ==> cells_distinct(survivors(s)),
    decreases s.len(),
{
    if s.len() > 0 {
        let p = s.drop_last();
        law_survivors(p);
        lemma_survivors_from(p);
        if cells_distinct(s) {
            assert(cells_distinct(p));
            let r = survivors(p);
            if s.last().health != 0 {
                assert forall|i: int, j: int| 0 <= i < j < survivors(s).len() implies !actor_at(#[trigger] survivors(s)[i], survivors(s)[j].x as int, #[trigger] survivors(s)[j].y as int) by {
                    if j < r.len() {
                        assert(survivors(s)[i] == r[i] && survivors(s)[j] == r[j]);
                    } else {
                        let ii = choose|ii: int| 0 <= ii < p.len() && #[trigger] r[i] == p[ii];
                        assert(survivors(s)[i] == s[ii]);
                        assert(survivors(s)[j] == s[s.len() - 1]);
                    }
                }
            }
        }
    }
}

/// After a round ends, no two actors share a cell and every actor has
/// health left.
pub proof fn law_round_ends_apart(actors: Seq<Actor>, list: Seq<(usize, usize, CollisionType)>)
    requires
        settles(actors),
        resolve_fits(settled(actors), list),
    ensures
        cells_distinct(survivors(resolve_all(settled(actors), list).0)),
        forall|k: int| 0 <= k < survivors(resolve_all(settled(actors), list).0).len()
            ==> (#[trigger] survivors(resolve_all(settled(actors), list).0)[k]).health != 0,
{
    let s = settled(actors);
    law_rest_is_stable(actors);
    law_fights_keep_cells(s, list);
    let f = resolve_all(s, list).0;
    assert forall|i: int, j: int| 0 <= i < j < f.len() implies !actor_at(#[trigger] f[i], f[j].x as int, #[trigger] f[j].y as int) by {
        assert(!actor_at(s[i], s[j].x as int, s[j].y as int));
    }
    law_survivors(f);
}

/// The log keeps at most five lines, and the newest ones.
pub proof fn law_log_keeps_last_five(s: Seq<Seq<char>>)
    ensures
        last_five(s).len() <= 5,
        s.len() <= 5 ==> last_five(s) == s,
        s.len() > 5 ==> last_five(s).len() == 5,
        forall|k: int| 0 <= k < last_five(s).len() ==> #[trigger] last_five(s)[k] == s[s.len() - last_five(s).len() + k],
{
}

/// Carrying out an action never brings two actors onto one cell.
pub proof fn law_try_keeps_apart(index: int, actors: Seq<Actor>, world: Seq<WorldTile>)
    requires
        0 <= index < actors.len(),
        actors.len() <= usize::MAX,
        world.len() <= usize::MAX,
        action_fits(actors[index]),
        cells_distinct(actors),
    ensures
        cells_distinct(actors_after_try(index, actors, world)),
{
    let a = actors[index];
    let after = actors_after_try(index, actors, world);
    if let ActionType::Move(d, n) = a.action {
        if !(d is Nowhere) {
            law_move_lands_on_free_cell(index, actors, world, d, n);
        }
    }
    assert forall|i: int, j: int| 0 <= i < j < after.len() implies !actor_at(#[trigger] after[i], after[j].x as int, #[trigger] after[j].y as int) by {
        assert(!actor_at(actors[i], actors[j].x as int, actors[j].y as int));
        if i == index && after[i] != actors[i] {
            assert(!actor_at(actors[j], after[i].x as int, after[i].y as int));
        }
        if j == index && after[j] != actors[j] {
            assert(!actor_at(actors[i], after[j].x as int, after[j].y as int));
        }
    }
}

/// Deciding an action never moves anyone.
pub proof fn law_decide_keeps_cells(actors: Seq<Actor>, index: int, act: ActionType)
    requires
        0 <= index < actors.len(),
    ensures
        same_cells(actors, actors.update(index, with_action(actors[index], act))),
{
}

/// A pass over actors on distinct cells finds no clash and changes nothing.
proof fn lemma_apart_pass_clean(s: Seq<Actor>, k: nat)
    requires
        k <= s.len(),
        cells_distinct(s),
    ensures
        settle_pass_upto(s, k) == (s, true),
        pass_fits_upto(s, k),
    decreases k,
{
    if k > 0 {
        lemma_apart_pass_clean(s, (k - 1) as nat);
        let i = k - 1;
        lemma_first_actor_from(s, s[i].x as int, s[i].y as int, 0);
        match first_actor_from(s, s[i].x as int, s[i].y as int, 0) {
            Some(j) => {
                if j < i {
                    assert(!actor_at(s[j], s[i].x as int, s[i].y as int));
                }
            },
            None => {},
        }
    }
}

/// Actors on distinct cells are already at rest: separating them does nothing.
pub proof fn law_apart_actors_at_rest(s: Seq<Actor>)
    requires
        cells_distinct(s),
    ensures
        settles(s),
        settled(s) == s,
{
    lemma_apart_pass_clean(s, s.len());
    assert(settle_rounds(s, 0) == s);
    assert(settles_within(s, 0));
    let m = settle_count(s);
    lemma_rounds_stable(s, 0, m);
}

/// The cell `n` steps from `a` in direction `d`: up and down change the row
/// (rows grow downwards), left and right the column.
pub open spec fn cell_ahead(a: Actor, d: Direction, n: int) -> (int, int) {
    match d {
        Direction::Up => (a.x as int, a.y - n),
        Direction::Down => (a.x as int, a.y + n),
        Direction::Left => (a.x - n, a.y as int),
        Direction::Right => (a.x + n, a.y as int),
        Direction::Nowhere => (a.x as int, a.y as int),
    }
}

/// Whether no actor stands on (x, y) and no wall or closed door lies there.
pub open spec fn cell_free(actors: Seq<Actor>, world: Seq<WorldTile>, x: int, y: int) -> bool {
    &&& forall|j: int| 0 <= j < actors.len() ==> !((#[trigger] actors[j]).x == x && actors[j].y == y)
    &&& forall|t: int| 0 <= t < world.len() ==> !((#[trigger] world[t]).x == x && world[t].y == y
        && (world[t].tile is Wall || world[t].tile is ClosedDoor))
}

/// A move in a direction goes ahead exactly when its target cell is free,
/// and then the actor ends on that cell, everything else unchanged; when
/// the cell is taken, a collision is reported and no one moves. A move
/// neither changes the world nor logs anything.
pub proof fn law_move_outcome(
    index: int,
    actors: Seq<Actor>,
    world: Seq<WorldTile>,
    msgs: Seq<Seq<char>>,
    d: Direction,
    n: i32,
)
    requires
        0 <= index < actors.len(),
        actors.len() <= usize::MAX,
        world.len() <= usize::MAX,
        actors[index].action == ActionType::Move(d, n),
        !(d is Nowhere),
        in_i32(cell_ahead(actors[index], d, n as int).0),
        in_i32(cell_ahead(actors[index], d, n as int).1),
    ensures
        ({
            let a = actors[index];
            let (tx, ty) = cell_ahead(a, d, n as int);
            &&& cell_free(actors, world, tx, ty) ==> {
                &&& try_result(index, actors, world) == crate::types::Collision::NoCollision
                &&& actors_after_try(index, actors, world) == actors.update(
                    index,
                    Actor { x: tx as i32, y: ty as i32, ..a },
                )
            }
            &&& !cell_free(actors, world, tx, ty) ==> {
                &&& try_result(index, actors, world) is Collision
                &&& actors_after_try(index, actors, world) == actors
            }
            &&& world_after_try(index, actors, world) == world
            &&& messages_after_try(index, actors, world, msgs) == msgs
        }),
{
    let a = actors[index];
    let (tx, ty) = cell_ahead(a, d, n as int);
    assert(target_x(a, d, n as int) == tx && target_y(a, d, n as int) == ty);
    law_move_lands_on_free_cell(index, actors, world, d, n);
    lemma_first_actor_from(actors, tx, ty, 0);
    lemma_first_blocking_tile_from(world, tx, ty, 0);
    if !cell_free(actors, world, tx, ty) {
        if exists|j: int| 0 <= j < actors.len() && (#[trigger] actors[j]).x == tx && actors[j].y == ty {
            let j = choose|j: int| 0 <= j < actors.len() && (#[trigger] actors[j]).x == tx && actors[j].y == ty;
            assert(actor_at(actors[j], tx, ty));
        } else {
            let t = choose|t: int| 0 <= t < world.len() && (#[trigger] world[t]).x == tx && world[t].y == ty
                && (world[t].tile is Wall || world[t].tile is ClosedDoor);
            assert(blocking_tile_at(world[t], tx, ty));
        }
    } else {
        assert forall|j: int| 0 <= j < actors.len() implies !actor_at(#[trigger] actors[j], tx, ty) by {
            assert(!(actors[j].x == tx && actors[j].y == ty));
        }
        assert forall|t: int| 0 <= t < world.len() implies !blocking_tile_at(#[trigger] world[t], tx, ty) by {
            assert(!(world[t].x == tx && world[t].y == ty && (world[t].tile is Wall || world[t].tile is ClosedDoor)));
        }
    }
}

/// Opening in a direction works on the first tile of the cell next to the
/// actor: a closed door there opens ("Opened a door."), an open door closes
/// ("Closed a door."), any other tile stays and the refusal "Cannot open
/// tile of this type!" is logged; with no tile there nothing happens. No
/// actor moves and no collision is reported.
pub proof fn law_open_outcome(index: int, actors: Seq<Actor>, world: Seq<WorldTile>, msgs: Seq<Seq<char>>, d: Direction)
    requires
        0 <= index < actors.len(),
        actors[index].action == ActionType::Open(d),
        !(d is Nowhere),
    ensures
        ({
            let (tx, ty) = cell_ahead(actors[index], d, 1);
            &&& try_result(index, actors, world) == crate::types::Collision::NoCollision
            &&& actors_after_try(index, actors, world) == actors
            &&& (forall|t: int| 0 <= t < world.len() ==> !((#[trigger] world[t]).x == tx && world[t].y == ty)) ==> {
                &&& world_after_try(index, actors, world) == world
                &&& messages_after_try(index, actors, world, msgs) == msgs
            }
            &&& forall|k: int|
                0 <= k < world.len() && (#[trigger] world[k]).x == tx && world[k].y == ty
                    && (forall|j: int| 0 <= j < k ==> !((#[trigger] world[j]).x == tx && world[j].y == ty))
                ==> {
                    &&& world_after_try(index, actors, world) == world.update(k, WorldTile {
                        tile: match world[k].tile {
                            TileType::ClosedDoor => TileType::OpenedDoor,
                            TileType::OpenedDoor => TileType::ClosedDoor,
                            other => other,
                        },
                        ..world[k]
                    })
                    &&& messages_after_try(index, actors, world, msgs) == msgs.push(match world[k].tile {
                        TileType::ClosedDoor => "Opened a door."@,
                        TileType::OpenedDoor => "Closed a door."@,
                        _ => "Cannot open tile of this type!"@,
                    })
                }
        }),
{
    let a = actors[index];
    let (tx, ty) = cell_ahead(a, d, 1);
    assert(target_x(a, d, 1) == tx && target_y(a, d, 1) == ty);
    crate::world::lemma_first_tile_from(world, tx, ty, 0);
    assert forall|k: int|
        0 <= k < world.len() && (#[trigger] world[k]).x == tx && world[k].y == ty
            && (forall|j: int| 0 <= j < k ==> !((#[trigger] world[j]).x == tx && world[j].y == ty))
    implies crate::world::first_tile_from(world, tx, ty, 0) == Some(k) by {
        match crate::world::first_tile_from(world, tx, ty, 0) {
            Some(m) => {
                if m < k {
                    assert(!(world[m].x == tx && world[m].y == ty));
                } else if m > k {
                    assert(!crate::world::tile_at(world[k], tx, ty));
                }
            },
            None => {
                assert(!crate::world::tile_at(world[k], tx, ty));
            },
        }
    }
    assert((forall|t: int| 0 <= t < world.len() ==> !((#[trigger] world[t]).x == tx && world[t].y == ty))
        ==> crate::world::first_tile_from(world, tx, ty, 0) is None) by {
        if crate::world::first_tile_from(world, tx, ty, 0) is Some {
            let m = crate::world::first_tile_from(world, tx, ty, 0)->0;
            assert(crate::world::tile_at(world[m], tx, ty));
        }
    }
}

/// The second key of an open command names the same direction as that key
/// does as a move: for an actor whose command is being read (its action
/// cleared), the second key `k` opens towards `d` exactly when `k` as a
/// first key moves one step towards `d`.
pub proof fn law_open_key_matches_move_key(actors: Seq<Actor>, index: int, k: i32, d: Direction)
    requires
        0 <= index < actors.len(),
        actors[index].action == ActionType::Idle,
    ensures
        decided_action(actors, index, PlayerInput::SecondKey(k)) == ActionType::Open(d)
            <==> decided_action(actors, index, PlayerInput::FirstKey(k)) == ActionType::Move(d, 1),
{
}

/// The movement keys: 'h' left, 'j' down, 'k' up, 'l' right, each one step;
/// after 'o' the same keys open in the same directions.
pub proof fn law_movement_keys(actors: Seq<Actor>, index: int)
    requires
        0 <= index < actors.len(),
    ensures
        decided_action(actors, index, PlayerInput::FirstKey(104)) == ActionType::Move(Direction::Left, 1),
        decided_action(actors, index, PlayerInput::FirstKey(106)) == ActionType::Move(Direction::Down, 1),
        decided_action(actors, index, PlayerInput::FirstKey(107)) == ActionType::Move(Direction::Up, 1),
        decided_action(actors, index, PlayerInput::FirstKey(108)) == ActionType::Move(Direction::Right, 1),
        decided_action(actors, index, PlayerInput::SecondKey(104)) == ActionType::Open(Direction::Left),
        decided_action(actors, index, PlayerInput::SecondKey(106)) == ActionType::Open(Direction::Down),
        decided_action(actors, index, PlayerInput::SecondKey(107)) == ActionType::Open(Direction::Up),
        decided_action(actors, index, PlayerInput::SecondKey(108)) == ActionType::Open(Direction::Right),
{
}

/// A logged fight in which either side has no health left changes no actor
/// and logs nothing. A fight between two living actors costs the one hit
/// exactly the attacker's attack, changes no one else, and logs both
/// healths afterwards. A bump into the world changes no actor and logs the
/// two indices.
pub proof fn law_fight_outcome(actors: Seq<Actor>, c: (usize, usize, CollisionType))
    requires
        c.0 < actors.len(),
    ensures
        c.2 is Actor && actors[c.0 as int].health == 0 ==> resolve_step(actors, c) == (actors, None::<Seq<char>>),
        c.2 is Actor && c.1 < actors.len() && actors[c.1 as int].health == 0 ==> resolve_step(actors, c) == (
            actors,
            None::<Seq<char>>,
        ),
        c.2 is Actor && c.1 < actors.len() && actors[c.0 as int].health != 0 && actors[c.1 as int].health != 0
            && actors[c.0 as int].attack <= actors[c.1 as int].health ==> {
            let h1 = actors[c.1 as int].health - actors[c.0 as int].attack;
            let h0 = if c.0 == c.1 { h1 } else { actors[c.0 as int].health as int };
            &&& resolve_step(actors, c).0.len() == actors.len()
            &&& resolve_step(actors, c).0[c.1 as int].health == h1
            &&& resolve_step(actors, c).0[c.1 as int] == (Actor { health: h1 as u8, ..actors[c.1 as int] })
            &&& forall|j: int| 0 <= j < actors.len() && j != c.1 ==> #[trigger] resolve_step(actors, c).0[j] == actors[j]
            &&& resolve_step(actors, c).1 == Some(crate::text::actor_collision_text(c.0 as nat, c.1 as nat, h0 as nat, h1 as nat))
        },
        c.2 is World ==> resolve_step(actors, c) == (actors, Some(crate::text::world_collision_text(c.0 as nat, c.1 as nat))),
{
}

/// Removing the dead keeps everyone when no one is dead, drops a dead
/// actor without touching the others, and works piece by piece: the
/// survivors of two lists one after the other are the survivors of each.
pub proof fn law_survivors_keep_the_living(s: Seq<Actor>, t: Seq<Actor>, a: Actor)
    ensures
        (forall|j: int| 0 <= j < s.len() ==> #[trigger] s[j].health != 0) ==> survivors(s) == s,
        survivors(seq![a]) == (if a.health == 0 { Seq::<Actor>::empty() } else { seq![a] }),
        survivors(s + t) == survivors(s) + survivors(t),
    decreases t.len(),
{
    if forall|j: int| 0 <= j < s.len() ==> #[trigger] s[j].health != 0 {
        crate::update::lemma_survivors_all_alive(s);
    }
    assert(seq![a].drop_last() =~= Seq::<Actor>::empty());
    assert(survivors(Seq::<Actor>::empty()) == Seq::<Actor>::empty());
    assert(seq![a].last() == a);
    assert(Seq::<Actor>::empty().push(a) =~= seq![a]);
    if t.len() == 0 {
        assert(s + t =~= s);
        assert(survivors(t) =~= t);
        assert(survivors(s) + survivors(t) =~= survivors(s));
    } else {
        law_survivors_keep_the_living(s, t.drop_last(), a);
        assert((s + t).drop_last() =~= s + t.drop_last());
        assert((s + t).last() == t.last());
        if t.last().health != 0 {
            assert(survivors(s) + survivors(t.drop_last()).push(t.last()) =~= (survivors(s) + survivors(t.drop_last())).push(t.last()));
        }
    }
}

/// Logged collisions take effect one after the other: the effect of two
/// lists in turn is the effect of the first, then of the second on what the
/// first left, with their log lines in that order; a single one has the
/// effect of its step.
pub proof fn law_fights_in_order(
    actors: Seq<Actor>,
    l1: Seq<(usize, usize, CollisionType)>,
    l2: Seq<(usize, usize, CollisionType)>,
    c: (usize, usize, CollisionType),
)
    ensures
        ({
            let first = resolve_all(actors, l1);
            let second = resolve_all(first.0, l2);
            resolve_all(actors, l1 + l2) == (second.0, first.1 + second.1)
        }),
        resolve_all(actors, seq![c]) == (resolve_step(actors, c).0, match resolve_step(actors, c).1 {
            Some(t) => seq![t],
            None => Seq::<Seq<char>>::empty(),
        }),
    decreases l1.len(),
{
    assert(seq![c].drop_first() =~= Seq::<(usize, usize, CollisionType)>::empty());
    let s = resolve_step(actors, c);
    assert(resolve_all(s.0, Seq::<(usize, usize, CollisionType)>::empty()).1 =~= Seq::<Seq<char>>::empty());
    match s.1 {
        Some(t) => { assert(seq![t] + Seq::<Seq<char>>::empty() =~= seq![t]); },
        None => {},
    }
    if l1.len() == 0 {
        assert(l1 + l2 =~= l2);
        assert(resolve_all(actors, l1).1 + resolve_all(actors, l2).1 =~= resolve_all(actors, l2).1);
    } else {
        let step = resolve_step(actors, l1[0]);
        law_fights_in_order(step.0, l1.drop_first(), l2, c);
        assert((l1 + l2).drop_first() =~= l1.drop_first() + l2);
        assert((l1 + l2)[0] == l1[0]);
        let r1 = resolve_all(step.0, l1.drop_first());
        let r2 = resolve_all(r1.0, l2);
        match step.1 {
            Some(t) => {
                assert(seq![t] + (r1.1 + r2.1) =~= (seq![t] + r1.1) + r2.1);
            },
            None => {},
        }
    }
}

/// The visit of actor `i` in a separating pass looks for the first actor
/// `j` on its cell. When that is `i` itself nothing changes. Otherwise the
/// actors clash: the one with the higher moveability takes back its move,
/// on a tie both do, and no other actor changes.
pub proof fn law_visit_outcome(s: Seq<Actor>, i: int, j: int)
    requires
        0 <= j <= i < s.len(),
        s[j].x == s[i].x && s[j].y == s[i].y,
        forall|l: int| 0 <= l < j ==> !((#[trigger] s[l]).x == s[i].x && s[l].y == s[i].y),
    ensures
        j == i ==> settle_visit(s, i) == (s, false),
        j < i && s[i].moveability > s[j].moveability ==> settle_visit(s, i) == (s.update(i, undone(s[i])), true),
        j < i && s[i].moveability < s[j].moveability ==> settle_visit(s, i) == (s.update(j, undone(s[j])), true),
        j < i && s[i].moveability == s[j].moveability ==> settle_visit(s, i) == (
            s.update(i, undone(s[i])).update(j, undone(s[j])),
            true,
        ),
{
    lemma_first_actor_from(s, s[i].x as int, s[i].y as int, 0);
    match first_actor_from(s, s[i].x as int, s[i].y as int, 0) {
        Some(m) => {
            if m < j {
                assert(!(s[m].x == s[i].x && s[m].y == s[i].y));
            } else if m > j {
                assert(!actor_at(s[j], s[i].x as int, s[i].y as int));
            }
        },
        None => {
            assert(!actor_at(s[j], s[i].x as int, s[i].y as int));
        },
    }
}

/// At the start of its turn an actor's action is cleared: a player then
/// waits for a key, a passive actor stays idle, and a robot moves one step
/// towards the first player in the list (nowhere when there is none).
pub proof fn law_start_of_turn(actors: Seq<Actor>, index: int, p: int)
    requires
        0 <= index < actors.len(),
    ensures
        actors[index].kind is Player ==> decided_action(actors, index, PlayerInput::Start) == ActionType::Idle
            && decision_result(actors, index, PlayerInput::Start) == Decision::NeedFirstKey,
        actors[index].kind is Passive ==> decided_action(actors, index, PlayerInput::Start) == ActionType::Idle
            && decision_result(actors, index, PlayerInput::Start) == Decision::Decided(GlobalStateMod::Proceed),
        actors[index].kind is Robot ==> decision_result(actors, index, PlayerInput::Start) == Decision::Decided(
            GlobalStateMod::Proceed,
        ),
        actors[index].kind is Robot && (forall|l: int| 0 <= l < actors.len() ==> !((#[trigger] actors[l]).kind is Player))
            ==> decided_action(actors, index, PlayerInput::Start) == ActionType::Move(Direction::Nowhere, 1),
        actors[index].kind is Robot && 0 <= p < actors.len() && actors[p].kind is Player
            && (forall|l: int| 0 <= l < p ==> !((#[trigger] actors[l]).kind is Player))
            ==> decided_action(actors, index, PlayerInput::Start) == ActionType::Move(
                direction_toward(actors[index], actors[p]),
                1,
            ),
{
    lemma_first_player_from(actors, 0);
    match crate::decide::first_player_from(actors, 0) {
        Some(m) => {
            if 0 <= p < actors.len() && actors[p].kind is Player && (forall|l: int| 0 <= l < p ==> !((#[trigger] actors[l]).kind is Player)) {
                if m < p {
                    assert(!(actors[m].kind is Player));
                } else if m > p {
                    assert(!(actors[p].kind is Player));
                }
            }
        },
        None => {},
    }
}

/// The player search finds the first player at or after `i`, and finds
/// nothing exactly when there is none from `i` on.
proof fn lemma_first_player_from(actors: Seq<Actor>, i: nat)
    ensures
        match crate::decide::first_player_from(actors, i) {
            Some(k) => i <= k < actors.len() && actors[k].kind is Player
                && forall|j: int| i <= j < k ==> !((#[trigger] actors[j]).kind is Player),
            None => forall|j: int| i <= j < actors.len() ==> !((#[trigger] actors[j]).kind is Player),
        },
    decreases actors.len() - i,
{
    if i < actors.len() && !(actors[i as int].kind is Player) {
        lemma_first_player_from(actors, i + 1);
    }
}

/// A player's keys: 'q' quits, 'o' waits for a direction key, any other
/// first key and any second key end the decision.
pub proof fn law_key_decisions(actors: Seq<Actor>, index: int, k: i32)
    ensures
        decision_result(actors, index, PlayerInput::FirstKey(k)) == (if k == 113 {
            Decision::Decided(GlobalStateMod::Quit)
        } else if k == 111 {
            Decision::NeedSecondKey
        } else {
            Decision::Decided(GlobalStateMod::Proceed)
        }),
        decision_result(actors, index, PlayerInput::SecondKey(k)) == Decision::Decided(GlobalStateMod::Proceed),
        !(k == 104 || k == 106 || k == 107 || k == 108) ==> decided_action(actors, index, PlayerInput::FirstKey(k))
            == actors[index].action && decided_action(actors, index, PlayerInput::SecondKey(k)) == actors[index].action,
{
}

/// Standing, idling and moving or opening towards no direction do nothing:
/// no collision, no one moves, the world and the log stay as they are.
pub proof fn law_idle_actions(index: int, actors: Seq<Actor>, world: Seq<WorldTile>, msgs: Seq<Seq<char>>)
    requires
        0 <= index < actors.len(),
        actors[index].action is Stand || actors[index].action is Idle
            || actors[index].action matches ActionType::Move(Direction::Nowhere, _)
            || actors[index].action == ActionType::Open(Direction::Nowhere),
    ensures
        try_result(index, actors, world) == crate::types::Collision::NoCollision,
        actors_after_try(index, actors, world) == actors,
        world_after_try(index, actors, world) == world,
        messages_after_try(index, actors, world, msgs) == msgs,
{
}

/// A step of a round feeds the current actor's decision the start of its
/// turn when no key is awaited, and the key read otherwise, as a first or
/// second key according to what is awaited.
pub proof fn law_turn_feeds_keys(index: usize, key: i32)
    ensures
        crate::turn::turn_input(crate::turn::Turn { index, pending: crate::turn::Pending::Nothing }, key) == PlayerInput::Start,
        crate::turn::turn_input(crate::turn::Turn { index, pending: crate::turn::Pending::FirstKey }, key) == PlayerInput::FirstKey(key),
        crate::turn::turn_input(crate::turn::Turn { index, pending: crate::turn::Pending::SecondKey }, key) == PlayerInput::SecondKey(key),
{
}

} // verus!
