use vstd::prelude::*;
use crate::types::{Actor, Collision, CollisionType, TileType, WorldTile, actor_at};

verus! {

/// Walls and closed doors block movement; ground and open doors do not.
pub open spec fn is_solid(t: TileType) -> bool {
    t is Wall || t is ClosedDoor
}

/// Whether tile `t` lies on cell (x, y).
pub open spec fn tile_at(t: WorldTile, x: int, y: int) -> bool {
    t.x == x && t.y == y
}

/// Whether tile `t` lies on cell (x, y) and blocks movement.
pub open spec fn blocking_tile_at(t: WorldTile, x: int, y: int) -> bool {
    tile_at(t, x, y) && is_solid(t.tile)
}

/// The first index at or after `i` of an actor standing on (x, y).
pub open spec fn first_actor_from(actors: Seq<Actor>, x: int, y: int, i: nat) -> Option<int>
    decreases actors.len() - i,
{
    if i >= actors.len() {
        None
    } else if actor_at(actors[i as int], x, y) {
        Some(i as int)
    } else {
        first_actor_from(actors, x, y, i + 1)
    }
}

/// The first index at or after `i` of a tile on (x, y).
pub open spec fn first_tile_from(world: Seq<WorldTile>, x: int, y: int, i: nat) -> Option<int>
    decreases world.len() - i,
{
    if i >= world.len() {
        None
    } else if tile_at(world[i as int], x, y) {
        Some(i as int)
    } else {
        first_tile_from(world, x, y, i + 1)
    }
}

/// The first index at or after `i` of a blocking tile on (x, y).
pub open spec fn first_blocking_tile_from(world: Seq<WorldTile>, x: int, y: int, i: nat) -> Option<int>
    decreases world.len() - i,
{
    if i >= world.len() {
        None
    } else if blocking_tile_at(world[i as int], x, y) {
        Some(i as int)
    } else {
        first_blocking_tile_from(world, x, y, i + 1)
    }
}

/// What stands in the way on cell (x, y): the first actor there, else the
/// first blocking tile there, else nothing.
pub open spec fn collision_at(x: int, y: int, actors: Seq<Actor>, world: Seq<WorldTile>) -> Collision {
    match first_actor_from(actors, x, y, 0) {
        Some(i) => Collision::Collision(i as usize, CollisionType::Actor),
        None => match first_blocking_tile_from(world, x, y, 0) {
            Some(i) => Collision::Collision(i as usize, CollisionType::World),
            None => Collision::NoCollision,
        },
    }
}

/// What a tile becomes when someone tries to open it: doors swap state,
/// other tiles stay as they are.
pub open spec fn toggled(t: TileType) -> TileType {
    match t {
        TileType::OpenedDoor => TileType::ClosedDoor,
        TileType::ClosedDoor => TileType::OpenedDoor,
        _ => t,
    }
}

/// The message reported when someone tries to open a tile of kind `t`.
pub open spec fn toggle_message(t: TileType) -> Seq<char> {
    match t {
        TileType::OpenedDoor => "Closed a door."@,
        TileType::ClosedDoor => "Opened a door."@,
        _ => "Cannot open tile of this type!"@,
    }
}

/// Whether tile kind `t` is a door, open or closed.
pub open spec fn is_door(t: TileType) -> bool {
    t is OpenedDoor || t is ClosedDoor
}

/// The actor search finds the first actor on the cell at or after `i`, and
/// finds nothing exactly when no actor from `i` on stands there.
pub proof fn lemma_first_actor_from(actors: Seq<Actor>, x: int, y: int, i: nat)
    ensures
        match first_actor_from(actors, x, y, i) {
            Some(k) => i <= k < actors.len() && actor_at(actors[k], x, y)
                && forall|j: int| i <= j < k ==> !actor_at(#[trigger] actors[j], x, y),
            None => forall|j: int| i <= j < actors.len() ==> !actor_at(#[trigger] actors[j], x, y),
        },
    decreases actors.len() - i,
{
    if i < actors.len() && !actor_at(actors[i as int], x, y) {
        lemma_first_actor_from(actors, x, y, i + 1);
    }
}

/// The tile search finds the first tile on the cell at or after `i`, and
/// finds nothing exactly when no tile from `i` on lies there.
pub proof fn lemma_first_tile_from(world: Seq<WorldTile>, x: int, y: int, i: nat)
    ensures
        match first_tile_from(world, x, y, i) {
            Some(k) => i <= k < world.len() && tile_at(world[k], x, y)
                && forall|j: int| i <= j < k ==> !tile_at(#[trigger] world[j], x, y),
            None => forall|j: int| i <= j < world.len() ==> !tile_at(#[trigger] world[j], x, y),
        },
    decreases world.len() - i,
{
    if i < world.len() && !tile_at(world[i as int], x, y) {
        lemma_first_tile_from(world, x, y, i + 1);
    }
}

/// The blocking-tile search finds the first blocking tile on the cell at or
/// after `i`, and finds nothing exactly when none from `i` on lies there.
pub proof fn lemma_first_blocking_tile_from(world: Seq<WorldTile>, x: int, y: int, i: nat)
    ensures
        match first_blocking_tile_from(world, x, y, i) {
            Some(k) => i <= k < world.len() && blocking_tile_at(world[k], x, y)
                && forall|j: int| i <= j < k ==> !blocking_tile_at(#[trigger] world[j], x, y),
            None => forall|j: int| i <= j < world.len() ==> !blocking_tile_at(#[trigger] world[j], x, y),
        },
    decreases world.len() - i,
{
    if i < world.len() && !blocking_tile_at(world[i as int], x, y) {
        lemma_first_blocking_tile_from(world, x, y, i + 1);
    }
}

/// Tells whether a tile of this kind blocks movement.
pub fn world_tile_is_solid(world_tile_type: &TileType) -> (r: bool)
    ensures
        r == is_solid(*world_tile_type),
{
    match world_tile_type {
        TileType::Wall => {
            return true;
        },
        TileType::ClosedDoor => {
            return true;
        },
        TileType::OpenedDoor => {
            return false;
        },
        TileType::Ground => {
            return false;
        },
    }
}

/// Opens a closed door or closes an open one; other tiles are left alone.
/// Returns whether the tile was a door, and a message saying what happened.
pub fn world_tile_toggle_door(world_tile: &mut WorldTile) -> (r: (bool, &'static str))
    ensures
        *final(world_tile) == (WorldTile { tile: toggled(old(world_tile).tile), ..*old(world_tile) }),
        r.0 == is_door(old(world_tile).tile),
        r.1@ == toggle_message(old(world_tile).tile),
{
    match world_tile.tile {
        TileType::Wall | TileType::Ground => {
            return (false, "Cannot open tile of this type!");
        },
        TileType::OpenedDoor => {
            world_tile.tile = TileType::ClosedDoor;
            return (true, "Closed a door.");
        },
        TileType::ClosedDoor => {
            world_tile.tile = TileType::OpenedDoor;
            return (true, "Opened a door.");
        },
    }
}

/// Finds what would stop an actor from entering cell (x, y): the first actor
/// standing there, otherwise the first blocking tile there.
pub fn check_collision_list(x: i32, y: i32, actors: &Vec<Actor>, world: &Vec<WorldTile>) -> (r: Collision)
    ensures
        r == collision_at(x as int, y as int, actors@, world@),
{
    let mut ind: usize = 0;
    while ind < actors.len()
        invariant
            ind <= actors.len(),
            first_actor_from(actors@, x as int, y as int, 0) == first_actor_from(actors@, x as int, y as int, ind as nat),
        decreases actors.len() - ind,
    {
        if actors[ind].x == x && actors[ind].y == y {
            return Collision::Collision(ind, CollisionType::Actor);
        }
        ind = ind + 1;
    }
    let mut ind: usize = 0;
    while ind < world.len()
        invariant
            ind <= world.len(),
            first_actor_from(actors@, x as int, y as int, 0) is None,
            first_blocking_tile_from(world@, x as int, y as int, 0) == first_blocking_tile_from(world@, x as int, y as int, ind as nat),
        decreases world.len() - ind,
    {
        if world[ind].x == x && world[ind].y == y && world_tile_is_solid(&world[ind].tile) {
            return Collision::Collision(ind, CollisionType::World);
        }
        ind = ind + 1;
    }
    Collision::NoCollision
}

/// Finds the first tile on cell (x, y), whatever its kind.
pub fn check_world_tile_list(x: i32, y: i32, world: &Vec<WorldTile>) -> (r: Collision)
    ensures
        r == (match first_tile_from(world@, x as int, y as int, 0) {
            Some(i) => Collision::Collision(i as usize, CollisionType::World),
            None => Collision::NoCollision,
        }),
{
    let mut ind: usize = 0;
    while ind < world.len()
        invariant
            ind <= world.len(),
            first_tile_from(world@, x as int, y as int, 0) == first_tile_from(world@, x as int, y as int, ind as nat),
        decreases world.len() - ind,
    {
        if world[ind].x == x && world[ind].y == y {
            return Collision::Collision(ind, CollisionType::World);
        }
        ind = ind + 1;
    }
    Collision::NoCollision
}

/// The character code a tile kind is drawn with: '#' for a wall, '-' for
/// ground, '%' for a closed door, '_' for an open one.
pub open spec fn glyph(t: TileType) -> u32 {
    match t {
        TileType::Wall => 35,
        TileType::Ground => 45,
        TileType::ClosedDoor => 37,
        TileType::OpenedDoor => 95,
    }
}

/// The character code a tile of this kind is drawn with.
pub fn tile_glyph(t: TileType) -> (c: u32)
    ensures
        c == glyph(t),
{
    match t {
        TileType::Wall => 35,
        TileType::Ground => 45,
        TileType::ClosedDoor => 37,
        TileType::OpenedDoor => 95,
    }
}

} // verus!
