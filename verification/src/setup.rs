use vstd::prelude::*;
use crate::types::{Actor, ActorType, ActionType, Alignment, TileType, WorldTile};

verus! {

/// The number of columns of the starting map.
pub const MAP_WIDTH: usize = 16;
/// The number of cells of the starting map.
pub const MAP_CELLS: usize = 160;

/// The kind of cell `i` of the starting map (row-major, 16 columns, 10 rows):
/// walls all round, a wall down column 8 with a closed door in row 5, ground
/// elsewhere.
pub open spec fn initial_tile_kind(i: int) -> TileType {
    if i % 16 == 0 {
        TileType::Wall
    } else if (i + 1) % 16 == 0 {
        TileType::Wall
    } else if i < 17 {
        TileType::Wall
    } else if i > 144 {
        TileType::Wall
    } else if i % 16 == 8 {
        if i / 16 != 5 {
            TileType::Wall
        } else {
            TileType::ClosedDoor
        }
    } else {
        TileType::Ground
    }
}

/// The starting map, cell `i` at column `i % 16` and row `i / 16`: walls
/// along the border (columns 0 and 15, rows 0 and 9) and down column 8,
/// where row 5 holds a closed door; ground everywhere else.
pub proof fn law_starting_map_layout(i: int)
    requires
        0 <= i < MAP_CELLS,
    ensures
        initial_tile_kind(i) == (if i % 16 == 0 || i % 16 == 15 || i / 16 == 0 || i / 16 == 9 {
            TileType::Wall
        } else if i % 16 == 8 && i / 16 == 5 {
            TileType::ClosedDoor
        } else if i % 16 == 8 {
            TileType::Wall
        } else {
            TileType::Ground
        }),
{
    let x = i % 16;
    let y = i / 16;
    assert(i == 16 * y + x && 0 <= x < 16 && 0 <= y < 10);
    assert((i + 1) % 16 == 0 <==> x == 15) by {
        assert(i + 1 == 16 * y + (x + 1));
        if x == 15 {
            assert(i + 1 == 16 * (y + 1));
        }
    }
    assert(i < 17 <==> (y == 0 || (y == 1 && x == 0)));
    assert(i > 144 <==> (y == 9 && x > 0));
}

/// Builds the starting map: cell `i` lies at column `i % 16`, row `i / 16`.
pub fn initial_world() -> (world: Vec<WorldTile>)
    ensures
        world.len() == MAP_CELLS,
        forall|i: int| 0 <= i < MAP_CELLS ==> #[trigger] world@[i] == (WorldTile {
            tile: initial_tile_kind(i),
            x: (i % 16) as i32,
            y: (i / 16) as i32,
        }),
        forall|i: int| 0 <= i < MAP_CELLS ==> (#[trigger] world@[i]).tile == (if i % 16 == 0 || i % 16 == 15 || i / 16 == 0 || i / 16 == 9 {
            TileType::Wall
        } else if i % 16 == 8 && i / 16 == 5 {
            TileType::ClosedDoor
        } else if i % 16 == 8 {
            TileType::Wall
        } else {
            TileType::Ground
        }),
{
    let mut world: Vec<WorldTile> = Vec::new();
    let mut i: usize = 0;
    while i < MAP_CELLS
        invariant
            i <= MAP_CELLS,
            world.len() == i,
            forall|j: int| 0 <= j < i ==> #[trigger] world@[j] == (WorldTile {
                tile: initial_tile_kind(j),
                x: (j % 16) as i32,
                y: (j / 16) as i32,
            }),
        decreases MAP_CELLS - i,
    {
        let tile = if i % MAP_WIDTH == 0 {
            TileType::Wall
        } else if (i + 1) % MAP_WIDTH == 0 {
            TileType::Wall
        } else if i < 17 {
            TileType::Wall
        } else if i > 144 {
            TileType::Wall
        } else if i % MAP_WIDTH == 8 {
            if i / MAP_WIDTH != 5 {
                TileType::Wall
            } else {
                TileType::ClosedDoor
            }
        } else {
            TileType::Ground
        };
        world.push(WorldTile { tile, x: (i % MAP_WIDTH) as i32, y: (i / MAP_WIDTH) as i32 });
        i = i + 1;
    }
    proof {
        assert forall|i: int| 0 <= i < MAP_CELLS implies (#[trigger] world@[i]).tile == (if i % 16 == 0 || i % 16 == 15 || i / 16 == 0 || i / 16 == 9 {
            TileType::Wall
        } else if i % 16 == 8 && i / 16 == 5 {
            TileType::ClosedDoor
        } else if i % 16 == 8 {
            TileType::Wall
        } else {
            TileType::Ground
        }) by {
            law_starting_map_layout(i);
        }
    }
    world
}

/// The actor the player controls at the start: an '@' at (5, 5) with five
/// health and one attack.
pub open spec fn starting_player() -> Actor {
    Actor {
        character: 64,
        x: 5,
        y: 5,
        kind: ActorType::Player,
        action: ActionType::Idle,
        alignment: Alignment::Good,
        initutive: 127,
        moveability: 0,
        health: 5,
        attack: 1,
        defense: 0,
    }
}

/// The actors at the start of the game: the player alone.
pub fn initial_actors() -> (actors: Vec<Actor>)
    ensures
        actors@ == seq![starting_player()],
        actors.len() == 1,
        actors@[0].x == 5 && actors@[0].y == 5 && actors@[0].character == 64,
        actors@[0].kind == ActorType::Player && actors@[0].action == ActionType::Idle,
        actors@[0].alignment == Alignment::Good && actors@[0].initutive == 127,
        actors@[0].moveability == 0 && actors@[0].health == 5 && actors@[0].attack == 1 && actors@[0].defense == 0,
{
    let mut actors: Vec<Actor> = Vec::new();
    actors.push(Actor {
        character: 64,
        x: 5,
        y: 5,
        kind: ActorType::Player,
        action: ActionType::Idle,
        alignment: Alignment::Good,
        initutive: 127,
        moveability: 0,
        health: 5,
        attack: 1,
        defense: 0,
    });
    actors
}

} // verus!
