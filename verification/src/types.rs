use vstd::prelude::*;

verus! {

/// Whether the game keeps running.
#[derive(Clone, Copy, Debug, PartialEq, Eq, Structural)]
pub enum GlobalState {
    Done,
    InGame,
}

/// What a decision asks of the game as a whole.
#[derive(Clone, Copy, Debug, PartialEq, Eq, Structural)]
pub enum GlobalStateMod {
    Quit,
    Proceed,
}

/// One of the four grid directions, or none.
#[derive(Clone, Copy, Debug, PartialEq, Eq, Structural)]
pub enum Direction {
    Up,
    Down,
    Left,
    Right,
    Nowhere,
}

/// The kind of a world tile.
#[derive(Clone, Copy, Debug, PartialEq, Eq, Structural)]
pub enum TileType {
    Wall,
    Ground,
    ClosedDoor,
    OpenedDoor,
}

/// Who controls an actor.
#[derive(Clone, Copy, Debug, PartialEq, Eq, Structural)]
pub enum ActorType {
    Player,
    Robot,
    Passive,
}

/// What an actor intends to do this turn.
#[derive(Clone, Copy, Debug, PartialEq, Eq, Structural)]
pub enum ActionType {
    Move(Direction, i32),
    Open(Direction),
    Stand,
    Idle,
}

/// The side an actor is on.
#[derive(Clone, Copy, Debug, PartialEq, Eq, Structural)]
pub enum Alignment {
    Good,
    Neutral,
    Evil,
}

/// What an actor ran into.
#[derive(Clone, Copy, Debug, PartialEq, Eq, Structural)]
pub enum CollisionType {
    Actor,
    World,
}

/// The outcome of a collision check: the index of what was hit, or nothing.
#[derive(Clone, Copy, Debug, PartialEq, Eq, Structural)]
pub enum Collision {
    Collision(usize, CollisionType),
    NoCollision,
}

/// One cell of the world grid.
#[derive(Clone, Copy, Debug, PartialEq, Eq, Structural)]
pub struct WorldTile {
    pub tile: TileType,
    pub x: i32,
    pub y: i32,
}

/// A creature on the grid.
#[derive(Clone, Copy, Debug, PartialEq, Eq, Structural)]
pub struct Actor {
    pub character: u32,
    pub x: i32,
    pub y: i32,
    pub kind: ActorType,
    pub action: ActionType,
    pub alignment: Alignment,
    pub initutive: u8,
    pub moveability: u8,
    pub health: u8,
    pub attack: u8,
    pub defense: u8,
}

/// Whether an integer fits in an `i32`.
pub open spec fn in_i32(v: int) -> bool {
    i32::MIN <= v <= i32::MAX
}

/// The horizontal offset of `n` steps in direction `d`.
pub open spec fn step_x(d: Direction, n: int) -> int {
    match d {
        Direction::Left => -n,
        Direction::Right => n,
        _ => 0,
    }
}

/// The vertical offset of `n` steps in direction `d` (rows grow downwards).
pub open spec fn step_y(d: Direction, n: int) -> int {
    match d {
        Direction::Up => -n,
        Direction::Down => n,
        _ => 0,
    }
}

/// Whether actor `a` stands on cell (x, y).
pub open spec fn actor_at(a: Actor, x: int, y: int) -> bool {
    a.x == x && a.y == y
}

/// `a` with its action replaced.
pub open spec fn with_action(a: Actor, act: ActionType) -> Actor {
    Actor { action: act, ..a }
}

/// `a` placed at (x, y).
pub open spec fn placed(a: Actor, x: int, y: int) -> Actor {
    Actor { x: x as i32, y: y as i32, ..a }
}

} // verus!
