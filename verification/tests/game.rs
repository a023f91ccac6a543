use tilegame::act::{action_fits_check, try_action};
use tilegame::decide::{decide_action, next_action, Decision, PlayerInput};
use tilegame::setup::{initial_actors, initial_world};
use tilegame::text::{actor_collision_message, world_collision_message};
use tilegame::turn::{actions, actions_fit, Pending, Turn, TurnRequest};
use tilegame::types::{
    Actor, ActorType, ActionType, Alignment, Collision, CollisionType, Direction, GlobalState,
    GlobalStateMod, TileType, WorldTile,
};
use tilegame::update::update_world;
use tilegame::world::{
    check_collision_list, check_world_tile_list, tile_glyph, world_tile_is_solid, world_tile_toggle_door,
};

fn actor(kind: ActorType, x: i32, y: i32) -> Actor {
    Actor {
        character: 64,
        x,
        y,
        kind,
        action: ActionType::Idle,
        alignment: Alignment::Neutral,
        initutive: 0,
        moveability: 0,
        health: 5,
        attack: 1,
        defense: 0,
    }
}

fn tile(tile: TileType, x: i32, y: i32) -> WorldTile {
    WorldTile { tile, x, y }
}

fn texts(v: &Vec<String>) -> Vec<&str> {
    v.iter().map(|s| s.as_str()).collect()
}

#[test]
fn solid_tiles_are_walls_and_closed_doors() {
    assert!(world_tile_is_solid(&TileType::Wall));
    assert!(world_tile_is_solid(&TileType::ClosedDoor));
    assert!(!world_tile_is_solid(&TileType::OpenedDoor));
    assert!(!world_tile_is_solid(&TileType::Ground));
}

#[test]
fn toggling_a_door_opens_and_closes_it() {
    let mut t = tile(TileType::ClosedDoor, 3, 4);
    assert_eq!(world_tile_toggle_door(&mut t), (true, "Opened a door."));
    assert_eq!(t, tile(TileType::OpenedDoor, 3, 4));
    assert_eq!(world_tile_toggle_door(&mut t), (true, "Closed a door."));
    assert_eq!(t, tile(TileType::ClosedDoor, 3, 4));
}

#[test]
fn toggling_a_wall_or_ground_does_nothing() {
    let mut w = tile(TileType::Wall, 0, 0);
    assert_eq!(world_tile_toggle_door(&mut w), (false, "Cannot open tile of this type!"));
    assert_eq!(w, tile(TileType::Wall, 0, 0));
    let mut g = tile(TileType::Ground, 1, 0);
    assert_eq!(world_tile_toggle_door(&mut g), (false, "Cannot open tile of this type!"));
    assert_eq!(g, tile(TileType::Ground, 1, 0));
}

#[test]
fn collision_prefers_the_first_actor() {
    let actors = vec![actor(ActorType::Passive, 0, 0), actor(ActorType::Robot, 2, 2), actor(ActorType::Robot, 2, 2)];
    let world = vec![tile(TileType::Wall, 2, 2)];
    assert_eq!(check_collision_list(2, 2, &actors, &world), Collision::Collision(1, CollisionType::Actor));
}

#[test]
fn collision_finds_the_first_blocking_tile() {
    let actors = vec![actor(ActorType::Passive, 0, 0)];
    let world = vec![
        tile(TileType::Ground, 4, 1),
        tile(TileType::OpenedDoor, 4, 1),
        tile(TileType::ClosedDoor, 4, 1),
        tile(TileType::Wall, 4, 1),
    ];
    assert_eq!(check_collision_list(4, 1, &actors, &world), Collision::Collision(2, CollisionType::World));
    assert_eq!(check_collision_list(5, 1, &actors, &world), Collision::NoCollision);
}

#[test]
fn open_door_and_ground_do_not_block() {
    let actors: Vec<Actor> = Vec::new();
    let world = vec![tile(TileType::OpenedDoor, 1, 1), tile(TileType::Ground, 2, 1)];
    assert_eq!(check_collision_list(1, 1, &actors, &world), Collision::NoCollision);
    assert_eq!(check_collision_list(2, 1, &actors, &world), Collision::NoCollision);
}

#[test]
fn tile_lookup_finds_any_tile() {
    let world = vec![tile(TileType::Wall, 0, 0), tile(TileType::Ground, 1, 0), tile(TileType::Wall, 1, 0)];
    assert_eq!(check_world_tile_list(1, 0, &world), Collision::Collision(1, CollisionType::World));
    assert_eq!(check_world_tile_list(9, 9, &world), Collision::NoCollision);
}

#[test]
fn undo_reverses_each_direction() {
    let cases = [
        (Direction::Up, 5, 7),
        (Direction::Down, 5, 3),
        (Direction::Left, 7, 5),
        (Direction::Right, 3, 5),
        (Direction::Nowhere, 5, 5),
    ];
    for (d, x, y) in cases {
        let mut a = actor(ActorType::Robot, 5, 5);
        a.action = ActionType::Move(d, 2);
        a.undo_action();
        assert_eq!((a.x, a.y), (x, y));
    }
}

#[test]
fn undo_ignores_short_moves_and_other_actions() {
    for action in [
        ActionType::Move(Direction::Up, 0),
        ActionType::Move(Direction::Left, -3),
        ActionType::Open(Direction::Up),
        ActionType::Stand,
        ActionType::Idle,
    ] {
        let mut a = actor(ActorType::Robot, 5, 5);
        a.action = action;
        let before = a;
        a.undo_action();
        assert_eq!(a, before);
    }
}

#[test]
fn undo_takes_back_a_move_that_went_ahead() {
    let mut actors = vec![actor(ActorType::Player, 5, 5)];
    actors[0].action = ActionType::Move(Direction::Down, 1);
    let mut world = vec![tile(TileType::Ground, 5, 6)];
    let mut log: Vec<String> = Vec::new();
    assert_eq!(try_action(0, &mut actors, &mut world, &mut log), Collision::NoCollision);
    assert_eq!((actors[0].x, actors[0].y), (5, 6));
    actors[0].undo_action();
    assert_eq!((actors[0].x, actors[0].y), (5, 5));
}

#[test]
fn robot_heads_for_the_first_player() {
    let mut actors = vec![
        actor(ActorType::Robot, 5, 5),
        actor(ActorType::Passive, 9, 9),
        actor(ActorType::Player, 5, 2),
        actor(ActorType::Player, 8, 5),
    ];
    assert_eq!(decide_action(0, &mut actors, PlayerInput::Start), Decision::Decided(GlobalStateMod::Proceed));
    assert_eq!(actors[0].action, ActionType::Move(Direction::Up, 1));
}

#[test]
fn robot_prefers_horizontal_steps() {
    let cases = [((9, 1), Direction::Right), ((1, 9), Direction::Left), ((5, 9), Direction::Down), ((5, 1), Direction::Up), ((5, 5), Direction::Nowhere)];
    for ((px, py), d) in cases {
        let mut actors = vec![actor(ActorType::Player, px, py), actor(ActorType::Robot, 5, 5)];
        decide_action(1, &mut actors, PlayerInput::Start);
        assert_eq!(actors[1].action, ActionType::Move(d, 1));
    }
}

#[test]
fn robot_without_player_stays() {
    let mut actors = vec![actor(ActorType::Robot, 5, 5), actor(ActorType::Robot, 6, 5)];
    decide_action(0, &mut actors, PlayerInput::Start);
    assert_eq!(actors[0].action, ActionType::Move(Direction::Nowhere, 1));
}

#[test]
fn heading_brings_robot_closer() {
    let mut actors = vec![actor(ActorType::Player, 8, 2), actor(ActorType::Robot, 5, 5)];
    let mut world: Vec<WorldTile> = Vec::new();
    let mut log: Vec<String> = Vec::new();
    decide_action(1, &mut actors, PlayerInput::Start);
    try_action(1, &mut actors, &mut world, &mut log);
    assert_eq!((actors[1].x, actors[1].y), (6, 5));
}

#[test]
fn passive_actor_idles() {
    let mut actors = vec![actor(ActorType::Passive, 5, 5)];
    actors[0].action = ActionType::Stand;
    assert_eq!(decide_action(0, &mut actors, PlayerInput::Start), Decision::Decided(GlobalStateMod::Proceed));
    assert_eq!(actors[0].action, ActionType::Idle);
}

#[test]
fn player_keys_decide_actions() {
    let mut actors = vec![actor(ActorType::Player, 5, 5)];
    actors[0].action = ActionType::Stand;
    assert_eq!(decide_action(0, &mut actors, PlayerInput::Start), Decision::NeedFirstKey);
    assert_eq!(actors[0].action, ActionType::Idle);
    for (key, d) in [(104, Direction::Left), (106, Direction::Down), (107, Direction::Up), (108, Direction::Right)] {
        assert_eq!(decide_action(0, &mut actors, PlayerInput::FirstKey(key)), Decision::Decided(GlobalStateMod::Proceed));
        assert_eq!(actors[0].action, ActionType::Move(d, 1));
    }
    assert_eq!(decide_action(0, &mut actors, PlayerInput::FirstKey(111)), Decision::NeedSecondKey);
    assert_eq!(decide_action(0, &mut actors, PlayerInput::SecondKey(104)), Decision::Decided(GlobalStateMod::Proceed));
    assert_eq!(actors[0].action, ActionType::Open(Direction::Left));
    assert_eq!(decide_action(0, &mut actors, PlayerInput::SecondKey(120)), Decision::Decided(GlobalStateMod::Proceed));
    assert_eq!(actors[0].action, ActionType::Open(Direction::Left));
}

#[test]
fn only_q_quits() {
    let actors = vec![actor(ActorType::Player, 5, 5)];
    assert_eq!(next_action(0, &actors, PlayerInput::FirstKey(113)).1, Decision::Decided(GlobalStateMod::Quit));
    for k in [0, 81, 104, 111, 112, 114] {
        assert_ne!(next_action(0, &actors, PlayerInput::FirstKey(k)).1, Decision::Decided(GlobalStateMod::Quit));
        assert_ne!(next_action(0, &actors, PlayerInput::SecondKey(k)).1, Decision::Decided(GlobalStateMod::Quit));
    }
    assert_ne!(next_action(0, &actors, PlayerInput::SecondKey(113)).1, Decision::Decided(GlobalStateMod::Quit));
}

#[test]
fn unknown_first_key_leaves_the_player_idle() {
    let mut actors = vec![actor(ActorType::Player, 5, 5)];
    decide_action(0, &mut actors, PlayerInput::Start);
    assert_eq!(decide_action(0, &mut actors, PlayerInput::FirstKey(120)), Decision::Decided(GlobalStateMod::Proceed));
    assert_eq!(actors[0].action, ActionType::Idle);
}

#[test]
fn move_into_wall_is_refused() {
    let mut actors = vec![actor(ActorType::Player, 5, 5)];
    actors[0].action = ActionType::Move(Direction::Right, 1);
    let mut world = vec![tile(TileType::Ground, 5, 5), tile(TileType::Wall, 6, 5)];
    let mut log: Vec<String> = Vec::new();
    assert_eq!(try_action(0, &mut actors, &mut world, &mut log), Collision::Collision(1, CollisionType::World));
    assert_eq!((actors[0].x, actors[0].y), (5, 5));
}

#[test]
fn move_into_actor_is_refused() {
    let mut actors = vec![actor(ActorType::Player, 5, 5), actor(ActorType::Robot, 5, 4)];
    actors[0].action = ActionType::Move(Direction::Up, 1);
    let mut world: Vec<WorldTile> = Vec::new();
    let mut log: Vec<String> = Vec::new();
    assert_eq!(try_action(0, &mut actors, &mut world, &mut log), Collision::Collision(1, CollisionType::Actor));
    assert_eq!((actors[0].x, actors[0].y), (5, 5));
}

#[test]
fn move_of_zero_steps_hits_itself() {
    let mut actors = vec![actor(ActorType::Player, 5, 5)];
    actors[0].action = ActionType::Move(Direction::Left, 0);
    let mut world: Vec<WorldTile> = Vec::new();
    let mut log: Vec<String> = Vec::new();
    assert_eq!(try_action(0, &mut actors, &mut world, &mut log), Collision::Collision(0, CollisionType::Actor));
}

#[test]
fn long_move_jumps_over() {
    let mut actors = vec![actor(ActorType::Player, 1, 1)];
    actors[0].action = ActionType::Move(Direction::Right, 3);
    let mut world = vec![tile(TileType::Wall, 2, 1)];
    let mut log: Vec<String> = Vec::new();
    assert_eq!(try_action(0, &mut actors, &mut world, &mut log), Collision::NoCollision);
    assert_eq!((actors[0].x, actors[0].y), (4, 1));
}

#[test]
fn opening_a_door_toggles_it_and_logs() {
    let mut actors = vec![actor(ActorType::Player, 7, 5)];
    actors[0].action = ActionType::Open(Direction::Right);
    let mut world = vec![tile(TileType::Ground, 7, 5), tile(TileType::ClosedDoor, 8, 5)];
    let mut log: Vec<String> = vec!["earlier".to_string()];
    assert_eq!(try_action(0, &mut actors, &mut world, &mut log), Collision::NoCollision);
    assert_eq!(world[1].tile, TileType::OpenedDoor);
    assert_eq!(texts(&log), vec!["earlier", "Opened a door."]);
    assert_eq!(try_action(0, &mut actors, &mut world, &mut log), Collision::NoCollision);
    assert_eq!(world[1].tile, TileType::ClosedDoor);
    assert_eq!(texts(&log), vec!["earlier", "Opened a door.", "Closed a door."]);
}

#[test]
fn opening_a_wall_logs_a_refusal() {
    let mut actors = vec![actor(ActorType::Player, 1, 1)];
    actors[0].action = ActionType::Open(Direction::Up);
    let mut world = vec![tile(TileType::Wall, 1, 0)];
    let mut log: Vec<String> = Vec::new();
    assert_eq!(try_action(0, &mut actors, &mut world, &mut log), Collision::NoCollision);
    assert_eq!(world[0].tile, TileType::Wall);
    assert_eq!(texts(&log), vec!["Cannot open tile of this type!"]);
}

#[test]
fn opening_nothing_or_nowhere_does_nothing() {
    for d in [Direction::Down, Direction::Nowhere] {
        let mut actors = vec![actor(ActorType::Player, 1, 1)];
        actors[0].action = ActionType::Open(d);
        let mut world = vec![tile(TileType::ClosedDoor, 1, 1)];
        let mut log: Vec<String> = Vec::new();
        assert_eq!(try_action(0, &mut actors, &mut world, &mut log), Collision::NoCollision);
        assert_eq!(world[0].tile, TileType::ClosedDoor);
        assert!(log.is_empty());
    }
}

#[test]
fn action_range_check() {
    let mut a = actor(ActorType::Player, i32::MAX, 0);
    a.action = ActionType::Move(Direction::Right, 1);
    assert!(!action_fits_check(&a));
    a.action = ActionType::Move(Direction::Left, 1);
    assert!(action_fits_check(&a));
    a.action = ActionType::Open(Direction::Right);
    assert!(!action_fits_check(&a));
    a.action = ActionType::Move(Direction::Up, i32::MIN);
    assert!(!action_fits_check(&a));
}

#[test]
fn turn_range_check() {
    let actors = vec![actor(ActorType::Player, i32::MAX, 0)];
    let turn = Turn { index: 0, pending: Pending::FirstKey };
    assert!(!actions_fit(&turn, 108, &actors));
    assert!(actions_fit(&turn, 104, &actors));
    assert!(actions_fit(&Turn::new(), 108, &actors));
}

fn run_round(
    keys: &[i32],
    world: &mut Vec<WorldTile>,
    actors: &mut Vec<Actor>,
    collisions: &mut Vec<(usize, usize, CollisionType)>,
    state: &mut GlobalState,
    log: &mut Vec<String>,
) -> usize {
    let mut turn = Turn::new();
    let mut key = 0;
    let mut used = 0;
    loop {
        assert!(actions_fit(&turn, key, actors));
        match actions(&mut turn, key, world, actors, collisions, state, log) {
            TurnRequest::Continue => {}
            TurnRequest::ReadKey => {
                key = keys[used];
                used += 1;
            }
            TurnRequest::Finished => return used,
        }
    }
}

#[test]
fn round_lets_every_actor_act_in_order() {
    let mut world = initial_world();
    let mut actors = vec![actor(ActorType::Player, 5, 5), actor(ActorType::Robot, 2, 2), actor(ActorType::Robot, 6, 5)];
    let mut collisions = Vec::new();
    let mut state = GlobalState::InGame;
    let mut log = Vec::new();
    let used = run_round(&[108], &mut world, &mut actors, &mut collisions, &mut state, &mut log);
    assert_eq!(used, 1);
    // The player bumps into the robot on its right; the first robot steps right.
    assert_eq!((actors[0].x, actors[0].y), (5, 5));
    assert_eq!((actors[1].x, actors[1].y), (3, 2));
    assert_eq!((actors[2].x, actors[2].y), (6, 5));
    assert_eq!(collisions, vec![(0, 2, CollisionType::Actor), (2, 0, CollisionType::Actor)]);
    assert_eq!(state, GlobalState::InGame);
}

#[test]
fn quitting_ends_the_round_and_the_game() {
    let mut world = initial_world();
    let mut actors = vec![actor(ActorType::Player, 5, 5), actor(ActorType::Robot, 2, 2)];
    let mut collisions = Vec::new();
    let mut state = GlobalState::InGame;
    let mut log = Vec::new();
    let used = run_round(&[113], &mut world, &mut actors, &mut collisions, &mut state, &mut log);
    assert_eq!(used, 1);
    assert_eq!(state, GlobalState::Done);
    assert_eq!((actors[1].x, actors[1].y), (2, 2));
    assert!(collisions.is_empty());
}

#[test]
fn open_command_reads_two_keys() {
    let mut world = initial_world();
    let mut actors = vec![actor(ActorType::Player, 7, 5)];
    let mut collisions = Vec::new();
    let mut state = GlobalState::InGame;
    let mut log = Vec::new();
    let used = run_round(&[111, 108], &mut world, &mut actors, &mut collisions, &mut state, &mut log);
    assert_eq!(used, 2);
    assert_eq!(world[5 * 16 + 8].tile, TileType::OpenedDoor);
    assert_eq!(texts(&log), vec!["Opened a door."]);
}

#[test]
fn step_after_the_last_actor_finishes() {
    let mut world: Vec<WorldTile> = Vec::new();
    let mut actors = vec![actor(ActorType::Passive, 0, 0)];
    let mut collisions = Vec::new();
    let mut state = GlobalState::InGame;
    let mut log = Vec::new();
    let mut turn = Turn::new();
    assert_eq!(actions(&mut turn, 0, &mut world, &mut actors, &mut collisions, &mut state, &mut log), TurnRequest::Continue);
    assert_eq!(turn, Turn { index: 1, pending: Pending::Nothing });
    assert_eq!(actions(&mut turn, 0, &mut world, &mut actors, &mut collisions, &mut state, &mut log), TurnRequest::Finished);
    assert_eq!(turn, Turn { index: 1, pending: Pending::Nothing });
}

#[test]
fn fight_costs_health_and_is_logged() {
    let mut world: Vec<WorldTile> = Vec::new();
    let mut actors = vec![actor(ActorType::Player, 5, 5), actor(ActorType::Robot, 6, 5)];
    actors[0].attack = 2;
    let mut collisions = vec![(0, 1, CollisionType::Actor), (1, 0, CollisionType::Actor)];
    let mut log = Vec::new();
    update_world(&mut world, &mut actors, &mut collisions, &mut log);
    assert_eq!(actors[0].health, 4);
    assert_eq!(actors[1].health, 3);
    assert!(collisions.is_empty());
    assert_eq!(
        texts(&log),
        vec![
            "Collision between World 0 and 1. New Health:5 and 3",
            "Collision between World 1 and 0. New Health:3 and 4",
        ]
    );
}

#[test]
fn bump_into_world_is_logged() {
    let mut world: Vec<WorldTile> = Vec::new();
    let mut actors = vec![actor(ActorType::Player, 5, 5)];
    let mut collisions = vec![(0, 103, CollisionType::World)];
    let mut log = Vec::new();
    update_world(&mut world, &mut actors, &mut collisions, &mut log);
    assert_eq!(texts(&log), vec!["Collision between Actors 0 and 103."]);
    assert_eq!(actors[0].health, 5);
}

#[test]
fn dead_actors_are_removed_and_fights_with_them_dropped() {
    let mut world: Vec<WorldTile> = Vec::new();
    let mut actors = vec![actor(ActorType::Player, 5, 5), actor(ActorType::Robot, 6, 5), actor(ActorType::Robot, 7, 5)];
    actors[1].health = 1;
    actors[0].attack = 1;
    let mut collisions = vec![(0, 1, CollisionType::Actor), (2, 1, CollisionType::Actor)];
    let mut log = Vec::new();
    update_world(&mut world, &mut actors, &mut collisions, &mut log);
    assert_eq!(actors.len(), 2);
    assert_eq!((actors[0].x, actors[1].x), (5, 7));
    assert_eq!(actors[1].health, 5);
    assert_eq!(texts(&log), vec!["Collision between World 0 and 1. New Health:5 and 0"]);
}

#[test]
fn actors_on_one_cell_are_pushed_back() {
    let mut world: Vec<WorldTile> = Vec::new();
    let mut a = actor(ActorType::Player, 5, 5);
    a.action = ActionType::Move(Direction::Right, 1);
    a.moveability = 0;
    let mut b = actor(ActorType::Robot, 5, 5);
    b.action = ActionType::Move(Direction::Down, 1);
    b.moveability = 1;
    let mut actors = vec![a, b];
    let mut collisions = Vec::new();
    let mut log = Vec::new();
    update_world(&mut world, &mut actors, &mut collisions, &mut log);
    // The later actor has the higher moveability, so it takes back its move.
    assert_eq!((actors[0].x, actors[0].y), (5, 5));
    assert_eq!((actors[1].x, actors[1].y), (5, 4));
}

#[test]
fn tie_pushes_both_back() {
    let mut world: Vec<WorldTile> = Vec::new();
    let mut a = actor(ActorType::Player, 5, 5);
    a.action = ActionType::Move(Direction::Right, 1);
    let mut b = actor(ActorType::Robot, 5, 5);
    b.action = ActionType::Move(Direction::Left, 1);
    let mut actors = vec![a, b];
    let mut collisions = Vec::new();
    let mut log = Vec::new();
    update_world(&mut world, &mut actors, &mut collisions, &mut log);
    assert_eq!((actors[0].x, actors[0].y), (4, 5));
    assert_eq!((actors[1].x, actors[1].y), (6, 5));
}

#[test]
fn round_ends_with_actors_apart() {
    let mut world: Vec<WorldTile> = Vec::new();
    let mut actors = Vec::new();
    for i in 0..3 {
        let mut a = actor(ActorType::Robot, 5, 5);
        a.action = ActionType::Move(Direction::Right, 1);
        a.moveability = i;
        actors.push(a);
    }
    let mut collisions = Vec::new();
    let mut log = Vec::new();
    update_world(&mut world, &mut actors, &mut collisions, &mut log);
    for i in 0..actors.len() {
        for j in i + 1..actors.len() {
            assert_ne!((actors[i].x, actors[i].y), (actors[j].x, actors[j].y));
        }
    }
}

#[test]
fn log_keeps_last_five_lines() {
    let mut world: Vec<WorldTile> = Vec::new();
    let mut actors = vec![actor(ActorType::Player, 5, 5)];
    let mut collisions: Vec<(usize, usize, CollisionType)> = (0..4).map(|i| (0, i, CollisionType::World)).collect();
    let mut log: Vec<String> = (0..3).map(|i| format!("old {}", i)).collect();
    update_world(&mut world, &mut actors, &mut collisions, &mut log);
    assert_eq!(
        texts(&log),
        vec![
            "old 2",
            "Collision between Actors 0 and 0.",
            "Collision between Actors 0 and 1.",
            "Collision between Actors 0 and 2.",
            "Collision between Actors 0 and 3.",
        ]
    );
}

#[test]
fn short_log_is_kept_whole() {
    let mut world: Vec<WorldTile> = Vec::new();
    let mut actors = vec![actor(ActorType::Player, 5, 5)];
    let mut collisions = Vec::new();
    let mut log: Vec<String> = vec!["a".to_string(), "b".to_string()];
    update_world(&mut world, &mut actors, &mut collisions, &mut log);
    assert_eq!(texts(&log), vec!["a", "b"]);
}

#[test]
fn log_lines_print_numbers_in_decimal() {
    assert_eq!(actor_collision_message(12, 0, 255, 9).as_str(), "Collision between World 12 and 0. New Health:255 and 9");
    assert_eq!(world_collision_message(1000, 7).as_str(), "Collision between Actors 1000 and 7.");
}

#[test]
fn starting_map_layout() {
    let world = initial_world();
    assert_eq!(world.len(), 160);
    for (i, t) in world.iter().enumerate() {
        assert_eq!((t.x, t.y), ((i % 16) as i32, (i / 16) as i32));
        let border = t.x == 0 || t.x == 15 || t.y == 0 || t.y == 9;
        if border {
            assert_eq!(t.tile, TileType::Wall);
        }
    }
    assert_eq!(world[5 * 16 + 8].tile, TileType::ClosedDoor);
    assert_eq!(world[4 * 16 + 8].tile, TileType::Wall);
    assert_eq!(world[5 * 16 + 5].tile, TileType::Ground);
    let actors = initial_actors();
    assert_eq!(actors.len(), 1);
    assert_eq!((actors[0].x, actors[0].y, actors[0].kind, actors[0].health), (5, 5, ActorType::Player, 5));
    assert_eq!(check_collision_list(5, 5, &Vec::new(), &world), Collision::NoCollision);
}

#[test]
fn glyphs() {
    assert_eq!(tile_glyph(TileType::Wall), '#' as u32);
    assert_eq!(tile_glyph(TileType::Ground), '-' as u32);
    assert_eq!(tile_glyph(TileType::ClosedDoor), '%' as u32);
    assert_eq!(tile_glyph(TileType::OpenedDoor), '_' as u32);
}

#[test]
fn actors_apart_are_left_where_they_are() {
    let mut world: Vec<WorldTile> = Vec::new();
    let mut a = actor(ActorType::Player, 1, 1);
    a.action = ActionType::Move(Direction::Right, 1);
    let mut b = actor(ActorType::Robot, 3, 1);
    b.action = ActionType::Move(Direction::Left, 1);
    let mut actors = vec![a, b];
    let before = actors.clone();
    let mut collisions = Vec::new();
    let mut log = Vec::new();
    update_world(&mut world, &mut actors, &mut collisions, &mut log);
    assert_eq!(actors, before);
}

#[test]
fn moves_in_a_round_keep_actors_apart() {
    let mut world = initial_world();
    let mut actors = vec![
        actor(ActorType::Robot, 3, 5),
        actor(ActorType::Player, 5, 5),
        actor(ActorType::Robot, 7, 5),
        actor(ActorType::Robot, 5, 3),
    ];
    let mut collisions = Vec::new();
    let mut state = GlobalState::InGame;
    let mut log = Vec::new();
    run_round(&[106], &mut world, &mut actors, &mut collisions, &mut state, &mut log);
    for i in 0..actors.len() {
        for j in i + 1..actors.len() {
            assert_ne!((actors[i].x, actors[i].y), (actors[j].x, actors[j].y));
        }
    }
    assert_eq!((actors[1].x, actors[1].y), (5, 6));
}
