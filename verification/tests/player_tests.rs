use autumn_core::catalog::AnimationCatalog;
use autumn_core::catalog::AnimationKey;
use autumn_core::catalog::Repeat;
use autumn_core::catalog::create_directional_animations;
use autumn_core::motion::Direction;
use autumn_core::motion::InputState;
use autumn_core::motion::MotionMode;
use autumn_core::motion::raw_direction;
use autumn_core::player::Player;
use autumn_core::player::Vec2Milli;
use autumn_core::player::update_player;

fn no_keys() -> InputState {
    InputState { up: false, down: false, left: false, right: false }
}

fn held(up: bool, down: bool, left: bool, right: bool) -> InputState {
    InputState { up, down, left, right }
}

/// A catalog with all eight idle/run animations registered, as at startup.
fn full_catalog() -> AnimationCatalog {
    let mut catalog = AnimationCatalog::new();
    let idle_ranges = vec![
        (Direction::Down, (0usize, 1usize)),
        (Direction::Up, (8usize, 9usize)),
        (Direction::Right, (4usize, 5usize)),
        (Direction::Left, (4usize, 5usize)),
    ];
    create_directional_animations(&mut catalog, MotionMode::Idle, &idle_ranges, 1000, Repeat::Loop);
    let run_ranges = vec![
        (Direction::Down, (12usize, 15usize)),
        (Direction::Up, (20usize, 23usize)),
        (Direction::Right, (16usize, 19usize)),
        (Direction::Left, (16usize, 19usize)),
    ];
    create_directional_animations(&mut catalog, MotionMode::Running, &run_ranges, 220, Repeat::Loop);
    catalog
}

fn player_at_origin(speed_milli: u32) -> Player {
    Player::new(Vec2Milli { x: 0, y: 0 }, speed_milli)
}

#[test]
fn cardinal_up_faces_up_and_moves_only_up() {
    let catalog = full_catalog();
    let mut p = player_at_origin(100_000);
    let input = held(true, false, false, false);
    let (rx, ry): (i64, i64) = raw_direction(input);
    assert_eq!((rx, ry), (0, 1));
    update_player(&mut p, &catalog, input, 1000);
    assert_eq!(p.mode, MotionMode::Running);
    assert_eq!(p.facing, Direction::Up);
    assert_eq!(p.position, Vec2Milli { x: 0, y: 100_000 });
}

#[test]
fn cardinal_down_faces_down_and_moves_only_down() {
    let catalog = full_catalog();
    let mut p = player_at_origin(100_000);
    let input = held(false, true, false, false);
    assert_eq!(raw_direction(input), (0, -1));
    update_player(&mut p, &catalog, input, 1000);
    assert_eq!(p.mode, MotionMode::Running);
    assert_eq!(p.facing, Direction::Down);
    assert_eq!(p.position, Vec2Milli { x: 0, y: -100_000 });
}

#[test]
fn cardinal_left_faces_left_and_moves_only_left() {
    let catalog = full_catalog();
    let mut p = player_at_origin(100_000);
    let input = held(false, false, true, false);
    assert_eq!(raw_direction(input), (-1, 0));
    update_player(&mut p, &catalog, input, 1000);
    assert_eq!(p.mode, MotionMode::Running);
    assert_eq!(p.facing, Direction::Left);
    assert_eq!(p.position, Vec2Milli { x: -100_000, y: 0 });
}

#[test]
fn cardinal_right_faces_right_and_moves_only_right() {
    let catalog = full_catalog();
    let mut p = player_at_origin(100_000);
    let input = held(false, false, false, true);
    assert_eq!(raw_direction(input), (1, 0));
    update_player(&mut p, &catalog, input, 1000);
    assert_eq!(p.mode, MotionMode::Running);
    assert_eq!(p.facing, Direction::Right);
    assert_eq!(p.position, Vec2Milli { x: 100_000, y: 0 });
}

#[test]
fn opposing_keys_cancel_to_an_idle_frame() {
    let catalog = full_catalog();
    let mut p = player_at_origin(100_000);
    update_player(&mut p, &catalog, held(false, false, true, false), 100);
    let before = p.position;
    assert_eq!(p.facing, Direction::Left);

    update_player(&mut p, &catalog, held(true, true, false, false), 100);
    assert_eq!(p.mode, MotionMode::Idle);
    assert_eq!(p.position, before);
    assert_eq!(p.facing, Direction::Left);

    update_player(&mut p, &catalog, held(false, false, true, true), 100);
    assert_eq!(p.mode, MotionMode::Idle);
    assert_eq!(p.position, before);
    assert_eq!(p.facing, Direction::Left);

    update_player(&mut p, &catalog, held(true, true, true, true), 100);
    assert_eq!(p.mode, MotionMode::Idle);
    assert_eq!(p.position, before);
    assert_eq!(p.facing, Direction::Left);
}

#[test]
fn diagonal_tie_resolves_to_the_vertical_axis() {
    let catalog = full_catalog();
    let mut p = player_at_origin(100_000);
    let input = held(true, false, false, true);
    assert_eq!(raw_direction(input), (1, 1));
    update_player(&mut p, &catalog, input, 1000);
    assert_eq!(p.mode, MotionMode::Running);
    assert_eq!(p.facing, Direction::Up);
    // Each axis moves by the cardinal step scaled by 707/1000.
    let step: i64 = 100_000i64 * 1000 * 707 / 1_000_000;
    assert_eq!(step, 70_700);
    assert_eq!(p.position, Vec2Milli { x: step, y: step });
}

#[test]
fn switching_to_the_current_animation_is_a_no_op() {
    let catalog = full_catalog();
    let mut p = player_at_origin(100_000);
    let input = held(false, false, false, true);
    let first = update_player(&mut p, &catalog, input, 16);
    assert_eq!(
        first,
        Some(AnimationKey { mode: MotionMode::Running, direction: Direction::Right })
    );
    let mirrored_after_first = p.mirrored;
    let second = update_player(&mut p, &catalog, input, 16);
    assert_eq!(second, None);
    assert_eq!(p.mirrored, mirrored_after_first);
    assert_eq!(
        p.current_animation,
        AnimationKey { mode: MotionMode::Running, direction: Direction::Right }
    );
}

#[test]
fn single_axis_step_is_speed_times_delta() {
    let catalog = full_catalog();
    // 150 units per second for a quarter second moves exactly 37.5 units.
    let mut p = player_at_origin(150_000);
    update_player(&mut p, &catalog, held(false, false, false, true), 250);
    assert_eq!(p.position, Vec2Milli { x: 37_500, y: 0 });
    // A second frame of 40 ms adds exactly 6 more units.
    update_player(&mut p, &catalog, held(false, false, false, true), 40);
    assert_eq!(p.position, Vec2Milli { x: 43_500, y: 0 });
}

#[test]
fn right_held_at_speed_200_for_a_tenth_second_moves_20_units() {
    let catalog = full_catalog();
    let mut p = player_at_origin(200_000);
    let switch = update_player(&mut p, &catalog, held(false, false, false, true), 100);
    // 20.0 units are 20 000 milliunits.
    assert_eq!(p.position, Vec2Milli { x: 20_000, y: 0 });
    let run_right = AnimationKey { mode: MotionMode::Running, direction: Direction::Right };
    assert_eq!(switch, Some(run_right));
    assert_eq!(run_right.text(), "run_right");
    // Facing right keeps the sprite's horizontal scale positive.
    assert!(!p.mirrored);
}

#[test]
fn five_empty_frames_after_moving_left_stay_idle_facing_left() {
    let catalog = full_catalog();
    let mut p = player_at_origin(225_000);
    update_player(&mut p, &catalog, held(false, false, true, false), 16);
    assert_eq!(p.facing, Direction::Left);
    assert!(p.mirrored);
    let parked = p.position;
    let idle_left = AnimationKey { mode: MotionMode::Idle, direction: Direction::Left };
    for frame in 0..5u32 {
        let switch = update_player(&mut p, &catalog, no_keys(), 16);
        assert_eq!(p.mode, MotionMode::Idle);
        assert_eq!(p.facing, Direction::Left);
        assert_eq!(p.current_animation, idle_left);
        assert_eq!(p.current_animation.text(), "idle_left");
        assert_eq!(p.position, parked);
        if frame == 0 {
            assert_eq!(switch, Some(idle_left));
        } else {
            assert_eq!(switch, None);
        }
    }
}

#[test]
fn a_missing_animation_keeps_the_current_one_playing() {
    let empty = AnimationCatalog::new();
    let mut p = player_at_origin(100_000);
    let spawned_with = p.current_animation;
    let switch = update_player(&mut p, &empty, held(false, false, false, true), 16);
    assert_eq!(switch, None);
    assert_eq!(p.current_animation, spawned_with);
    // The motion itself still happened; only the switch was skipped.
    assert_eq!(p.mode, MotionMode::Running);
    assert_eq!(p.position, Vec2Milli { x: 1_600, y: 0 });
}

#[test]
fn facing_left_mirrors_the_sprite_and_facing_right_restores_it() {
    let catalog = full_catalog();
    let mut p = player_at_origin(100_000);
    update_player(&mut p, &catalog, held(false, false, true, false), 16);
    assert!(p.mirrored);
    update_player(&mut p, &catalog, held(false, false, false, true), 16);
    assert!(!p.mirrored);
}

#[test]
fn speed_is_constant_across_frames() {
    let catalog = full_catalog();
    let mut p = player_at_origin(225_000);
    update_player(&mut p, &catalog, held(true, false, false, false), 16);
    update_player(&mut p, &catalog, no_keys(), 16);
    assert_eq!(p.speed_milli, 225_000);
    assert!(p.is_well_formed());
}

#[test]
fn the_largest_speed_and_delta_give_the_exact_diagonal_step() {
    let catalog = full_catalog();
    let corner = Vec2Milli { x: 1_000_000_000_000, y: -1_000_000_000_000 };
    let mut p = Player::new(corner, 100_000_000);
    update_player(&mut p, &catalog, held(false, true, false, true), 600_000);
    let step: i64 = 42_420_000_000;
    assert_eq!(p.position, Vec2Milli { x: corner.x + step, y: corner.y - step });
    // The magnitudes tie, so the vertical axis wins and the sign picks Down.
    assert_eq!(p.facing, Direction::Down);
}

#[test]
fn a_player_out_of_bounds_is_reported_not_well_formed() {
    let mut p = player_at_origin(100_000);
    p.position.x = 1_000_000_000_001;
    assert!(!p.is_well_formed());
    p.position.x = -1_000_000_000_001;
    assert!(!p.is_well_formed());
    p.position.x = 1_000_000_000_000;
    assert!(p.is_well_formed());
}
