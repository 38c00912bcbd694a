use iso_camera::bindings::{Key, MovementBindings};
use iso_camera::controller::{change_player_facing, move_camera, move_player, tick, IsoCamera, KeyInput, Player};
use iso_camera::facing::Direction;
use iso_camera::geometry::GridVec;

fn keys(ks: &[Key]) -> KeyInput {
    KeyInput::new(ks.to_vec())
}

fn dist_sq(a: GridVec, b: GridVec) -> i64 {
    let (dx, dy, dz) = (a.x - b.x, a.y - b.y, a.z - b.z);
    dx * dx + dy * dy + dz * dz
}

fn scene() -> (Player, Vec<IsoCamera>) {
    let player = Player::default();
    let camera = IsoCamera::new(GridVec::zero(), GridVec::new(5, 7, 5));
    (player, vec![camera])
}

#[test]
fn forward_key_from_origin_moves_to_minus_z() {
    let (mut player, mut cameras) = scene();
    assert_eq!(player.facing, Direction::North);
    assert_eq!(
        player.movement_bindings,
        MovementBindings { up: Key::W, down: Key::S, left: Key::A, right: Key::D }
    );
    tick(&keys(&[Key::W]), &mut player, &mut cameras);
    assert_eq!(player.position, GridVec::new(0, 0, -1));
    assert_eq!(player.facing, Direction::North);
    assert_eq!(cameras[0].focus, GridVec::new(0, 0, -1));
    assert_eq!(cameras[0].position, GridVec::new(5, 7, 4));
}

#[test]
fn two_left_turns_reach_south_with_half_turn_of_yaw() {
    let (mut player, mut cameras) = scene();
    tick(&keys(&[Key::Left]), &mut player, &mut cameras);
    assert_eq!(player.facing, Direction::East);
    assert_eq!(cameras[0].quarter_turns, 1);
    assert_eq!(cameras[0].position, GridVec::new(5, 7, -5));
    tick(&keys(&[Key::Left]), &mut player, &mut cameras);
    assert_eq!(player.facing, Direction::South);
    assert_eq!(cameras[0].quarter_turns, 2);
    assert_eq!(cameras[0].position, GridVec::new(-5, 7, -5));
}

#[test]
fn four_right_turns_return_to_start() {
    let (mut player, mut cameras) = scene();
    let start = cameras[0].position;
    let mut seen = Vec::new();
    for _ in 0..4 {
        tick(&keys(&[Key::Right]), &mut player, &mut cameras);
        seen.push(player.facing);
    }
    assert_eq!(seen, vec![Direction::West, Direction::South, Direction::East, Direction::North]);
    assert_eq!(cameras[0].quarter_turns, 0);
    assert_eq!(cameras[0].position, start);
    assert_eq!(player.position, GridVec::zero());
}

#[test]
fn one_right_turn_is_minus_ninety_degrees() {
    let (mut player, mut cameras) = scene();
    tick(&keys(&[Key::Right]), &mut player, &mut cameras);
    assert_eq!(cameras[0].quarter_turns, 3);
    assert_eq!(cameras[0].position, GridVec::new(-5, 7, 5));
}

#[test]
fn turns_undo_each_other_and_cycle_in_four() {
    for d in [Direction::North, Direction::East, Direction::South, Direction::West] {
        assert_eq!(d.turn_right().turn_left(), d);
        assert_eq!(d.turn_left().turn_right(), d);
        assert_eq!(d.turn_left().turn_left().turn_left().turn_left(), d);
    }
    assert_eq!(Direction::North.turn_left(), Direction::East);
    assert_eq!(Direction::North.turn_right(), Direction::West);
}

#[test]
fn binding_rows_are_distinct_rotations() {
    let rows: Vec<MovementBindings> =
        [Direction::North, Direction::East, Direction::South, Direction::West]
            .iter()
            .map(|d| MovementBindings::for_facing(*d))
            .collect();
    assert_eq!(rows[1], MovementBindings { up: Key::D, down: Key::A, left: Key::W, right: Key::S });
    assert_eq!(rows[2], MovementBindings { up: Key::S, down: Key::W, left: Key::D, right: Key::A });
    assert_eq!(rows[3], MovementBindings { up: Key::A, down: Key::D, left: Key::S, right: Key::W });
    for i in 0..4 {
        for j in 0..4 {
            if i != j {
                assert_ne!(rows[i], rows[j]);
            }
        }
        assert_eq!(rows[i].rotate(), rows[(i + 1) % 4]);
    }
}

#[test]
fn bindings_follow_every_transition() {
    for d in [Direction::North, Direction::East, Direction::South, Direction::West] {
        for left in [true, false] {
            let (f, b) = change_player_facing(&d, left);
            let expected = if left { d.turn_left() } else { d.turn_right() };
            assert_eq!(f, expected);
            assert_eq!(b, MovementBindings::for_facing(f));
        }
    }
}

#[test]
fn bindings_stay_in_step_with_facing_over_ticks() {
    let (mut player, mut cameras) = scene();
    let turns = [Key::Left, Key::Left, Key::Right, Key::Left, Key::Left, Key::Left, Key::Right];
    for k in turns {
        tick(&keys(&[k]), &mut player, &mut cameras);
        assert_eq!(player.movement_bindings, MovementBindings::for_facing(player.facing));
    }
}

#[test]
fn camera_keeps_radius_over_any_ticks() {
    let (mut player, mut cameras) = scene();
    cameras.push(IsoCamera::default());
    let radii: Vec<i64> = cameras.iter().map(|c| dist_sq(c.position, c.focus)).collect();
    assert_eq!(radii, vec![99, 25]);
    let script = [
        vec![Key::W],
        vec![Key::Left, Key::D],
        vec![Key::S, Key::A],
        vec![Key::Right],
        vec![],
        vec![Key::Left, Key::Right, Key::W],
        vec![Key::D],
    ];
    for ks in script.iter() {
        tick(&keys(ks), &mut player, &mut cameras);
        for (c, r) in cameras.iter().zip(radii.iter()) {
            assert_eq!(c.focus, player.position);
            assert_eq!(dist_sq(c.position, player.position), *r);
        }
    }
}

#[test]
fn movement_uses_facing_from_before_the_turn() {
    let (mut player, mut cameras) = scene();
    tick(&keys(&[Key::W, Key::Left]), &mut player, &mut cameras);
    assert_eq!(player.position, GridVec::new(0, 0, -1));
    assert_eq!(player.facing, Direction::East);
    // Now facing East, W is the strafe-left key.
    tick(&keys(&[Key::W]), &mut player, &mut cameras);
    assert_eq!(player.position, GridVec::new(-1, 0, -1));
}

#[test]
fn held_key_moves_only_once() {
    let (mut player, mut cameras) = scene();
    tick(&keys(&[Key::W]), &mut player, &mut cameras);
    for _ in 0..9 {
        tick(&keys(&[]), &mut player, &mut cameras);
    }
    assert_eq!(player.position, GridVec::new(0, 0, -1));
}

#[test]
fn two_movement_keys_move_diagonally() {
    let mut player = Player::default();
    move_player(&keys(&[Key::W, Key::D]), &mut player);
    assert_eq!(player.position, GridVec::new(1, 0, -1));
    move_player(&keys(&[Key::W, Key::S, Key::A]), &mut player);
    assert_eq!(player.position, GridVec::new(0, 0, -1));
}

#[test]
fn turn_keys_do_not_move_the_player() {
    let mut player = Player::default();
    move_player(&keys(&[Key::Left, Key::Right]), &mut player);
    assert_eq!(player.position, GridVec::zero());
    assert_eq!(player.facing, Direction::North);
}

#[test]
fn left_turn_wins_over_right_turn() {
    let mut player = Player::default();
    let mut cameras = vec![IsoCamera::default()];
    move_camera(&keys(&[Key::Right, Key::Left]), &mut cameras, &mut player);
    assert_eq!(player.facing, Direction::East);
    assert_eq!(cameras[0].quarter_turns, 1);
    assert_eq!(cameras[0].position, GridVec::new(5, 0, 0));
}

#[test]
fn every_camera_turns_once_per_tick() {
    let mut player = Player::default();
    let mut cameras = vec![IsoCamera::default(), IsoCamera::default()];
    move_camera(&keys(&[Key::Left]), &mut cameras, &mut player);
    assert_eq!(player.facing, Direction::East);
    assert_eq!(cameras[0].quarter_turns, 1);
    assert_eq!(cameras[1].quarter_turns, 1);
}

#[test]
fn default_camera_sits_five_units_out() {
    let c = IsoCamera::default();
    assert_eq!(c.focus, GridVec::zero());
    assert_eq!(c.offset, GridVec::new(0, 0, 5));
    assert_eq!(c.position, GridVec::new(0, 0, 5));
    assert_eq!(c.quarter_turns, 0);
}

#[test]
fn camera_new_takes_offset_from_placement() {
    let c = IsoCamera::new(GridVec::new(1, 0, 1), GridVec::new(6, 7, 6));
    assert_eq!(c.offset, GridVec::new(5, 7, 5));
    assert_eq!(c.position, GridVec::new(6, 7, 6));
}

#[test]
fn rotation_by_quarters() {
    let v = GridVec::new(1, 2, 3);
    assert_eq!(v.rotate_y(0), v);
    assert_eq!(v.rotate_y(1), GridVec::new(3, 2, -1));
    assert_eq!(v.rotate_y(2), GridVec::new(-1, 2, -3));
    assert_eq!(v.rotate_y(3), GridVec::new(-3, 2, 1));
}

#[test]
fn just_pressed_reports_membership() {
    let input = keys(&[Key::A, Key::Left]);
    assert!(input.just_pressed(Key::A));
    assert!(input.just_pressed(Key::Left));
    assert!(!input.just_pressed(Key::W));
    assert!(!keys(&[]).just_pressed(Key::Right));
}

#[test]
fn step_room_near_the_limit() {
    let mut player = Player::default();
    assert!(player.can_step());
    player.position = GridVec::new(iso_camera::geometry::COORD_LIMIT, 0, 0);
    assert!(!player.can_step());
    assert!(GridVec::new(iso_camera::geometry::COORD_LIMIT, 0, 0).is_bounded());
    assert!(!GridVec::new(i64::MAX, 0, 0).is_bounded());
}
