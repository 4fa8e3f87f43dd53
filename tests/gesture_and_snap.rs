use rubiks_cube::cube::{setup_cube, CubeSettings};
use rubiks_cube::geometry::{piece_translation_round, round_to_units, Axis, LatticePos, WorldPoint};
use rubiks_cube::gesture::{
    gen_side_move_event, handle_drag_end, handle_drag_start, handle_move, MouseDraggingRecorder,
};
use rubiks_cube::moves::{SideMoveEvent, SideMoveQueue, SideRotation};
use rubiks_cube::scramble::{debug_random_side_move_event, random_move, scramble_cube, scramble_move};

fn wp(x: i32, y: i32, z: i32) -> WorldPoint {
    WorldPoint::new(x, y, z)
}

fn quarter(axis: Axis, layer: i8, clockwise: bool) -> Option<SideMoveEvent> {
    let rotate = if clockwise { SideRotation::Clockwise90 } else { SideRotation::Counterclockwise90 };
    Some(SideMoveEvent { side: (axis, layer), rotate })
}

#[test]
fn drag_up_on_right_face_turns_about_z() {
    let r = gen_side_move_event(wp(10_000, 0, 0), wp(15_000, 3_000, -2_000), wp(15_000, 9_000, -2_000));
    assert_eq!(r, quarter(Axis::Z, 0, true));
}

#[test]
fn handedness_table_on_x_faces() {
    let piece = wp(10_000, -10_000, 10_000);
    // larger y drag turns about z, layer is the piece's z
    assert_eq!(gen_side_move_event(piece, wp(15_000, 0, 0), wp(15_000, 6_000, 1_000)), quarter(Axis::Z, 1, true));
    assert_eq!(gen_side_move_event(piece, wp(15_000, 0, 0), wp(15_000, -6_000, 1_000)), quarter(Axis::Z, 1, false));
    assert_eq!(gen_side_move_event(piece, wp(-15_000, 0, 0), wp(-15_000, 6_000, 0)), quarter(Axis::Z, 1, false));
    assert_eq!(gen_side_move_event(piece, wp(-15_000, 0, 0), wp(-15_000, -6_000, 0)), quarter(Axis::Z, 1, true));
    // larger z drag turns about y, layer is the piece's y
    assert_eq!(gen_side_move_event(piece, wp(15_000, 0, 0), wp(15_000, 1_000, 6_000)), quarter(Axis::Y, -1, false));
    assert_eq!(gen_side_move_event(piece, wp(15_000, 0, 0), wp(15_000, 1_000, -6_000)), quarter(Axis::Y, -1, true));
    assert_eq!(gen_side_move_event(piece, wp(-15_000, 0, 0), wp(-15_000, 0, 6_000)), quarter(Axis::Y, -1, true));
    assert_eq!(gen_side_move_event(piece, wp(-15_000, 0, 0), wp(-15_000, 0, -6_000)), quarter(Axis::Y, -1, false));
}

#[test]
fn handedness_table_on_y_faces() {
    let piece = wp(-10_000, 10_000, 0);
    assert_eq!(gen_side_move_event(piece, wp(0, 15_000, 0), wp(6_000, 15_000, 0)), quarter(Axis::Z, 0, false));
    assert_eq!(gen_side_move_event(piece, wp(0, 15_000, 0), wp(-6_000, 15_000, 0)), quarter(Axis::Z, 0, true));
    assert_eq!(gen_side_move_event(piece, wp(0, -15_000, 0), wp(6_000, -15_000, 0)), quarter(Axis::Z, 0, true));
    assert_eq!(gen_side_move_event(piece, wp(0, -15_000, 0), wp(-6_000, -15_000, 0)), quarter(Axis::Z, 0, false));
    assert_eq!(gen_side_move_event(piece, wp(0, 15_000, 0), wp(0, 15_000, 6_000)), quarter(Axis::X, -1, true));
    assert_eq!(gen_side_move_event(piece, wp(0, 15_000, 0), wp(0, 15_000, -6_000)), quarter(Axis::X, -1, false));
    assert_eq!(gen_side_move_event(piece, wp(0, -15_000, 0), wp(0, -15_000, 6_000)), quarter(Axis::X, -1, false));
    assert_eq!(gen_side_move_event(piece, wp(0, -15_000, 0), wp(0, -15_000, -6_000)), quarter(Axis::X, -1, true));
}

#[test]
fn handedness_table_on_z_faces() {
    let piece = wp(0, 10_000, -10_000);
    assert_eq!(gen_side_move_event(piece, wp(0, 0, 15_000), wp(6_000, 0, 15_000)), quarter(Axis::Y, 1, true));
    assert_eq!(gen_side_move_event(piece, wp(0, 0, 15_000), wp(-6_000, 0, 15_000)), quarter(Axis::Y, 1, false));
    assert_eq!(gen_side_move_event(piece, wp(0, 0, -15_000), wp(6_000, 0, -15_000)), quarter(Axis::Y, 1, false));
    assert_eq!(gen_side_move_event(piece, wp(0, 0, -15_000), wp(-6_000, 0, -15_000)), quarter(Axis::Y, 1, true));
    assert_eq!(gen_side_move_event(piece, wp(0, 0, 15_000), wp(0, 6_000, 15_000)), quarter(Axis::X, 0, false));
    assert_eq!(gen_side_move_event(piece, wp(0, 0, 15_000), wp(0, -6_000, 15_000)), quarter(Axis::X, 0, true));
    assert_eq!(gen_side_move_event(piece, wp(0, 0, -15_000), wp(0, 6_000, -15_000)), quarter(Axis::X, 0, true));
    assert_eq!(gen_side_move_event(piece, wp(0, 0, -15_000), wp(0, -6_000, -15_000)), quarter(Axis::X, 0, false));
}

#[test]
fn face_priority_and_tolerance() {
    let piece = wp(10_000, 10_000, 10_000);
    // on an edge both x and y match: x wins
    assert_eq!(gen_side_move_event(piece, wp(15_000, 15_000, 0), wp(15_000, 15_000, 6_000)), quarter(Axis::Y, 1, false));
    // within the tolerance of the face plane
    assert_eq!(gen_side_move_event(piece, wp(14_991, 0, 0), wp(14_991, 6_000, 0)), quarter(Axis::Z, 1, true));
    assert_eq!(gen_side_move_event(piece, wp(-15_009, 0, 0), wp(-15_009, 6_000, 0)), quarter(Axis::Z, 1, false));
    // just outside it, and on no face at all
    assert_eq!(gen_side_move_event(piece, wp(14_990, 0, 0), wp(14_990, 6_000, 0)), None);
    assert_eq!(gen_side_move_event(piece, wp(5_000, 2_000, 1_000), wp(5_000, 9_000, 1_000)), None);
}

#[test]
fn tie_between_drag_axes_goes_to_second() {
    let piece = wp(0, 0, 10_000);
    assert_eq!(gen_side_move_event(piece, wp(15_000, 0, 0), wp(15_000, 4_000, 4_000)), quarter(Axis::Y, 0, false));
    assert_eq!(gen_side_move_event(piece, wp(15_000, 0, 0), wp(15_000, 0, 0)), quarter(Axis::Y, 0, true));
}

#[test]
fn layer_is_the_rounded_piece_coordinate() {
    let start = wp(15_000, 0, 0);
    let end = wp(15_000, 6_000, 0);
    assert_eq!(gen_side_move_event(wp(10_000, 0, 9_400), start, end), quarter(Axis::Z, 1, true));
    assert_eq!(gen_side_move_event(wp(10_000, 0, -5_000), start, end), quarter(Axis::Z, -1, true));
    assert_eq!(gen_side_move_event(wp(10_000, 0, 4_999), start, end), quarter(Axis::Z, 0, true));
    assert_eq!(gen_side_move_event(wp(10_000, 0, 15_000), start, end), None);
}

#[test]
fn drag_emits_one_move_beyond_threshold() {
    let cube = setup_cube(&CubeSettings::default());
    let mut queue = SideMoveQueue::new();
    let mut recorder = MouseDraggingRecorder::new();
    // piece 22 starts at (1, 0, 0)
    assert_eq!(cube.position(22), LatticePos::new(1, 0, 0));
    handle_drag_start(&mut recorder, 22, Some(wp(15_000, 3_000, -2_000)));
    assert_eq!(recorder.piece, Some(22));
    handle_move(&mut recorder, Some(wp(15_000, 8_000, -2_000)), &cube, &mut queue);
    assert_eq!(queue.len(), 0);
    assert_eq!(recorder.start_pos, Some(wp(15_000, 3_000, -2_000)));
    handle_move(&mut recorder, None, &cube, &mut queue);
    assert_eq!(queue.len(), 0);
    handle_move(&mut recorder, Some(wp(15_000, 9_000, -2_000)), &cube, &mut queue);
    assert_eq!(queue.len(), 1);
    assert_eq!(queue.0[0], SideMoveEvent { side: (Axis::Z, 0), rotate: SideRotation::Clockwise90 });
    assert_eq!(recorder, MouseDraggingRecorder::new());
    handle_move(&mut recorder, Some(wp(15_000, 20_000, -2_000)), &cube, &mut queue);
    assert_eq!(queue.len(), 1);
}

#[test]
fn drag_end_clears_recorder() {
    let mut recorder = MouseDraggingRecorder::new();
    handle_drag_start(&mut recorder, 3, Some(wp(0, 15_000, 0)));
    handle_drag_end(&mut recorder);
    assert_eq!(recorder.start_pos, None);
    assert_eq!(recorder.piece, None);
    handle_drag_start(&mut recorder, 4, None);
    recorder.clear();
    assert_eq!(recorder, MouseDraggingRecorder { start_pos: None, piece: None });
}

#[test]
fn drag_off_any_face_clears_without_move() {
    let cube = setup_cube(&CubeSettings::default());
    let mut queue = SideMoveQueue::new();
    let mut recorder = MouseDraggingRecorder::new();
    handle_drag_start(&mut recorder, 13, Some(wp(0, 0, 0)));
    handle_move(&mut recorder, Some(wp(9_000, 0, 0)), &cube, &mut queue);
    assert_eq!(queue.len(), 0);
    assert_eq!(recorder, MouseDraggingRecorder::new());
}

#[test]
fn rounding_is_half_away_from_zero() {
    assert_eq!(round_to_units(0), 0);
    assert_eq!(round_to_units(4_999), 0);
    assert_eq!(round_to_units(5_000), 1);
    assert_eq!(round_to_units(-4_999), 0);
    assert_eq!(round_to_units(-5_000), -1);
    assert_eq!(round_to_units(9_999_999), 1_000);
    assert_eq!(round_to_units(i32::MAX), 214_748);
    assert_eq!(round_to_units(i32::MIN), -214_748);
}

#[test]
fn snap_moves_to_whole_units_and_is_idempotent() {
    let drifted = wp(9_998, -3, -10_001);
    let once = piece_translation_round(drifted);
    assert_eq!(once, wp(10_000, 0, -10_000));
    assert_eq!(piece_translation_round(once), once);
    let whole = wp(-10_000, 0, 10_000);
    assert_eq!(piece_translation_round(whole), whole);
    assert_eq!(piece_translation_round(wp(5_000, -5_000, 14_999)), wp(10_000, -10_000, 10_000));
}

#[test]
fn world_point_of_lattice_centre() {
    assert_eq!(WorldPoint::from_lattice(LatticePos::new(1, -1, 0)), wp(10_000, -10_000, 0));
    assert_eq!(WorldPoint::from_lattice(LatticePos::new(0, 1, -1)).get(Axis::Z), -10_000);
}

#[test]
fn scramble_adds_five_valid_moves() {
    let mut queue = SideMoveQueue::new();
    let keep = SideMoveEvent { side: (Axis::X, 0), rotate: SideRotation::Counterclockwise270 };
    queue.enqueue(keep);
    scramble_cube(&mut queue);
    assert_eq!(queue.len(), 6);
    assert_eq!(queue.0[0], keep);
    for m in queue.0.iter().skip(1) {
        assert!((-1..=1).contains(&m.side.1));
        assert!(matches!(
            m.rotate,
            SideRotation::Clockwise90 | SideRotation::Clockwise180 | SideRotation::Counterclockwise90
        ));
    }
}

#[test]
fn scramble_draws_cover_every_choice() {
    let mut queue = SideMoveQueue::new();
    for _ in 0..200 {
        scramble_cube(&mut queue);
    }
    let all: Vec<_> = queue.0.iter().copied().collect();
    for layer in -1..=1 {
        assert!(all.iter().any(|m| m.side.1 == layer));
    }
    for axis in [Axis::X, Axis::Y, Axis::Z] {
        assert!(all.iter().any(|m| m.side.0 == axis));
    }
    for rot in [SideRotation::Clockwise90, SideRotation::Clockwise180, SideRotation::Counterclockwise90] {
        assert!(all.iter().any(|m| m.rotate == rot));
    }
}

#[test]
fn draws_map_to_moves() {
    assert_eq!(scramble_move(-1, 0, 0), SideMoveEvent { side: (Axis::X, -1), rotate: SideRotation::Clockwise90 });
    assert_eq!(scramble_move(0, 1, 1), SideMoveEvent { side: (Axis::Y, 0), rotate: SideRotation::Clockwise180 });
    assert_eq!(scramble_move(1, 2, 2), SideMoveEvent { side: (Axis::Z, 1), rotate: SideRotation::Counterclockwise90 });
    assert_eq!(random_move(1, 2, 2).rotate, SideRotation::Clockwise270);
    assert_eq!(random_move(0, 0, 3).rotate, SideRotation::Counterclockwise90);
    assert_eq!(random_move(0, 0, 4).rotate, SideRotation::Counterclockwise180);
    assert_eq!(random_move(-1, 1, 5), SideMoveEvent { side: (Axis::Y, -1), rotate: SideRotation::Counterclockwise270 });
}

#[test]
fn random_side_move_adds_one_valid_move() {
    let mut queue = SideMoveQueue::new();
    for k in 1..=50 {
        debug_random_side_move_event(&mut queue);
        assert_eq!(queue.len(), k);
        let m = queue.0[k - 1];
        assert!((-1..=1).contains(&m.side.1));
    }
}

#[test]
fn rotation_angles_and_quarters() {
    assert_eq!(SideRotation::Clockwise90.angle(), 90_000);
    assert_eq!(SideRotation::Clockwise180.angle(), 180_000);
    assert_eq!(SideRotation::Clockwise270.angle(), 270_000);
    assert_eq!(SideRotation::Counterclockwise90.angle(), -90_000);
    assert_eq!(SideRotation::Counterclockwise180.angle(), -180_000);
    assert_eq!(SideRotation::Counterclockwise270.angle(), -270_000);
    assert_eq!(SideRotation::Counterclockwise90.cw_quarters(), 3);
    assert_eq!(SideRotation::Clockwise180.cw_quarters(), 2);
    assert!(SideRotation::Clockwise270.is_clockwise());
    assert!(!SideRotation::Counterclockwise180.is_clockwise());
}
