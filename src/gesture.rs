use vstd::prelude::*;

use crate::cube::Cube;
use crate::geometry::{is_layer, round_to_units, round_units, Axis, WorldPoint, UNITS_PER_WORLD};
use crate::moves::{SideMoveEvent, SideMoveQueue, SideRotation};

verus! {

/// How far the pointer must travel before a drag turns a slice: half a world
/// unit, in ten-thousandths.
pub const DRAG_THRESHOLD: i128 = 5_000;

/// Distance from the centre of the cube to the plane of an outer face: one
/// and a half world units, in ten-thousandths.
pub const FACE_OFFSET: i64 = 15_000;

/// How close to a face plane a hit point must lie to count as on that face.
pub const FACE_TOLERANCE: i64 = 10;

/// The drag in progress: where it started and on which piece.
#[derive(Debug, Clone, Copy, PartialEq, Eq, Structural)]
pub struct MouseDraggingRecorder {
    pub start_pos: Option<WorldPoint>,
    pub piece: Option<usize>,
}

impl MouseDraggingRecorder {
    pub open spec fn is_clear(&self) -> bool {
        self.start_pos is None && self.piece is None
    }

    /// A recorder with no drag in progress.
    pub fn new() -> (r: MouseDraggingRecorder)
        ensures
            r.is_clear(),
    {
        MouseDraggingRecorder { start_pos: None, piece: None }
    }

    /// Forgets the drag in progress.
    pub fn clear(&mut self)
        ensures
            final(self).is_clear(),
    {
        self.start_pos = None;
        self.piece = None;
    }
}

pub open spec fn abs(v: int) -> int {
    if v >= 0 {
        v
    } else {
        -v
    }
}

/// A coordinate lies on the plane of one of the two outer faces across its
/// axis.
pub open spec fn on_face_plane(v: int) -> bool {
    abs(abs(v) - FACE_OFFSET) < FACE_TOLERANCE
}

/// The axis of the face that a hit point lies on, trying x, then y, then z.
pub open spec fn face_axis(p: WorldPoint) -> Option<Axis> {
    if on_face_plane(p.x as int) {
        Some(Axis::X)
    } else if on_face_plane(p.y as int) {
        Some(Axis::Y)
    } else if on_face_plane(p.z as int) {
        Some(Axis::Z)
    } else {
        None
    }
}

/// The axis after `a` in the cycle x, y, z.
pub open spec fn next_axis(a: Axis) -> Axis {
    match a {
        Axis::X => Axis::Y,
        Axis::Y => Axis::Z,
        Axis::Z => Axis::X,
    }
}

/// The two axes that lie in the plane of a face on `face`, in the order x,
/// y, z.
pub open spec fn face_plane_axes(face: Axis) -> (Axis, Axis) {
    match face {
        Axis::X => (Axis::Y, Axis::Z),
        Axis::Y => (Axis::X, Axis::Z),
        Axis::Z => (Axis::X, Axis::Y),
    }
}

/// Of the two axes in the face plane, the one the drag moved further along;
/// the second on a tie.
pub open spec fn drag_axis(face: Axis, start: WorldPoint, end: WorldPoint) -> Axis {
    let (a, b) = face_plane_axes(face);
    if abs(end.coord(a) - start.coord(a)) > abs(end.coord(b) - start.coord(b)) {
        a
    } else {
        b
    }
}

/// The axis in the face plane that the drag did not follow: the slice turns
/// about it.
pub open spec fn turn_axis(face: Axis, start: WorldPoint, end: WorldPoint) -> Axis {
    let (a, b) = face_plane_axes(face);
    if drag_axis(face, start, end) == a {
        b
    } else {
        a
    }
}

/// The sense of the quarter turn that a drag gives. A drag towards the
/// positive end of the next axis in the cycle x, y, z, on the face at the
/// positive end of its axis, turns clockwise; reversing either the face or
/// the drag reverses the turn.
pub open spec fn drag_is_clockwise(
    face: Axis,
    face_positive: bool,
    drag: Axis,
    drag_positive: bool,
) -> bool {
    (drag == next_axis(face)) == (face_positive == drag_positive)
}

/// The move that a drag from `start` to `end` on the piece whose centre is at
/// `piece` asks for: a quarter turn of the piece's own layer about the axis
/// of the face plane that the drag did not follow. None when `start` lies on
/// no face, or the piece lies on no layer.
pub open spec fn resolve_move(piece: WorldPoint, start: WorldPoint, end: WorldPoint) -> Option<
    SideMoveEvent,
> {
    match face_axis(start) {
        None => None,
        Some(face) => {
            let drag = drag_axis(face, start, end);
            let axis = turn_axis(face, start, end);
            let layer = round_units(piece.coord(axis));
            let clockwise = drag_is_clockwise(
                face,
                start.coord(face) > 0,
                drag,
                end.coord(drag) - start.coord(drag) > 0,
            );
            if is_layer(layer) {
                Some(
                    SideMoveEvent {
                        side: (axis, layer as i8),
                        rotate: if clockwise {
                            SideRotation::Clockwise90
                        } else {
                            SideRotation::Counterclockwise90
                        },
                    },
                )
            } else {
                None
            }
        },
    }
}

/// The squared distance between two points, in squared ten-thousandths.
pub open spec fn dist_sq(a: WorldPoint, b: WorldPoint) -> int {
    (a.x - b.x) * (a.x - b.x) + (a.y - b.y) * (a.y - b.y) + (a.z - b.z) * (a.z - b.z)
}

fn abs_i64(v: i64) -> (r: i64)
    requires
        v > i64::MIN,
    ensures
        r == abs(v as int),
{
    if v >= 0 {
        v
    } else {
        -v
    }
}

fn on_face(v: i32) -> (r: bool)
    ensures
        r == on_face_plane(v as int),
{
    abs_i64(abs_i64(v as i64) - FACE_OFFSET) < FACE_TOLERANCE
}

/// The sense of the quarter turn for each face, drag axis and the two signs.
fn drag_direction(face: Axis, face_positive: bool, drag: Axis, drag_positive: bool) -> (r:
    SideRotation)
    ensures
        r == if drag_is_clockwise(face, face_positive, drag, drag_positive) {
            SideRotation::Clockwise90
        } else {
            SideRotation::Counterclockwise90
        },
{
    let along_cycle = match (face, drag) {
        (Axis::X, Axis::Y) | (Axis::Y, Axis::Z) | (Axis::Z, Axis::X) => true,
        _ => false,
    };
    if along_cycle == (face_positive == drag_positive) {
        SideRotation::Clockwise90
    } else {
        SideRotation::Counterclockwise90
    }
}

/// Resolves a drag from `start` to `end` on the piece whose centre is at
/// `piece_translation` into a quarter-turn slice move.
pub fn gen_side_move_event(piece_translation: WorldPoint, start_pos: WorldPoint, end_pos: WorldPoint) -> (r: Option<SideMoveEvent>)
    ensures
        r == resolve_move(piece_translation, start_pos, end_pos),
{
    let face = if on_face(start_pos.x) {
        Axis::X
    } else if on_face(start_pos.y) {
        Axis::Y
    } else if on_face(start_pos.z) {
        Axis::Z
    } else {
        return None;
    };
    let (a, b) = match face {
        Axis::X => (Axis::Y, Axis::Z),
        Axis::Y => (Axis::X, Axis::Z),
        Axis::Z => (Axis::X, Axis::Y),
    };
    let delta_a = end_pos.get(a) as i64 - start_pos.get(a) as i64;
    let delta_b = end_pos.get(b) as i64 - start_pos.get(b) as i64;
    let (drag, axis, delta) = if abs_i64(delta_a) > abs_i64(delta_b) {
        (a, b, delta_a)
    } else {
        (b, a, delta_b)
    };
    let rotate = drag_direction(face, start_pos.get(face) > 0, drag, delta > 0);
    let layer = round_to_units(piece_translation.get(axis));
    match SideMoveEvent::new(axis, layer, rotate) {
        Ok(m) => Some(m),
        Err(_) => None,
    }
}

/// Whether two points lie more than the drag threshold apart.
fn beyond_threshold(a: WorldPoint, b: WorldPoint) -> (r: bool)
    ensures
        r == (dist_sq(a, b) > DRAG_THRESHOLD * DRAG_THRESHOLD),
{
    let dx = a.x as i128 - b.x as i128;
    let dy = a.y as i128 - b.y as i128;
    let dz = a.z as i128 - b.z as i128;
    proof {
        assert(dx * dx <= 0x1_0000_0000int * 0x1_0000_0000int) by (nonlinear_arith)
            requires
                -0x1_0000_0000int <= dx <= 0x1_0000_0000int,
        ;
        assert(dy * dy <= 0x1_0000_0000int * 0x1_0000_0000int) by (nonlinear_arith)
            requires
                -0x1_0000_0000int <= dy <= 0x1_0000_0000int,
        ;
        assert(dz * dz <= 0x1_0000_0000int * 0x1_0000_0000int) by (nonlinear_arith)
            requires
                -0x1_0000_0000int <= dz <= 0x1_0000_0000int,
        ;
        assert(dx * dx >= 0) by (nonlinear_arith);
        assert(dy * dy >= 0) by (nonlinear_arith);
        assert(dz * dz >= 0) by (nonlinear_arith);
    }
    dx * dx + dy * dy + dz * dz > DRAG_THRESHOLD * DRAG_THRESHOLD
}

/// Starts recording a drag on piece `piece` at hit point `hit`.
pub fn handle_drag_start(recorder: &mut MouseDraggingRecorder, piece: usize, hit: Option<WorldPoint>)
    ensures
        *final(recorder) == (MouseDraggingRecorder { start_pos: hit, piece: Some(piece) }),
{
    recorder.piece = Some(piece);
    recorder.start_pos = hit;
}

/// What a pointer move to `hit` does to the queue: once it lies beyond the
/// threshold from the recorded start, the move that the drag resolves to on
/// the recorded piece's lattice position is added at the back, if there is
/// one.
pub open spec fn queue_after_drag(
    recorder: MouseDraggingRecorder,
    hit: WorldPoint,
    cube: &Cube,
    queue: Seq<SideMoveEvent>,
) -> Seq<SideMoveEvent> {
    match recorder.piece {
        Some(i) => if i < cube.pieces@.len() {
            let p = cube.pieces@[i as int].pos;
            let centre = WorldPoint {
                x: (p.x * UNITS_PER_WORLD) as i32,
                y: (p.y * UNITS_PER_WORLD) as i32,
                z: (p.z * UNITS_PER_WORLD) as i32,
            };
            match resolve_move(centre, recorder.start_pos->0, hit) {
                Some(m) => queue.push(m),
                None => queue,
            }
        } else {
            queue
        },
        None => queue,
    }
}

/// Follows the pointer during a drag. Once it has moved beyond the threshold
/// from where the drag started, the drag is resolved against the recorded
/// piece's lattice position, the move, if any, goes to the back of the queue,
/// and the recorder is cleared: a drag makes at most one move.
pub fn handle_move(
    recorder: &mut MouseDraggingRecorder,
    hit: Option<WorldPoint>,
    cube: &Cube,
    queue: &mut SideMoveQueue,
)
    requires
        cube.wf(),
    ensures
        ({
            let fires = hit is Some && old(recorder).start_pos is Some && dist_sq(
                old(recorder).start_pos->0,
                hit->0,
            ) > DRAG_THRESHOLD * DRAG_THRESHOLD;
            &&& fires ==> final(recorder).is_clear() && final(queue).moves() == queue_after_drag(
                *old(recorder),
                hit->0,
                cube,
                old(queue).moves(),
            )
            &&& !fires ==> *final(recorder) == *old(recorder) && final(queue).moves() == old(
                queue,
            ).moves()
        }),
{
    let (start, current) = match (recorder.start_pos, hit) {
        (Some(s), Some(c)) => (s, c),
        _ => return ,
    };
    if !beyond_threshold(start, current) {
        return ;
    }
    if let Some(i) = recorder.piece {
        if i < cube.len() {
            proof {
                assert(cube.positions()[i as int] == cube.pieces@[i as int].pos);
            }
            let centre = WorldPoint::from_lattice(cube.position(i));
            if let Some(m) = gen_side_move_event(centre, start, current) {
                queue.enqueue(m);
            }
        }
    }
    recorder.clear();
}

/// Ends the drag: the recorder is cleared whatever happened.
pub fn handle_drag_end(recorder: &mut MouseDraggingRecorder)
    ensures
        final(recorder).is_clear(),
{
    recorder.clear();
}

} // verus!
