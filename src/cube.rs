use vstd::prelude::*;

use crate::geometry::{is_layer, lemma_turn_cw, Axis, LatticePos};
use crate::moves::{apply_move, apply_moves, SideMoveEvent, SideMoveQueue, SideRotation, QUARTER_TURN};

verus! {

/// Pieces in a whole cube, one at each lattice point.
pub const PIECE_COUNT: usize = 27;

/// Millidegrees in a thousandth of a turn.
pub const MILLIDEGREES_PER_MILLITURN: u128 = 360;

/// Microseconds in a second: tick lengths are given in microseconds.
pub const MICROS_PER_SECOND: u128 = 1_000_000;

/// One of the 27 pieces: where it started, and its edge length in
/// ten-thousandths of a world unit.
#[derive(Debug, Clone, Copy, PartialEq, Eq, Structural)]
pub struct Piece {
    pub init_pos: LatticePos,
    pub size: u32,
}

impl Piece {
    pub fn has_up_face(&self) -> (r: bool)
        ensures
            r == (self.init_pos.y == 1),
    {
        self.init_pos.y == 1
    }

    pub fn has_down_face(&self) -> (r: bool)
        ensures
            r == (self.init_pos.y == -1),
    {
        self.init_pos.y == -1
    }

    pub fn has_left_face(&self) -> (r: bool)
        ensures
            r == (self.init_pos.x == -1),
    {
        self.init_pos.x == -1
    }

    pub fn has_right_face(&self) -> (r: bool)
        ensures
            r == (self.init_pos.x == 1),
    {
        self.init_pos.x == 1
    }

    pub fn has_front_face(&self) -> (r: bool)
        ensures
            r == (self.init_pos.z == 1),
    {
        self.init_pos.z == 1
    }

    pub fn has_back_face(&self) -> (r: bool)
        ensures
            r == (self.init_pos.z == -1),
    {
        self.init_pos.z == -1
    }
}

/// The mark carried by each piece of the slice that is turning: the turn, and
/// the angle still to go in millidegrees (positive when clockwise).
#[derive(Debug, Clone, Copy, PartialEq, Eq, Structural)]
pub struct MovablePiece {
    pub axis: Axis,
    pub rotate: SideRotation,
    pub left_angle: i64,
}

impl MovablePiece {
    /// The angle left lies between zero and the whole turn, on the side of the
    /// turn's sense.
    pub open spec fn is_valid(self) -> bool {
        if self.rotate.spec_is_clockwise() {
            0 <= self.left_angle <= self.rotate.spec_angle()
        } else {
            self.rotate.spec_angle() <= self.left_angle <= 0
        }
    }
}

#[derive(Debug, Clone, Copy, PartialEq, Eq, Structural)]
pub enum PlayMode {
    Practice,
    Timekeeping,
}

/// The settings the engine reads: piece size in ten-thousandths of a world
/// unit, and turning speed in milli-turns per second.
#[derive(Debug, Clone, Copy, PartialEq, Eq, Structural)]
pub struct CubeSettings {
    pub piece_size: u32,
    pub rotate_speed: u32,
    pub play_mode: PlayMode,
}

impl Default for CubeSettings {
    fn default() -> (r: CubeSettings)
        ensures
            r.piece_size == 10_000,
            r.rotate_speed == 1_000,
            r.play_mode == PlayMode::Practice,
    {
        CubeSettings { piece_size: 10_000, rotate_speed: 1_000, play_mode: PlayMode::Practice }
    }
}

/// A tick that cannot run with the parameters it was given.
#[derive(Debug, Clone, Copy, PartialEq, Eq, Structural)]
pub enum SimError {
    /// The turning speed is zero, so a slice would never finish.
    RotateSpeedNotPositive,
    /// The time step is negative, so a slice would turn backwards.
    NegativeTimeStep,
}

/// What the host applies to each piece of the turning slice in one tick:
/// a turn by `angle` millidegrees about `axis` through the origin, clockwise
/// when positive.
#[derive(Debug, Clone, Copy, PartialEq, Eq, Structural)]
pub struct PoseDelta {
    pub axis: Axis,
    pub angle: i64,
}

/// A piece and the lattice point it occupies.
#[derive(Debug, Clone, Copy, PartialEq, Eq, Structural)]
pub struct CubePiece {
    pub piece: Piece,
    pub pos: LatticePos,
}

/// The slice that is turning: its layer along the mark's axis, and the mark.
#[derive(Debug, Clone, Copy, PartialEq, Eq, Structural)]
pub struct InFlight {
    pub layer: i8,
    pub tag: MovablePiece,
}

impl InFlight {
    /// The move that this slice is making.
    pub open spec fn spec_move(self) -> SideMoveEvent {
        SideMoveEvent { side: (self.tag.axis, self.layer), rotate: self.tag.rotate }
    }

    /// The slice after a tick whose step is `step`.
    pub open spec fn advanced(self, step: int) -> InFlight {
        InFlight {
            layer: self.layer,
            tag: MovablePiece {
                left_angle: (self.tag.left_angle - tick_delta(self.tag.left_angle as int, step)) as i64,
                ..self.tag
            },
        }
    }
}

/// The slice that move `m` starts, with the whole turn still to go: none when
/// its layer is no layer of the cube.
pub open spec fn flight_of(m: SideMoveEvent) -> Option<InFlight> {
    if m.is_valid() {
        Some(
            InFlight {
                layer: m.side.1,
                tag: MovablePiece {
                    axis: m.side.0,
                    rotate: m.rotate,
                    left_angle: m.rotate.spec_angle() as i64,
                },
            },
        )
    } else {
        None
    }
}

/// All pieces of the puzzle, and the one slice that may be turning. A piece
/// carries the mark of the turning slice exactly when it lies in that slice.
#[derive(Debug)]
pub struct Cube {
    pub pieces: Vec<CubePiece>,
    pub in_flight: Option<InFlight>,
}

/// The lattice point of the `i`th piece made: x, then y, then z running over
/// -1, 0, 1, z fastest.
pub open spec fn lattice_point(i: int) -> LatticePos {
    LatticePos { x: (i / 9 - 1) as i8, y: ((i / 3) % 3 - 1) as i8, z: (i % 3 - 1) as i8 }
}

/// No two entries are equal.
pub open spec fn all_distinct(ps: Seq<LatticePos>) -> bool {
    forall|i: int, j: int| 0 <= i < ps.len() && 0 <= j < ps.len() && i != j ==> ps[i] != ps[j]
}

/// Every entry is a point of the cube.
pub open spec fn all_on_cube(ps: Seq<LatticePos>) -> bool {
    forall|i: int| 0 <= i < ps.len() ==> (#[trigger] ps[i]).on_cube()
}

/// The angle turned in one tick of `dt` microseconds at `speed` milli-turns
/// per second, in millidegrees, rounded up so that any positive tick makes
/// progress.
pub open spec fn spec_angle_step(speed: int, dt: int) -> int {
    (speed * dt * MILLIDEGREES_PER_MILLITURN + MICROS_PER_SECOND - 1) / (MICROS_PER_SECOND as int)
}

/// The angle actually turned in a tick: the step, in the sense of the angle
/// left, but never past zero.
pub open spec fn tick_delta(left: int, step: int) -> int {
    if left >= 0 {
        if step >= left {
            left
        } else {
            step
        }
    } else {
        if step >= -left {
            left
        } else {
            -step
        }
    }
}

/// A move takes points of the cube to points of the cube, and different
/// points to different points.
pub proof fn lemma_apply_move_layout(ps: Seq<LatticePos>, m: SideMoveEvent)
    requires
        all_on_cube(ps),
        all_distinct(ps),
    ensures
        all_on_cube(apply_move(ps, m)),
        all_distinct(apply_move(ps, m)),
        apply_move(ps, m).len() == ps.len(),
{
    let qs = apply_move(ps, m);
    let (axis, layer) = m.side;
    let n = m.rotate.spec_cw_quarters();
    assert forall|i: int| 0 <= i < qs.len() implies (#[trigger] qs[i]).on_cube() by {
        lemma_turn_cw(ps[i], ps[i], axis, n);
    }
    assert forall|i: int, j: int|
        0 <= i < qs.len() && 0 <= j < qs.len() && i != j implies qs[i] != qs[j] by {
        lemma_turn_cw(ps[i], ps[j], axis, n);
        lemma_turn_cw(ps[j], ps[i], axis, n);
    }
}

/// A move whose layer is no layer of the cube leaves every piece in place.
pub proof fn lemma_apply_move_miss(ps: Seq<LatticePos>, m: SideMoveEvent)
    requires
        all_on_cube(ps),
        !m.is_valid(),
    ensures
        apply_move(ps, m) == ps,
{
    assert(apply_move(ps, m) =~= ps);
}

impl Cube {
    /// The lattice point of every piece, in piece order.
    pub open spec fn positions(&self) -> Seq<LatticePos> {
        self.pieces@.map_values(|c: CubePiece| c.pos)
    }

    /// The invariant: 27 pieces on distinct points of the cube, and a turning
    /// slice, if any, on a layer of the cube with a valid mark.
    pub open spec fn wf(&self) -> bool {
        &&& self.pieces@.len() == PIECE_COUNT
        &&& all_on_cube(self.positions())
        &&& all_distinct(self.positions())
        &&& match self.in_flight {
            Some(f) => is_layer(f.layer as int) && f.tag.is_valid(),
            None => true,
        }
    }

    /// The mark that the `i`th piece carries, if it lies in the turning slice.
    pub open spec fn tag(&self, i: int) -> Option<MovablePiece> {
        match self.in_flight {
            Some(f) => if self.pieces@[i].pos.coord(f.tag.axis) == f.layer as int {
                Some(f.tag)
            } else {
                None
            },
            None => None,
        }
    }

    /// The slice that turns once the next one has been chosen from `queue`.
    pub open spec fn next_flight(&self, queue: Seq<SideMoveEvent>) -> Option<InFlight> {
        match self.in_flight {
            Some(f) => Some(f),
            None => if queue.len() > 0 {
                flight_of(queue[0])
            } else {
                None
            },
        }
    }

    /// Where the pieces rest once the turning slice, if any, has finished.
    pub open spec fn settled(&self) -> Seq<LatticePos> {
        match self.in_flight {
            Some(f) => apply_move(self.positions(), f.spec_move()),
            None => self.positions(),
        }
    }

    /// Where the pieces rest once the turning slice and then each queued
    /// move, front first, have been made.
    pub open spec fn outcome(&self, queue: Seq<SideMoveEvent>) -> Seq<LatticePos> {
        apply_moves(self.settled(), queue)
    }

    /// A measure of the work left: it falls with every tick of positive
    /// length until no slice turns and no move waits.
    pub open spec fn pending_work(&self, queue: Seq<SideMoveEvent>) -> int {
        queue.len() * (4 * QUARTER_TURN + 2) + match self.in_flight {
            Some(f) => if f.tag.left_angle >= 0 {
                f.tag.left_angle + 1
            } else {
                -f.tag.left_angle + 1
            },
            None => 0,
        }
    }

    /// The number of pieces.
    pub fn len(&self) -> (r: usize)
        ensures
            r == self.pieces@.len(),
    {
        self.pieces.len()
    }

    /// The lattice point of the `i`th piece.
    pub fn position(&self, i: usize) -> (r: LatticePos)
        requires
            i < self.pieces@.len(),
        ensures
            r == self.pieces@[i as int].pos,
    {
        self.pieces[i].pos
    }

    /// The `i`th piece.
    pub fn piece(&self, i: usize) -> (r: Piece)
        requires
            i < self.pieces@.len(),
        ensures
            r == self.pieces@[i as int].piece,
    {
        self.pieces[i].piece
    }

    /// Whether a slice is turning.
    pub fn is_animating(&self) -> (r: bool)
        ensures
            r == (self.in_flight is Some),
    {
        self.in_flight.is_some()
    }

    /// The mark of the `i`th piece, if it lies in the turning slice.
    pub fn movable_piece(&self, i: usize) -> (r: Option<MovablePiece>)
        requires
            i < self.pieces@.len(),
        ensures
            r == self.tag(i as int),
    {
        match self.in_flight {
            Some(f) => if self.pieces[i].pos.get(f.tag.axis) == f.layer {
                Some(f.tag)
            } else {
                None
            },
            None => None,
        }
    }
}

/// Makes the 27 pieces, each resting at its starting lattice point, with no
/// slice turning.
pub fn setup_cube(settings: &CubeSettings) -> (r: Cube)
    ensures
        r.wf(),
        r.in_flight is None,
        forall|i: int|
            0 <= i < PIECE_COUNT ==> (#[trigger] r.pieces@[i]) == (CubePiece {
                piece: Piece { init_pos: lattice_point(i), size: settings.piece_size },
                pos: lattice_point(i),
            }),
{
    let mut pieces: Vec<CubePiece> = Vec::new();
    let mut i: usize = 0;
    while i < PIECE_COUNT
        invariant
            i <= PIECE_COUNT,
            pieces@.len() == i,
            forall|j: int|
                0 <= j < i ==> (#[trigger] pieces@[j]) == (CubePiece {
                    piece: Piece { init_pos: lattice_point(j), size: settings.piece_size },
                    pos: lattice_point(j),
                }),
        decreases PIECE_COUNT - i,
    {
        let p = LatticePos {
            x: (i / 9) as i8 - 1,
            y: ((i / 3) % 3) as i8 - 1,
            z: (i % 3) as i8 - 1,
        };
        pieces.push(CubePiece { piece: Piece { init_pos: p, size: settings.piece_size }, pos: p });
        i = i + 1;
    }
    let r = Cube { pieces, in_flight: None };
    assert forall|j: int, k: int|
        0 <= j < r.positions().len() && 0 <= k < r.positions().len() && j != k implies
        r.positions()[j] != r.positions()[k] by {
        assert(r.positions()[j] == lattice_point(j));
        assert(r.positions()[k] == lattice_point(k));
    }
    r
}

/// Puts every piece back at its starting point, ends any turn, and drops every
/// pending move.
pub fn reset_cube(cube: &mut Cube, queue: &mut SideMoveQueue, settings: &CubeSettings)
    ensures
        final(cube).wf(),
        final(cube).in_flight is None,
        forall|i: int|
            0 <= i < PIECE_COUNT ==> (#[trigger] final(cube).pieces@[i]) == (CubePiece {
                piece: Piece { init_pos: lattice_point(i), size: settings.piece_size },
                pos: lattice_point(i),
            }),
        final(queue).moves() == Seq::<SideMoveEvent>::empty(),
{
    *cube = setup_cube(settings);
    queue.clear();
}

} // verus!
