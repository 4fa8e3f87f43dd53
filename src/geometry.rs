use vstd::prelude::*;

verus! {

/// One of the three world axes.
#[derive(Debug, Clone, Copy, PartialEq, Eq, Structural)]
pub enum Axis {
    X,
    Y,
    Z,
}

/// A point of the integer lattice on which the piece centres rest.
#[derive(Debug, Clone, Copy, PartialEq, Eq, Structural)]
pub struct LatticePos {
    pub x: i8,
    pub y: i8,
    pub z: i8,
}

/// A layer coordinate of the puzzle: -1, 0 or 1.
pub open spec fn is_layer(v: int) -> bool {
    -1 <= v <= 1
}

impl LatticePos {
    /// Every coordinate is one of the three layers.
    pub open spec fn on_cube(self) -> bool {
        is_layer(self.x as int) && is_layer(self.y as int) && is_layer(self.z as int)
    }

    /// The coordinate of the point along `axis`.
    pub open spec fn coord(self, axis: Axis) -> int {
        match axis {
            Axis::X => self.x as int,
            Axis::Y => self.y as int,
            Axis::Z => self.z as int,
        }
    }

    pub fn new(x: i8, y: i8, z: i8) -> (r: LatticePos)
        ensures
            r == (LatticePos { x, y, z }),
    {
        LatticePos { x, y, z }
    }

    /// The coordinate of the point along `axis`.
    pub fn get(&self, axis: Axis) -> (r: i8)
        ensures
            r as int == self.coord(axis),
    {
        match axis {
            Axis::X => self.x,
            Axis::Y => self.y,
            Axis::Z => self.z,
        }
    }
}

/// One clockwise quarter turn of a point about `axis`, clockwise as seen from
/// the positive end of the axis looking towards the origin (a turn by -90
/// degrees under the right-hand rule).
pub open spec fn quarter_cw(p: LatticePos, axis: Axis) -> LatticePos {
    match axis {
        Axis::X => LatticePos { x: p.x, y: p.z, z: (-p.y) as i8 },
        Axis::Y => LatticePos { x: (-p.z) as i8, y: p.y, z: p.x },
        Axis::Z => LatticePos { x: p.y, y: (-p.x) as i8, z: p.z },
    }
}

/// `n` clockwise quarter turns of a point about `axis`.
pub open spec fn turn_cw(p: LatticePos, axis: Axis, n: nat) -> LatticePos
    decreases n,
{
    if n == 0 {
        p
    } else {
        quarter_cw(turn_cw(p, axis, (n - 1) as nat), axis)
    }
}

/// A quarter turn keeps a point on the cube, keeps its coordinate along the
/// axis of the turn, and sends different points to different points.
pub proof fn lemma_quarter_cw(p: LatticePos, q: LatticePos, axis: Axis)
    requires
        p.on_cube(),
        q.on_cube(),
    ensures
        quarter_cw(p, axis).on_cube(),
        quarter_cw(p, axis).coord(axis) == p.coord(axis),
        p != q ==> quarter_cw(p, axis) != quarter_cw(q, axis),
{
}

/// Turning keeps a point on the cube, keeps its coordinate along the axis,
/// and two points that differ still differ after the same turn.
pub proof fn lemma_turn_cw(p: LatticePos, q: LatticePos, axis: Axis, n: nat)
    requires
        p.on_cube(),
        q.on_cube(),
    ensures
        turn_cw(p, axis, n).on_cube(),
        turn_cw(p, axis, n).coord(axis) == p.coord(axis),
        p != q ==> turn_cw(p, axis, n) != turn_cw(q, axis, n),
    decreases n,
{
    if n > 0 {
        lemma_turn_cw(p, q, axis, (n - 1) as nat);
        lemma_turn_cw(q, q, axis, (n - 1) as nat);
        lemma_quarter_cw(turn_cw(p, axis, (n - 1) as nat), turn_cw(q, axis, (n - 1) as nat), axis);
    }
}

/// Applies one clockwise quarter turn about `axis`.
pub fn quarter_turn(p: LatticePos, axis: Axis) -> (r: LatticePos)
    requires
        p.on_cube(),
    ensures
        r == quarter_cw(p, axis),
{
    match axis {
        Axis::X => LatticePos { x: p.x, y: p.z, z: -p.y },
        Axis::Y => LatticePos { x: -p.z, y: p.y, z: p.x },
        Axis::Z => LatticePos { x: p.y, y: -p.x, z: p.z },
    }
}

/// Applies `n` clockwise quarter turns about `axis`.
pub fn turn(p: LatticePos, axis: Axis, n: u8) -> (r: LatticePos)
    requires
        p.on_cube(),
    ensures
        r == turn_cw(p, axis, n as nat),
{
    let mut r = p;
    let mut i: u8 = 0;
    while i < n
        invariant
            i <= n,
            p.on_cube(),
            r == turn_cw(p, axis, i as nat),
        decreases n - i,
    {
        proof {
            lemma_turn_cw(p, p, axis, i as nat);
        }
        r = quarter_turn(r, axis);
        i = i + 1;
    }
    r
}

/// Ten-thousandths of a world unit in one world unit: a `WorldPoint` holds its
/// coordinates in these.
pub const UNITS_PER_WORLD: i32 = 10_000;

/// A point of world space, each coordinate in ten-thousandths of a world unit.
#[derive(Debug, Clone, Copy, PartialEq, Eq, Structural)]
pub struct WorldPoint {
    pub x: i32,
    pub y: i32,
    pub z: i32,
}

impl WorldPoint {
    /// The coordinate of the point along `axis`.
    pub open spec fn coord(self, axis: Axis) -> int {
        match axis {
            Axis::X => self.x as int,
            Axis::Y => self.y as int,
            Axis::Z => self.z as int,
        }
    }

    pub fn new(x: i32, y: i32, z: i32) -> (r: WorldPoint)
        ensures
            r == (WorldPoint { x, y, z }),
    {
        WorldPoint { x, y, z }
    }

    /// The coordinate of the point along `axis`.
    pub fn get(&self, axis: Axis) -> (r: i32)
        ensures
            r as int == self.coord(axis),
    {
        match axis {
            Axis::X => self.x,
            Axis::Y => self.y,
            Axis::Z => self.z,
        }
    }

    /// The world point at the centre of a lattice position.
    pub fn from_lattice(p: LatticePos) -> (r: WorldPoint)
        requires
            p.on_cube(),
        ensures
            r.x == p.x * UNITS_PER_WORLD,
            r.y == p.y * UNITS_PER_WORLD,
            r.z == p.z * UNITS_PER_WORLD,
    {
        WorldPoint {
            x: p.x as i32 * UNITS_PER_WORLD,
            y: p.y as i32 * UNITS_PER_WORLD,
            z: p.z as i32 * UNITS_PER_WORLD,
        }
    }
}

/// `v` ten-thousandths rounded to the nearest whole world unit, halfway cases
/// away from zero.
pub open spec fn round_units(v: int) -> int {
    if v >= 0 {
        (v + UNITS_PER_WORLD / 2) / (UNITS_PER_WORLD as int)
    } else {
        -((-v + UNITS_PER_WORLD / 2) / (UNITS_PER_WORLD as int))
    }
}

/// A coordinate moved to the nearest whole world unit.
pub open spec fn snap_units(v: int) -> int {
    round_units(v) * UNITS_PER_WORLD
}

/// Each coordinate of a point moved to the nearest whole world unit.
pub open spec fn snap(p: WorldPoint) -> WorldPoint {
    WorldPoint {
        x: snap_units(p.x as int) as i32,
        y: snap_units(p.y as int) as i32,
        z: snap_units(p.z as int) as i32,
    }
}

/// The whole world units of a point: each coordinate is a multiple of
/// `UNITS_PER_WORLD`.
pub open spec fn is_whole(p: WorldPoint) -> bool {
    p.x % UNITS_PER_WORLD == 0 && p.y % UNITS_PER_WORLD == 0 && p.z % UNITS_PER_WORLD == 0
}

/// Rounding keeps a coordinate within the range of `i32`, and leaves a
/// multiple of `UNITS_PER_WORLD` where it is.
pub proof fn lemma_snap_units(v: int)
    requires
        i32::MIN <= v <= i32::MAX,
    ensures
        i32::MIN <= snap_units(v) <= i32::MAX,
        snap_units(v) % (UNITS_PER_WORLD as int) == 0,
        v % (UNITS_PER_WORLD as int) == 0 ==> snap_units(v) == v,
{
}

/// The nearest whole world unit to `v` ten-thousandths, halfway cases away
/// from zero.
pub fn round_to_units(v: i32) -> (r: i32)
    ensures
        r as int == round_units(v as int),
{
    if v >= 0 {
        ((v as i64 + (UNITS_PER_WORLD / 2) as i64) / UNITS_PER_WORLD as i64) as i32
    } else {
        (-((-(v as i64) + (UNITS_PER_WORLD / 2) as i64) / UNITS_PER_WORLD as i64)) as i32
    }
}

/// Moves each coordinate of a translation to the nearest whole world unit,
/// which takes away the error that repeated small rotations leave behind.
pub fn piece_translation_round(p: WorldPoint) -> (r: WorldPoint)
    ensures
        r == snap(p),
        is_whole(r),
{
    proof {
        lemma_snap_units(p.x as int);
        lemma_snap_units(p.y as int);
        lemma_snap_units(p.z as int);
    }
    WorldPoint {
        x: round_to_units(p.x) * UNITS_PER_WORLD,
        y: round_to_units(p.y) * UNITS_PER_WORLD,
        z: round_to_units(p.z) * UNITS_PER_WORLD,
    }
}

} // verus!
