use std::collections::VecDeque;
use vstd::prelude::*;

use crate::geometry::{is_layer, turn_cw, Axis, LatticePos};

verus! {

/// Millidegrees in a quarter turn: angles are held in whole millidegrees.
pub const QUARTER_TURN: i64 = 90_000;

/// The size and sense of a slice turn. Clockwise is as seen from the positive
/// end of the turn's axis looking towards the origin.
#[derive(Debug, Clone, Copy, PartialEq, Eq, Structural)]
pub enum SideRotation {
    Clockwise90,
    Clockwise180,
    Clockwise270,
    Counterclockwise90,
    Counterclockwise180,
    Counterclockwise270,
}

impl SideRotation {
    pub open spec fn spec_is_clockwise(self) -> bool {
        match self {
            SideRotation::Clockwise90 | SideRotation::Clockwise180
            | SideRotation::Clockwise270 => true,
            _ => false,
        }
    }

    /// The signed angle of the turn in millidegrees: positive when clockwise.
    pub open spec fn spec_angle(self) -> int {
        match self {
            SideRotation::Clockwise90 => QUARTER_TURN as int,
            SideRotation::Clockwise180 => 2 * QUARTER_TURN,
            SideRotation::Clockwise270 => 3 * QUARTER_TURN,
            SideRotation::Counterclockwise90 => -QUARTER_TURN,
            SideRotation::Counterclockwise180 => -2 * QUARTER_TURN,
            SideRotation::Counterclockwise270 => -3 * QUARTER_TURN,
        }
    }

    /// The number of clockwise quarter turns that have the same effect.
    pub open spec fn spec_cw_quarters(self) -> nat {
        match self {
            SideRotation::Clockwise90 => 1,
            SideRotation::Clockwise180 => 2,
            SideRotation::Clockwise270 => 3,
            SideRotation::Counterclockwise90 => 3,
            SideRotation::Counterclockwise180 => 2,
            SideRotation::Counterclockwise270 => 1,
        }
    }

    pub fn is_clockwise(&self) -> (r: bool)
        ensures
            r == self.spec_is_clockwise(),
    {
        match self {
            SideRotation::Clockwise90 | SideRotation::Clockwise180
            | SideRotation::Clockwise270 => true,
            _ => false,
        }
    }

    /// The signed angle of the turn in millidegrees.
    pub fn angle(&self) -> (r: i64)
        ensures
            r == self.spec_angle(),
    {
        match self {
            SideRotation::Clockwise90 => QUARTER_TURN,
            SideRotation::Clockwise180 => 2 * QUARTER_TURN,
            SideRotation::Clockwise270 => 3 * QUARTER_TURN,
            SideRotation::Counterclockwise90 => -QUARTER_TURN,
            SideRotation::Counterclockwise180 => -2 * QUARTER_TURN,
            SideRotation::Counterclockwise270 => -3 * QUARTER_TURN,
        }
    }

    /// The number of clockwise quarter turns that have the same effect.
    pub fn cw_quarters(&self) -> (r: u8)
        ensures
            r as nat == self.spec_cw_quarters(),
    {
        match self {
            SideRotation::Clockwise90 => 1,
            SideRotation::Clockwise180 => 2,
            SideRotation::Clockwise270 => 3,
            SideRotation::Counterclockwise90 => 3,
            SideRotation::Counterclockwise180 => 2,
            SideRotation::Counterclockwise270 => 1,
        }
    }
}

/// Why a slice move could not be made.
#[derive(Debug, Clone, Copy, PartialEq, Eq, Structural)]
pub enum MoveError {
    /// The layer is not one of -1, 0 and 1.
    LayerOutOfRange,
}

/// Turn the layer of pieces whose coordinate along `side.0` is `side.1` by
/// `rotate`.
#[derive(Debug, Clone, Copy, PartialEq, Eq)]
pub struct SideMoveEvent {
    pub side: (Axis, i8),
    pub rotate: SideRotation,
}

impl SideMoveEvent {
    /// The move names one of the three layers along its axis.
    pub open spec fn is_valid(self) -> bool {
        is_layer(self.side.1 as int)
    }

    /// Makes a move, refusing a layer other than -1, 0 and 1.
    pub fn new(axis: Axis, layer: i32, rotate: SideRotation) -> (r: Result<SideMoveEvent, MoveError>)
        ensures
            is_layer(layer as int) ==> r == Ok::<SideMoveEvent, MoveError>(
                SideMoveEvent { side: (axis, layer as i8), rotate },
            ),
            !is_layer(layer as int) ==> r == Err::<SideMoveEvent, MoveError>(
                MoveError::LayerOutOfRange,
            ),
    {
        if -1 <= layer && layer <= 1 {
            Ok(SideMoveEvent { side: (axis, layer as i8), rotate })
        } else {
            Err(MoveError::LayerOutOfRange)
        }
    }
}

/// Where a piece at `p` ends up after move `m`: turned with the slice if it
/// lies in it, left where it is otherwise.
pub open spec fn move_point(p: LatticePos, m: SideMoveEvent) -> LatticePos {
    if p.coord(m.side.0) == m.side.1 as int {
        turn_cw(p, m.side.0, m.rotate.spec_cw_quarters())
    } else {
        p
    }
}

/// The positions of all pieces after move `m`.
pub open spec fn apply_move(ps: Seq<LatticePos>, m: SideMoveEvent) -> Seq<LatticePos> {
    ps.map_values(|p: LatticePos| move_point(p, m))
}

/// The positions of all pieces after the moves `ms`, first to last.
pub open spec fn apply_moves(ps: Seq<LatticePos>, ms: Seq<SideMoveEvent>) -> Seq<LatticePos>
    decreases ms.len(),
{
    if ms.len() == 0 {
        ps
    } else {
        apply_moves(apply_move(ps, ms[0]), ms.drop_first())
    }
}

/// Applying a list of moves and then one more is applying the longer list.
pub proof fn lemma_apply_moves_push(ps: Seq<LatticePos>, ms: Seq<SideMoveEvent>, m: SideMoveEvent)
    ensures
        apply_moves(ps, ms.push(m)) == apply_move(apply_moves(ps, ms), m),
    decreases ms.len(),
{
    if ms.len() == 0 {
        assert(ms.push(m)[0] == m);
        assert(ms.push(m).drop_first() =~= Seq::<SideMoveEvent>::empty());
        assert(apply_moves(apply_move(ps, m), Seq::<SideMoveEvent>::empty()) == apply_move(ps, m));
    } else {
        assert(ms.push(m)[0] == ms[0]);
        assert(ms.push(m).drop_first() =~= ms.drop_first().push(m));
        lemma_apply_moves_push(apply_move(ps, ms[0]), ms.drop_first(), m);
    }
}

/// The pending slice moves, first to be made at the front.
#[derive(Debug)]
pub struct SideMoveQueue(pub VecDeque<SideMoveEvent>);

impl SideMoveQueue {
    pub open spec fn moves(&self) -> Seq<SideMoveEvent> {
        self.0@
    }

    pub fn new() -> (r: SideMoveQueue)
        ensures
            r.moves() == Seq::<SideMoveEvent>::empty(),
    {
        SideMoveQueue(VecDeque::new())
    }

    /// The number of pending moves.
    pub fn len(&self) -> (r: usize)
        ensures
            r == self.moves().len(),
    {
        self.0.len()
    }

    pub fn is_empty(&self) -> (r: bool)
        ensures
            r == (self.moves().len() == 0),
    {
        self.0.len() == 0
    }

    /// Adds a move at the back of the queue.
    pub fn enqueue(&mut self, m: SideMoveEvent)
        ensures
            final(self).moves() == old(self).moves().push(m),
    {
        self.0.push_back(m);
    }

    /// Drops every pending move.
    pub fn clear(&mut self)
        ensures
            final(self).moves() == Seq::<SideMoveEvent>::empty(),
    {
        self.0.clear();
    }
}

} // verus!
