use rand::seq::SliceRandom;
use rand::Rng;
use vstd::prelude::*;

use crate::geometry::Axis;
use crate::moves::{SideMoveEvent, SideMoveQueue, SideRotation};

verus! {

/// Moves in one scramble.
pub const SCRAMBLE_LENGTH: usize = 5;

/// Relies on rand's `Rng::gen_range` on `thread_rng()`: it returns a value of
/// the half-open range `0..n`, and panics on an empty range, hence `n > 0`.
#[verifier::external_body]
fn random_below(n: u32) -> (r: u32)
    requires
        n > 0,
    ensures
        r < n,
{
    rand::thread_rng().gen_range(0..n)
}

/// Relies on rand's `SliceRandom::choose` on `thread_rng()`: `None` for an
/// empty slice, otherwise one of its elements.
#[verifier::external_body]
fn choose_value(values: &Vec<i8>) -> (r: Option<i8>)
    ensures
        r is None <==> values@.len() == 0,
        r matches Some(v) ==> values@.contains(v),
{
    values.choose(&mut rand::thread_rng()).copied()
}

/// The axis that a draw from `0..3` picks.
pub open spec fn axis_of_draw(d: int) -> Axis {
    if d == 1 {
        Axis::Y
    } else if d == 2 {
        Axis::Z
    } else {
        Axis::X
    }
}

/// The turn that a draw from `0..3` picks for a scramble: quarter turns both
/// ways and a clockwise half turn.
pub open spec fn scramble_rotation_of_draw(d: int) -> SideRotation {
    if d == 1 {
        SideRotation::Clockwise180
    } else if d == 2 {
        SideRotation::Counterclockwise90
    } else {
        SideRotation::Clockwise90
    }
}

/// The turn that a draw from `0..6` picks among all six.
pub open spec fn rotation_of_draw(d: int) -> SideRotation {
    if d == 1 {
        SideRotation::Clockwise180
    } else if d == 2 {
        SideRotation::Clockwise270
    } else if d == 3 {
        SideRotation::Counterclockwise90
    } else if d == 4 {
        SideRotation::Counterclockwise180
    } else if d == 5 {
        SideRotation::Counterclockwise270
    } else {
        SideRotation::Clockwise90
    }
}

/// A move a scramble may make: a layer of the cube, turned a quarter either
/// way or half clockwise.
pub open spec fn is_scramble_move(m: SideMoveEvent) -> bool {
    &&& m.is_valid()
    &&& (m.rotate == SideRotation::Clockwise90 || m.rotate == SideRotation::Clockwise180
        || m.rotate == SideRotation::Counterclockwise90)
}

fn axis_from_draw(d: u32) -> (r: Axis)
    ensures
        r == axis_of_draw(d as int),
{
    match d {
        1 => Axis::Y,
        2 => Axis::Z,
        _ => Axis::X,
    }
}

/// The scramble move that a layer and two draws from `0..3` pick: the draws
/// choose the axis (x, y, z) and the turn (a clockwise quarter, a clockwise
/// half, a counterclockwise quarter).
pub fn scramble_move(layer: i8, axis_draw: u32, rotate_draw: u32) -> (r: SideMoveEvent)
    ensures
        r == (SideMoveEvent {
            side: (axis_of_draw(axis_draw as int), layer),
            rotate: scramble_rotation_of_draw(rotate_draw as int),
        }),
{
    let rotate = match rotate_draw {
        1 => SideRotation::Clockwise180,
        2 => SideRotation::Counterclockwise90,
        _ => SideRotation::Clockwise90,
    };
    SideMoveEvent { side: (axis_from_draw(axis_draw), layer), rotate }
}

/// The move that a layer, a draw from `0..3` for the axis and a draw from
/// `0..6` for the turn pick, among all six turns.
pub fn random_move(layer: i8, axis_draw: u32, rotate_draw: u32) -> (r: SideMoveEvent)
    ensures
        r == (SideMoveEvent {
            side: (axis_of_draw(axis_draw as int), layer),
            rotate: rotation_of_draw(rotate_draw as int),
        }),
{
    let rotate = match rotate_draw {
        1 => SideRotation::Clockwise180,
        2 => SideRotation::Clockwise270,
        3 => SideRotation::Counterclockwise90,
        4 => SideRotation::Counterclockwise180,
        5 => SideRotation::Counterclockwise270,
        _ => SideRotation::Clockwise90,
    };
    SideMoveEvent { side: (axis_from_draw(axis_draw), layer), rotate }
}

fn layer_values() -> (r: Vec<i8>)
    ensures
        r@ == seq![-1i8, 0i8, 1i8],
{
    vec![-1, 0, 1]
}

/// Adds five random scramble moves at the back of the queue, each with its
/// layer, axis and turn drawn independently and uniformly.
pub fn scramble_cube(queue: &mut SideMoveQueue)
    ensures
        final(queue).moves().len() == old(queue).moves().len() + SCRAMBLE_LENGTH,
        final(queue).moves().subrange(0, old(queue).moves().len() as int) == old(queue).moves(),
        forall|i: int|
            old(queue).moves().len() <= i < final(queue).moves().len() ==> is_scramble_move(
                #[trigger] final(queue).moves()[i],
            ),
{
    let layers = layer_values();
    let ghost start = queue.moves();
    let mut k: usize = 0;
    while k < SCRAMBLE_LENGTH
        invariant
            k <= SCRAMBLE_LENGTH,
            layers@ == seq![-1i8, 0i8, 1i8],
            queue.moves().len() == start.len() + k,
            queue.moves().subrange(0, start.len() as int) == start,
            forall|i: int|
                start.len() <= i < queue.moves().len() ==> is_scramble_move(
                    #[trigger] queue.moves()[i],
                ),
        decreases SCRAMBLE_LENGTH - k,
    {
        let layer = choose_value(&layers).unwrap();
        let axis_draw = random_below(3);
        let rotate_draw = random_below(3);
        let ghost before = queue.moves();
        queue.enqueue(scramble_move(layer, axis_draw, rotate_draw));
        proof {
            assert(queue.moves().subrange(0, start.len() as int) =~= before.subrange(
                0,
                start.len() as int,
            ));
        }
        k = k + 1;
    }
}

/// Adds one random move at the back of the queue, with its layer, axis and
/// turn (any of the six) drawn independently and uniformly.
pub fn debug_random_side_move_event(queue: &mut SideMoveQueue)
    ensures
        final(queue).moves().len() == old(queue).moves().len() + 1,
        final(queue).moves().drop_last() == old(queue).moves(),
        final(queue).moves().last().is_valid(),
{
    let layers = layer_values();
    let layer = choose_value(&layers).unwrap();
    let axis_draw = random_below(3);
    let rotate_draw = random_below(6);
    queue.enqueue(random_move(layer, axis_draw, rotate_draw));
    proof {
        assert(queue.moves().drop_last() =~= old(queue).moves());
    }
}

} // verus!
