use vstd::prelude::*;

use crate::cube::{all_distinct, all_on_cube, lattice_point, tick_delta, Cube, PIECE_COUNT};
use crate::geometry::{is_layer, is_whole, lemma_snap_units, snap, Axis, LatticePos, WorldPoint};
use crate::moves::{apply_move, lemma_apply_moves_push, SideMoveEvent};

use vstd::set_lib::{lemma_int_range, lemma_map_size, lemma_subset_equality, set_int_range};

verus! {

/// The angle left after ticks with the given steps, starting from `left`.
pub open spec fn left_after(left: int, steps: Seq<int>) -> int
    decreases steps.len(),
{
    if steps.len() == 0 {
        left
    } else {
        left_after(left - tick_delta(left, steps[0]), steps.drop_first())
    }
}

/// The sum of the angles turned in ticks with the given steps, starting from
/// `left`.
pub open spec fn turned_over(left: int, steps: Seq<int>) -> int
    decreases steps.len(),
{
    if steps.len() == 0 {
        0
    } else {
        tick_delta(left, steps[0]) + turned_over(left - tick_delta(left, steps[0]), steps.drop_first())
    }
}

/// The sum of a sequence of steps.
pub open spec fn total(steps: Seq<int>) -> int
    decreases steps.len(),
{
    if steps.len() == 0 {
        0
    } else {
        steps[0] + total(steps.drop_first())
    }
}

/// Angle conservation: whatever the steps of the ticks (so whatever their
/// lengths), the angles turned and the angle left always add up to the angle
/// the turn started with; the angle left never changes sign nor grows; and
/// once the steps add up to the whole angle, nothing is left, so the angles
/// turned add up to exactly the signed angle of the turn.
pub proof fn lemma_angle_conservation(left: int, steps: Seq<int>)
    requires
        forall|i: int| 0 <= i < steps.len() ==> steps[i] >= 0,
    ensures
        turned_over(left, steps) + left_after(left, steps) == left,
        left >= 0 ==> 0 <= left_after(left, steps) <= left,
        left <= 0 ==> left <= left_after(left, steps) <= 0,
        total(steps) >= left && total(steps) >= -left ==> left_after(left, steps) == 0
            && turned_over(left, steps) == left,
    decreases steps.len(),
{
    if steps.len() > 0 {
        let rest = steps.drop_first();
        assert forall|i: int| 0 <= i < rest.len() implies rest[i] >= 0 by {
            assert(rest[i] == steps[i + 1]);
        }
        lemma_angle_conservation(left - tick_delta(left, steps[0]), rest);
        if total(steps) >= left && total(steps) >= -left {
            lemma_total_nonneg(rest);
        }
    }
}

/// A sum of steps that are never negative is never negative.
proof fn lemma_total_nonneg(steps: Seq<int>)
    requires
        forall|i: int| 0 <= i < steps.len() ==> steps[i] >= 0,
    ensures
        total(steps) >= 0,
    decreases steps.len(),
{
    if steps.len() > 0 {
        let rest = steps.drop_first();
        assert forall|i: int| 0 <= i < rest.len() implies rest[i] >= 0 by {
            assert(rest[i] == steps[i + 1]);
        }
        lemma_total_nonneg(rest);
    }
}

/// Queue order: adding a move at the back of the queue makes it the last
/// move applied once everything has run, whatever the cube and the queue.
pub proof fn lemma_enqueue_applies_last(cube: &Cube, queue: Seq<SideMoveEvent>, m: SideMoveEvent)
    ensures
        cube.outcome(queue.push(m)) == apply_move(cube.outcome(queue), m),
{
    lemma_apply_moves_push(cube.settled(), queue, m);
}

/// Queue order: moves A, B, C added to the empty queue of a still cube are
/// applied to the piece positions in the order A, then B, then C.
pub proof fn lemma_queue_fifo(cube: &Cube, a: SideMoveEvent, b: SideMoveEvent, c: SideMoveEvent)
    requires
        cube.in_flight is None,
    ensures
        cube.outcome(seq![a, b, c]) == apply_move(
            apply_move(apply_move(cube.positions(), a), b),
            c,
        ),
{
    let e = Seq::<SideMoveEvent>::empty();
    assert(seq![a, b, c] == e.push(a).push(b).push(c));
    lemma_enqueue_applies_last(cube, e.push(a).push(b), c);
    lemma_enqueue_applies_last(cube, e.push(a), b);
    lemma_enqueue_applies_last(cube, e, a);
}

/// Once no slice turns and no move waits, the pieces rest where the moves
/// led them.
pub proof fn lemma_quiescent_outcome(cube: &Cube)
    requires
        cube.in_flight is None,
    ensures
        cube.outcome(Seq::<SideMoveEvent>::empty()) == cube.positions(),
{
}

/// Lattice invariant: whenever no slice is turning, every coordinate of every
/// piece is -1, 0 or 1, and no two pieces share a position.
pub proof fn lemma_lattice_invariant(cube: &Cube)
    requires
        cube.wf(),
    ensures
        cube.in_flight is None ==> all_on_cube(cube.positions()) && all_distinct(
            cube.positions(),
        ),
        all_on_cube(cube.settled()),
        all_distinct(cube.settled()),
{
    match cube.in_flight {
        Some(f) => crate::cube::lemma_apply_move_layout(cube.positions(), f.spec_move()),
        None => {},
    }
}

/// Snapping a point a second time leaves it where the first snap put it, and
/// a point already on whole world units does not move.
pub proof fn lemma_snap_idempotent(p: WorldPoint)
    ensures
        snap(snap(p)) == snap(p),
        is_whole(p) ==> snap(p) == p,
{
    lemma_snap_units(p.x as int);
    lemma_snap_units(p.y as int);
    lemma_snap_units(p.z as int);
    let q = snap(p);
    lemma_snap_units(q.x as int);
    lemma_snap_units(q.y as int);
    lemma_snap_units(q.z as int);
}

/// The place of a point of the cube among the 27, in the order the pieces are
/// made.
pub open spec fn lattice_index(p: LatticePos) -> int {
    9 * (p.x + 1) + 3 * (p.y + 1) + (p.z + 1)
}

proof fn lemma_lattice_index(p: LatticePos)
    requires
        p.on_cube(),
    ensures
        0 <= lattice_index(p) < 27,
        lattice_point(lattice_index(p)) == p,
{
}

/// The places of the points of the cube whose coordinate along `axis` is
/// `layer`.
pub open spec fn slice_indices(axis: Axis, layer: int) -> Set<int> {
    Set::new(|k: int| 0 <= k < 27 && lattice_point(k).coord(axis) == layer)
}

/// The place of the `j`th point, of nine, of the slice along `axis` at
/// `layer`.
spec fn slice_member(axis: Axis, layer: int, j: int) -> int {
    match axis {
        Axis::X => 9 * (layer + 1) + j,
        Axis::Y => 9 * (j / 3) + 3 * (layer + 1) + j % 3,
        Axis::Z => 9 * (j / 3) + 3 * (j % 3) + (layer + 1),
    }
}

/// Every slice of the cube holds nine points.
proof fn lemma_slice_size(axis: Axis, layer: int)
    requires
        is_layer(layer),
    ensures
        slice_indices(axis, layer).finite(),
        slice_indices(axis, layer).len() == 9,
{
    let nine = set_int_range(0, 9);
    let g = |j: int| slice_member(axis, layer, j);
    lemma_int_range(0, 9);
    assert forall|k: int| #[trigger] slice_indices(axis, layer).contains(k) implies nine.map(
        g,
    ).contains(k) by {
        let j = match axis {
            Axis::X => k - 9 * (layer + 1),
            Axis::Y => 3 * (k / 9) + k % 3,
            Axis::Z => 3 * (k / 9) + (k / 3) % 3,
        };
        assert(nine.contains(j) && g(j) == k);
    }
    assert forall|k: int| #[trigger] nine.map(g).contains(k) implies slice_indices(
        axis,
        layer,
    ).contains(k) by {
        let j = choose|j: int| nine.contains(j) && g(j) == k;
        assert(0 <= j < 9);
    }
    assert(nine.map(g) =~= slice_indices(axis, layer));
    assert forall|a: int, b: int| nine.contains(a) && nine.contains(b) && #[trigger] g(a) == #[trigger] g(b) implies a == b by {
    }
    lemma_map_size(nine, slice_indices(axis, layer), g);
}

/// The pieces that carry a mark.
pub open spec fn marked(cube: &Cube) -> Set<int> {
    Set::new(|i: int| 0 <= i < PIECE_COUNT && cube.tag(i) is Some)
}

/// Single flight: with no slice turning no piece carries a mark; with one
/// turning, the marked pieces are exactly the nine pieces lying in that one
/// slice, and all carry the same mark.
pub proof fn lemma_single_flight(cube: &Cube)
    requires
        cube.wf(),
    ensures
        cube.in_flight is None ==> marked(cube) == Set::<int>::empty(),
        cube.in_flight matches Some(f) ==> {
            &&& forall|i: int|
                0 <= i < PIECE_COUNT ==> (#[trigger] cube.tag(i) is Some <==> cube.positions()[i].coord(
                    f.tag.axis,
                ) == f.layer as int)
            &&& forall|i: int|
                0 <= i < PIECE_COUNT && #[trigger] cube.tag(i) is Some ==> cube.tag(i) == Some(
                    f.tag,
                )
            &&& marked(cube).finite()
            &&& marked(cube).len() == 9
        },
{
    match cube.in_flight {
        None => {
            assert(marked(cube) =~= Set::<int>::empty());
        },
        Some(f) => {
            let ps = cube.positions();
            let all = set_int_range(0, 27);
            let sigma = |i: int| lattice_index(ps[i]);
            lemma_int_range(0, 27);
            assert forall|i: int| 0 <= i < 27 implies 0 <= #[trigger] sigma(i) < 27 && lattice_point(
                sigma(i),
            ) == ps[i] by {
                lemma_lattice_index(ps[i]);
            }
            assert forall|a: int, b: int|
                all.contains(a) && all.contains(b) && #[trigger] sigma(a) == #[trigger] sigma(
                    b,
                ) implies a == b by {
                assert(lattice_point(sigma(a)) == ps[a]);
                assert(lattice_point(sigma(b)) == ps[b]);
            }
            // the 27 pieces fill all 27 points
            lemma_map_size(all, all.map(sigma), sigma);
            assert(all.map(sigma).subset_of(all));
            lemma_subset_equality(all.map(sigma), all);
            // so the marked pieces fill the slice
            let t = marked(cube);
            let k = slice_indices(f.tag.axis, f.layer as int);
            assert forall|i: int| 0 <= i < PIECE_COUNT implies (#[trigger] cube.tag(i) is Some
                <==> ps[i].coord(f.tag.axis) == f.layer as int) by {
                assert(ps[i] == cube.pieces@[i].pos);
            }
            assert(t.subset_of(all));
            vstd::set_lib::lemma_len_subset(t, all);
            assert forall|x: int| #[trigger] t.map(sigma).contains(x) implies k.contains(x) by {
                let i = choose|i: int| t.contains(i) && sigma(i) == x;
                assert(lattice_point(sigma(i)) == ps[i]);
            }
            assert forall|x: int| #[trigger] k.contains(x) implies t.map(sigma).contains(x) by {
                assert(all.contains(x));
                assert(all.map(sigma).contains(x));
                let i = choose|i: int| all.contains(i) && sigma(i) == x;
                assert(lattice_point(sigma(i)) == ps[i]);
                assert(t.contains(i));
            }
            assert(t.map(sigma) =~= k);
            lemma_map_size(t, k, sigma);
            lemma_slice_size(f.tag.axis, f.layer as int);
        },
    }
}

} // verus!
