use vstd::prelude::*;

use crate::cube::{
    all_on_cube, flight_of, lemma_apply_move_layout, lemma_apply_move_miss, spec_angle_step,
    tick_delta, Cube, CubePiece, CubeSettings, InFlight, MovablePiece, PoseDelta, SimError,
    MICROS_PER_SECOND, MILLIDEGREES_PER_MILLITURN, PIECE_COUNT,
};
use crate::geometry::turn;
use crate::moves::{apply_move, move_point, SideMoveQueue};

verus! {

/// Starts the next slice: when none is turning and a move waits, takes the
/// front move and marks the pieces of its layer with the whole turn still to
/// go. A move whose layer is no layer of the cube marks nothing; it is still
/// taken from the queue.
pub fn choose_movable_pieces(cube: &mut Cube, queue: &mut SideMoveQueue)
    requires
        old(cube).wf(),
    ensures
        final(cube).wf(),
        final(cube).pieces@ == old(cube).pieces@,
        old(cube).in_flight is None && old(queue).moves().len() > 0 ==> {
            let m = old(queue).moves()[0];
            &&& final(queue).moves() == old(queue).moves().drop_first()
            &&& final(cube).in_flight == flight_of(m)
        },
        !(old(cube).in_flight is None && old(queue).moves().len() > 0) ==> {
            &&& final(queue).moves() == old(queue).moves()
            &&& final(cube).in_flight == old(cube).in_flight
        },
        final(cube).outcome(final(queue).moves()) == old(cube).outcome(old(queue).moves()),
{
    if cube.in_flight.is_some() {
        return;
    }
    let popped = queue.0.pop_front();
    match popped {
        None => {},
        Some(m) => {
            proof {
                assert(old(queue).moves().drop_first() =~= queue.moves());
            }
            let (axis, layer) = m.side;
            if -1 <= layer && layer <= 1 {
                let tag = MovablePiece { axis, rotate: m.rotate, left_angle: m.rotate.angle() };
                cube.in_flight = Some(InFlight { layer, tag });
                proof {
                    assert(cube.in_flight->0.spec_move() == m);
                }
            } else {
                proof {
                    lemma_apply_move_miss(cube.positions(), m);
                }
            }
        },
    }
}

/// The angle turned in one tick of `dt` microseconds at `speed` milli-turns
/// per second, in millidegrees, rounded up.
fn angle_step(speed: u32, dt: i64) -> (r: u128)
    requires
        dt >= 0,
    ensures
        r == spec_angle_step(speed as int, dt as int),
{
    proof {
        assert((speed as int) * (dt as int) <= 0xffff_ffffint * 0x7fff_ffff_ffff_ffffint)
            by (nonlinear_arith)
            requires
                0 <= speed <= 0xffff_ffffint,
                0 <= dt <= 0x7fff_ffff_ffff_ffffint,
        ;
    }
    let turned = speed as u128 * dt as u128;
    (turned * MILLIDEGREES_PER_MILLITURN + MICROS_PER_SECOND - 1) / MICROS_PER_SECOND
}

/// Advances the turning slice by one tick of `dt` microseconds: the angle left
/// moves towards zero by the step that the speed and `dt` give, and never
/// past it. Returns the turn the host applies to each marked piece. A zero
/// speed or a negative `dt` aborts the tick and changes nothing.
pub fn rotate_cube(cube: &mut Cube, settings: &CubeSettings, dt: i64) -> (r: Result<
    Option<PoseDelta>,
    SimError,
>)
    requires
        old(cube).wf(),
    ensures
        final(cube).wf(),
        final(cube).pieces@ == old(cube).pieces@,
        settings.rotate_speed == 0 ==> r == Err::<Option<PoseDelta>, SimError>(
            SimError::RotateSpeedNotPositive,
        ),
        settings.rotate_speed > 0 && dt < 0 ==> r == Err::<Option<PoseDelta>, SimError>(
            SimError::NegativeTimeStep,
        ),
        r is Err ==> final(cube).in_flight == old(cube).in_flight,
        r is Ok <==> settings.rotate_speed > 0 && dt >= 0,
        r is Ok ==> match old(cube).in_flight {
            None => r == Ok::<Option<PoseDelta>, SimError>(None) && final(cube).in_flight
                is None,
            Some(f) => {
                let d = tick_delta(
                    f.tag.left_angle as int,
                    spec_angle_step(settings.rotate_speed as int, dt as int),
                );
                &&& r == Ok::<Option<PoseDelta>, SimError>(
                    Some(PoseDelta { axis: f.tag.axis, angle: d as i64 }),
                )
                &&& final(cube).in_flight == Some(
                    f.advanced(spec_angle_step(settings.rotate_speed as int, dt as int)),
                )
            },
        },
{
    if settings.rotate_speed == 0 {
        return Err(SimError::RotateSpeedNotPositive);
    }
    if dt < 0 {
        return Err(SimError::NegativeTimeStep);
    }
    match cube.in_flight {
        None => Ok(None),
        Some(f) => {
            let step = angle_step(settings.rotate_speed, dt);
            let left = f.tag.left_angle;
            let delta: i64 = if left >= 0 {
                if step >= left as u128 {
                    left
                } else {
                    step as i64
                }
            } else {
                if step >= (-left) as u128 {
                    left
                } else {
                    -(step as i64)
                }
            };
            let tag = MovablePiece { axis: f.tag.axis, rotate: f.tag.rotate, left_angle: left - delta };
            cube.in_flight = Some(InFlight { layer: f.layer, tag });
            Ok(Some(PoseDelta { axis: f.tag.axis, angle: delta }))
        },
    }
}

/// Finishes the turning slice once no angle is left: each of its pieces moves
/// to the lattice point the turn carried it to, and the mark is taken off, so
/// that the next move can start on the following tick.
pub fn cleanup_movable_pieces(cube: &mut Cube)
    requires
        old(cube).wf(),
    ensures
        final(cube).wf(),
        match old(cube).in_flight {
            Some(f) => if f.tag.left_angle == 0 {
                &&& final(cube).in_flight is None
                &&& final(cube).positions() == apply_move(old(cube).positions(), f.spec_move())
                &&& forall|i: int|
                    0 <= i < PIECE_COUNT ==> (#[trigger] final(cube).pieces@[i]).piece == old(
                        cube,
                    ).pieces@[i].piece
            } else {
                *final(cube) == *old(cube)
            },
            None => *final(cube) == *old(cube),
        },
        final(cube).settled() == old(cube).settled(),
{
    let f = match cube.in_flight {
        Some(f) => f,
        None => return ,
    };
    if f.tag.left_angle != 0 {
        return ;
    }
    let ghost m = f.spec_move();
    let ghost old_pieces = cube.pieces@;
    let quarters = f.tag.rotate.cw_quarters();
    let mut i: usize = 0;
    while i < PIECE_COUNT
        invariant
            i <= PIECE_COUNT,
            cube.pieces@.len() == PIECE_COUNT,
            old_pieces.len() == PIECE_COUNT,
            all_on_cube(old_pieces.map_values(|c: CubePiece| c.pos)),
            m == f.spec_move(),
            quarters as nat == f.tag.rotate.spec_cw_quarters(),
            forall|j: int|
                0 <= j < i ==> (#[trigger] cube.pieces@[j]) == (CubePiece {
                    piece: old_pieces[j].piece,
                    pos: move_point(old_pieces[j].pos, m),
                }),
            forall|j: int| i <= j < PIECE_COUNT ==> #[trigger] cube.pieces@[j] == old_pieces[j],
        decreases PIECE_COUNT - i,
    {
        let c = cube.pieces[i];
        assert(old_pieces.map_values(|c: CubePiece| c.pos)[i as int] == c.pos);
        if c.pos.get(f.tag.axis) == f.layer {
            let pos = turn(c.pos, f.tag.axis, quarters);
            cube.pieces.set(i, CubePiece { piece: c.piece, pos });
        }
        i = i + 1;
    }
    cube.in_flight = None;
    proof {
        assert(cube.positions() =~= apply_move(old(cube).positions(), m));
        lemma_apply_move_layout(old(cube).positions(), m);
    }
}

/// One simulation tick: start the next slice if none is turning, advance the
/// turning slice by `dt` microseconds, then finish it if no angle is left.
/// A zero speed or a negative `dt` aborts the whole tick and changes nothing.
/// Where the pieces end up once all is done never changes, and with a
/// positive `dt` every tick that has work does some of it.
pub fn simulate_tick(cube: &mut Cube, queue: &mut SideMoveQueue, settings: &CubeSettings, dt: i64) -> (r: Result<Option<PoseDelta>, SimError>)
    requires
        old(cube).wf(),
    ensures
        final(cube).wf(),
        settings.rotate_speed == 0 ==> r == Err::<Option<PoseDelta>, SimError>(
            SimError::RotateSpeedNotPositive,
        ),
        settings.rotate_speed > 0 && dt < 0 ==> r == Err::<Option<PoseDelta>, SimError>(
            SimError::NegativeTimeStep,
        ),
        settings.rotate_speed > 0 && dt >= 0 ==> r is Ok,
        r is Err ==> *final(cube) == *old(cube) && final(queue).moves() == old(queue).moves(),
        r is Ok ==> {
            let step = spec_angle_step(settings.rotate_speed as int, dt as int);
            let starts = old(cube).in_flight is None && old(queue).moves().len() > 0;
            &&& final(queue).moves() == if starts {
                old(queue).moves().drop_first()
            } else {
                old(queue).moves()
            }
            &&& match old(cube).next_flight(old(queue).moves()) {
                None => {
                    &&& r == Ok::<Option<PoseDelta>, SimError>(None)
                    &&& final(cube).in_flight is None
                    &&& final(cube).pieces@ == old(cube).pieces@
                },
                Some(f) => {
                    &&& r == Ok::<Option<PoseDelta>, SimError>(
                        Some(
                            PoseDelta {
                                axis: f.tag.axis,
                                angle: tick_delta(f.tag.left_angle as int, step) as i64,
                            },
                        ),
                    )
                    &&& f.advanced(step).tag.left_angle == 0 ==> {
                        &&& final(cube).in_flight is None
                        &&& final(cube).positions() == apply_move(
                            old(cube).positions(),
                            f.spec_move(),
                        )
                        &&& forall|i: int|
                            0 <= i < PIECE_COUNT ==> (#[trigger] final(cube).pieces@[i]).piece
                                == old(cube).pieces@[i].piece
                    }
                    &&& f.advanced(step).tag.left_angle != 0 ==> {
                        &&& final(cube).in_flight == Some(f.advanced(step))
                        &&& final(cube).pieces@ == old(cube).pieces@
                    }
                },
            }
        },
        final(cube).outcome(final(queue).moves()) == old(cube).outcome(old(queue).moves()),
        r is Ok && dt > 0 && !(old(cube).in_flight is None && old(queue).moves().len() == 0)
            ==> final(cube).pending_work(final(queue).moves()) < old(cube).pending_work(
            old(queue).moves(),
        ),
{
    if settings.rotate_speed == 0 {
        return Err(SimError::RotateSpeedNotPositive);
    }
    if dt < 0 {
        return Err(SimError::NegativeTimeStep);
    }
    proof {
        let speed = settings.rotate_speed as int;
        assert(dt > 0 ==> speed * (dt as int) >= 1) by (nonlinear_arith)
            requires
                speed >= 1,
        ;
    }
    choose_movable_pieces(cube, queue);
    let r = rotate_cube(cube, settings, dt);
    cleanup_movable_pieces(cube);
    r
}

} // verus!
