use crate::sprite::{
    advanced, center, drift, extent, integrated, is_out, picks_centered, placed_coord,
    recycled, scaled_draw, size_of, spawned, stepped, Dimensions, LogoView, RandomDraw,
    DRAW_RANGE, SUBPIXELS,
};
use vstd::prelude::*;

verus! {

/// One operation on a single logo.
pub ghost enum LogoStep {
    Advance { viewport: Dimensions, dt: int, draw: RandomDraw },
    Recycle { viewport: Dimensions, draw: RandomDraw },
}

pub open spec fn apply(l: LogoView, step: LogoStep) -> LogoView {
    match step {
        LogoStep::Advance { viewport, dt, draw } => advanced(l, viewport, dt, draw),
        LogoStep::Recycle { viewport, draw } => recycled(l, viewport, draw),
    }
}

/// A logo after a sequence of operations, applied in order.
pub open spec fn run(l: LogoView, steps: Seq<LogoStep>) -> LogoView
    decreases steps.len(),
{
    if steps.len() == 0 {
        l
    } else {
        run(apply(l, steps[0]), steps.drop_first())
    }
}

/// A logo's speed is the one it was created with, whatever sequence of ticks and respawns
/// it goes through.
pub proof fn speed_never_changes(l: LogoView, steps: Seq<LogoStep>)
    ensures
        run(l, steps).speed == l.speed,
    decreases steps.len(),
{
    if steps.len() > 0 {
        speed_never_changes(apply(l, steps[0]), steps.drop_first());
    }
}

/// On a tick that does not respawn the logo, its extent is the shaping ratio times its
/// distance from the centre before the move, on each axis.
pub proof fn size_follows_distance_before_move(
    l: LogoView,
    vp: Dimensions,
    dt: int,
    d: RandomDraw,
)
    requires
        !is_out(integrated(l, vp, dt), vp),
    ensures
        advanced(l, vp, dt, d).width == size_of(l.x, center(vp.width)),
        advanced(l, vp, dt, d).height == size_of(l.y, center(vp.height)),
{
}

/// The centred placement is picked for exactly the draws below `1431655766`, a share of the
/// `2^32` draws that differs from one third by `2 / 2^32`.
pub proof fn centered_share(bias: u32)
    ensures
        picks_centered(bias) <==> bias < 1431655766,
        3 * 1431655766 == DRAW_RANGE + 2,
{
    assert(bias * 3 / (DRAW_RANGE as int) == 0 <==> bias * 3 < DRAW_RANGE as int);
}

/// A scaled draw stays within its range.
proof fn scaled_draw_in_range(r: u32, n: int)
    requires
        n >= 0,
    ensures
        0 <= scaled_draw(r, n) <= n,
        n > 0 ==> scaled_draw(r, n) < n,
{
    assert(0 <= r * n <= DRAW_RANGE * n) by (nonlinear_arith)
        requires
            0 <= r < DRAW_RANGE,
            n >= 0,
    ;
    assert(n > 0 ==> r * n < DRAW_RANGE * n) by (nonlinear_arith)
        requires
            0 <= r < DRAW_RANGE,
    ;
}

/// A centred respawn lands in the middle half of an axis of `px` pixels (`px * 1000`
/// sub-pixels); any respawn lands on the axis.
pub proof fn placement_in_range(r: u32, px: u32)
    ensures
        px * 250 <= placed_coord(r, px, true) <= px * 750,
        0 <= placed_coord(r, px, false) <= extent(px),
{
    assert(SUBPIXELS / 4 == 250 && SUBPIXELS / 2 == 500);
    scaled_draw_in_range(r, px * (SUBPIXELS / 2));
    scaled_draw_in_range(r, extent(px));
    assert(placed_coord(r, px, true) == px * 250 + scaled_draw(r, px * 500));
}

/// A logo found outside the viewport after the move is respawned by that same tick: its
/// position and colour are those of the draw, its extent zero, its speed kept.
pub proof fn out_of_bounds_respawns(l: LogoView, vp: Dimensions, dt: int, d: RandomDraw)
    requires
        is_out(integrated(l, vp, dt), vp),
    ensures
        advanced(l, vp, dt, d) == spawned(l.speed, vp, d),
{
}

/// After any tick no logo lies outside the viewport.
pub proof fn never_left_outside(l: LogoView, vp: Dimensions, dt: int, d: RandomDraw)
    ensures
        !is_out(advanced(l, vp, dt, d), vp),
{
    placement_in_range(d.x, vp.width);
    placement_in_range(d.y, vp.height);
}

/// A logo after a sequence of ticks in one viewport, the `i`-th of `dts[i]` milliseconds.
pub open spec fn ticks(l: LogoView, vp: Dimensions, dts: Seq<int>, draws: Seq<RandomDraw>) -> LogoView
    decreases dts.len(),
{
    if dts.len() == 0 {
        l
    } else {
        ticks(advanced(l, vp, dts[0], draws[0]), vp, dts.drop_first(), draws.drop_first())
    }
}

/// A logo at the centre stays there, with no extent and the same colour, through any
/// sequence of non-negative ticks.
pub proof fn center_is_fixed(
    l: LogoView,
    vp: Dimensions,
    dts: Seq<int>,
    draws: Seq<RandomDraw>,
)
    requires
        l.x == center(vp.width),
        l.y == center(vp.height),
        draws.len() == dts.len(),
        forall|i: int| 0 <= i < dts.len() ==> dts[i] >= 0,
    ensures
        ticks(l, vp, dts, draws).x == l.x,
        ticks(l, vp, dts, draws).y == l.y,
        ticks(l, vp, dts, draws).color == l.color,
        ticks(l, vp, dts, draws).speed == l.speed,
        dts.len() > 0 ==> ticks(l, vp, dts, draws).width == 0,
        dts.len() > 0 ==> ticks(l, vp, dts, draws).height == 0,
    decreases dts.len(),
{
    if dts.len() > 0 {
        let s = l.speed;
        let dt = dts[0];
        assert(drift(0, s, dt) == 0) by (nonlinear_arith);
        assert(stepped(l.x, center(vp.width), s, dt) == l.x);
        assert(stepped(l.y, center(vp.height), s, dt) == l.y);
        let m = integrated(l, vp, dt);
        assert(!is_out(m, vp));
        let next = advanced(l, vp, dt, draws[0]);
        assert(next == (LogoView { width: 0, height: 0, ..l }));
        let rest = dts.drop_first();
        assert forall|i: int| 0 <= i < rest.len() implies rest[i] >= 0 by {
            assert(rest[i] == dts[i + 1]);
        }
        center_is_fixed(next, vp, rest, draws.drop_first());
    }
}

} // verus!
