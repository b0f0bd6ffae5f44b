//! Properties that hold across calls of the field's operations.

use vstd::prelude::*;
use crate::units::{Point, Velocity, Canvas};
use crate::motion::{advanced, drifted, in_reach, push_amount, root, strength, lemma_root_monotone, REPEL_RADIUS};
use crate::field::{FieldState, clamp_hue, redrawn, stepped};

verus! {

/// A particle that ends its drift out of the pointer's reach (or exactly on
/// it) moves by exactly `velocity * dt`.
pub proof fn lemma_free_fall(position: Point, velocity: Velocity, dt: int, pointer: Point)
    requires
        ({
            let (x, y) = drifted(position, velocity, dt);
            !in_reach((pointer.x - x) * (pointer.x - x) + (pointer.y - y) * (pointer.y - y))
        }),
    ensures
        advanced(position, velocity, dt, pointer) == (
        position.x + velocity.x * dt,
        position.y + velocity.y * dt,
        ),
{
}

/// After a step no particle is below the canvas's bottom edge.
pub proof fn lemma_floor_holds(
    before: FieldState,
    after: FieldState,
    dt: int,
    pointer: Point,
    canvas: Canvas,
)
    requires
        canvas.fits(),
        stepped(before, after, dt, pointer, canvas),
    ensures
        forall|i: int|
            0 <= i < after.particles.len() ==> #[trigger] after.particles[i].position.y
                >= canvas.bottom,
{
    assert forall|i: int| 0 <= i < after.particles.len() implies #[trigger] after.particles[i].position.y
        >= canvas.bottom by {
        assert(crate::field::particle_stepped(
            before.particles[i],
            after.particles[i],
            before,
            dt,
            pointer,
            canvas,
        ));
    }
}

/// A particle that a step took below the floor is respawned at the top edge
/// with an `x` in `[-width, width]`.
pub proof fn lemma_respawn_range(
    before: FieldState,
    after: FieldState,
    dt: int,
    pointer: Point,
    canvas: Canvas,
)
    requires
        stepped(before, after, dt, pointer, canvas),
    ensures
        forall|i: int|
            0 <= i < after.particles.len() && advanced(
                before.particles[i].position,
                #[trigger] after.particles[i].velocity,
                dt,
                pointer,
            ).1 < canvas.bottom ==> after.particles[i].position.y == canvas.top && -canvas.width
                <= after.particles[i].position.x <= canvas.width,
{
    assert forall|i: int|
        0 <= i < after.particles.len() && advanced(
            before.particles[i].position,
            #[trigger] after.particles[i].velocity,
            dt,
            pointer,
        ).1 < canvas.bottom implies after.particles[i].position.y == canvas.top && -canvas.width
        <= after.particles[i].position.x <= canvas.width by {
        assert(crate::field::particle_stepped(
            before.particles[i],
            after.particles[i],
            before,
            dt,
            pointer,
            canvas,
        ));
    }
}

/// The repulsion weakens with distance: a nearer particle is pushed at least as
/// hard as a farther one, and the force is zero at the radius.
pub proof fn lemma_repulsion_weakens(d1: int, d2: int)
    requires
        0 < d1 < d2 <= REPEL_RADIUS,
    ensures
        strength(d1) >= strength(d2),
        strength(REPEL_RADIUS as int) == 0,
{
}

/// The same, over the squared distances that a step measures: the floor of
/// the square root does not reverse their order.
pub proof fn lemma_repulsion_weakens_squared(sq1: nat, sq2: nat)
    requires
        sq1 <= sq2,
    ensures
        strength(root(sq1) as int) >= strength(root(sq2) as int),
{
    lemma_root_monotone(sq1, sq2);
}

/// On each axis the push has the sign of `pointer - position`; since a
/// particle moves by minus the push, repulsion never draws it toward the pointer.
pub proof fn lemma_push_toward_pointer(delta: int, dist: int, dt: int)
    requires
        0 < dist < REPEL_RADIUS,
        0 <= dt,
    ensures
        delta >= 0 ==> push_amount(delta, dist, dt) >= 0,
        delta <= 0 ==> push_amount(delta, dist, dt) <= 0,
{
    assert(delta >= 0 ==> delta * strength(dist) * dt >= 0) by (nonlinear_arith)
        requires
            strength(dist) > 0,
            dt >= 0,
    ;
    assert(delta < 0 ==> (-delta) * strength(dist) * dt >= 0) by (nonlinear_arith)
        requires
            strength(dist) > 0,
            dt >= 0,
    ;
    assert(dist * 1_000_000 > 0) by (nonlinear_arith)
        requires
            dist > 0,
    ;
    if delta == 0 {
        assert(delta * strength(dist) * dt == 0) by (nonlinear_arith)
            requires
                delta == 0,
        ;
        vstd::arithmetic::div_mod::lemma_basic_div_specific_divisor(dist * 1_000_000);
    } else if delta > 0 {
        vstd::arithmetic::div_mod::lemma_div_pos_is_pos(
            delta * strength(dist) * dt,
            dist * 1_000_000,
        );
    } else {
        vstd::arithmetic::div_mod::lemma_div_pos_is_pos(
            (-delta) * strength(dist) * dt,
            dist * 1_000_000,
        );
    }
}

/// Any number of reassignment requests followed by one step redraw every
/// vertical velocity from the bounds of the last request alone, and leave no
/// reassignment pending.
pub proof fn lemma_debounced_reassignment(
    start: FieldState,
    requests: Seq<(u32, u32)>,
    after: FieldState,
    dt: int,
    pointer: Point,
    canvas: Canvas,
)
    requires
        requests.len() > 0,
        stepped(start.with_requests(requests), after, dt, pointer, canvas),
    ensures
        !after.pending,
        after.min_velocity == requests.last().0,
        after.max_velocity == requests.last().1,
        forall|i: int|
            0 <= i < after.particles.len() ==> redrawn(
                #[trigger] after.particles[i].velocity.y as int,
                requests.last().0 as int,
                requests.last().1 as int,
            ),
{
    let before = start.with_requests(requests);
    assert(before.pending);
    assert forall|i: int| 0 <= i < after.particles.len() implies redrawn(
        #[trigger] after.particles[i].velocity.y as int,
        requests.last().0 as int,
        requests.last().1 as int,
    ) by {
        assert(crate::field::particle_stepped(
            before.particles[i],
            after.particles[i],
            before,
            dt,
            pointer,
            canvas,
        ));
    }
}

/// A step with no reassignment pending keeps every velocity: a request is
/// acted on by one step only.
pub proof fn lemma_no_redraw_without_request(
    before: FieldState,
    after: FieldState,
    dt: int,
    pointer: Point,
    canvas: Canvas,
)
    requires
        !before.pending,
        stepped(before, after, dt, pointer, canvas),
    ensures
        forall|i: int|
            0 <= i < after.particles.len() ==> #[trigger] after.particles[i].velocity
                == before.particles[i].velocity,
{
    assert forall|i: int| 0 <= i < after.particles.len() implies #[trigger] after.particles[i].velocity
        == before.particles[i].velocity by {
        assert(crate::field::particle_stepped(
            before.particles[i],
            after.particles[i],
            before,
            dt,
            pointer,
            canvas,
        ));
    }
}

/// After `set_hue(h)` and one step, every particle has the hue `h` (clamped).
pub proof fn lemma_hue_propagates(
    start: FieldState,
    h: int,
    after: FieldState,
    dt: int,
    pointer: Point,
    canvas: Canvas,
)
    requires
        stepped(start.with_hue(h), after, dt, pointer, canvas),
    ensures
        forall|i: int|
            0 <= i < after.particles.len() ==> #[trigger] after.particles[i].hue == clamp_hue(h),
{
    let before = start.with_hue(h);
    assert forall|i: int| 0 <= i < after.particles.len() implies #[trigger] after.particles[i].hue
        == clamp_hue(h) by {
        assert(crate::field::particle_stepped(
            before.particles[i],
            after.particles[i],
            before,
            dt,
            pointer,
            canvas,
        ));
    }
}

} // verus!
