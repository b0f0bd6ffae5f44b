//! The simulation field: the particles and the tunables that the control
//! panel changes between frames.

use vstd::prelude::*;
use crate::units::{Point, Velocity, Particle, Canvas, COORD_LIMIT, DT_LIMIT, HUE_SCALE};
use crate::motion::{advance, advanced, wrap};
use crate::chance::random_between;

verus! {

/// Number of particles that a new field holds.
pub const PARTICLE_COUNT: usize = 1200;

/// Initial bounds of the fall speed, in velocity units (20 and 200 canvas units per second).
pub const INITIAL_MIN_VELOCITY: u32 = 20_000;
pub const INITIAL_MAX_VELOCITY: u32 = 200_000;

/// Range of the horizontal velocity that all particles of a new field share
/// (20 to 40 canvas units per second).
pub const DRIFT_LOW: i64 = 20_000;
pub const DRIFT_HIGH: i64 = 40_000;

/// Range of the initial heights (300 to 600 canvas units).
pub const SPAWN_LOW_Y: i64 = 300_000_000_000;
pub const SPAWN_HIGH_Y: i64 = 600_000_000_000;

/// What a field holds, as seen by contracts.
pub struct FieldState {
    pub particles: Seq<Particle>,
    pub hue: u32,
    pub min_velocity: u32,
    pub max_velocity: u32,
    pub pending: bool,
}

/// The particles and the tunables that drive them.
pub struct Field {
    particles: Vec<Particle>,
    hue: u32,
    min_velocity: u32,
    max_velocity: u32,
    pending: bool,
}

impl View for Field {
    type V = FieldState;

    closed spec fn view(&self) -> FieldState {
        FieldState {
            particles: self.particles@,
            hue: self.hue,
            min_velocity: self.min_velocity,
            max_velocity: self.max_velocity,
            pending: self.pending,
        }
    }
}

/// `h` clamped to `[0, HUE_SCALE]`.
pub open spec fn clamp_hue(h: int) -> int {
    if h < 0 {
        0
    } else if h > HUE_SCALE {
        HUE_SCALE as int
    } else {
        h
    }
}

/// Whether `vy` is a valid redrawn vertical velocity for the bounds `a` and
/// `b`, taken in either order: strictly between `-hi` and `-lo`, or `-lo` where
/// that open interval holds no integer.
pub open spec fn redrawn(vy: int, a: int, b: int) -> bool {
    let lo = if a <= b { a } else { b };
    let hi = if a <= b { b } else { a };
    if hi - lo >= 2 {
        -hi < vy < -lo
    } else {
        vy == -lo
    }
}

impl FieldState {
    /// Every particle is within the limits that a step accepts.
    pub open spec fn fits(self) -> bool {
        forall|i: int| 0 <= i < self.particles.len() ==> #[trigger] self.particles[i].fits()
    }

    /// The state after `set_hue(h)`.
    pub open spec fn with_hue(self, h: int) -> FieldState {
        FieldState { hue: clamp_hue(h) as u32, ..self }
    }

    /// The state after `request_velocity_reassignment(min, max)`.
    pub open spec fn with_request(self, min: u32, max: u32) -> FieldState {
        FieldState { min_velocity: min, max_velocity: max, pending: true, ..self }
    }

    /// The state after each request of `requests`, in order.
    pub open spec fn with_requests(self, requests: Seq<(u32, u32)>) -> FieldState
        decreases requests.len(),
    {
        if requests.len() == 0 {
            self
        } else {
            self.with_requests(requests.drop_last()).with_request(
                requests.last().0,
                requests.last().1,
            )
        }
    }
}

/// What applying the pending changes does to particle `p`, where `q` is what it
/// became: same position and horizontal velocity, the field's hue, and a
/// vertical velocity redrawn from the bounds if a reassignment is pending.
pub open spec fn particle_applied(p: Particle, q: Particle, before: FieldState) -> bool {
    &&& q.position == p.position
    &&& q.hue == before.hue
    &&& q.velocity.x == p.velocity.x
    &&& if before.pending {
        redrawn(q.velocity.y as int, before.min_velocity as int, before.max_velocity as int)
    } else {
        q.velocity.y == p.velocity.y
    }
}

/// What applying the pending changes does to the whole field.
pub open spec fn applied(before: FieldState, after: FieldState) -> bool {
    &&& after.particles.len() == before.particles.len()
    &&& after.hue == before.hue
    &&& after.min_velocity == before.min_velocity
    &&& after.max_velocity == before.max_velocity
    &&& !after.pending
    &&& forall|i: int|
        0 <= i < before.particles.len() ==> particle_applied(
            before.particles[i],
            #[trigger] after.particles[i],
            before,
        )
}

/// What one step may do to particle `p`, where `q` is what it became: its hue
/// is the field's; its vertical velocity is redrawn from the bounds if a
/// reassignment is pending and kept otherwise; it moves by integration and
/// repulsion with its new velocity; and if that takes it below the floor it
/// goes to the top edge at an `x` in `[-width, width)`.
pub open spec fn particle_stepped(
    p: Particle,
    q: Particle,
    before: FieldState,
    dt: int,
    pointer: Point,
    canvas: Canvas,
) -> bool {
    let m = advanced(p.position, q.velocity, dt, pointer);
    &&& q.hue == before.hue
    &&& q.velocity.x == p.velocity.x
    &&& if before.pending {
        redrawn(q.velocity.y as int, before.min_velocity as int, before.max_velocity as int)
    } else {
        q.velocity.y == p.velocity.y
    }
    &&& if m.1 < canvas.bottom {
        q.position.y == canvas.top && -canvas.width <= q.position.x < canvas.width
    } else {
        q.position.x == m.0 && q.position.y == m.1
    }
}

/// What one step does to the whole field: each particle steps, the tunables
/// stay and no reassignment is left pending.
pub open spec fn stepped(
    before: FieldState,
    after: FieldState,
    dt: int,
    pointer: Point,
    canvas: Canvas,
) -> bool {
    &&& after.particles.len() == before.particles.len()
    &&& after.hue == before.hue
    &&& after.min_velocity == before.min_velocity
    &&& after.max_velocity == before.max_velocity
    &&& !after.pending
    &&& forall|i: int|
        0 <= i < before.particles.len() ==> particle_stepped(
            before.particles[i],
            #[trigger] after.particles[i],
            before,
            dt,
            pointer,
            canvas,
        )
}

/// Draws a vertical velocity for the bounds `a` and `b` (see `redrawn`).
fn redraw_speed(a: u32, b: u32) -> (vy: i64)
    ensures
        redrawn(vy as int, a as int, b as int),
        -0x1_0000_0000 <= vy <= 0,
{
    let lo: i64 = if a <= b { a as i64 } else { b as i64 };
    let hi: i64 = if a <= b { b as i64 } else { a as i64 };
    if hi - lo >= 2 {
        random_between(-hi + 1, -lo)
    } else {
        -lo
    }
}

impl Field {
    /// A field of `PARTICLE_COUNT` particles at random positions above the
    /// canvas, falling at random speeds and all drifting sideways at one random
    /// speed. Hue 0, initial speed bounds, no reassignment pending.
    pub fn new(width: i64) -> (r: Field)
        requires
            0 < width <= COORD_LIMIT,
        ensures
            r@.particles.len() == PARTICLE_COUNT,
            r@.hue == 0,
            r@.min_velocity == INITIAL_MIN_VELOCITY,
            r@.max_velocity == INITIAL_MAX_VELOCITY,
            !r@.pending,
            r@.fits(),
            forall|i: int|
                0 <= i < r@.particles.len() ==> {
                    let p = #[trigger] r@.particles[i];
                    &&& p.hue == 0
                    &&& p.velocity.x == r@.particles[0].velocity.x
                    &&& DRIFT_LOW <= p.velocity.x < DRIFT_HIGH
                    &&& -(INITIAL_MAX_VELOCITY as int) <= p.velocity.y < -(
                    INITIAL_MIN_VELOCITY as int)
                    &&& -width <= p.position.x < width
                    &&& SPAWN_LOW_Y <= p.position.y < SPAWN_HIGH_Y
                },
    {
        let drift: i64 = random_between(DRIFT_LOW, DRIFT_HIGH);
        let mut particles: Vec<Particle> = Vec::new();
        let mut i: usize = 0;
        while i < PARTICLE_COUNT
            invariant
                0 <= i <= PARTICLE_COUNT,
                particles@.len() == i,
                0 < width <= COORD_LIMIT,
                DRIFT_LOW <= drift < DRIFT_HIGH,
                forall|j: int|
                    0 <= j < i ==> {
                        let p = #[trigger] particles@[j];
                        &&& p.hue == 0
                        &&& p.velocity.x == drift
                        &&& -(INITIAL_MAX_VELOCITY as int) <= p.velocity.y < -(
                        INITIAL_MIN_VELOCITY as int)
                        &&& -width <= p.position.x < width
                        &&& SPAWN_LOW_Y <= p.position.y < SPAWN_HIGH_Y
                    },
            decreases PARTICLE_COUNT - i,
        {
            let x: i64 = random_between(-width, width);
            let y: i64 = random_between(SPAWN_LOW_Y, SPAWN_HIGH_Y);
            let vy: i64 = random_between(
                -(INITIAL_MAX_VELOCITY as i64),
                -(INITIAL_MIN_VELOCITY as i64),
            );
            particles.push(
                Particle { position: Point { x, y }, velocity: Velocity { x: drift, y: vy }, hue: 0 },
            );
            i += 1;
        }
        Field {
            particles,
            hue: 0,
            min_velocity: INITIAL_MIN_VELOCITY,
            max_velocity: INITIAL_MAX_VELOCITY,
            pending: false,
        }
    }

    /// A field of the given particles, with hue 0, the initial speed bounds and
    /// no reassignment pending.
    pub fn from_particles(particles: Vec<Particle>) -> (r: Field)
        ensures
            r@.particles == particles@,
            r@.hue == 0,
            r@.min_velocity == INITIAL_MIN_VELOCITY,
            r@.max_velocity == INITIAL_MAX_VELOCITY,
            !r@.pending,
    {
        Field {
            particles,
            hue: 0,
            min_velocity: INITIAL_MIN_VELOCITY,
            max_velocity: INITIAL_MAX_VELOCITY,
            pending: false,
        }
    }

    /// The particles, in their fixed order.
    pub fn particles(&self) -> (r: &Vec<Particle>)
        ensures
            r@ == self@.particles,
    {
        &self.particles
    }

    /// The shared hue, out of `HUE_SCALE`.
    pub fn hue(&self) -> (r: u32)
        ensures
            r == self@.hue,
    {
        self.hue
    }

    /// The lower fall-speed bound last requested.
    pub fn min_velocity(&self) -> (r: u32)
        ensures
            r == self@.min_velocity,
    {
        self.min_velocity
    }

    /// The upper fall-speed bound last requested.
    pub fn max_velocity(&self) -> (r: u32)
        ensures
            r == self@.max_velocity,
    {
        self.max_velocity
    }

    /// Whether the next step redraws the vertical velocities.
    pub fn reassignment_pending(&self) -> (r: bool)
        ensures
            r == self@.pending,
    {
        self.pending
    }

    /// Whether every particle is within the limits that a step accepts.
    pub fn fits(&self) -> (r: bool)
        ensures
            r == self@.fits(),
    {
        let mut i: usize = 0;
        while i < self.particles.len()
            invariant
                0 <= i <= self.particles@.len(),
                forall|j: int| 0 <= j < i ==> #[trigger] self.particles@[j].fits(),
            decreases self.particles@.len() - i,
        {
            let p = self.particles[i];
            if !(-COORD_LIMIT <= p.position.x && p.position.x <= COORD_LIMIT && -COORD_LIMIT
                <= p.position.y && p.position.y <= COORD_LIMIT && -0x1_0000_0000 <= p.velocity.x
                && p.velocity.x <= 0x1_0000_0000 && -0x1_0000_0000 <= p.velocity.y && p.velocity.y
                <= 0x1_0000_0000) {
                assert(!self@.particles[i as int].fits());
                return false;
            }
            i += 1;
        }
        true
    }

    /// Sets the shared hue, clamped to `[0, HUE_SCALE]`. The particles take it
    /// on the next step or `sync_colors`.
    pub fn set_hue(&mut self, h: i64)
        ensures
            final(self)@ == old(self)@.with_hue(h as int),
    {
        self.hue = if h < 0 {
            0
        } else if h > HUE_SCALE as i64 {
            HUE_SCALE
        } else {
            h as u32
        };
    }

    /// Stores new fall-speed bounds and marks the vertical velocities for a
    /// redraw on the next step. The particles are not touched.
    pub fn request_velocity_reassignment(&mut self, min: u32, max: u32)
        ensures
            final(self)@ == old(self)@.with_request(min, max),
    {
        self.min_velocity = min;
        self.max_velocity = max;
        self.pending = true;
    }

    /// Gives every particle the shared hue.
    pub fn sync_colors(&mut self)
        ensures
            final(self)@.particles.len() == old(self)@.particles.len(),
            final(self)@.hue == old(self)@.hue,
            final(self)@.min_velocity == old(self)@.min_velocity,
            final(self)@.max_velocity == old(self)@.max_velocity,
            final(self)@.pending == old(self)@.pending,
            forall|i: int|
                0 <= i < old(self)@.particles.len() ==> #[trigger] final(self)@.particles[i]
                    == (Particle { hue: old(self)@.hue, ..old(self)@.particles[i] }),
    {
        let n = self.particles.len();
        let mut i: usize = 0;
        while i < n
            invariant
                0 <= i <= n,
                n == self.particles@.len() == old(self).particles@.len(),
                self.hue == old(self).hue,
                self.min_velocity == old(self).min_velocity,
                self.max_velocity == old(self).max_velocity,
                self.pending == old(self).pending,
                forall|j: int|
                    0 <= j < i ==> #[trigger] self.particles@[j] == (Particle {
                        hue: old(self).hue,
                        ..old(self).particles@[j]
                    }),
                forall|j: int| i <= j < n ==> #[trigger] self.particles@[j] == old(self).particles@[j],
            decreases n - i,
        {
            let p = self.particles[i];
            self.particles[i] = Particle { hue: self.hue, ..p };
            i += 1;
        }
    }

    /// Applies what the control panel asked for since the last step: redraws
    /// every vertical velocity from the stored bounds if a reassignment is
    /// pending (then clears it), and gives every particle the shared hue.
    pub fn apply_pending_parameter_changes(&mut self)
        ensures
            applied(old(self)@, final(self)@),
    {
        let n = self.particles.len();
        let mut i: usize = 0;
        while i < n
            invariant
                0 <= i <= n,
                n == self.particles@.len() == old(self).particles@.len(),
                self.hue == old(self).hue,
                self.min_velocity == old(self).min_velocity,
                self.max_velocity == old(self).max_velocity,
                self.pending == old(self).pending,
                forall|j: int|
                    0 <= j < i ==> particle_applied(
                        old(self).particles@[j],
                        #[trigger] self.particles@[j],
                        old(self)@,
                    ),
                forall|j: int| i <= j < n ==> #[trigger] self.particles@[j] == old(self).particles@[j],
            decreases n - i,
        {
            let p = self.particles[i];
            let vy: i64 = if self.pending {
                redraw_speed(self.min_velocity, self.max_velocity)
            } else {
                p.velocity.y
            };
            self.particles[i] = Particle {
                position: p.position,
                velocity: Velocity { x: p.velocity.x, y: vy },
                hue: self.hue,
            };
            i += 1;
        }
        self.pending = false;
    }

    /// Advances every particle by `dt` microseconds: first applies the pending
    /// parameter changes, then integrates, pushes particles away from
    /// `pointer` and wraps those that fell below the floor.
    pub fn step(&mut self, dt: u64, pointer: Point, canvas: Canvas)
        requires
            old(self)@.fits(),
            pointer.fits(),
            canvas.fits(),
            dt <= DT_LIMIT,
        ensures
            stepped(old(self)@, final(self)@, dt as int, pointer, canvas),
    {
        self.apply_pending_parameter_changes();
        let ghost mid = self@;
        let n = self.particles.len();
        let mut i: usize = 0;
        while i < n
            invariant
                0 <= i <= n,
                n == self.particles@.len() == old(self).particles@.len(),
                applied(old(self)@, mid),
                self.hue == mid.hue,
                self.min_velocity == mid.min_velocity,
                self.max_velocity == mid.max_velocity,
                self.pending == mid.pending,
                old(self)@.fits(),
                pointer.fits(),
                canvas.fits(),
                dt <= DT_LIMIT,
                forall|j: int|
                    0 <= j < i ==> particle_stepped(
                        old(self).particles@[j],
                        #[trigger] self.particles@[j],
                        old(self)@,
                        dt as int,
                        pointer,
                        canvas,
                    ),
                forall|j: int| i <= j < n ==> #[trigger] self.particles@[j] == mid.particles[j],
            decreases n - i,
        {
            let p = self.particles[i];
            assert(old(self)@.particles[i as int].fits());
            assert(particle_applied(old(self)@.particles[i as int], mid.particles[i as int], old(self)@));
            let moved = advance(p.position, p.velocity, dt, pointer);
            let fresh_x: i64 = if moved.y < canvas.bottom {
                random_between(-canvas.width, canvas.width)
            } else {
                0
            };
            let position = wrap(moved, canvas, fresh_x);
            self.particles[i] = Particle { position, ..p };
            i += 1;
        }
    }
}

} // verus!
