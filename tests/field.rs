use raindrops::field::{Field, INITIAL_MAX_VELOCITY, INITIAL_MIN_VELOCITY, PARTICLE_COUNT};
use raindrops::motion::{advance, trail, wrap, REPEL_RADIUS};
use raindrops::units::{Canvas, Particle, Point, Velocity, HUE_SCALE, NANOS_PER_UNIT};

const U: i64 = NANOS_PER_UNIT;
const SECOND: u64 = 1_000_000;

fn canvas() -> Canvas {
    Canvas { top: 400 * U, bottom: 0, width: 1200 * U }
}

fn far_pointer() -> Point {
    Point { x: 100_000 * U, y: 100_000 * U }
}

fn particle(x: i64, y: i64, vx: i64, vy: i64) -> Particle {
    Particle { position: Point { x, y }, velocity: Velocity { x: vx, y: vy }, hue: 0 }
}

#[test]
fn three_particles_all_wrap() {
    let c = canvas();
    let mut field = Field::from_particles(vec![
        particle(0, 50 * U, 0, -200_000),
        particle(0, 100 * U, 0, -200_000),
        particle(0, 150 * U, 0, -200_000),
    ]);
    field.step(SECOND, far_pointer(), c);
    assert_eq!(field.particles().len(), 3);
    for p in field.particles() {
        assert_eq!(p.position.y, c.top);
        assert!(-c.width <= p.position.x && p.position.x <= c.width);
        assert_eq!(p.velocity, Velocity { x: 0, y: -200_000 });
    }
}

#[test]
fn free_fall_is_exact() {
    let p = particle(10 * U, 300 * U, 30_000, -150_000);
    let moved = advance(p.position, p.velocity, 250_000, far_pointer());
    // 30 u/s and -150 u/s over a quarter second.
    assert_eq!(moved, Point { x: 10 * U + 7_500_000_000, y: 300 * U - 37_500_000_000 });
}

#[test]
fn step_without_pointer_integrates() {
    let mut field = Field::from_particles(vec![particle(-5 * U, 200 * U, 20_000, -100_000)]);
    field.step(500_000, far_pointer(), canvas());
    assert_eq!(field.particles()[0].position, Point { x: 5 * U, y: 150 * U });
}

#[test]
fn repulsion_pushes_away_exactly() {
    // Pointer 100 units to the right: force (200 - 100) * 2 = 200 u/s, away from it.
    let p = particle(0, 300 * U, 0, 0);
    let moved = advance(p.position, p.velocity, SECOND, Point { x: 100 * U, y: 300 * U });
    assert_eq!(moved, Point { x: -200 * U, y: 300 * U });
}

#[test]
fn repulsion_weakens_with_distance() {
    let pointer = Point { x: 0, y: 300 * U };
    let near = advance(Point { x: 0, y: 250 * U }, Velocity { x: 0, y: 0 }, SECOND, pointer);
    let far = advance(Point { x: 0, y: 150 * U }, Velocity { x: 0, y: 0 }, SECOND, pointer);
    assert_eq!(near, Point { x: 0, y: 250 * U - 300 * U });
    assert_eq!(far, Point { x: 0, y: 150 * U - 100 * U });
    assert!(250 * U - near.y > 150 * U - far.y);
}

#[test]
fn no_repulsion_at_radius() {
    let pointer = Point { x: 0, y: 0 };
    let at = advance(Point { x: REPEL_RADIUS, y: 0 }, Velocity { x: 0, y: 0 }, SECOND, pointer);
    assert_eq!(at, Point { x: REPEL_RADIUS, y: 0 });
}

#[test]
fn no_repulsion_on_pointer() {
    let pointer = Point { x: 7 * U, y: 9 * U };
    let at = advance(pointer, Velocity { x: 0, y: 0 }, SECOND, pointer);
    assert_eq!(at, pointer);
}

#[test]
fn diagonal_repulsion_rounds_toward_zero() {
    // Pointer at (3, 4) units from the particle: distance 5, force 390 u/s.
    let p = Point { x: 0, y: 0 };
    let moved = advance(p, Velocity { x: 0, y: 0 }, SECOND, Point { x: 3 * U, y: 4 * U });
    assert_eq!(moved, Point { x: -234 * U, y: -312 * U });
}

#[test]
fn wrap_only_below_floor() {
    let c = canvas();
    assert_eq!(wrap(Point { x: 3, y: -1 }, c, 77), Point { x: 77, y: c.top });
    assert_eq!(wrap(Point { x: 3, y: 0 }, c, 77), Point { x: 3, y: 0 });
}

#[test]
fn floor_holds_after_step() {
    let c = canvas();
    let mut field = Field::new(c.width);
    for _ in 0..20 {
        field.step(100_000, Point { x: 0, y: 200 * U }, c);
        for p in field.particles() {
            assert!(p.position.y >= c.bottom);
        }
    }
}

#[test]
fn respawn_x_in_range() {
    let c = Canvas { top: 10 * U, bottom: 0, width: 3 * U };
    let mut field = Field::from_particles(vec![particle(0, U, 0, -2_000); 50]);
    field.step(SECOND, far_pointer(), c);
    for p in field.particles() {
        assert_eq!(p.position.y, c.top);
        assert!(-c.width <= p.position.x && p.position.x <= c.width);
    }
}

#[test]
fn reassignment_uses_last_request_once() {
    let mut field = Field::from_particles(vec![particle(0, 300 * U, 0, -1_000); 100]);
    field.request_velocity_reassignment(1_000, 500_000);
    field.request_velocity_reassignment(30_000, 40_000);
    field.request_velocity_reassignment(50_000, 60_000);
    assert!(field.reassignment_pending());
    assert_eq!(field.particles()[0].velocity.y, -1_000);
    field.step(0, far_pointer(), canvas());
    assert!(!field.reassignment_pending());
    assert_eq!(field.min_velocity(), 50_000);
    assert_eq!(field.max_velocity(), 60_000);
    let first: Vec<i64> = field.particles().iter().map(|p| p.velocity.y).collect();
    for vy in &first {
        assert!(-60_000 < *vy && *vy < -50_000);
    }
    field.step(0, far_pointer(), canvas());
    let second: Vec<i64> = field.particles().iter().map(|p| p.velocity.y).collect();
    assert_eq!(first, second);
}

#[test]
fn reassignment_with_inverted_bounds() {
    let mut field = Field::from_particles(vec![particle(0, 300 * U, 5, -1_000); 100]);
    field.request_velocity_reassignment(200_000, 20_000);
    field.step(0, far_pointer(), canvas());
    for p in field.particles() {
        assert!(-200_000 < p.velocity.y && p.velocity.y < -20_000);
        assert_eq!(p.velocity.x, 5);
    }
}

#[test]
fn reassignment_with_equal_bounds() {
    let mut field = Field::from_particles(vec![particle(0, 300 * U, 0, -1_000); 4]);
    field.request_velocity_reassignment(50_000, 50_000);
    field.step(0, far_pointer(), canvas());
    for p in field.particles() {
        assert_eq!(p.velocity.y, -50_000);
    }
}

#[test]
fn reassignment_draws_vary() {
    let mut field = Field::from_particles(vec![particle(0, 300 * U, 0, -1_000); 200]);
    field.request_velocity_reassignment(1_000, 500_000);
    field.step(0, far_pointer(), canvas());
    let vys: Vec<i64> = field.particles().iter().map(|p| p.velocity.y).collect();
    assert!(vys.iter().any(|v| *v != vys[0]));
}

#[test]
fn hue_reaches_every_particle_after_step() {
    let mut field = Field::from_particles(vec![particle(0, 300 * U, 0, 0); 10]);
    field.set_hue(420_000);
    assert_eq!(field.hue(), 420_000);
    assert!(field.particles().iter().all(|p| p.hue == 0));
    field.step(16_000, far_pointer(), canvas());
    assert!(field.particles().iter().all(|p| p.hue == 420_000));
}

#[test]
fn hue_is_clamped() {
    let mut field = Field::from_particles(vec![]);
    field.set_hue(-3);
    assert_eq!(field.hue(), 0);
    field.set_hue(5_000_000);
    assert_eq!(field.hue(), HUE_SCALE);
}

#[test]
fn sync_colors_repaints() {
    let mut field = Field::from_particles(vec![particle(1, 2, 3, 4); 3]);
    field.set_hue(1_000_000);
    field.sync_colors();
    for p in field.particles() {
        assert_eq!(*p, Particle { hue: 1_000_000, ..particle(1, 2, 3, 4) });
    }
}

#[test]
fn new_field_is_spread_out() {
    let width = 1200 * U;
    let field = Field::new(width);
    let ps = field.particles();
    assert_eq!(ps.len(), PARTICLE_COUNT);
    assert_eq!(field.hue(), 0);
    assert_eq!(field.min_velocity(), INITIAL_MIN_VELOCITY);
    assert_eq!(field.max_velocity(), INITIAL_MAX_VELOCITY);
    assert!(!field.reassignment_pending());
    assert!(field.fits());
    for p in ps {
        assert_eq!(p.velocity.x, ps[0].velocity.x);
        assert!(20_000 <= p.velocity.x && p.velocity.x < 40_000);
        assert!(-200_000 <= p.velocity.y && p.velocity.y < -20_000);
        assert!(-width <= p.position.x && p.position.x < width);
        assert!(300 * U <= p.position.y && p.position.y < 600 * U);
        assert_eq!(p.hue, 0);
    }
    assert!(ps.iter().any(|p| p.position.x != -width));
    assert!(ps.iter().any(|p| p.position.x != ps[0].position.x));
}

#[test]
fn fits_rejects_far_particles() {
    let field = Field::from_particles(vec![particle(0, 0, 0, 0), particle(i64::MAX, 0, 0, 0)]);
    assert!(!field.fits());
    let field = Field::from_particles(vec![particle(0, 0, 0, i64::MIN)]);
    assert!(!field.fits());
}

#[test]
fn trail_points_up_and_left() {
    let (start, end) = trail(Point { x: 10 * U, y: 20 * U });
    assert_eq!(start, Point { x: 10 * U, y: 20 * U });
    assert_eq!(end, Point { x: 10 * U - 1_500_000_000, y: 28 * U });
}

#[test]
fn applying_changes_keeps_positions() {
    let mut field = Field::from_particles(vec![particle(4 * U, 9 * U, 7, -1_000); 20]);
    field.set_hue(250_000);
    field.request_velocity_reassignment(10_000, 12_000);
    field.apply_pending_parameter_changes();
    assert!(!field.reassignment_pending());
    for p in field.particles() {
        assert_eq!(p.position, Point { x: 4 * U, y: 9 * U });
        assert_eq!(p.velocity.x, 7);
        assert!(-12_000 < p.velocity.y && p.velocity.y < -10_000);
        assert_eq!(p.hue, 250_000);
    }
}
