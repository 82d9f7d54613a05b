use phys_engine::particle::{ParticleInstance, RawParticleInstance, Vec2};
use phys_engine::{COORD_LIMIT, HALF_UNIT, SCALE};

fn stepped(p: ParticleInstance, side_length: u32) -> ParticleInstance {
    let mut q = p;
    let mut raw = RawParticleInstance { x: 0, y: 0 };
    q.update(&mut raw, side_length);
    assert_eq!(raw.x, q.position.x);
    assert_eq!(raw.y, q.position.y);
    q
}

#[test]
fn gravity_pulls_one_subunit_per_step() {
    // At rest high above the floor: position falls by exactly the gravity
    // decrement, the re-derived previous position implies that velocity.
    let p = ParticleInstance::new(150, 500);
    let q = stepped(p, 5);
    assert_eq!(q.position, Vec2 { x: 150, y: 499 });
    assert_eq!(q.old_position, Vec2 { x: 150, y: 500 });
}

#[test]
fn floor_invariant_many_steps() {
    // After any number of steps the floor invariant holds.
    let mut p = ParticleInstance::new(150, 550);
    let mut raw = RawParticleInstance { x: 0, y: 0 };
    for _ in 0..1000 {
        p.update(&mut raw, 5);
        assert!(p.position.y >= HALF_UNIT);
    }
}

#[test]
fn wrap_keeps_x_within_band_many_steps() {
    // A particle drifting horizontally stays within half a unit of the
    // domain's vertical edges, for many steps and across many wraps.
    let span = 5 * SCALE;
    let mut p = ParticleInstance {
        position: Vec2 { x: 80, y: 450 },
        old_position: Vec2 { x: 10, y: 450 },
    };
    let mut raw = RawParticleInstance { x: 0, y: 0 };
    for _ in 0..1000 {
        p.update(&mut raw, 5);
        assert!(p.position.x >= -HALF_UNIT);
        assert!(p.position.x <= span + HALF_UNIT);
    }
}

#[test]
fn wrap_high_shifts_both_positions_by_span() {
    // Crossing the high seam: both positions come back shifted by exactly
    // one span, so the implied velocity is preserved.
    let p = ParticleInstance {
        position: Vec2 { x: 245, y: 150 },
        old_position: Vec2 { x: 235, y: 150 },
    };
    let vx_before = p.position.x - p.old_position.x;
    let q = stepped(p, 2);
    assert_eq!(q.position.x, 55);
    assert_eq!(q.old_position.x, 45);
    assert_eq!(q.position.x - q.old_position.x, vx_before);
}

#[test]
fn wrap_low_shifts_both_positions_by_span() {
    let p = ParticleInstance {
        position: Vec2 { x: -45, y: 150 },
        old_position: Vec2 { x: -30, y: 150 },
    };
    let vx_before = p.position.x - p.old_position.x;
    let q = stepped(p, 2);
    // velocity -15, free position -60, wrapped up by the span of 200
    assert_eq!(q.position.x, 140);
    assert_eq!(q.old_position.x, 155);
    assert_eq!(q.position.x - q.old_position.x, vx_before);
}

#[test]
fn past_high_threshold_moving_inward_is_not_wrapped() {
    // Already past the high threshold but moving back toward the domain:
    // the step lands inside the band, so no wrap fires and both positions
    // move by the velocity alone.
    let p = ParticleInstance {
        position: Vec2 { x: 260, y: 150 },
        old_position: Vec2 { x: 300, y: 150 },
    };
    let q = stepped(p, 2);
    assert_eq!(q.position.x, 220);
    assert_eq!(q.old_position.x, 260);
}

#[test]
fn past_high_threshold_at_rest_is_wrapped() {
    // Resting beyond the high threshold: the wrap fires and reduces both
    // positions by exactly the span.
    let p = ParticleInstance::new(260, 150);
    let q = stepped(p, 2);
    assert_eq!(q.position.x, 60);
    assert_eq!(q.old_position.x, 60);
}

#[test]
fn rest_on_floor_stays_on_floor_indefinitely() {
    // Zero velocity exactly on the floor: gravity pulls it under, the clamp
    // puts it back, and the re-derived previous position implies exactly the
    // velocity gravity cancels — no creep, no bounce, step after step.
    let mut p = ParticleInstance::new(50, HALF_UNIT);
    let mut raw = RawParticleInstance { x: 0, y: 0 };
    for _ in 0..500 {
        p.update(&mut raw, 2);
        assert_eq!(p.position.y, HALF_UNIT);
        assert_eq!(p.position.x, 50);
    }
}

#[test]
fn floor_impact_rebounds_one_gravity_unit_short() {
    // A falling particle is reflected by the floor: the rebound speed is the
    // impact speed less one gravity decrement, so bounces decay instead of
    // growing.
    let p = ParticleInstance {
        position: Vec2 { x: 150, y: 52 },
        old_position: Vec2 { x: 150, y: 62 },
    };
    // Incoming velocity -10, gravity makes it -11; the clamp holds the
    // particle at the floor and implies +11 upward for the next step, which
    // gravity then reduces to +10.
    let q = stepped(p, 5);
    assert_eq!(q.position.y, HALF_UNIT);
    assert_eq!(q.old_position.y, HALF_UNIT - 11);
    let r = stepped(q, 5);
    assert_eq!(r.position.y, HALF_UNIT + 10);
}

#[test]
fn exactly_on_high_threshold_is_stable_at_rest() {
    // The wrap test is strict, so a particle at rest exactly on
    // `span + 0.5` is not shifted.
    let span = 2 * SCALE;
    let p = ParticleInstance::new(span + HALF_UNIT, 150);
    let q = stepped(p, 2);
    assert_eq!(q.position.x, span + HALF_UNIT);
    assert_eq!(q.old_position.x, span + HALF_UNIT);
}

#[test]
fn in_bounds_boundary() {
    let p = ParticleInstance::new(COORD_LIMIT, 50);
    assert!(p.in_bounds());
    let q = ParticleInstance::new(COORD_LIMIT + 1, 50);
    assert!(!q.in_bounds());
}

#[test]
fn raw_projects_current_position_only() {
    let p = ParticleInstance {
        position: Vec2 { x: 123, y: 456 },
        old_position: Vec2 { x: 7, y: 8 },
    };
    let r = p.raw();
    assert_eq!(r.x, 123);
    assert_eq!(r.y, 456);
}
