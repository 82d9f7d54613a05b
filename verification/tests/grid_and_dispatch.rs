use phys_engine::compute::ParticleCompute;
use phys_engine::grid::ParticleGrid;
use phys_engine::particle::{ParticleInstance, Vec2};
use phys_engine::{COORD_LIMIT, HALF_UNIT};

#[test]
fn initial_layout_is_row_major_cell_centers() {
    // Grid of 2x2 cells: particle i sits at the center of cell
    // (i / 2, i % 2), at rest.
    let grid = ParticleGrid::new(2);
    assert_eq!(grid.particles.len(), 4);
    let expected = [(50, 50), (50, 150), (150, 50), (150, 150)];
    for (i, &(x, y)) in expected.iter().enumerate() {
        assert_eq!(grid.particles[i].position, Vec2 { x, y });
        assert_eq!(grid.particles[i].old_position, Vec2 { x, y });
    }
}

#[test]
fn one_step_from_initial_layout() {
    // After one step with zero initial velocity, gravity pulls every
    // particle down one subunit; the bottom row hits the floor clamp and is
    // held at half a unit.  Horizontal positions never move.
    let mut c = ParticleCompute::new(2);
    let ok = c.compute();
    assert!(ok);
    let ps = &c.grid.particles;
    assert_eq!(ps[0].position, Vec2 { x: 50, y: 50 });
    assert_eq!(ps[1].position, Vec2 { x: 50, y: 149 });
    assert_eq!(ps[2].position, Vec2 { x: 150, y: 50 });
    assert_eq!(ps[3].position, Vec2 { x: 150, y: 149 });
    for p in ps.iter() {
        assert!(p.position.y >= HALF_UNIT);
    }
}

#[test]
fn instance_stream_is_positions_in_index_order() {
    let mut c = ParticleCompute::new(3);
    assert!(c.compute());
    let stream = c.instance_stream();
    assert_eq!(stream.len(), 9);
    for (i, r) in stream.iter().enumerate() {
        assert_eq!(r.x, c.grid.particles[i].position.x);
        assert_eq!(r.y, c.grid.particles[i].position.y);
    }
}

#[test]
fn particle_count_and_workgroup_dims() {
    let c = ParticleCompute::new(3);
    assert_eq!(c.particle_count(), 9);
    let (x, y, z) = c.workgroup_dims();
    assert_eq!((x, y, z), (3, 3, 1));
    assert_eq!(x as u64 * y as u64 * z as u64, c.particle_count() as u64);
}

#[test]
fn step_all_refuses_out_of_bounds_state_unchanged() {
    let mut grid = ParticleGrid {
        side_length: 1,
        particles: vec![ParticleInstance::new(COORD_LIMIT + 1, 150)],
    };
    let before = grid.particles[0];
    let ok = grid.step_all();
    assert!(!ok);
    assert_eq!(grid.particles[0], before);
}

#[test]
fn floor_invariant_holds_over_many_frames() {
    // The whole population stays at or above the floor, frame after frame.
    let mut c = ParticleCompute::new(4);
    for _ in 0..200 {
        assert!(c.compute());
        for p in c.grid.particles.iter() {
            assert!(p.position.y >= HALF_UNIT);
        }
    }
}

#[test]
fn compute_reads_but_never_writes_uniforms() {
    let mut c = ParticleCompute::new(2);
    c.mouse(Vec2 { x: 33, y: 44 });
    assert!(c.compute());
    assert_eq!(c.uniforms.pointer, Vec2 { x: 33, y: 44 });
    assert_eq!(c.uniforms.count, 2);
}
