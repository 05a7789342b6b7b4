use cubes::instance::InitialRotation;
use cubes::instance::InstanceState;
use cubes::instance::NUM_INSTANCES_PER_ROW;
use cubes::instance::ROTATION_SPEED_DEG;

/// Every grid side N from 1 up produces exactly N * N instances.
#[test]
fn grid_produces_n_squared_instances() {
    for n in [1u32, 2, 3, 7, 10, 16] {
        let table = InstanceState::new(n);
        assert_eq!(table.instances.len(), (n * n) as usize);
        assert_eq!(table.num_instances(), n * n);
    }
}

/// Instances are laid out row by row: index i holds column i % N of row
/// i / N, and all share the fixed rotation speed with no spin yet.
#[test]
fn grid_is_row_major_with_fixed_speed() {
    let n = 5u32;
    let table = InstanceState::new(n);
    for (i, inst) in table.instances.iter().enumerate() {
        assert_eq!(inst.grid_x, i as u32 % n);
        assert_eq!(inst.grid_z, i as u32 / n);
        assert_eq!(inst.rotation_speed, ROTATION_SPEED_DEG);
        assert_eq!(inst.rotation_speed, 20);
        assert_eq!(inst.spin_steps, 0);
    }
}

/// In an even-sided grid the instance whose displaced position is the
/// origin starts with the identity rotation; every other instance starts
/// tilted 45 degrees about its own position.
#[test]
fn only_the_origin_instance_starts_unrotated() {
    let n = 10u32;
    let table = InstanceState::new(n);
    for (i, inst) in table.instances.iter().enumerate() {
        // Position is (2x - n, 0, 2z - n): the origin is x == z == n / 2.
        let at_origin = inst.grid_x == 5 && inst.grid_z == 5;
        if at_origin {
            assert_eq!(i, 55);
            assert_eq!(inst.initial_rotation, InitialRotation::Identity);
        } else {
            assert_eq!(inst.initial_rotation, InitialRotation::TiltAboutPosition);
        }
    }
}

/// An odd-sided grid has no instance at the origin, so every instance
/// starts tilted.
#[test]
fn odd_grids_have_no_origin_instance() {
    for n in [1u32, 3, 9] {
        let table = InstanceState::new(n);
        for inst in table.instances.iter() {
            assert_eq!(inst.initial_rotation, InitialRotation::TiltAboutPosition);
        }
    }
}

/// `update()` never changes the instance count, and k updates compose
/// exactly k rotation deltas onto every instance: the accumulated
/// rotation is the per-frame delta raised to the k-th composition.
#[test]
fn updates_compose_one_delta_per_call() {
    let n = 4u32;
    let mut table = InstanceState::new(n);
    let initial: Vec<_> = table.instances.iter().map(|i| i.initial_rotation).collect();
    for k in 1u64..=6 {
        table.update();
        assert_eq!(table.instances.len(), (n * n) as usize);
        for inst in table.instances.iter() {
            assert_eq!(inst.spin_steps, k);
        }
    }
    // Nothing but the spin count moved.
    for (inst, rot) in table.instances.iter().zip(initial.iter()) {
        assert_eq!(inst.initial_rotation, *rot);
        assert_eq!(inst.rotation_speed, 20);
    }
}

/// The default configuration is a 10 x 10 grid.
#[test]
fn default_grid_side_is_ten() {
    assert_eq!(NUM_INSTANCES_PER_ROW, 10);
    let table = InstanceState::new(NUM_INSTANCES_PER_ROW);
    assert_eq!(table.num_instances(), 100);
}
