//! The table of drawable instances: an N x N grid of cubes.
//!
//! The grid is spaced 2.0 world units apart in X and Z and centered by a
//! displacement of (N, 0, N), so the instance at column x and row z sits
//! at the exact integer position (2x - N, 0, 2z - N). Each instance spins
//! by a fixed per-frame angle about an axis drawn at random outside the
//! library; what the library accounts for is how many of those rotation
//! deltas have been composed onto the initial orientation, so the
//! floating-point quaternion built outside equals the delta raised to
//! `spin_steps` compositions, applied to the initial rotation.

use vstd::prelude::*;

verus! {

/// The grid's side length in the configuration the renderer starts with.
pub const NUM_INSTANCES_PER_ROW: u32 = 10;

/// Degrees each instance rotates about its axis every frame.
pub const ROTATION_SPEED_DEG: u32 = 20;

/// Degrees of the initial tilt of every instance away from the origin.
pub const INITIAL_TILT_DEG: u32 = 45;

/// The orientation an instance is created with.
#[derive(Clone, Copy, PartialEq, Eq, Structural, Debug)]
pub enum InitialRotation {
    /// The identity: the instance whose position is the origin.
    Identity,
    /// A tilt of `INITIAL_TILT_DEG` degrees about the instance's own
    /// normalized position vector.
    TiltAboutPosition,
}

/// One drawable copy of the mesh.
#[derive(Clone, Copy, PartialEq, Eq, Structural, Debug)]
pub struct Instance {
    /// Grid column, in 0..grid_size.
    pub grid_x: u32,
    /// Grid row, in 0..grid_size.
    pub grid_z: u32,
    /// The orientation at creation.
    pub initial_rotation: InitialRotation,
    /// Degrees per frame of spin about the instance's axis.
    pub rotation_speed: u32,
    /// How many per-frame rotation deltas have been composed, on the
    /// left, onto the initial rotation.
    pub spin_steps: u64,
}

/// World X coordinate of grid column x in a grid of side n.
pub open spec fn pos_x(n: int, x: int) -> int {
    2 * x - n
}

/// World Z coordinate of grid row z in a grid of side n.
pub open spec fn pos_z(n: int, z: int) -> int {
    2 * z - n
}

/// Whether the instance at column x, row z sits exactly at the origin.
pub open spec fn at_origin(n: int, x: int, z: int) -> bool {
    pos_x(n, x) == 0 && pos_z(n, z) == 0
}

/// The instance at column x, row z of a grid of side n, as created.
pub open spec fn fresh_instance(n: int, x: int, z: int) -> Instance {
    Instance {
        grid_x: x as u32,
        grid_z: z as u32,
        initial_rotation: if at_origin(n, x, z) {
            InitialRotation::Identity
        } else {
            InitialRotation::TiltAboutPosition
        },
        rotation_speed: ROTATION_SPEED_DEG,
        spin_steps: 0,
    }
}

/// The whole grid as created, row by row: index i holds column i % n of
/// row i / n.
pub open spec fn fresh_instances(n: int) -> Seq<Instance> {
    Seq::new((n * n) as nat, |i: int| fresh_instance(n, i % n, i / n))
}

/// One frame's effect on one instance: one more delta composed.
pub open spec fn spin(inst: Instance) -> Instance {
    Instance { spin_steps: (inst.spin_steps + 1) as u64, ..inst }
}

/// One frame's effect on the whole table.
pub open spec fn spin_all(s: Seq<Instance>) -> Seq<Instance> {
    s.map_values(|inst: Instance| spin(inst))
}

/// The table's contents as mathematics.
#[verifier::ext_equal]
pub struct InstanceModel {
    pub grid_size: int,
    pub instances: Seq<Instance>,
}

/// The per-instance transforms, updated every frame.
pub struct InstanceState {
    /// Side length N of the grid; never changes after creation.
    pub grid_size: u32,
    /// The N * N instances, row by row.
    pub instances: Vec<Instance>,
}

impl View for InstanceState {
    type V = InstanceModel;

    open spec fn view(&self) -> InstanceModel {
        InstanceModel { grid_size: self.grid_size as int, instances: self.instances@ }
    }
}

impl InstanceState {
    pub open spec fn wf(self) -> bool {
        &&& 1 <= self.grid_size <= 65535
        &&& self.instances@.len() == self.grid_size * self.grid_size
    }

    /// Build the grid of side `num_per_row`, every instance in its
    /// created orientation with no spin yet.
    pub fn new(num_per_row: u32) -> (r: InstanceState)
        requires
            1 <= num_per_row <= 65535,
        ensures
            r.grid_size == num_per_row,
            r.instances@ == fresh_instances(num_per_row as int),
            r.wf(),
    {
        let n = num_per_row;
        let mut instances: Vec<Instance> = Vec::new();
        let mut z: u32 = 0;
        while z < n
            invariant
                z <= n,
                1 <= n <= 65535,
                instances@.len() == z * n,
                forall|i: int|
                    0 <= i < instances@.len() ==> instances@[i] == fresh_instances(
                        n as int,
                    )[i],
            decreases n - z,
        {
            let mut x: u32 = 0;
            while x < n
                invariant
                    z < n,
                    x <= n,
                    1 <= n <= 65535,
                    instances@.len() == z * n + x,
                    forall|i: int|
                        0 <= i < instances@.len() ==> instances@[i] == fresh_instances(
                            n as int,
                        )[i],
                decreases n - x,
            {
                let tilted = 2 * x != n || 2 * z != n;
                let inst = Instance {
                    grid_x: x,
                    grid_z: z,
                    initial_rotation: if tilted {
                        InitialRotation::TiltAboutPosition
                    } else {
                        InitialRotation::Identity
                    },
                    rotation_speed: ROTATION_SPEED_DEG,
                    spin_steps: 0,
                };
                proof {
                    let ni = n as int;
                    let idx = z * n + x;
                    assert(0 <= idx < ni * ni) by (nonlinear_arith)
                        requires
                            0 <= z < ni,
                            0 <= x < ni,
                            idx == z * ni + x,
                    ;
                    assert(idx % ni == x && idx / ni == z) by (nonlinear_arith)
                        requires
                            0 <= z < ni,
                            0 <= x < ni,
                            idx == z * ni + x,
                    ;
                    assert(at_origin(ni, x as int, z as int) <==> (2 * x == n && 2 * z == n));
                    assert(inst == fresh_instances(ni)[idx as int]);
                }
                instances.push(inst);
                x = x + 1;
            }
            z = z + 1;
            proof {
                assert((z - 1) * n + n == z * n) by (nonlinear_arith);
            }
        }
        proof {
            assert(instances@ =~= fresh_instances(n as int)) by {
                assert(instances@.len() == n * n);
            }
        }
        InstanceState { grid_size: n, instances }
    }

    /// Advance every instance's rotation by one composed delta. The
    /// count of instances never changes.
    pub fn update(&mut self)
        requires
            forall|i: int|
                0 <= i < old(self).instances@.len() ==> (#[trigger] old(
                    self,
                ).instances@[i]).spin_steps < u64::MAX,
        ensures
            final(self).grid_size == old(self).grid_size,
            final(self).instances@ == spin_all(old(self).instances@),
            final(self).instances@.len() == old(self).instances@.len(),
    {
        let ghost orig = self.instances@;
        let mut updated: Vec<Instance> = Vec::new();
        let mut i: usize = 0;
        while i < self.instances.len()
            invariant
                self.instances@ == orig,
                i <= orig.len(),
                updated@.len() == i,
                forall|j: int| 0 <= j < i ==> updated@[j] == spin(orig[j]),
                forall|j: int|
                    0 <= j < orig.len() ==> (#[trigger] orig[j]).spin_steps < u64::MAX,
            decreases orig.len() - i,
        {
            let inst = self.instances[i];
            updated.push(
                Instance {
                    grid_x: inst.grid_x,
                    grid_z: inst.grid_z,
                    initial_rotation: inst.initial_rotation,
                    rotation_speed: inst.rotation_speed,
                    spin_steps: inst.spin_steps + 1,
                },
            );
            i = i + 1;
        }
        self.instances = updated;
        proof {
            assert(self.instances@ =~= spin_all(orig));
        }
    }

    /// How many instances the draw call must cover.
    pub fn num_instances(&self) -> (r: u32)
        requires
            self.wf(),
        ensures
            r == self.instances@.len(),
    {
        proof {
            assert(self.grid_size * self.grid_size <= 65535 * 65535) by (nonlinear_arith)
                requires
                    1 <= self.grid_size <= 65535,
            ;
        }
        self.instances.len() as u32
    }
}

/// The grid as created has exactly n * n instances; the one whose
/// position maps to the origin (if any) starts with the identity
/// rotation, every other one with the tilt about its own position; no
/// instance has spun yet and all share the fixed per-frame speed.
pub proof fn lemma_grid_population(n: int)
    requires
        1 <= n <= 65535,
    ensures
        fresh_instances(n).len() == n * n,
        forall|i: int|
            0 <= i < n * n ==> ((#[trigger] fresh_instances(n)[i]).initial_rotation
                == InitialRotation::Identity <==> at_origin(n, i % n, i / n)),
        forall|i: int| 0 <= i < n * n ==> (#[trigger] fresh_instances(n)[i]).spin_steps == 0,
        forall|i: int|
            0 <= i < n * n ==> (#[trigger] fresh_instances(n)[i]).rotation_speed
                == ROTATION_SPEED_DEG,
        forall|i: int|
            0 <= i < n * n ==> (#[trigger] fresh_instances(n)[i]).grid_x == i % n
                && fresh_instances(n)[i].grid_z == i / n,
{
    assert(n * n >= n * 1) by (nonlinear_arith)
        requires
            n >= 1,
    ;
    assert forall|i: int| 0 <= i < n * n implies 0 <= #[trigger] (i % n) < n && 0 <= #[trigger] (i
        / n) < n by {
        vstd::arithmetic::div_mod::lemma_mod_bound(i, n);
        vstd::arithmetic::div_mod::lemma_div_pos_is_pos(i, n);
        vstd::arithmetic::div_mod::lemma_fundamental_div_mod(i, n);
        assert(i / n < n) by (nonlinear_arith)
            requires
                i == n * (i / n) + i % n,
                0 <= i % n,
                0 <= i / n,
                i < n * n,
                n >= 1,
        ;
    }
}

/// Iterating the per-frame table update k times.
pub open spec fn spin_all_k(s: Seq<Instance>, k: nat) -> Seq<Instance>
    decreases k,
{
    if k == 0 {
        s
    } else {
        spin_all(spin_all_k(s, (k - 1) as nat))
    }
}

/// Composition law of `update`: k updates compose exactly k rotation
/// deltas onto every instance, and change nothing else about it, so the
/// accumulated rotation is the single delta raised to the k-th
/// composition applied to the initial rotation.
pub proof fn lemma_update_composes(s: Seq<Instance>, k: nat)
    requires
        forall|i: int| 0 <= i < s.len() ==> (#[trigger] s[i]).spin_steps + k <= u64::MAX,
    ensures
        spin_all_k(s, k).len() == s.len(),
        forall|i: int|
            0 <= i < s.len() ==> #[trigger] spin_all_k(s, k)[i] == (Instance {
                spin_steps: (s[i].spin_steps + k) as u64,
                ..s[i]
            }),
    decreases k,
{
    if k == 0 {
        assert forall|i: int| 0 <= i < s.len() implies #[trigger] spin_all_k(s, k)[i] == (Instance {
            spin_steps: (s[i].spin_steps + k) as u64,
            ..s[i]
        }) by {
            assert(spin_all_k(s, 0) == s);
            assert((s[i].spin_steps + 0) as u64 == s[i].spin_steps);
        }
    } else {
        lemma_update_composes(s, (k - 1) as nat);
        let prev = spin_all_k(s, (k - 1) as nat);
        assert(spin_all_k(s, k) == spin_all(prev));
        assert forall|i: int| 0 <= i < s.len() implies #[trigger] spin_all_k(s, k)[i] == (Instance {
            spin_steps: (s[i].spin_steps + k) as u64,
            ..s[i]
        }) by {
            assert(spin_all(prev)[i] == spin(prev[i]));
        }
    }
}

} // verus!
