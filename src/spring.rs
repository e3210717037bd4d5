use vstd::prelude::*;
use crate::fixed::{abs, div_trunc, div_trunc_i128, SCALE};
use crate::vector::Vec3;

verus! {

/// Below this distance and speed a spring snaps to rest (0.001 units).
pub const EPSILON: i64 = 1000;

/// Bound on a spring's target, velocity and driven value, per component.
pub const SPRING_LIMIT: i64 = 0x1000_0000_0000;

/// Bound on stiffness and damping (4 units).
pub const MAX_COEFFICIENT: i64 = 4_000_000;

/// Bound on the time factor of one step (60 units: one second at 60 Hz).
pub const MAX_TIME_FACTOR: i64 = 60_000_000;

/// Stiffness of the springs that move and scale a structure (0.15).
pub const STRUCTURE_STIFFNESS: i64 = 150_000;

/// Damping of the springs that move and scale a structure (0.5).
pub const STRUCTURE_DAMPING: i64 = 500_000;

/// A damped spring of unit mass that pulls a three-component value toward
/// `target`. Stiffness and damping are fixed point.
#[derive(Clone, Copy, Debug, PartialEq, Eq, Structural)]
pub struct Spring {
    pub target: Vec3,
    pub velocity: Vec3,
    pub stiffness: i64,
    pub damping: i64,
}

/// The spring that moves an entity.
pub type TranslationSpring = Spring;

/// The spring that scales an entity.
pub type ScaleSpring = Spring;

pub open spec fn vec_in_limits(v: Vec3) -> bool {
    -SPRING_LIMIT <= v.x <= SPRING_LIMIT && -SPRING_LIMIT <= v.y <= SPRING_LIMIT
        && -SPRING_LIMIT <= v.z <= SPRING_LIMIT
}

pub open spec fn zero_vec() -> Vec3 {
    Vec3 { x: 0, y: 0, z: 0 }
}

/// Squared length of the difference `a - b`.
pub open spec fn dist_sq(a: Vec3, b: Vec3) -> int {
    (a.x - b.x) * (a.x - b.x) + (a.y - b.y) * (a.y - b.y) + (a.z - b.z) * (a.z - b.z)
}

/// One step on one component, before the snap: returns the new value and
/// the new velocity.
pub open spec fn axis_step(
    target: int,
    value: int,
    velocity: int,
    stiffness: int,
    damping: int,
    time_factor: int,
) -> (int, int) {
    let force = div_trunc((target - value) * stiffness, SCALE as int);
    let damping_term = div_trunc(velocity * damping, SCALE as int);
    let acceleration = force - damping_term;
    let v = velocity + div_trunc(acceleration * time_factor, SCALE as int);
    (value + div_trunc(v * time_factor, SCALE as int), v)
}

/// The value and the velocity after one step on all components, before
/// the snap.
pub open spec fn raw_step(s: Spring, value: Vec3, time_factor: int) -> (Vec3, Vec3) {
    let x = axis_step(s.target.x as int, value.x as int, s.velocity.x as int, s.stiffness as int, s.damping as int, time_factor);
    let y = axis_step(s.target.y as int, value.y as int, s.velocity.y as int, s.stiffness as int, s.damping as int, time_factor);
    let z = axis_step(s.target.z as int, value.z as int, s.velocity.z as int, s.stiffness as int, s.damping as int, time_factor);
    (
        Vec3 { x: x.0 as i64, y: y.0 as i64, z: z.0 as i64 },
        Vec3 { x: x.1 as i64, y: y.1 as i64, z: z.1 as i64 },
    )
}

/// One full step: the value moves, then snaps to the target with zero
/// velocity once both its distance to the target and its speed are below
/// `EPSILON`.
pub open spec fn step_spec(s: Spring, value: Vec3, time_factor: int) -> (Vec3, Vec3) {
    let (v, vel) = raw_step(s, value, time_factor);
    if dist_sq(s.target, v) < EPSILON * EPSILON && dist_sq(vel, zero_vec()) < EPSILON
        * EPSILON {
        (s.target, zero_vec())
    } else {
        (v, vel)
    }
}

impl Spring {
    /// The spring can take a step: every field is within bounds.
    pub open spec fn well_formed(self) -> bool {
        vec_in_limits(self.target) && vec_in_limits(self.velocity) && 0 <= self.stiffness
            <= MAX_COEFFICIENT && 0 <= self.damping <= MAX_COEFFICIENT
    }

    /// A spring at rest, pulling toward `target`.
    pub fn new(target: Vec3, stiffness: i64, damping: i64) -> (s: Spring)
        ensures
            s.target == target,
            s.velocity == zero_vec(),
            s.stiffness == stiffness,
            s.damping == damping,
    {
        Spring { target, velocity: Vec3 { x: 0, y: 0, z: 0 }, stiffness, damping }
    }

    /// Whether the spring and the value it drives are within the bounds
    /// that `step` needs.
    pub fn can_step(&self, value: &Vec3) -> (r: bool)
        ensures
            r == (self.well_formed() && vec_in_limits(*value)),
    {
        in_limits(&self.target) && in_limits(&self.velocity) && in_limits(value) && 0
            <= self.stiffness && self.stiffness <= MAX_COEFFICIENT && 0 <= self.damping
            && self.damping <= MAX_COEFFICIENT
    }

    /// Advances the spring and the value it drives by one step of
    /// `time_factor` (fixed point, in sixtieths of a second).
    pub fn step(&mut self, value: &mut Vec3, time_factor: i64)
        requires
            old(self).well_formed(),
            vec_in_limits(*old(value)),
            0 <= time_factor <= MAX_TIME_FACTOR,
        ensures
            (*final(value), final(self).velocity) == step_spec(*old(self), *old(value), time_factor as int),
            final(self).target == old(self).target,
            final(self).stiffness == old(self).stiffness,
            final(self).damping == old(self).damping,
    {
        let (x, vx) = step_axis(self.target.x, value.x, self.velocity.x, self.stiffness, self.damping, time_factor);
        let (y, vy) = step_axis(self.target.y, value.y, self.velocity.y, self.stiffness, self.damping, time_factor);
        let (z, vz) = step_axis(self.target.z, value.z, self.velocity.z, self.stiffness, self.damping, time_factor);
        let dx = (self.target.x as i128) - (x as i128);
        let dy = (self.target.y as i128) - (y as i128);
        let dz = (self.target.z as i128) - (z as i128);
        let vxx = vx as i128;
        let vyy = vy as i128;
        let vzz = vz as i128;
        proof {
            lemma_square_bound(dx as int);
            lemma_square_bound(dy as int);
            lemma_square_bound(dz as int);
            lemma_square_bound(vxx as int);
            lemma_square_bound(vyy as int);
            lemma_square_bound(vzz as int);
        }
        let eps: i128 = 1_000_000;
        assert(eps == EPSILON * EPSILON);
        if dx * dx + dy * dy + dz * dz < eps && vxx * vxx + vyy * vyy + vzz * vzz < eps {
            *value = self.target;
            self.velocity = Vec3 { x: 0, y: 0, z: 0 };
        } else {
            *value = Vec3 { x, y, z };
            self.velocity = Vec3 { x: vx, y: vy, z: vz };
        }
    }
}

/// Bound on a component after one step.
pub open spec fn step_bound() -> int {
    43262 * SPRING_LIMIT
}

/// A step leaves no residual drift: whenever the value it yields is within
/// `EPSILON` of the target with a speed below `EPSILON`, the value is exactly
/// the target and the velocity exactly zero.
pub proof fn lemma_step_leaves_no_drift(s: Spring, value: Vec3, time_factor: int)
    ensures
        ({
            let (v, vel) = step_spec(s, value, time_factor);
            dist_sq(s.target, v) < EPSILON * EPSILON && dist_sq(vel, zero_vec()) < EPSILON * EPSILON
                ==> v == s.target && vel == zero_vec()
        }),
{
}

/// A spring that has settled stays settled: with the value at the target and
/// no velocity, a step of any length leaves the value exactly at the target
/// and the velocity at zero.
pub proof fn lemma_settled_spring_stays(s: Spring, time_factor: int)
    requires
        s.well_formed(),
        s.velocity == zero_vec(),
        0 <= time_factor <= MAX_TIME_FACTOR,
    ensures
        step_spec(s, s.target, time_factor) == (s.target, zero_vec()),
{
    assert forall|t: int, k: int, c: int| axis_step(t, t, 0, k, c, time_factor) == (t, 0int) by {
        assert((t - t) * k == 0);
        assert(0int * c == 0);
        assert(0int * time_factor == 0);
    }
    let (v, vel) = raw_step(s, s.target, time_factor);
    assert(v == s.target);
    assert(vel == zero_vec());
    assert(dist_sq(s.target, v) == 0);
    assert(dist_sq(vel, zero_vec()) == 0);
}

proof fn lemma_square_bound(a: int)
    requires
        abs(a) <= 2 * step_bound(),
    ensures
        0 <= a * a <= 4 * step_bound() * step_bound(),
{
    assert(0 <= a * a <= 4 * step_bound() * step_bound()) by (nonlinear_arith)
        requires abs(a) <= 2 * step_bound(), step_bound() > 0;
}

proof fn lemma_scaled_bound(a: int, b: int, m: int, n: int)
    requires
        abs(a) <= m,
        0 <= b <= n * SCALE,
        0 <= m,
    ensures
        abs(div_trunc(a * b, SCALE as int)) <= m * n,
        abs(a * b) <= m * n * SCALE,
{
    assert(abs(a * b) <= m * n * SCALE) by (nonlinear_arith)
        requires abs(a) <= m, 0 <= b <= n * SCALE, 0 <= m;
    let p = a * b;
    if p >= 0 {
        assert(p / (SCALE as int) <= m * n) by (nonlinear_arith)
            requires 0 <= p <= m * n * SCALE;
        assert(p / (SCALE as int) >= 0) by (nonlinear_arith)
            requires 0 <= p;
    } else {
        assert((-p) / (SCALE as int) <= m * n) by (nonlinear_arith)
            requires 0 <= -p <= m * n * SCALE;
        assert((-p) / (SCALE as int) >= 0) by (nonlinear_arith)
            requires 0 <= -p;
    }
}

fn in_limits(v: &Vec3) -> (r: bool)
    ensures
        r == vec_in_limits(*v),
{
    -SPRING_LIMIT <= v.x && v.x <= SPRING_LIMIT && -SPRING_LIMIT <= v.y && v.y <= SPRING_LIMIT
        && -SPRING_LIMIT <= v.z && v.z <= SPRING_LIMIT
}

fn step_axis(target: i64, value: i64, velocity: i64, stiffness: i64, damping: i64, time_factor: i64) -> (r: (i64, i64))
    requires
        -SPRING_LIMIT <= target <= SPRING_LIMIT,
        -SPRING_LIMIT <= value <= SPRING_LIMIT,
        -SPRING_LIMIT <= velocity <= SPRING_LIMIT,
        0 <= stiffness <= MAX_COEFFICIENT,
        0 <= damping <= MAX_COEFFICIENT,
        0 <= time_factor <= MAX_TIME_FACTOR,
    ensures
        (r.0 as int, r.1 as int) == axis_step(target as int, value as int, velocity as int, stiffness as int, damping as int, time_factor as int),
        abs(r.0 as int) <= step_bound(),
        abs(r.1 as int) <= step_bound(),
{
    let ghost l = SPRING_LIMIT as int;
    let d = (target as i128) - (value as i128);
    proof { lemma_scaled_bound(d as int, stiffness as int, 2 * l, 4); }
    let force = div_trunc_i128(d * (stiffness as i128), SCALE as i128);
    proof { lemma_scaled_bound(velocity as int, damping as int, l, 4); }
    let damping_term = div_trunc_i128((velocity as i128) * (damping as i128), SCALE as i128);
    let acceleration = force - damping_term;
    proof { lemma_scaled_bound(acceleration as int, time_factor as int, 12 * l, 60); }
    let v = (velocity as i128) + div_trunc_i128(acceleration * (time_factor as i128), SCALE as i128);
    proof { lemma_scaled_bound(v as int, time_factor as int, 721 * l, 60); }
    let x = (value as i128) + div_trunc_i128(v * (time_factor as i128), SCALE as i128);
    (x as i64, v as i64)
}

} // verus!
