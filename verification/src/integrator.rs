//! The integrator: net force to acceleration (F = m a), then a
//! semi-implicit (leapfrog-style) Euler update of velocity before
//! position for every body that is not anchored, and the momentum
//! conservation law of the combined step.

use vstd::prelude::*;
use crate::vec2::Vec2;
use crate::body::{Body, in_i128, scaled_coord};
use crate::math::{div_t, div_trunc, lemma_div_t_exact};
use crate::forces::{bodies_safe, net_force, sum_net_upto, calculate_forces,
    lemma_net_forces_sum_zero};

verus! {

/// The acceleration of body `k`: the net force on it divided by its mass,
/// component-wise, truncated toward zero.
pub open spec fn accel_of(bodies: Seq<Body>, g: int, k: int) -> (int, int) {
    let f = net_force(bodies, g, k);
    (div_t(f.0, bodies[k].mass as int), div_t(f.1, bodies[k].mass as int))
}

/// One leapfrog step of a single body under acceleration `(ax, ay)`:
/// velocity first, then position using the new velocity, then the display
/// position from the new physical position.  An anchored body is left
/// unchanged.
pub open spec fn step_body_spec(b: Body, ax: int, ay: int, dt: int, num: int, den: int) -> Body {
    if b.anchored {
        b
    } else {
        let vx = b.vel.x + dt * ax;
        let vy = b.vel.y + dt * ay;
        let px = b.pos.x + dt * vx;
        let py = b.pos.y + dt * vy;
        Body {
            pos: Vec2 { x: px as i128, y: py as i128 },
            vel: Vec2 { x: vx as i128, y: vy as i128 },
            scale_pos: Vec2 {
                x: scaled_coord(px, num, den) as i128,
                y: scaled_coord(py, num, den) as i128,
            },
            ..b
        }
    }
}

/// The intermediate values of one leapfrog step of `b` all fit in 128-bit
/// integers (trivially so for an anchored body, which is not updated).
pub open spec fn step_fits(b: Body, ax: int, ay: int, dt: int, num: int, den: int) -> bool {
    b.anchored || {
        let vx = b.vel.x + dt * ax;
        let vy = b.vel.y + dt * ay;
        let px = b.pos.x + dt * vx;
        let py = b.pos.y + dt * vy;
        &&& in_i128(dt * ax)
        &&& in_i128(dt * ay)
        &&& in_i128(vx)
        &&& in_i128(vy)
        &&& in_i128(dt * vx)
        &&& in_i128(dt * vy)
        &&& in_i128(px)
        &&& in_i128(py)
        &&& in_i128(px * num)
        &&& in_i128(py * num)
    }
}

/// Every body of the sequence satisfies `step_fits` under its own
/// acceleration.
pub open spec fn steps_fit(bodies: Seq<Body>, g: int, dt: int, num: int, den: int) -> bool {
    forall|k: int|
        0 <= k < bodies.len() ==> step_fits(
            #[trigger] bodies[k],
            accel_of(bodies, g, k).0,
            accel_of(bodies, g, k).1,
            dt,
            num,
            den,
        )
}

/// One leapfrog step of the whole system: every body advanced under its
/// own acceleration, anchored bodies unchanged.
pub open spec fn step_all_spec(bodies: Seq<Body>, g: int, dt: int, num: int, den: int) -> Seq<
    Body,
> {
    Seq::new(
        bodies.len(),
        |k: int|
            step_body_spec(
                bodies[k],
                accel_of(bodies, g, k).0,
                accel_of(bodies, g, k).1,
                dt,
                num,
                den,
            ),
    )
}

impl Body {
    /// Advances this body by one leapfrog step under acceleration `a`,
    /// recomputing the display position with the scale factor
    /// `scale_num / scale_den`; does nothing if the body is anchored.
    pub fn move_body(&mut self, a: Vec2, dt: i128, scale_num: i128, scale_den: i128)
        requires
            scale_den >= 1,
            step_fits(
                *old(self),
                a.x as int,
                a.y as int,
                dt as int,
                scale_num as int,
                scale_den as int,
            ),
        ensures
            *final(self) == step_body_spec(
                *old(self),
                a.x as int,
                a.y as int,
                dt as int,
                scale_num as int,
                scale_den as int,
            ),
    {
        if self.anchored {
            return ;
        }
        self.vel = Vec2 { x: self.vel.x + dt * a.x, y: self.vel.y + dt * a.y };
        self.pos = Vec2 { x: self.pos.x + dt * self.vel.x, y: self.pos.y + dt * self.vel.y };
        let sx = div_trunc(self.pos.x * scale_num, scale_den);
        let sy = div_trunc(self.pos.y * scale_num, scale_den);
        self.scale_pos = Vec2 { x: sx, y: sy };
    }
}

/// Derives per-body accelerations from per-body net forces by F = m a.
pub fn calculate_accels(bodies: &Vec<Body>, forces: &Vec<Vec2>) -> (accels: Vec<Vec2>)
    requires
        forces@.len() == bodies@.len(),
        forall|i: int| 0 <= i < bodies@.len() ==> (#[trigger] bodies@[i]).mass > 0,
        forall|i: int|
            0 <= i < forces@.len() ==> (#[trigger] forces@[i]).x > i128::MIN && forces@[i].y
                > i128::MIN,
    ensures
        accels@.len() == bodies@.len(),
        forall|i: int|
            0 <= i < bodies@.len() ==> (#[trigger] accels@[i]).x == div_t(
                forces@[i].x as int,
                bodies@[i].mass as int,
            ) && accels@[i].y == div_t(forces@[i].y as int, bodies@[i].mass as int),
{
    let n = bodies.len();
    let mut accels: Vec<Vec2> = Vec::new();
    let mut i: usize = 0;
    while i < n
        invariant
            n == bodies@.len(),
            forces@.len() == n,
            accels@.len() == i,
            i <= n,
            forall|k: int| 0 <= k < n ==> (#[trigger] bodies@[k]).mass > 0,
            forall|k: int|
                0 <= k < n ==> (#[trigger] forces@[k]).x > i128::MIN && forces@[k].y > i128::MIN,
            forall|k: int|
                0 <= k < i ==> (#[trigger] accels@[k]).x == div_t(
                    forces@[k].x as int,
                    bodies@[k].mass as int,
                ) && accels@[k].y == div_t(forces@[k].y as int, bodies@[k].mass as int),
        decreases n - i,
    {
        let ax = div_trunc(forces[i].x, bodies[i].mass);
        let ay = div_trunc(forces[i].y, bodies[i].mass);
        accels.push(Vec2 { x: ax, y: ay });
        i += 1;
    }
    accels
}

/// Advances every non-anchored body by one leapfrog step: forces, then
/// accelerations, then the velocity-first position update.
pub fn move_all_bodies(
    bodies: &mut Vec<Body>,
    dt: i128,
    g: i128,
    scale_num: i128,
    scale_den: i128,
)
    requires
        scale_den >= 1,
        bodies_safe(old(bodies)@, g as int),
        steps_fit(old(bodies)@, g as int, dt as int, scale_num as int, scale_den as int),
    ensures
        final(bodies)@ == step_all_spec(
            old(bodies)@,
            g as int,
            dt as int,
            scale_num as int,
            scale_den as int,
        ),
{
    let ghost orig = bodies@;
    let ghost gi = g as int;
    let forces = calculate_forces(bodies, g);
    proof {
        assert forall|i: int| 0 <= i < forces@.len() implies (#[trigger] forces@[i]).x > i128::MIN
            && forces@[i].y > i128::MIN by {
            crate::forces::lemma_net_upto_bound(orig, gi, i, orig.len() as int);
        }
    }
    let accels = calculate_accels(bodies, &forces);
    let n = bodies.len();
    let mut i: usize = 0;
    while i < n
        invariant
            n == bodies@.len(),
            orig.len() == n,
            accels@.len() == n,
            scale_den >= 1,
            steps_fit(orig, gi, dt as int, scale_num as int, scale_den as int),
            forall|k: int|
                0 <= k < n ==> (#[trigger] accels@[k]).x as int == accel_of(orig, gi, k).0
                    && accels@[k].y as int == accel_of(orig, gi, k).1,
            forall|k: int| i <= k < n ==> #[trigger] bodies@[k] == orig[k],
            forall|k: int|
                0 <= k < i ==> #[trigger] bodies@[k] == step_body_spec(
                    orig[k],
                    accel_of(orig, gi, k).0,
                    accel_of(orig, gi, k).1,
                    dt as int,
                    scale_num as int,
                    scale_den as int,
                ),
        decreases n - i,
    {
        let a = accels[i];
        bodies[i].move_body(a, dt, scale_num, scale_den);
        i += 1;
    }
    proof {
        assert(bodies@ =~= step_all_spec(
            orig,
            gi,
            dt as int,
            scale_num as int,
            scale_den as int,
        ));
    }
}

/// The total momentum of the first `c` bodies: the sum of `mass * vel`,
/// component-wise.
pub open spec fn momentum_upto(bodies: Seq<Body>, c: int) -> (int, int)
    decreases c,
{
    if c <= 0 {
        (0, 0)
    } else {
        let p = momentum_upto(bodies, c - 1);
        (p.0 + bodies[c - 1].mass * bodies[c - 1].vel.x, p.1 + bodies[c - 1].mass * bodies[c
            - 1].vel.y)
    }
}

/// The total momentum of the whole system.
pub open spec fn momentum(bodies: Seq<Body>) -> (int, int) {
    momentum_upto(bodies, bodies.len() as int)
}

proof fn lemma_momentum_step(bodies: Seq<Body>, g: int, dt: int, num: int, den: int, c: int)
    requires
        forall|i: int| 0 <= i < bodies.len() ==> !(#[trigger] bodies[i]).anchored,
        forall|i: int| 0 <= i < bodies.len() ==> (#[trigger] bodies[i]).mass > 0,
        steps_fit(bodies, g, dt, num, den),
        forall|i: int|
            0 <= i < bodies.len() ==> #[trigger] net_force(bodies, g, i).0 % (bodies[i].mass as int)
                == 0 && net_force(bodies, g, i).1 % (bodies[i].mass as int) == 0,
        0 <= c <= bodies.len(),
    ensures
        momentum_upto(step_all_spec(bodies, g, dt, num, den), c).0 == momentum_upto(bodies, c).0
            + dt * sum_net_upto(bodies, g, bodies.len() as int, c).0,
        momentum_upto(step_all_spec(bodies, g, dt, num, den), c).1 == momentum_upto(bodies, c).1
            + dt * sum_net_upto(bodies, g, bodies.len() as int, c).1,
    decreases c,
{
    let stepped = step_all_spec(bodies, g, dt, num, den);
    if c > 0 {
        lemma_momentum_step(bodies, g, dt, num, den, c - 1);
        let k = c - 1;
        let b = bodies[k];
        let m = b.mass as int;
        let f = net_force(bodies, g, k);
        let ax = accel_of(bodies, g, k).0;
        let ay = accel_of(bodies, g, k).1;
        lemma_div_t_exact(f.0, m);
        lemma_div_t_exact(f.1, m);
        assert(m * (b.vel.x + dt * ax) == m * b.vel.x + dt * f.0) by (nonlinear_arith)
            requires
                m * ax == f.0,
        ;
        assert(m * (b.vel.y + dt * ay) == m * b.vel.y + dt * f.1) by (nonlinear_arith)
            requires
                m * ay == f.1,
        ;
        assert(stepped[k].vel.x == b.vel.x + dt * ax && stepped[k].vel.y == b.vel.y + dt * ay
            && stepped[k].mass == b.mass);
        let s0 = sum_net_upto(bodies, g, bodies.len() as int, c - 1).0;
        let s1 = sum_net_upto(bodies, g, bodies.len() as int, c - 1).1;
        assert(sum_net_upto(bodies, g, bodies.len() as int, c).0 == s0 + f.0 && sum_net_upto(
            bodies,
            g,
            bodies.len() as int,
            c,
        ).1 == s1 + f.1);
        assert(dt * (s0 + f.0) == dt * s0 + dt * f.0 && dt * (s1 + f.1) == dt * s1 + dt * f.1)
            by (nonlinear_arith);
        assert(momentum_upto(stepped, c).0 == momentum_upto(stepped, c - 1).0 + stepped[k].mass
            * stepped[k].vel.x);
        assert(momentum_upto(stepped, c).1 == momentum_upto(stepped, c - 1).1 + stepped[k].mass
            * stepped[k].vel.y);
        assert(stepped[k].mass * stepped[k].vel.x == b.mass * b.vel.x + dt * f.0);
        assert(stepped[k].mass * stepped[k].vel.y == b.mass * b.vel.y + dt * f.1);
        assert(momentum_upto(bodies, c).0 == momentum_upto(bodies, c - 1).0 + b.mass * b.vel.x);
        assert(momentum_upto(bodies, c).1 == momentum_upto(bodies, c - 1).1 + b.mass * b.vel.y);
        assert(momentum_upto(stepped, c).0 == momentum_upto(bodies, c).0 + dt * sum_net_upto(
            bodies,
            g,
            bodies.len() as int,
            c,
        ).0);
        assert(momentum_upto(stepped, c).1 == momentum_upto(bodies, c).1 + dt * sum_net_upto(
            bodies,
            g,
            bodies.len() as int,
            c,
        ).1);
    } else {
        assert(momentum_upto(stepped, c).0 == 0 && momentum_upto(bodies, c).0 == 0);
        assert(momentum_upto(stepped, c).1 == 0 && momentum_upto(bodies, c).1 == 0);
        assert(sum_net_upto(bodies, g, bodies.len() as int, c).0 == 0);
        assert(sum_net_upto(bodies, g, bodies.len() as int, c).1 == 0);
    }
}

/// Conservation of momentum: when no body is anchored and every net force
/// component is an exact multiple of its body's mass (so that the
/// force-to-acceleration division loses nothing), one leapfrog step of
/// the whole system leaves the total momentum unchanged.
pub proof fn lemma_momentum_conserved(bodies: Seq<Body>, g: int, dt: int, num: int, den: int)
    requires
        forall|i: int| 0 <= i < bodies.len() ==> !(#[trigger] bodies[i]).anchored,
        forall|i: int| 0 <= i < bodies.len() ==> (#[trigger] bodies[i]).mass > 0,
        steps_fit(bodies, g, dt, num, den),
        forall|i: int|
            0 <= i < bodies.len() ==> #[trigger] net_force(bodies, g, i).0 % (bodies[i].mass as int)
                == 0 && net_force(bodies, g, i).1 % (bodies[i].mass as int) == 0,
    ensures
        momentum(step_all_spec(bodies, g, dt, num, den)) == momentum(bodies),
{
    let n = bodies.len() as int;
    lemma_momentum_step(bodies, g, dt, num, den, n);
    lemma_net_forces_sum_zero(bodies, g);
    assert(step_all_spec(bodies, g, dt, num, den).len() == bodies.len());
}

} // verus!
