//! The force accumulator: net gravitational force on every body from all
//! pairwise interactions, applied with Newton's third law, together with
//! the laws the pairwise force obeys.

use vstd::prelude::*;
use vstd::pervasive::VecAdditionalExecFns;
use crate::vec2::Vec2;
use crate::body::{Body, force_on, POS_LIMIT};
use crate::math::{abs_i, div_t, sqrt_i, lemma_sqrt_exists, lemma_div_t_neg,
    lemma_div_t_quotient_bound};

verus! {

/// The sum of `force_on(bodies[k], bodies[m], g)` over `m < t`, `m != k`:
/// the net force on body `k` from the first `t` bodies.
pub open spec fn net_upto(bodies: Seq<Body>, g: int, k: int, t: int) -> (int, int)
    decreases t,
{
    if t <= 0 {
        (0, 0)
    } else {
        let prev = net_upto(bodies, g, k, t - 1);
        if t - 1 == k {
            prev
        } else {
            let f = force_on(bodies[k], bodies[t - 1], g);
            (prev.0 + f.0, prev.1 + f.1)
        }
    }
}

/// The net gravitational force on body `k` from every other body.
pub open spec fn net_force(bodies: Seq<Body>, g: int, k: int) -> (int, int) {
    net_upto(bodies, g, k, bodies.len() as int)
}

/// The sum of `g * bodies[k].mass * bodies[m].mass` over `m < t`, `m != k`:
/// an upper bound on the magnitude of each component of `net_upto`.
pub open spec fn net_bound(bodies: Seq<Body>, g: int, k: int, t: int) -> int
    decreases t,
{
    if t <= 0 {
        0
    } else if t - 1 == k {
        net_bound(bodies, g, k, t - 1)
    } else {
        net_bound(bodies, g, k, t - 1) + g * bodies[k].mass * bodies[t - 1].mass
    }
}

/// The inputs on which the force accumulation is defined and free of
/// overflow: a nonnegative gravitational constant, positive masses,
/// positions within `POS_LIMIT`, and mass products small enough that every
/// pairwise force component and every partial sum fits in an `i128`.
pub open spec fn bodies_safe(bodies: Seq<Body>, g: int) -> bool {
    &&& g >= 0
    &&& forall|i: int| 0 <= i < bodies.len() ==> (#[trigger] bodies[i]).mass > 0
    &&& forall|i: int|
        0 <= i < bodies.len() ==> abs_i((#[trigger] bodies[i]).pos.x as int) <= POS_LIMIT
            && abs_i(bodies[i].pos.y as int) <= POS_LIMIT
    &&& forall|i: int, j: int|
        0 <= i < bodies.len() && 0 <= j < bodies.len() && i != j ==> g
            * (#[trigger] bodies[i]).mass * (#[trigger] bodies[j]).mass * (2 * POS_LIMIT + 1)
            <= i128::MAX
    &&& forall|k: int|
        0 <= k < bodies.len() ==> #[trigger] net_bound(bodies, g, k, bodies.len() as int)
            <= i128::MAX
}

/// Newton's third law: the force on `a` from `b` is the exact negation of
/// the force on `b` from `a`.
pub proof fn lemma_force_antisymmetric(a: Body, b: Body, g: int)
    ensures
        force_on(a, b, g).0 == -force_on(b, a, g).0,
        force_on(a, b, g).1 == -force_on(b, a, g).1,
{
    let dx = b.pos.x - a.pos.x;
    let dy = b.pos.y - a.pos.y;
    let d2 = dx * dx + dy * dy;
    assert((-dx) * (-dx) == dx * dx && (-dy) * (-dy) == dy * dy && dx * dx >= 0 && dy * dy >= 0
        && g * a.mass * b.mass == g * b.mass * a.mass) by (nonlinear_arith);
    if d2 != 0 {
        lemma_sqrt_exists(d2);
        let r = sqrt_i(d2);
        let num = g * a.mass * b.mass;
        assert(r * r * r >= 1 && num * (-dx) == -(num * dx) && num * (-dy) == -(num * dy))
            by (nonlinear_arith)
            requires
                r >= 0,
                r * r <= d2,
                d2 < (r + 1) * (r + 1),
                d2 >= 1,
        ;
        lemma_div_t_neg(num * dx, r * r * r);
        lemma_div_t_neg(num * dy, r * r * r);
    }
}

/// Coincident bodies exert no force on each other.
pub proof fn lemma_coincident_zero_force(a: Body, b: Body, g: int)
    requires
        a.pos == b.pos,
    ensures
        force_on(a, b, g) == (0int, 0int),
{
}

/// Each component of a pairwise force is bounded in magnitude by
/// `g * a.mass * b.mass`.
pub proof fn lemma_force_bound(a: Body, b: Body, g: int)
    requires
        g >= 0,
        a.mass > 0,
        b.mass > 0,
    ensures
        abs_i(force_on(a, b, g).0) <= g * a.mass * b.mass,
        abs_i(force_on(a, b, g).1) <= g * a.mass * b.mass,
{
    let dx = b.pos.x - a.pos.x;
    let dy = b.pos.y - a.pos.y;
    let d2 = dx * dx + dy * dy;
    let num = g * a.mass * b.mass;
    assert(num >= 0 && dx * dx >= 0 && dy * dy >= 0) by (nonlinear_arith)
        requires
            g >= 0,
            a.mass >= 1,
            b.mass >= 1,
            num == g * a.mass * b.mass,
    ;
    if d2 == 0 {
    } else {
        lemma_sqrt_exists(d2);
        let r = sqrt_i(d2);
        let r3 = r * r * r;
        assert(r3 >= 1 && -(num * r3) <= num * dx <= num * r3 && -(num * r3) <= num * dy <= num
            * r3) by (nonlinear_arith)
            requires
                num >= 0,
                r >= 0,
                r * r <= d2,
                d2 < (r + 1) * (r + 1),
                d2 >= 1,
                dx * dx <= d2,
                dy * dy <= d2,
                r3 == r * r * r,
        ;
        lemma_div_t_quotient_bound(num * dx, r3, num);
        lemma_div_t_quotient_bound(num * dy, r3, num);
    }
}

/// `net_bound` grows monotonically with its cutoff.
pub proof fn lemma_net_bound_mono(bodies: Seq<Body>, g: int, k: int, t1: int, t2: int)
    requires
        g >= 0,
        forall|i: int| 0 <= i < bodies.len() ==> (#[trigger] bodies[i]).mass > 0,
        0 <= k < bodies.len(),
        0 <= t1 <= t2 <= bodies.len(),
    ensures
        net_bound(bodies, g, k, t1) <= net_bound(bodies, g, k, t2),
    decreases t2,
{
    if t1 < t2 {
        lemma_net_bound_mono(bodies, g, k, t1, t2 - 1);
        if t2 - 1 != k {
            assert(g * bodies[k].mass * bodies[t2 - 1].mass >= 0) by (nonlinear_arith)
                requires
                    g >= 0,
                    bodies[k].mass >= 1,
                    bodies[t2 - 1].mass >= 1,
            ;
        }
    }
}

/// Each component of a partial net force is bounded in magnitude by the
/// matching partial mass-product sum.
pub proof fn lemma_net_upto_bound(bodies: Seq<Body>, g: int, k: int, t: int)
    requires
        g >= 0,
        forall|i: int| 0 <= i < bodies.len() ==> (#[trigger] bodies[i]).mass > 0,
        0 <= k < bodies.len(),
        0 <= t <= bodies.len(),
    ensures
        abs_i(net_upto(bodies, g, k, t).0) <= net_bound(bodies, g, k, t),
        abs_i(net_upto(bodies, g, k, t).1) <= net_bound(bodies, g, k, t),
    decreases t,
{
    if t > 0 {
        lemma_net_upto_bound(bodies, g, k, t - 1);
        if t - 1 != k {
            lemma_force_bound(bodies[k], bodies[t - 1], g);
        }
    }
}

/// The sum over `k < c` of the net force on body `k` from the first `t`
/// bodies.
pub open spec fn sum_net_upto(bodies: Seq<Body>, g: int, t: int, c: int) -> (int, int)
    decreases c,
{
    if c <= 0 {
        (0, 0)
    } else {
        let s = sum_net_upto(bodies, g, t, c - 1);
        let f = net_upto(bodies, g, c - 1, t);
        (s.0 + f.0, s.1 + f.1)
    }
}

/// The sum over `k < c` of the force on body `k` from body `t`.
pub open spec fn col_sum(bodies: Seq<Body>, g: int, t: int, c: int) -> (int, int)
    decreases c,
{
    if c <= 0 {
        (0, 0)
    } else {
        let s = col_sum(bodies, g, t, c - 1);
        let f = force_on(bodies[c - 1], bodies[t], g);
        (s.0 + f.0, s.1 + f.1)
    }
}

/// Raising the cutoff of every `net_upto` from `t` to `t + 1` adds the
/// forces exerted by body `t`, summed in `col_sum`.
proof fn lemma_sum_net_upto_extend(bodies: Seq<Body>, g: int, t: int, c: int)
    requires
        0 <= c <= t,
    ensures
        sum_net_upto(bodies, g, t + 1, c).0 == sum_net_upto(bodies, g, t, c).0 + col_sum(
            bodies,
            g,
            t,
            c,
        ).0,
        sum_net_upto(bodies, g, t + 1, c).1 == sum_net_upto(bodies, g, t, c).1 + col_sum(
            bodies,
            g,
            t,
            c,
        ).1,
    decreases c,
{
    if c > 0 {
        lemma_sum_net_upto_extend(bodies, g, t, c - 1);
        assert(net_upto(bodies, g, c - 1, t + 1).0 == net_upto(bodies, g, c - 1, t).0 + force_on(
            bodies[c - 1],
            bodies[t],
            g,
        ).0);
    }
}

/// The net force on body `t` from the bodies before it is the negated
/// column sum of the forces they receive from `t`.
proof fn lemma_net_upto_neg_col(bodies: Seq<Body>, g: int, t: int, c: int)
    requires
        0 <= c <= t,
    ensures
        net_upto(bodies, g, t, c).0 == -col_sum(bodies, g, t, c).0,
        net_upto(bodies, g, t, c).1 == -col_sum(bodies, g, t, c).1,
    decreases c,
{
    if c > 0 {
        lemma_net_upto_neg_col(bodies, g, t, c - 1);
        lemma_force_antisymmetric(bodies[t], bodies[c - 1], g);
    }
}

proof fn lemma_sum_net_upto_zero(bodies: Seq<Body>, g: int, t: int)
    requires
        0 <= t,
    ensures
        sum_net_upto(bodies, g, t, t) == (0int, 0int),
    decreases t,
{
    if t > 0 {
        lemma_sum_net_upto_zero(bodies, g, t - 1);
        lemma_sum_net_upto_extend(bodies, g, t - 1, t - 1);
        lemma_net_upto_neg_col(bodies, g, t - 1, t - 1);
        assert(net_upto(bodies, g, t - 1, t) == net_upto(bodies, g, t - 1, t - 1));
    }
}

/// Newton's third law in the large: the net forces of the whole system
/// sum to the zero vector.
pub proof fn lemma_net_forces_sum_zero(bodies: Seq<Body>, g: int)
    ensures
        sum_net_upto(bodies, g, bodies.len() as int, bodies.len() as int) == (0int, 0int),
{
    lemma_sum_net_upto_zero(bodies, g, bodies.len() as int);
}

/// Computes the net gravitational force on every body, visiting each
/// unordered pair once and applying the pair's force to one body and its
/// negation to the other.
pub fn calculate_forces(bodies: &Vec<Body>, g: i128) -> (forces: Vec<Vec2>)
    requires
        bodies_safe(bodies@, g as int),
    ensures
        forces@.len() == bodies@.len(),
        forall|k: int|
            0 <= k < bodies@.len() ==> ((#[trigger] forces@[k]).x as int, forces@[k].y as int)
                == net_force(bodies@, g as int, k),
{
    let n = bodies.len();
    let mut forces: Vec<Vec2> = Vec::new();
    while forces.len() < n
        invariant
            forces@.len() <= n,
            forall|k: int| 0 <= k < forces@.len() ==> (#[trigger] forces@[k]).x == 0
                && forces@[k].y == 0,
        decreases n - forces@.len(),
    {
        forces.push(Vec2 { x: 0, y: 0 });
    }
    let ghost gi = g as int;
    let mut i: usize = 0;
    while i < n
        invariant
            bodies_safe(bodies@, gi),
            gi == g as int,
            n == bodies@.len(),
            forces@.len() == n,
            i <= n,
            forall|k: int|
                0 <= k < i ==> ((#[trigger] forces@[k]).x as int, forces@[k].y as int)
                    == net_upto(bodies@, gi, k, n as int),
            forall|k: int|
                i <= k < n ==> ((#[trigger] forces@[k]).x as int, forces@[k].y as int)
                    == net_upto(bodies@, gi, k, i as int),
        decreases n - i,
    {
        let mut j: usize = i + 1;
        while j < n
            invariant
                bodies_safe(bodies@, gi),
                gi == g as int,
                n == bodies@.len(),
                forces@.len() == n,
                i < n,
                i + 1 <= j <= n,
                forall|k: int|
                    0 <= k < i ==> ((#[trigger] forces@[k]).x as int, forces@[k].y as int)
                        == net_upto(bodies@, gi, k, n as int),
                ((forces@[i as int].x as int, forces@[i as int].y as int)
                    == net_upto(bodies@, gi, i as int, j as int)),
                forall|k: int|
                    i < k < j ==> ((#[trigger] forces@[k]).x as int, forces@[k].y as int)
                        == net_upto(bodies@, gi, k, i + 1),
                forall|k: int|
                    j <= k < n ==> ((#[trigger] forces@[k]).x as int, forces@[k].y as int)
                        == net_upto(bodies@, gi, k, i as int),
            decreases n - j,
        {
            let f = bodies[i].get_force(&bodies[j], g);
            proof {
                lemma_net_upto_bound(bodies@, gi, i as int, j as int);
                lemma_net_bound_mono(bodies@, gi, i as int, j + 1, n as int);
                lemma_net_upto_bound(bodies@, gi, j as int, i as int);
                lemma_net_bound_mono(bodies@, gi, j as int, i + 1, n as int);
                lemma_force_antisymmetric(bodies@[i as int], bodies@[j as int], gi);
                assert(gi * bodies@[i as int].mass * bodies@[j as int].mass == gi * bodies@[j
                    as int].mass * bodies@[i as int].mass) by (nonlinear_arith);
            }
            let fi = forces[i].add(&f);
            forces.set(i, fi);
            let fj = forces[j].add(&f.neg());
            forces.set(j, fj);
            j += 1;
        }
        i += 1;
    }
    forces
}

} // verus!
