//! The `Body` data entity: mass, position, velocity, a derived
//! display-space position, and presentation attributes that the core
//! passes through unchanged.

use vstd::prelude::*;
use crate::vec2::Vec2;
use crate::math::{abs_i, div_t, sqrt_i, div_trunc, isqrt};
use crate::math::lemma_sqrt_unique;

verus! {

/// Positions are kept within this bound (in simulation length units), so
/// that squared distances and cubed distances fit in 128-bit integers.
pub const POS_LIMIT: i128 = 1_000_000_000_000;

/// Simulation length units per astronomical unit, were a meter the length
/// unit: the default denominator of the display scale factor.
pub const AU: i128 = 149_600_000_000;

/// Display units mapped to one `AU` of position by the default scale.
pub const DEFAULT_SCALE_UNITS: i128 = 20;

/// An RGB color, a presentation attribute passed through unchanged.
#[derive(Clone, Copy, Debug, PartialEq, Eq, Structural)]
pub struct Color {
    pub r: u8,
    pub g: u8,
    pub b: u8,
}

impl Color {
    pub fn new(r: u8, g: u8, b: u8) -> (c: Color)
        ensures
            c.r == r,
            c.g == g,
            c.b == b,
    {
        Color { r, g, b }
    }
}

/// A failed construction or a rejected parameter change.
#[derive(Clone, Copy, Debug, PartialEq, Eq, Structural)]
pub enum SimError {
    /// A body was given a zero or negative mass.
    NonPositiveMass,
    /// A body was given an empty name.
    EmptyName,
    /// A zero or negative display scale factor was requested.
    NonPositiveScale,
}

#[derive(Clone, Debug)]
pub struct Body {
    /// Physical position, in simulation length units.
    pub pos: Vec2,
    /// Velocity, in length units per time unit.
    pub vel: Vec2,
    /// Mass, in simulation mass units; always positive.
    pub mass: i128,
    /// An anchored body is exempt from the integration update and serves
    /// as a fixed reference point.
    pub anchored: bool,
    /// Display-space position: `pos` scaled by the current scale factor.
    pub scale_pos: Vec2,
    /// Presentation attributes, owned by the rendering collaborator.
    pub color: Color,
    pub name: String,
    pub radius: u32,
}

/// `x` fits comfortably in a signed 128-bit integer; the lower bound is
/// `-i128::MAX` so that every such value can also be negated.
pub open spec fn in_i128(x: int) -> bool {
    -i128::MAX <= x <= i128::MAX
}

/// One coordinate mapped to display space by the rational scale factor
/// `num / den`.
pub open spec fn scaled_coord(p: int, num: int, den: int) -> int {
    div_t(p * num, den)
}

/// The gravitational force exerted on `a` by `b`: zero for coincident
/// positions, otherwise of magnitude `g * a.mass * b.mass / r^2` directed
/// along the separation vector, with `r` the integer square root of the
/// squared distance and components truncated toward zero.
pub open spec fn force_on(a: Body, b: Body, g: int) -> (int, int) {
    let dx = b.pos.x - a.pos.x;
    let dy = b.pos.y - a.pos.y;
    let d2 = dx * dx + dy * dy;
    if d2 == 0 {
        (0, 0)
    } else {
        let r = sqrt_i(d2);
        let num = g * a.mass * b.mass;
        (div_t(num * dx, r * r * r), div_t(num * dy, r * r * r))
    }
}

/// Both coordinates of every body's position are within `POS_LIMIT`.
pub open spec fn positions_bounded(a: Body, b: Body) -> bool {
    &&& abs_i(a.pos.x as int) <= POS_LIMIT
    &&& abs_i(a.pos.y as int) <= POS_LIMIT
    &&& abs_i(b.pos.x as int) <= POS_LIMIT
    &&& abs_i(b.pos.y as int) <= POS_LIMIT
}

/// Maps a body's physical position into display space under the scale
/// factor `num / den`.
pub fn scale_pos(b: &Body, num: i128, den: i128) -> (r: Vec2)
    requires
        den >= 1,
        in_i128(b.pos.x * num),
        in_i128(b.pos.y * num),
    ensures
        r.x == scaled_coord(b.pos.x as int, num as int, den as int),
        r.y == scaled_coord(b.pos.y as int, num as int, den as int),
{
    Vec2 { x: div_trunc(b.pos.x * num, den), y: div_trunc(b.pos.y * num, den) }
}

impl Body {
    /// Constructs a body, computing its display position from the scale
    /// factor `scale_num / scale_den`.  Construction fails on a
    /// non-positive mass or an empty name; no partial body is returned.
    pub fn new(
        pos: Vec2,
        vel: Vec2,
        mass: i128,
        color: Color,
        name: String,
        radius: u32,
        anchored: bool,
        scale_num: i128,
        scale_den: i128,
    ) -> (r: Result<Body, SimError>)
        requires
            scale_num >= 1,
            scale_den >= 1,
            in_i128(pos.x * scale_num),
            in_i128(pos.y * scale_num),
        ensures
            mass <= 0 ==> r == Err::<Body, SimError>(SimError::NonPositiveMass),
            mass > 0 && name@.len() == 0 ==> r == Err::<Body, SimError>(SimError::EmptyName),
            mass > 0 && name@.len() > 0 ==> (r matches Ok(b)
                && b.pos == pos
                && b.vel == vel
                && b.mass == mass
                && b.anchored == anchored
                && b.color == color
                && b.name@ == name@
                && b.radius == radius
                && b.scale_pos.x == scaled_coord(pos.x as int, scale_num as int, scale_den as int)
                && b.scale_pos.y == scaled_coord(pos.y as int, scale_num as int, scale_den as int)),
    {
        if mass <= 0 {
            return Err(SimError::NonPositiveMass);
        }
        if name.as_str().unicode_len() == 0 {
            return Err(SimError::EmptyName);
        }
        let sx = div_trunc(pos.x * scale_num, scale_den);
        let sy = div_trunc(pos.y * scale_num, scale_den);
        Ok(Body {
            pos,
            vel,
            mass,
            anchored,
            scale_pos: Vec2 { x: sx, y: sy },
            color,
            name,
            radius,
        })
    }

    /// The separation vector from this body's position to `other`.
    pub fn get_distance(&self, other: &Vec2) -> (r: Vec2)
        requires
            in_i128(other.x - self.pos.x),
            in_i128(other.y - self.pos.y),
        ensures
            r.x == other.x - self.pos.x,
            r.y == other.y - self.pos.y,
    {
        Vec2 { x: other.x - self.pos.x, y: other.y - self.pos.y }
    }

    /// The gravitational force exerted on this body by `other`.
    pub fn get_force(&self, other: &Body, g: i128) -> (r: Vec2)
        requires
            g >= 0,
            self.mass > 0,
            other.mass > 0,
            positions_bounded(*self, *other),
            g * self.mass * other.mass * (2 * POS_LIMIT + 1) <= i128::MAX,
        ensures
            (r.x as int, r.y as int) == force_on(*self, *other, g as int),
            abs_i(r.x as int) <= g * self.mass * other.mass,
            abs_i(r.y as int) <= g * self.mass * other.mass,
    {
        let dx = other.pos.x - self.pos.x;
        let dy = other.pos.y - self.pos.y;
        if dx == 0 && dy == 0 {
            return Vec2::zero();
        }
        assert(0 <= dx * dx <= 4_000_000_000_000_000_000_000_000 && 0 <= dy * dy
            <= 4_000_000_000_000_000_000_000_000 && (dx as int != 0 ==> dx * dx > 0) && (dy as int
            != 0 ==> dy * dy > 0)) by (nonlinear_arith)
            requires
                -2_000_000_000_000 <= dx as int <= 2_000_000_000_000,
                -2_000_000_000_000 <= dy as int <= 2_000_000_000_000,
        ;
        let d2: u128 = (dx * dx + dy * dy) as u128;
        let rt: u128 = isqrt(d2);
        assert(1 <= rt && rt as int * (rt as int) <= 9_000_000_000_000_000_000_000_000 && rt as int
            * (rt as int) * (rt as int) <= 30_000_000_000_000_000_000_000_000_000_000_000_000
            && 1 <= rt as int * (rt as int) * (rt as int)) by (nonlinear_arith)
            requires
                0 < d2 as int <= 8_000_000_000_000_000_000_000_000,
                rt as int * (rt as int) <= d2 as int,
                (d2 as int) < ((rt as int) + 1) * ((rt as int) + 1),
        ;
        let r3: i128 = (rt * rt * rt) as i128;
        assert(0 <= g as int * (self.mass as int) <= i128::MAX as int && 0 <= g as int
            * (self.mass as int) * (other.mass as int) <= i128::MAX as int) by (nonlinear_arith)
            requires
                g as int >= 0,
                self.mass as int >= 1,
                other.mass as int >= 1,
                g as int * (self.mass as int) * (other.mass as int) * 2_000_000_000_001
                    <= i128::MAX as int,
        ;
        let num: i128 = g * self.mass * other.mass;
        assert(-(num as int * (r3 as int)) <= num as int * (dx as int) <= num as int * (r3 as int)
            && -(num as int * (r3 as int)) <= num as int * (dy as int) <= num as int * (r3 as int)
            && -(i128::MAX as int) <= num as int * (dx as int) <= i128::MAX as int
            && -(i128::MAX as int) <= num as int * (dy as int) <= i128::MAX as int)
            by (nonlinear_arith)
            requires
                num as int >= 0,
                num as int * 2_000_000_000_001 <= i128::MAX as int,
                -2_000_000_000_000 <= dx as int <= 2_000_000_000_000,
                -2_000_000_000_000 <= dy as int <= 2_000_000_000_000,
                dx as int * (dx as int) <= d2 as int,
                dy as int * (dy as int) <= d2 as int,
                rt as int * (rt as int) <= d2 as int,
                (d2 as int) < ((rt as int) + 1) * ((rt as int) + 1),
                r3 as int == rt as int * (rt as int) * (rt as int),
                1 <= rt as int,
        ;
        let fx = div_trunc(num * dx, r3);
        let fy = div_trunc(num * dy, r3);
        proof {
            crate::math::lemma_div_t_quotient_bound((num * dx) as int, r3 as int, num as int);
            crate::math::lemma_div_t_quotient_bound((num * dy) as int, r3 as int, num as int);
            lemma_sqrt_unique(d2 as int, rt as int);
        }
        Vec2 { x: fx, y: fy }
    }
}

} // verus!
