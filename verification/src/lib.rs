//! A verified two-dimensional n-body gravity simulator core.
//!
//! All physical quantities are integers in caller-chosen units: positions
//! and velocities are pairs of `i128` components, masses are positive
//! `i128` scalars, and the gravitational constant is a nonnegative `i128`
//! supplied by the caller.  Pairwise inverse-square forces are accumulated
//! with Newton's third law, net force is turned into acceleration, and a
//! semi-implicit (leapfrog-style) Euler step advances velocity before
//! position.  A designated set of anchored bodies is exempt from the
//! update and serves as a fixed reference frame.  Display coordinates are
//! derived from physical positions through a rational scale factor.

pub mod math;
pub mod vec2;
pub mod body;
pub mod forces;
pub mod integrator;
pub mod sim;
