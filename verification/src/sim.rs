//! The simulation step driver and its owned configuration: one `tick`
//! sequences force accumulation and integration, samples trajectories on
//! a countdown, and the mutators adjust speed, pause state, trajectory
//! recording, display scale and camera pan.

use vstd::prelude::*;
use crate::vec2::Vec2;
use crate::body::{Body, SimError, in_i128, scaled_coord, AU, DEFAULT_SCALE_UNITS};
use crate::math::div_trunc;
use crate::forces::bodies_safe;
use crate::integrator::{steps_fit, step_all_spec, move_all_bodies};

verus! {

/// Default number of ticks between two trajectory samples.
pub const DEFAULT_SAMPLE_INTERVAL: u32 = 10;

/// `b` with its display position recomputed under the scale factor
/// `num / den` and everything else unchanged.
pub open spec fn rescale_body(b: Body, num: int, den: int) -> Body {
    Body {
        scale_pos: Vec2 {
            x: scaled_coord(b.pos.x as int, num, den) as i128,
            y: scaled_coord(b.pos.y as int, num, den) as i128,
        },
        ..b
    }
}

/// Every body with its display position recomputed under `num / den`.
pub open spec fn rescale_all(bodies: Seq<Body>, num: int, den: int) -> Seq<Body> {
    Seq::new(bodies.len(), |i: int| rescale_body(bodies[i], num, den))
}

/// The whole simulation state: the ordered bodies, the time step, the
/// gravitational constant, the display scale factor, the camera pan, and
/// the per-body trajectory histories with their sampling countdown.
pub struct Simulation {
    pub bodies: Vec<Body>,
    /// Time step per tick, in simulation time units.
    pub dt: i128,
    /// Gravitational constant in simulation units.
    pub g: i128,
    /// Display scale factor numerator (display units).
    pub scale_num: i128,
    /// Display scale factor denominator (length units).
    pub scale_den: i128,
    /// One append-only history of display-space points per body.
    pub trajectories: Vec<Vec<Vec2>>,
    /// Ticks left until the next trajectory sample, in `1..=sample_interval`.
    pub time_to_save: u32,
    /// Number of ticks between two trajectory samples.
    pub sample_interval: u32,
    /// Whether the rendering collaborator should draw trajectories.
    pub draw_trajectory: bool,
    /// Whether the external scheduler should keep ticking.
    pub is_running: bool,
    /// Camera pan offset, in display units; affects rendering only.
    pub camera: Vec2,
}

impl Simulation {
    /// Well-formedness: positive step, scale and countdown, one
    /// trajectory history per body.
    pub open spec fn wf(self) -> bool {
        &&& self.dt >= 1
        &&& self.g >= 0
        &&& self.scale_num >= 1
        &&& self.scale_den >= 1
        &&& self.sample_interval >= 1
        &&& 1 <= self.time_to_save <= self.sample_interval
        &&& self.trajectories@.len() == self.bodies@.len()
    }

    /// Creates a running simulation around the given bodies with the
    /// default display scale and sampling interval: running, trajectories
    /// empty, first sample taken on the first tick.
    pub fn new(bodies: Vec<Body>, dt: i128, g: i128, draw_trajectory: bool) -> (s: Simulation)
        requires
            dt >= 1,
            g >= 0,
        ensures
            s.wf(),
            s.bodies@ == bodies@,
            s.dt == dt,
            s.g == g,
            s.scale_num == DEFAULT_SCALE_UNITS,
            s.scale_den == AU,
            s.time_to_save == 1,
            s.sample_interval == DEFAULT_SAMPLE_INTERVAL,
            s.draw_trajectory == draw_trajectory,
            s.is_running,
            s.camera == (Vec2 { x: 0, y: 0 }),
            s.trajectories@.len() == bodies@.len(),
            forall|i: int| 0 <= i < bodies@.len() ==> (#[trigger] s.trajectories@[i])@.len() == 0,
    {
        let n = bodies.len();
        let mut trajectories: Vec<Vec<Vec2>> = Vec::new();
        while trajectories.len() < n
            invariant
                trajectories@.len() <= n,
                forall|i: int|
                    0 <= i < trajectories@.len() ==> (#[trigger] trajectories@[i])@.len() == 0,
            decreases n - trajectories@.len(),
        {
            trajectories.push(Vec::new());
        }
        Simulation {
            bodies,
            dt,
            g,
            scale_num: DEFAULT_SCALE_UNITS,
            scale_den: AU,
            trajectories,
            time_to_save: 1,
            sample_interval: DEFAULT_SAMPLE_INTERVAL,
            draw_trajectory,
            is_running: true,
            camera: Vec2 { x: 0, y: 0 },
        }
    }

    /// One simulation tick: advance every non-anchored body by one
    /// leapfrog step, then, when the sampling countdown reaches zero,
    /// append each body's new display position to its trajectory and
    /// restart the countdown; on the other ticks only count down.
    pub fn tick(&mut self)
        requires
            old(self).wf(),
            bodies_safe(old(self).bodies@, old(self).g as int),
            steps_fit(
                old(self).bodies@,
                old(self).g as int,
                old(self).dt as int,
                old(self).scale_num as int,
                old(self).scale_den as int,
            ),
        ensures
            final(self).wf(),
            final(self).bodies@ == step_all_spec(
                old(self).bodies@,
                old(self).g as int,
                old(self).dt as int,
                old(self).scale_num as int,
                old(self).scale_den as int,
            ),
            final(self).dt == old(self).dt,
            final(self).g == old(self).g,
            final(self).scale_num == old(self).scale_num,
            final(self).scale_den == old(self).scale_den,
            final(self).sample_interval == old(self).sample_interval,
            final(self).draw_trajectory == old(self).draw_trajectory,
            final(self).is_running == old(self).is_running,
            final(self).camera == old(self).camera,
            final(self).trajectories@.len() == old(self).trajectories@.len(),
            old(self).time_to_save == 1 ==> final(self).time_to_save == old(self).sample_interval
                && forall|i: int|
                0 <= i < old(self).bodies@.len() ==> (#[trigger] final(self).trajectories@[i])@
                    == old(self).trajectories@[i]@.push(final(self).bodies@[i].scale_pos),
            old(self).time_to_save > 1 ==> final(self).time_to_save == old(self).time_to_save - 1
                && final(self).trajectories@ == old(self).trajectories@,
    {
        move_all_bodies(&mut self.bodies, self.dt, self.g, self.scale_num, self.scale_den);
        self.time_to_save = self.time_to_save - 1;
        if self.time_to_save == 0 {
            let ghost old_traj = self.trajectories@;
            let n = self.bodies.len();
            let mut i: usize = 0;
            while i < n
                invariant
                    i <= n,
                    n == self.bodies@.len(),
                    self.trajectories@.len() == n,
                    old_traj.len() == n,
                    self.bodies@ == step_all_spec(
                        old(self).bodies@,
                        old(self).g as int,
                        old(self).dt as int,
                        old(self).scale_num as int,
                        old(self).scale_den as int,
                    ),
                    self.dt == old(self).dt,
                    self.g == old(self).g,
                    self.scale_num == old(self).scale_num,
                    self.scale_den == old(self).scale_den,
                    self.sample_interval == old(self).sample_interval,
                    self.draw_trajectory == old(self).draw_trajectory,
                    self.is_running == old(self).is_running,
                    self.camera == old(self).camera,
                    old(self).sample_interval >= 1,
                    forall|k: int|
                        0 <= k < i ==> (#[trigger] self.trajectories@[k])@ == old_traj[k]@.push(
                            self.bodies@[k].scale_pos,
                        ),
                    forall|k: int|
                        i <= k < n ==> #[trigger] self.trajectories@[k] == old_traj[k],
                decreases n - i,
            {
                let p = self.bodies[i].scale_pos;
                self.trajectories[i].push(p);
                i += 1;
            }
            self.time_to_save = self.sample_interval;
        }
    }

    /// Sets the simulation speed: the time step applied by each tick.
    pub fn set_dt(&mut self, dt: i128)
        requires
            dt >= 1,
        ensures
            *final(self) == (Simulation { dt, ..*old(self) }),
    {
        self.dt = dt;
    }

    /// Toggles the run/pause flag read by the external scheduler.
    pub fn toggle_running(&mut self)
        ensures
            *final(self) == (Simulation { is_running: !old(self).is_running, ..*old(self) }),
    {
        self.is_running = !self.is_running;
    }

    /// Toggles whether trajectories should be drawn.
    pub fn toggle_trajectory(&mut self)
        ensures
            *final(self) == (Simulation {
                draw_trajectory: !old(self).draw_trajectory,
                ..*old(self)
            }),
    {
        self.draw_trajectory = !self.draw_trajectory;
    }

    /// Moves the camera pan offset; affects only the display transform.
    pub fn pan_camera(&mut self, dx: i128, dy: i128)
        requires
            in_i128(old(self).camera.x + dx),
            in_i128(old(self).camera.y + dy),
        ensures
            final(self).camera.x == old(self).camera.x + dx,
            final(self).camera.y == old(self).camera.y + dy,
            *final(self) == (Simulation { camera: final(self).camera, ..*old(self) }),
    {
        self.camera = Vec2 { x: self.camera.x + dx, y: self.camera.y + dy };
    }

    /// Clears every trajectory history, keeping one per body.
    pub fn reset_trajectories(&mut self)
        ensures
            final(self).trajectories@.len() == final(self).bodies@.len(),
            forall|i: int|
                0 <= i < final(self).trajectories@.len()
                    ==> (#[trigger] final(self).trajectories@[i])@.len() == 0,
            final(self).bodies@ == old(self).bodies@,
            final(self).dt == old(self).dt,
            final(self).g == old(self).g,
            final(self).scale_num == old(self).scale_num,
            final(self).scale_den == old(self).scale_den,
            final(self).time_to_save == old(self).time_to_save,
            final(self).sample_interval == old(self).sample_interval,
            final(self).draw_trajectory == old(self).draw_trajectory,
            final(self).is_running == old(self).is_running,
            final(self).camera == old(self).camera,
    {
        let n = self.bodies.len();
        let mut trajectories: Vec<Vec<Vec2>> = Vec::new();
        while trajectories.len() < n
            invariant
                trajectories@.len() <= n,
                forall|i: int|
                    0 <= i < trajectories@.len() ==> (#[trigger] trajectories@[i])@.len() == 0,
            decreases n - trajectories@.len(),
        {
            trajectories.push(Vec::new());
        }
        self.trajectories = trajectories;
    }

    /// Replaces the display scale factor.  A non-positive numerator or
    /// denominator is rejected and nothing changes.  On success every
    /// body's display position is recomputed under the new factor and the
    /// trajectory histories are cleared, since points sampled under the
    /// old factor are not spatially comparable to new ones.
    pub fn set_scale(&mut self, num: i128, den: i128) -> (r: Result<(), SimError>)
        requires
            num >= 1 && den >= 1 ==> forall|i: int|
                0 <= i < old(self).bodies@.len() ==> in_i128(
                    (#[trigger] old(self).bodies@[i]).pos.x * num,
                ) && in_i128(old(self).bodies@[i].pos.y * num),
        ensures
            num <= 0 || den <= 0 ==> r == Err::<(), SimError>(SimError::NonPositiveScale)
                && *final(self) == *old(self),
            num >= 1 && den >= 1 ==> r == Ok::<(), SimError>(())
                && final(self).scale_num == num
                && final(self).scale_den == den
                && final(self).bodies@ == rescale_all(old(self).bodies@, num as int, den as int)
                && final(self).trajectories@.len() == old(self).bodies@.len()
                && (forall|i: int|
                    0 <= i < final(self).trajectories@.len()
                        ==> (#[trigger] final(self).trajectories@[i])@.len() == 0)
                && final(self).dt == old(self).dt
                && final(self).g == old(self).g
                && final(self).time_to_save == old(self).time_to_save
                && final(self).sample_interval == old(self).sample_interval
                && final(self).draw_trajectory == old(self).draw_trajectory
                && final(self).is_running == old(self).is_running
                && final(self).camera == old(self).camera,
    {
        if num <= 0 || den <= 0 {
            return Err(SimError::NonPositiveScale);
        }
        let ghost orig = self.bodies@;
        let n = self.bodies.len();
        let mut i: usize = 0;
        while i < n
            invariant
                i <= n,
                n == self.bodies@.len(),
                orig.len() == n,
                num >= 1,
                den >= 1,
                orig == old(self).bodies@,
                self.dt == old(self).dt,
                self.g == old(self).g,
                self.scale_num == old(self).scale_num,
                self.scale_den == old(self).scale_den,
                self.trajectories@ == old(self).trajectories@,
                self.time_to_save == old(self).time_to_save,
                self.sample_interval == old(self).sample_interval,
                self.draw_trajectory == old(self).draw_trajectory,
                self.is_running == old(self).is_running,
                self.camera == old(self).camera,
                forall|k: int|
                    0 <= k < n ==> in_i128((#[trigger] orig[k]).pos.x * num) && in_i128(
                        orig[k].pos.y * num,
                    ),
                forall|k: int|
                    0 <= k < i ==> #[trigger] self.bodies@[k] == rescale_body(
                        orig[k],
                        num as int,
                        den as int,
                    ),
                forall|k: int| i <= k < n ==> #[trigger] self.bodies@[k] == orig[k],
            decreases n - i,
        {
            let sx = div_trunc(self.bodies[i].pos.x * num, den);
            let sy = div_trunc(self.bodies[i].pos.y * num, den);
            self.bodies[i].scale_pos = Vec2 { x: sx, y: sy };
            i += 1;
        }
        self.scale_num = num;
        self.scale_den = den;
        self.reset_trajectories();
        proof {
            assert(self.bodies@ =~= rescale_all(orig, num as int, den as int));
        }
        Ok(())
    }
}

/// Edge detection for one key between two polls: the first component is
/// true exactly on a release-to-press transition, the second exactly on a
/// press-to-release transition.
pub fn key_transition(was_pressed: bool, is_pressed: bool) -> (r: (bool, bool))
    ensures
        r.0 == (is_pressed && !was_pressed),
        r.1 == (!is_pressed && was_pressed),
{
    (is_pressed && !was_pressed, !is_pressed && was_pressed)
}

} // verus!
