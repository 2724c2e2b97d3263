//! One simulation tick, orchestrated.
//!
//! Per frame: the pause key is consumed, then — unless paused — the stepper
//! runs its *apply* tick (reset forces, solve the field, record the forces),
//! then the elapsed time is measured and clamped, the camera consumes the
//! held keys, and the input buffers rotate for the next frame's edge
//! detection. The engine's *integrate* tick happens outside: the caller
//! hands the returned forces to the engine and reports the new body states
//! back through `PhysicsContext::sync_body`.

use vstd::prelude::*;
use crate::clock::{clock_now, millis_since};
use crate::fixed::{SCALE, clamp_spec, clamp_i64, div_fx, fmul, mul_fx, lemma_fmul_bound,
    lemma_tdiv_magnitude, lemma_tdiv_times_divisor};
use crate::input::Key;
use crate::particle::{Force, net_force_x, net_force_y};
use crate::physics::{PhysicsContext, particles_of};
use crate::state::{
    CAM_PAN_SPEED_FX, CAM_ROTATE_SPEED_FX, CAM_ZOOM_SPEED_FX, DAMPENING_FX, DEFAULT_ZOOM_FX,
    DT_MAX_FX, INV_SQRT2_FX, PAN_LIMIT_FX, State, TextureKey, VEL_LIMIT_FX, ZOOM_MAX_FX,
    ZOOM_MIN_FX, camera_effect, camera_ok, lemma_damped_shrinks, norm_comp, pan_dir_x, pan_dir_y,
    rotation_after, zoom_after, velocity_comp_after, pan_comp_after,
};
use crate::trig::{cos_fx, sin_fx, wrap_angle};
use crate::vec2::Vec2;

verus! {

/// Radius of the world disc, micro-units.
pub const WORLD_RADIUS_FX: i64 = 75_000_000;

/// Segments used to tessellate the world boundary circle.
pub const WORLD_EDGE_SEGMENTS: u32 = 500;

/// Bodies a fresh simulation is seeded with.
pub const DEFAULT_NUM_BODIES: usize = 100;

/// Largest body radius, micro-units.
pub const BODY_MAX_RADIUS_FX: i64 = 1_000_000;

/// Largest initial linear speed, micro-units per second.
pub const BODY_MAX_LIN_VEL_FX: i64 = 3_000_000;

/// Largest initial angular speed, micro-radians per second (a fifth of a
/// turn).
pub const BODY_MAX_ANG_VEL_FX: i64 = 1_256_637;

/// Restitution of body collisions, micro-units.
pub const BODY_RESTITUTION_FX: i64 = 600_000;

/// Friction of body collisions, micro-units.
pub const BODY_FRICTION_FX: i64 = 900_000;

/// Elapsed simulation time for a tick at `now_ms`: zero before the first
/// tick or on a clock step backward, otherwise the elapsed milliseconds in
/// micro-seconds, capped at `DT_MAX_FX`.
pub open spec fn dt_spec(last: Option<u64>, now_ms: u64) -> int {
    match last {
        Option::None => 0,
        Option::Some(prev) => clamp_spec((now_ms - prev) * 1000, 0, DT_MAX_FX as int),
    }
}

/// The whole simulation: view state, the engine mirror, and the instant
/// the simulation started (origin of every tick's timestamp).
pub struct Simulation {
    pub state: State,
    pub physics_context: PhysicsContext,
    pub epoch: instant::Instant,
}

/// Everything one `update` tick does, as a relation between the state
/// before, the state after, the tick's timestamp and the returned forces.
pub open spec fn update_effect(
    pre: Simulation,
    post: Simulation,
    now_ms: u64,
    r: Option<Vec<Force>>,
) -> bool {
    let c = pre.state.input_controller;
    let paused2 = if c.pressed_spec(Key::Space) {
        !pre.state.paused
    } else {
        pre.state.paused
    };
    let dt = dt_spec(pre.state.last_frame, now_ms);
    &&& post.state.paused == paused2
    &&& post.state.last_frame == Some(now_ms)
    &&& camera_effect(pre.state, post.state, dt)
    &&& post.state.mouse_pos == pre.state.mouse_pos
    &&& post.state.view_size == pre.state.view_size
    &&& (forall|k: Key| post.state.input_controller.active_now(k) <==> c.active_now(k))
    &&& (forall|k: Key| post.state.input_controller.active_before(k) <==> c.active_now(k))
    &&& post.physics_context.bodies@ == pre.physics_context.bodies@
    &&& (match r {
        Option::Some(fs) => {
            &&& !paused2
            &&& fs@.len() == pre.physics_context.bodies@.len()
            &&& (forall|i: int|
                0 <= i < fs@.len() ==> #[trigger] fs@[i].x == net_force_x(
                    particles_of(pre.physics_context.bodies@),
                    i,
                    pre.physics_context.bodies@.len() as nat,
                ))
            &&& (forall|i: int|
                0 <= i < fs@.len() ==> #[trigger] fs@[i].y == net_force_y(
                    particles_of(pre.physics_context.bodies@),
                    i,
                    pre.physics_context.bodies@.len() as nat,
                ))
            &&& post.physics_context.forces@ == fs@
        },
        Option::None => {
            &&& paused2
            &&& post.physics_context.forces@ == pre.physics_context.forces@
        },
    })
}

/// The initial state of one seeded body, in fixed point.
#[derive(Clone, Copy, PartialEq, Eq, Structural, Debug)]
pub struct BodySpawn {
    pub position: Vec2,
    pub rotation: i64,
    pub radius: i64,
    pub linvel: Vec2,
    pub angvel: i64,
}

/// A unit draw `u` in `[0, SCALE)` scales `k >= 0` down to `[0, k)`.
fn unit_scale(u: i64, k: i64) -> (r: i64)
    requires
        0 <= u < SCALE,
        0 <= k <= 1_000_000_000_000,
    ensures
        r == fmul(u as int, k as int),
        0 <= r <= k,
        k > 0 ==> r < k,
{
    proof {
        lemma_fmul_bound(u as int, k as int, SCALE as int, k as int);
        vstd::arithmetic::div_mod::lemma_div_multiples_vanish(k as int, SCALE as int);
        assert(0 <= (u as int) * (k as int)) by (nonlinear_arith)
            requires
                u >= 0,
                k >= 0,
        ;
        lemma_tdiv_magnitude((u as int) * (k as int), SCALE as int);
        lemma_tdiv_times_divisor((u as int) * (k as int), SCALE as int);
        if k > 0 {
            assert(fmul(u as int, k as int) < k as int) by (nonlinear_arith)
                requires
                    fmul(u as int, k as int) >= 0,
                    fmul(u as int, k as int) * (SCALE as int) <= (u as int) * (k as int),
                    0 <= u < SCALE,
                    k >= 1,
            ;
        }
    }
    mul_fx(u, k)
}

/// The spawn state of one seeded body, from seven unit draws in
/// `[0, SCALE)`: a rotation and spin over the full ranges, a radius up to
/// `BODY_MAX_RADIUS_FX`, a position uniform over the world disc (distance
/// square-root distributed, pulled in by the body's own radius), and a
/// linear velocity of random direction and magnitude. The caller draws the
/// randomness; every outcome is within the limits `create_body` asks for.
pub fn spawn_body(
    u_rot: i64,
    u_radius: i64,
    u_dist: i64,
    u_theta: i64,
    u_vel_theta: i64,
    u_vel_mag: i64,
    u_angvel: i64,
) -> (r: BodySpawn)
    requires
        0 <= u_rot < SCALE,
        0 <= u_radius < SCALE,
        0 <= u_dist < SCALE,
        0 <= u_theta < SCALE,
        0 <= u_vel_theta < SCALE,
        0 <= u_vel_mag < SCALE,
        0 <= u_angvel < SCALE,
    ensures
        ({
            let rotation = fmul(u_rot as int, crate::trig::TAU_FX as int);
            let radius = fmul(
                u_radius as int,
                crate::particle::sqrt_fx_spec(BODY_MAX_RADIUS_FX as int),
            );
            let dist = fmul(
                WORLD_RADIUS_FX as int,
                crate::particle::sqrt_fx_spec(u_dist as int),
            ) - radius;
            let theta = fmul(u_theta as int, crate::trig::TAU_FX as int);
            let vel_theta = fmul(u_vel_theta as int, crate::trig::TAU_FX as int);
            let vel_mag = fmul(u_vel_mag as int, BODY_MAX_LIN_VEL_FX as int);
            &&& r.rotation == rotation
            &&& r.radius == radius
            &&& r.position.x == fmul(dist, crate::trig::cos_spec(theta))
            &&& r.position.y == fmul(dist, crate::trig::sin_spec(theta))
            &&& r.linvel.x == fmul(vel_mag, crate::trig::cos_spec(vel_theta))
            &&& r.linvel.y == fmul(vel_mag, crate::trig::sin_spec(vel_theta))
            &&& r.angvel == fmul(u_angvel as int, BODY_MAX_ANG_VEL_FX as int)
        }),
        r.position.in_range(crate::particle::POS_LIMIT as int),
        0 <= r.rotation < crate::trig::TAU_FX,
        0 <= r.radius <= BODY_MAX_RADIUS_FX,
        r.linvel.in_range(BODY_MAX_LIN_VEL_FX as int),
        0 <= r.angvel <= BODY_MAX_ANG_VEL_FX,
{
    let rotation: i64 = unit_scale(u_rot, crate::trig::TAU_FX);
    let rmax: i64 = crate::particle::sqrt_fx(BODY_MAX_RADIUS_FX);
    proof {
        assert(rmax <= BODY_MAX_RADIUS_FX) by (nonlinear_arith)
            requires
                (rmax as int) * (rmax as int) <= (BODY_MAX_RADIUS_FX as int) * (SCALE as int),
                rmax >= 0,
                BODY_MAX_RADIUS_FX == 1_000_000i64,
                SCALE == 1_000_000i64,
        ;
    }
    let radius: i64 = unit_scale(u_radius, rmax);
    let su: i64 = crate::particle::sqrt_fx(u_dist);
    proof {
        assert(su <= SCALE) by (nonlinear_arith)
            requires
                (su as int) * (su as int) <= (u_dist as int) * (SCALE as int),
                su >= 0,
                0 <= u_dist < SCALE,
        ;
        lemma_fmul_bound(WORLD_RADIUS_FX as int, su as int, WORLD_RADIUS_FX as int, SCALE as int);
        lemma_tdiv_magnitude((WORLD_RADIUS_FX as int) * (su as int), SCALE as int);
    }
    let reach: i64 = mul_fx(WORLD_RADIUS_FX, su);
    let dist: i64 = reach - radius;
    let theta: i64 = unit_scale(u_theta, crate::trig::TAU_FX);
    let ct: i64 = cos_fx(theta);
    let st: i64 = sin_fx(theta);
    proof {
        lemma_fmul_bound(dist as int, ct as int, WORLD_RADIUS_FX as int, SCALE as int);
        lemma_fmul_bound(dist as int, st as int, WORLD_RADIUS_FX as int, SCALE as int);
    }
    let px: i64 = mul_fx(dist, ct);
    let py: i64 = mul_fx(dist, st);
    let vel_theta: i64 = unit_scale(u_vel_theta, crate::trig::TAU_FX);
    let cv: i64 = cos_fx(vel_theta);
    let sv: i64 = sin_fx(vel_theta);
    let vel_mag: i64 = unit_scale(u_vel_mag, BODY_MAX_LIN_VEL_FX);
    proof {
        lemma_fmul_bound(vel_mag as int, cv as int, BODY_MAX_LIN_VEL_FX as int, SCALE as int);
        lemma_fmul_bound(vel_mag as int, sv as int, BODY_MAX_LIN_VEL_FX as int, SCALE as int);
    }
    let vx: i64 = mul_fx(vel_mag, cv);
    let vy: i64 = mul_fx(vel_mag, sv);
    let angvel: i64 = unit_scale(u_angvel, BODY_MAX_ANG_VEL_FX);
    BodySpawn {
        position: Vec2 { x: px, y: py },
        rotation,
        radius,
        linvel: Vec2 { x: vx, y: vy },
        angvel,
    }
}

/// Rotation after one tick.
fn rotation_tick(rot: i64, left: bool, right: bool, dt: i64) -> (r: i64)
    requires
        0 <= rot < crate::trig::TAU_FX,
        0 <= dt <= DT_MAX_FX,
    ensures
        r == rotation_after(rot as int, left, right, dt as int),
        0 <= r < crate::trig::TAU_FX,
{
    proof {
        lemma_fmul_bound(
            CAM_ROTATE_SPEED_FX as int,
            dt as int,
            CAM_ROTATE_SPEED_FX as int,
            DT_MAX_FX as int,
        );
    }
    let rd: i64 = mul_fx(CAM_ROTATE_SPEED_FX, dt);
    let mut r1: i64 = rot;
    if left {
        r1 = r1 + rd;
    }
    if right {
        r1 = r1 - rd;
    }
    wrap_angle(r1)
}

/// Zoom after one tick, clamped positive.
fn zoom_tick(zoom: i64, up: bool, down: bool, dt: i64) -> (r: i64)
    requires
        ZOOM_MIN_FX <= zoom <= ZOOM_MAX_FX,
        0 <= dt <= DT_MAX_FX,
    ensures
        r == zoom_after(zoom as int, up, down, dt as int),
        ZOOM_MIN_FX <= r <= ZOOM_MAX_FX,
{
    let mut z: i64 = zoom;
    if up {
        proof {
            lemma_fmul_bound(
                z as int,
                CAM_ZOOM_SPEED_FX as int,
                ZOOM_MAX_FX as int,
                CAM_ZOOM_SPEED_FX as int,
            );
        }
        let f1: i64 = mul_fx(z, CAM_ZOOM_SPEED_FX);
        proof {
            lemma_fmul_bound(f1 as int, dt as int, 5_000_000_000_000int, DT_MAX_FX as int);
        }
        let dz: i64 = mul_fx(f1, dt);
        z = z + dz;
    }
    if down {
        proof {
            lemma_fmul_bound(
                z as int,
                CAM_ZOOM_SPEED_FX as int,
                51_000_000_000_000int,
                CAM_ZOOM_SPEED_FX as int,
            );
        }
        let f1: i64 = mul_fx(z, CAM_ZOOM_SPEED_FX);
        proof {
            lemma_fmul_bound(f1 as int, dt as int, 255_000_000_000_000int, DT_MAX_FX as int);
        }
        let dz: i64 = mul_fx(f1, dt);
        z = z - dz;
    }
    clamp_i64(z, ZOOM_MIN_FX, ZOOM_MAX_FX)
}

/// Normalized pan direction rotated into the camera frame.
fn dir_tick(w: bool, a: bool, s: bool, d: bool, rot2: i64) -> (r: (i64, i64))
    requires
        0 <= rot2 < crate::trig::TAU_FX,
    ensures
        r.0 == pan_dir_x(w, a, s, d, rot2 as int),
        r.1 == pan_dir_y(w, a, s, d, rot2 as int),
        -2_000_000 <= r.0 <= 2_000_000,
        -2_000_000 <= r.1 <= 2_000_000,
{
    let bx: i64 = (if d {
        1i64
    } else {
        0i64
    }) - (if a {
        1i64
    } else {
        0i64
    });
    let by: i64 = (if w {
        1i64
    } else {
        0i64
    }) - (if s {
        1i64
    } else {
        0i64
    });
    let nx: i64 = if bx == 0 {
        0i64
    } else if by == 0 {
        if bx > 0 {
            SCALE
        } else {
            -SCALE
        }
    } else {
        if bx > 0 {
            INV_SQRT2_FX
        } else {
            -INV_SQRT2_FX
        }
    };
    let ny: i64 = if by == 0 {
        0i64
    } else if bx == 0 {
        if by > 0 {
            SCALE
        } else {
            -SCALE
        }
    } else {
        if by > 0 {
            INV_SQRT2_FX
        } else {
            -INV_SQRT2_FX
        }
    };
    proof {
        assert(nx as int == norm_comp(bx as int, by as int));
        assert(ny as int == norm_comp(by as int, bx as int));
    }
    let cosr: i64 = cos_fx(rot2);
    let sinr: i64 = sin_fx(rot2);
    proof {
        lemma_fmul_bound(cosr as int, nx as int, SCALE as int, SCALE as int);
        lemma_fmul_bound(sinr as int, ny as int, SCALE as int, SCALE as int);
        lemma_fmul_bound(sinr as int, nx as int, SCALE as int, SCALE as int);
        lemma_fmul_bound(cosr as int, ny as int, SCALE as int, SCALE as int);
    }
    let rx: i64 = mul_fx(cosr, nx) - mul_fx(sinr, ny);
    let ry: i64 = mul_fx(sinr, nx) + mul_fx(cosr, ny);
    (rx, ry)
}

/// One pan velocity component after one tick.
fn velocity_comp_tick(dirc: i64, any_dir: bool, v: i64, zoom2: i64) -> (r: i64)
    requires
        -2_000_000 <= dirc <= 2_000_000,
        -VEL_LIMIT_FX <= v <= VEL_LIMIT_FX,
        ZOOM_MIN_FX <= zoom2,
    ensures
        r == velocity_comp_after(dirc as int, any_dir, v as int, zoom2 as int),
        -VEL_LIMIT_FX <= r <= VEL_LIMIT_FX,
{
    if any_dir {
        proof {
            lemma_fmul_bound(
                dirc as int,
                CAM_PAN_SPEED_FX as int,
                2_000_000int,
                CAM_PAN_SPEED_FX as int,
            );
        }
        let f1: i64 = mul_fx(dirc, CAM_PAN_SPEED_FX);
        proof {
            lemma_tdiv_magnitude(f1 as int * (SCALE as int), zoom2 as int);
        }
        div_fx(f1, zoom2)
    } else {
        proof {
            lemma_fmul_bound(v as int, DAMPENING_FX as int, VEL_LIMIT_FX as int,
                DAMPENING_FX as int);
            lemma_damped_shrinks(v as int);
        }
        let cut: i64 = mul_fx(v, DAMPENING_FX);
        if v > 0 && cut == 0 {
            v - 1
        } else if v < 0 && cut == 0 {
            v + 1
        } else {
            v - cut
        }
    }
}

/// One pan component after one tick, clamped to the world.
fn pan_comp_tick(pan: i64, v: i64, dt: i64) -> (r: i64)
    requires
        -PAN_LIMIT_FX <= pan <= PAN_LIMIT_FX,
        -VEL_LIMIT_FX <= v <= VEL_LIMIT_FX,
        0 <= dt <= DT_MAX_FX,
    ensures
        r == pan_comp_after(pan as int, v as int, dt as int),
        -PAN_LIMIT_FX <= r <= PAN_LIMIT_FX,
{
    proof {
        lemma_fmul_bound(v as int, dt as int, VEL_LIMIT_FX as int, DT_MAX_FX as int);
    }
    clamp_i64(pan + mul_fx(v, dt), -PAN_LIMIT_FX, PAN_LIMIT_FX)
}

impl Simulation {
    /// A fresh simulation: default view, no bodies, the clock started now.
    pub fn new() -> (r: Simulation)
        ensures
            r.state.last_frame is None,
            !r.state.paused,
            !r.state.wireframe,
            !r.state.rave,
            r.state.texture_key == TextureKey::Moon,
            r.state.zoom == DEFAULT_ZOOM_FX,
            r.state.rotation == 0,
            r.state.pan == (Vec2 { x: 0, y: 0 }),
            r.state.pan_velocity == (Vec2 { x: 0, y: 0 }),
            forall|k: Key| !r.state.input_controller.active_now(k),
            forall|k: Key| !r.state.input_controller.active_before(k),
            r.physics_context.bodies@.len() == 0,
            r.physics_context.forces@.len() == 0,
            r.physics_context.wf(),
            camera_ok(r.state),
    {
        Simulation {
            state: State::default(),
            physics_context: PhysicsContext::new(),
            epoch: clock_now(),
        }
    }

    /// One camera tick over the elapsed time `dt`, consuming the held keys
    /// as the camera specification says. Touches nothing but the view.
    #[verifier::rlimit(50)]
    pub fn update_camera(&mut self, dt: i64)
        requires
            camera_ok(old(self).state),
            0 <= dt <= DT_MAX_FX,
        ensures
            camera_effect(old(self).state, final(self).state, dt as int),
            camera_ok(final(self).state),
            final(self).state.paused == old(self).state.paused,
            final(self).state.last_frame == old(self).state.last_frame,
            final(self).state.mouse_pos == old(self).state.mouse_pos,
            final(self).state.view_size == old(self).state.view_size,
            final(self).state.input_controller == old(self).state.input_controller,
            final(self).physics_context.bodies@ == old(self).physics_context.bodies@,
            final(self).physics_context.forces@ == old(self).physics_context.forces@,
    {
        let c_left: bool = self.state.input_controller.is_key_active(Key::Left);
        let c_right: bool = self.state.input_controller.is_key_active(Key::Right);
        let c_up: bool = self.state.input_controller.is_key_active(Key::Up);
        let c_down: bool = self.state.input_controller.is_key_active(Key::Down);
        let c_w: bool = self.state.input_controller.is_key_active(Key::W);
        let c_a: bool = self.state.input_controller.is_key_active(Key::A);
        let c_s: bool = self.state.input_controller.is_key_active(Key::S);
        let c_d: bool = self.state.input_controller.is_key_active(Key::D);
        let q_released: bool = self.state.input_controller.is_key_released(Key::Q);
        let e_released: bool = self.state.input_controller.is_key_released(Key::E);

        let rot2: i64 = rotation_tick(self.state.rotation, c_left, c_right, dt);
        let z2: i64 = zoom_tick(self.state.zoom, c_up, c_down, dt);
        let (rx, ry): (i64, i64) = dir_tick(c_w, c_a, c_s, c_d, rot2);
        let any_dir: bool = c_w || c_a || c_s || c_d;
        let vx: i64 = velocity_comp_tick(rx, any_dir, self.state.pan_velocity.x, z2);
        let vy: i64 = velocity_comp_tick(ry, any_dir, self.state.pan_velocity.y, z2);
        let px: i64 = pan_comp_tick(self.state.pan.x, vx, dt);
        let py: i64 = pan_comp_tick(self.state.pan.y, vy, dt);

        if q_released {
            self.state.wireframe = !self.state.wireframe;
        }
        if e_released {
            self.state.rave = !self.state.rave;
            self.state.texture_key = match self.state.texture_key {
                TextureKey::Rust => TextureKey::Disco,
                _ => TextureKey::Rust,
            };
        }

        self.state.rotation = rot2;
        self.state.zoom = z2;
        self.state.pan_velocity = Vec2 { x: vx, y: vy };
        self.state.pan = Vec2 { x: px, y: py };
    }

    /// One simulation tick at timestamp `now_ms` (milliseconds since the
    /// simulation started). Returns the forces to hand to the engine, or
    /// `None` while paused.
    pub fn update(&mut self, now_ms: u64) -> (r: Option<Vec<Force>>)
        requires
            camera_ok(old(self).state),
            old(self).physics_context.wf(),
        ensures
            update_effect(*old(self), *final(self), now_ms, r),
            camera_ok(final(self).state),
            final(self).physics_context.wf(),
    {
        // Pause toggle on the space edge.
        if self.state.input_controller.is_key_pressed(Key::Space) {
            self.state.paused = !self.state.paused;
        }

        // The *apply* tick of the stepper, unless paused.
        let r: Option<Vec<Force>> = if !self.state.paused {
            Some(self.physics_context.step())
        } else {
            None
        };

        // Elapsed time since the previous tick, clamped.
        let dt: i64 = match self.state.last_frame {
            None => 0,
            Some(prev) => {
                let diff_ms: u64 = if now_ms >= prev {
                    now_ms - prev
                } else {
                    0
                };
                let capped: u64 = if diff_ms > 10_000 {
                    10_000
                } else {
                    diff_ms
                };
                (capped as i64) * 1000
            },
        };
        proof {
            assert(dt as int == dt_spec(old(self).state.last_frame, now_ms));
        }
        self.state.last_frame = Some(now_ms);

        // Camera, then rotate the input buffers for the next tick's edges.
        self.update_camera(dt);
        self.state.input_controller.update();
        r
    }

    /// One simulation tick at the real clock: measures the elapsed time
    /// itself and reports the timestamp it used, so the tick's effect is
    /// exactly `update`'s at that timestamp.
    pub fn tick(&mut self) -> (r: (u64, Option<Vec<Force>>))
        requires
            camera_ok(old(self).state),
            old(self).physics_context.wf(),
        ensures
            update_effect(*old(self), *final(self), r.0, r.1),
            camera_ok(final(self).state),
            final(self).physics_context.wf(),
    {
        let ms: u64 = millis_since(&self.epoch);
        let out: Option<Vec<Force>> = self.update(ms);
        (ms, out)
    }
}

} // verus!
