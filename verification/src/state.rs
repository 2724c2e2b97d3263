//! Per-frame view state and the camera state machine's specification.
//!
//! The camera turns held keys into continuous motion: rotation at a fixed
//! angular speed, multiplicative zoom, and pan velocity in the rotated
//! camera frame, compensated by zoom and damped exponentially once no
//! directional key is held. The spec functions here state one camera tick
//! exactly over fixed-point arithmetic; `Simulation::update_camera` is
//! proved against them.

use vstd::prelude::*;
use crate::fixed::{SCALE, clamp_spec, fdiv, fmul};
use crate::input::{InputController, Key};
use crate::trig::{TAU_FX, cos_spec, sin_spec, wrap_spec};
use crate::vec2::Vec2;

verus! {

/// Zoom growth per second of held zoom key, relative to the current zoom.
pub const CAM_ZOOM_SPEED_FX: i64 = 5_000_000;

/// Rotation speed, micro-radians per second.
pub const CAM_ROTATE_SPEED_FX: i64 = 5_000_000;

/// Pan speed at zoom one, micro-units per second.
pub const CAM_PAN_SPEED_FX: i64 = 400_000_000;

/// Fraction of the pan velocity removed per tick while no directional key
/// is held.
pub const DAMPENING_FX: i64 = 50_000;

/// `1 / sqrt(2)` in micro-units, the diagonal pan direction component.
pub const INV_SQRT2_FX: i64 = 707_107;

/// Longest accepted frame time (ten seconds).
pub const DT_MAX_FX: i64 = 10_000_000;

/// Zoom is clamped to stay strictly positive.
pub const ZOOM_MIN_FX: i64 = 1;

/// Upper zoom clamp.
pub const ZOOM_MAX_FX: i64 = 1_000_000_000_000;

/// Pan offset clamp, per component.
pub const PAN_LIMIT_FX: i64 = 1_000_000_000_000;

/// Largest pan velocity component the camera can produce.
pub const VEL_LIMIT_FX: i64 = 1_000_000_000_000_000;

/// Zoom of a fresh view.
pub const DEFAULT_ZOOM_FX: i64 = 100_000_000;

/// The texture drawn on the bodies; cycled by the texture key.
#[derive(Clone, Copy, PartialEq, Eq, Structural, Debug)]
pub enum TextureKey {
    Moon,
    Rust,
    Disco,
}

/// The next texture after a cycle.
pub open spec fn cycle_texture(t: TextureKey) -> TextureKey {
    match t {
        TextureKey::Rust => TextureKey::Disco,
        _ => TextureKey::Rust,
    }
}

/// An input event, as the event loop hands it over.
#[derive(Clone, Copy, PartialEq, Eq, Structural, Debug)]
pub enum InputEvent {
    KeyPressed(Key),
    KeyReleased(Key),
    /// Cursor position in micro-pixels.
    CursorMoved(i64, i64),
    /// New view size in device pixels.
    Resized(u32, u32),
}

/// View and interaction state of the simulation.
pub struct State {
    pub mouse_pos: Vec2,
    pub view_size: (u32, u32),
    /// Milliseconds since simulation start at the last tick; absent before
    /// the first tick.
    pub last_frame: Option<u64>,
    pub wireframe: bool,
    pub paused: bool,
    pub texture_key: TextureKey,
    pub rave: bool,
    pub pan: Vec2,
    pub pan_velocity: Vec2,
    pub rotation: i64,
    pub zoom: i64,
    pub input_controller: InputController,
}

/// Rotation after one tick, wrapped into a full turn.
pub open spec fn rotation_after(rot: int, left: bool, right: bool, dt: int) -> int {
    let d = fmul(CAM_ROTATE_SPEED_FX as int, dt);
    let r1 = if left {
        rot + d
    } else {
        rot
    };
    let r2 = if right {
        r1 - d
    } else {
        r1
    };
    wrap_spec(r2)
}

/// Zoom after one tick: each held zoom key scales the zoom by its current
/// value (exponential growth), then the result is clamped positive.
pub open spec fn zoom_after(zoom: int, up: bool, down: bool, dt: int) -> int {
    let z1 = if up {
        zoom + fmul(fmul(zoom, CAM_ZOOM_SPEED_FX as int), dt)
    } else {
        zoom
    };
    let z2 = if down {
        z1 - fmul(fmul(z1, CAM_ZOOM_SPEED_FX as int), dt)
    } else {
        z1
    };
    clamp_spec(z2, ZOOM_MIN_FX as int, ZOOM_MAX_FX as int)
}

/// One component of the normalized pan direction before rotation: zero,
/// a full unit, or the diagonal component, with the sign of `c`.
pub open spec fn norm_comp(c: int, other: int) -> int {
    if c == 0 {
        0
    } else if other == 0 {
        if c > 0 {
            SCALE as int
        } else {
            -(SCALE as int)
        }
    } else {
        if c > 0 {
            INV_SQRT2_FX as int
        } else {
            -(INV_SQRT2_FX as int)
        }
    }
}

/// Unnormalized pan direction: right minus left.
pub open spec fn base_dir_x(w: bool, a: bool, s: bool, d: bool) -> int {
    (if d {
        1int
    } else {
        0int
    }) - (if a {
        1int
    } else {
        0int
    })
}

/// Unnormalized pan direction: up minus down.
pub open spec fn base_dir_y(w: bool, a: bool, s: bool, d: bool) -> int {
    (if w {
        1int
    } else {
        0int
    }) - (if s {
        1int
    } else {
        0int
    })
}

/// X of the normalized pan direction rotated into the camera frame.
pub open spec fn pan_dir_x(w: bool, a: bool, s: bool, d: bool, rot: int) -> int {
    let bx = base_dir_x(w, a, s, d);
    let by = base_dir_y(w, a, s, d);
    fmul(cos_spec(rot), norm_comp(bx, by)) - fmul(sin_spec(rot), norm_comp(by, bx))
}

/// Y of the normalized pan direction rotated into the camera frame.
pub open spec fn pan_dir_y(w: bool, a: bool, s: bool, d: bool, rot: int) -> int {
    let bx = base_dir_x(w, a, s, d);
    let by = base_dir_y(w, a, s, d);
    fmul(sin_spec(rot), norm_comp(bx, by)) + fmul(cos_spec(rot), norm_comp(by, bx))
}

/// A velocity component after one damping tick: the damping fraction of
/// it is removed, and never less than one micro-unit, so repeated damping
/// reaches exactly zero instead of stalling on the truncation floor.
pub open spec fn damped(v: int) -> int {
    let cut = fmul(v, DAMPENING_FX as int);
    if v > 0 && cut == 0 {
        v - 1
    } else if v < 0 && cut == 0 {
        v + 1
    } else {
        v - cut
    }
}

/// A velocity component after one tick: driven while a directional key is
/// held (pan speed over zoom), damped toward zero otherwise.
pub open spec fn velocity_comp_after(dir_comp: int, any_dir: bool, v: int, zoom: int) -> int {
    if any_dir {
        fdiv(fmul(dir_comp, CAM_PAN_SPEED_FX as int), zoom)
    } else {
        damped(v)
    }
}

/// A pan component after one tick: the new velocity integrated over the
/// tick, clamped to the world.
pub open spec fn pan_comp_after(pan: int, v: int, dt: int) -> int {
    clamp_spec(pan + fmul(v, dt), -(PAN_LIMIT_FX as int), PAN_LIMIT_FX as int)
}

/// Damping never grows a velocity component or flips its sign, and
/// strictly shrinks it while it is nonzero.
pub proof fn lemma_damped_shrinks(v: int)
    ensures
        v >= 0 ==> 0 <= damped(v) <= v,
        v <= 0 ==> v <= damped(v) <= 0,
        v > 0 ==> damped(v) < v,
        v < 0 ==> damped(v) > v,
{
    if v >= 0 {
        let p = v * (DAMPENING_FX as int);
        vstd::arithmetic::div_mod::lemma_div_pos_is_pos(p, SCALE as int);
        vstd::arithmetic::div_mod::lemma_div_is_ordered(p, v * (SCALE as int), SCALE as int);
        vstd::arithmetic::div_mod::lemma_div_multiples_vanish(v, SCALE as int);
    } else {
        let m = -v;
        let p = m * (DAMPENING_FX as int);
        vstd::arithmetic::div_mod::lemma_div_pos_is_pos(p, SCALE as int);
        vstd::arithmetic::div_mod::lemma_div_is_ordered(p, m * (SCALE as int), SCALE as int);
        vstd::arithmetic::div_mod::lemma_div_multiples_vanish(m, SCALE as int);
    }
}

/// One camera tick: how the view fields after the tick follow from the
/// view fields and held keys before it.
pub open spec fn camera_effect(pre: State, post: State, dt: int) -> bool {
    let c = pre.input_controller;
    let rot2 = rotation_after(
        pre.rotation as int,
        c.active_now(Key::Left),
        c.active_now(Key::Right),
        dt,
    );
    let zoom2 = zoom_after(pre.zoom as int, c.active_now(Key::Up), c.active_now(Key::Down), dt);
    let w = c.active_now(Key::W);
    let a = c.active_now(Key::A);
    let s = c.active_now(Key::S);
    let d = c.active_now(Key::D);
    let any = w || a || s || d;
    let vx = velocity_comp_after(pan_dir_x(w, a, s, d, rot2), any, pre.pan_velocity.x as int, zoom2);
    let vy = velocity_comp_after(pan_dir_y(w, a, s, d, rot2), any, pre.pan_velocity.y as int, zoom2);
    &&& post.rotation == rot2
    &&& post.zoom == zoom2
    &&& post.pan_velocity.x == vx
    &&& post.pan_velocity.y == vy
    &&& post.pan.x == pan_comp_after(pre.pan.x as int, vx, dt)
    &&& post.pan.y == pan_comp_after(pre.pan.y as int, vy, dt)
    &&& post.wireframe == (if c.released_spec(Key::Q) {
        !pre.wireframe
    } else {
        pre.wireframe
    })
    &&& post.rave == (if c.released_spec(Key::E) {
        !pre.rave
    } else {
        pre.rave
    })
    &&& post.texture_key == (if c.released_spec(Key::E) {
        cycle_texture(pre.texture_key)
    } else {
        pre.texture_key
    })
}

/// The camera state is within its documented ranges.
pub open spec fn camera_ok(s: State) -> bool {
    &&& s.pan.in_range(PAN_LIMIT_FX as int)
    &&& s.pan_velocity.in_range(VEL_LIMIT_FX as int)
    &&& 0 <= s.rotation < TAU_FX
    &&& ZOOM_MIN_FX <= s.zoom <= ZOOM_MAX_FX
}

impl State {
    /// Feed one event into the state: key events go to the input
    /// controller, the rest update the cursor and view mirrors.
    pub fn handle_input(&mut self, event: &InputEvent)
        ensures
            final(self).last_frame == old(self).last_frame,
            final(self).wireframe == old(self).wireframe,
            final(self).paused == old(self).paused,
            final(self).texture_key == old(self).texture_key,
            final(self).rave == old(self).rave,
            final(self).pan == old(self).pan,
            final(self).pan_velocity == old(self).pan_velocity,
            final(self).rotation == old(self).rotation,
            final(self).zoom == old(self).zoom,
            forall|k: Key|
                final(self).input_controller.active_before(k) <==> old(
                    self,
                ).input_controller.active_before(k),
            match *event {
                InputEvent::KeyPressed(key) => {
                    &&& forall|k: Key|
                        final(self).input_controller.active_now(k) <==> (old(
                            self,
                        ).input_controller.active_now(k) || k == key)
                    &&& final(self).mouse_pos == old(self).mouse_pos
                    &&& final(self).view_size == old(self).view_size
                },
                InputEvent::KeyReleased(key) => {
                    &&& forall|k: Key|
                        final(self).input_controller.active_now(k) <==> (old(
                            self,
                        ).input_controller.active_now(k) && k != key)
                    &&& final(self).mouse_pos == old(self).mouse_pos
                    &&& final(self).view_size == old(self).view_size
                },
                InputEvent::CursorMoved(x, y) => {
                    &&& forall|k: Key|
                        final(self).input_controller.active_now(k) <==> old(
                            self,
                        ).input_controller.active_now(k)
                    &&& final(self).mouse_pos == (Vec2 { x, y })
                    &&& final(self).view_size == old(self).view_size
                },
                InputEvent::Resized(w, h) => {
                    &&& forall|k: Key|
                        final(self).input_controller.active_now(k) <==> old(
                            self,
                        ).input_controller.active_now(k)
                    &&& final(self).mouse_pos == old(self).mouse_pos
                    &&& final(self).view_size == (w, h)
                },
            },
    {
        match event {
            InputEvent::KeyPressed(key) => {
                self.input_controller.press(*key);
            },
            InputEvent::KeyReleased(key) => {
                self.input_controller.release(*key);
            },
            InputEvent::CursorMoved(x, y) => {
                self.mouse_pos = Vec2 { x: *x, y: *y };
            },
            InputEvent::Resized(w, h) => {
                self.view_size = (*w, *h);
            },
        }
    }
}

impl Default for State {
    /// A fresh view: no input, not paused, no pan, default zoom, moon
    /// texture, no frame seen yet.
    fn default() -> (r: State)
        ensures
            r.mouse_pos == (Vec2 { x: 0, y: 0 }),
            r.view_size == (0u32, 0u32),
            r.last_frame is None,
            !r.wireframe,
            !r.paused,
            r.texture_key == TextureKey::Moon,
            !r.rave,
            r.pan == (Vec2 { x: 0, y: 0 }),
            r.pan_velocity == (Vec2 { x: 0, y: 0 }),
            r.rotation == 0,
            r.zoom == DEFAULT_ZOOM_FX,
            forall|k: Key| !r.input_controller.active_now(k),
            forall|k: Key| !r.input_controller.active_before(k),
            camera_ok(r),
    {
        State {
            mouse_pos: Vec2 { x: 0, y: 0 },
            view_size: (0, 0),
            last_frame: None,
            wireframe: false,
            paused: false,
            texture_key: TextureKey::Moon,
            rave: false,
            pan: Vec2 { x: 0, y: 0 },
            pan_velocity: Vec2 { x: 0, y: 0 },
            rotation: 0,
            zoom: DEFAULT_ZOOM_FX,
            input_controller: InputController::new(),
        }
    }
}

} // verus!
