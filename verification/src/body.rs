//! One simulated entity, identified by handles into the external engine.
//!
//! A `Body` owns no engine state: the two handles are opaque references into
//! the rigid-body engine's body and collider stores, and the kinematic
//! fields are a mirror of what the engine last reported, refreshed through
//! `sync_to_rigidbody` after every integration step. The handles stay valid
//! for the lifetime of the owning simulation.

use vstd::prelude::*;
use crate::fixed::{fmul, lemma_fmul_bound, mul_fx};
use crate::particle::{GRAVITY_FX, MASS_LIMIT, POS_LIMIT, Particle};
use crate::trig::TAU_FX;
use crate::vec2::Vec2;

verus! {

/// A body: two engine handles plus the mirrored kinematic state.
#[derive(Clone, Copy, PartialEq, Eq, Structural, Debug)]
pub struct Body {
    pub position: Vec2,
    pub rotation: i64,
    pub radius: i64,
    pub mass: i64,
    pub rigidbody_handle: u64,
    pub collider_handle: u64,
}

/// The mirrored state is within the documented limits.
pub open spec fn body_ok(b: Body) -> bool {
    &&& b.position.in_range(POS_LIMIT as int)
    &&& 0 <= b.rotation < TAU_FX
    &&& 0 <= b.radius <= POS_LIMIT
    &&& 0 <= b.mass <= MASS_LIMIT
}

impl Body {
    /// A new body for freshly created engine handles, with the mirror
    /// zeroed until the first synchronization.
    pub fn new(rigidbody_handle: u64, collider_handle: u64) -> (r: Body)
        ensures
            r.rigidbody_handle == rigidbody_handle,
            r.collider_handle == collider_handle,
            r.position.x == 0 && r.position.y == 0,
            r.rotation == 0 && r.radius == 0 && r.mass == 0,
            body_ok(r),
    {
        Body {
            position: Vec2 { x: 0, y: 0 },
            rotation: 0,
            radius: 0,
            mass: 0,
            rigidbody_handle,
            collider_handle,
        }
    }

    pub fn position(&self) -> (r: Vec2)
        ensures
            r == self.position,
    {
        self.position
    }

    pub fn rotation(&self) -> (r: i64)
        ensures
            r == self.rotation,
    {
        self.rotation
    }

    pub fn radius(&self) -> (r: i64)
        ensures
            r == self.radius,
    {
        self.radius
    }

    pub fn mass(&self) -> (r: i64)
        ensures
            r == self.mass,
    {
        self.mass
    }

    /// Standard gravitational parameter of the body: its mass scaled by the
    /// (amplified) gravitational constant.
    pub fn mu(&self) -> (r: i64)
        requires
            0 <= self.mass <= MASS_LIMIT,
        ensures
            r == fmul(self.mass as int, GRAVITY_FX as int),
    {
        proof {
            lemma_fmul_bound(
                self.mass as int,
                GRAVITY_FX as int,
                MASS_LIMIT as int,
                GRAVITY_FX as int,
            );
        }
        mul_fx(self.mass, GRAVITY_FX)
    }

    /// The body seen as a gravitational participant.
    pub fn as_particle(&self) -> (r: Particle)
        ensures
            r.position == self.position,
            r.mass == self.mass,
    {
        Particle { position: self.position, mass: self.mass }
    }

    /// Refresh the mirrored state from what the engine reports. The caller
    /// passes the engine's values already converted to fixed point, with the
    /// rotation wrapped into a full turn.
    pub fn sync_to_rigidbody(&mut self, position: Vec2, rotation: i64, radius: i64, mass: i64)
        requires
            position.in_range(POS_LIMIT as int),
            0 <= rotation < TAU_FX,
            0 <= radius <= POS_LIMIT,
            0 <= mass <= MASS_LIMIT,
        ensures
            final(self).position == position,
            final(self).rotation == rotation,
            final(self).radius == radius,
            final(self).mass == mass,
            final(self).rigidbody_handle == old(self).rigidbody_handle,
            final(self).collider_handle == old(self).collider_handle,
            body_ok(*final(self)),
    {
        self.position = position;
        self.rotation = rotation;
        self.radius = radius;
        self.mass = mass;
    }
}

} // verus!
