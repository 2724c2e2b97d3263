//! The simulation's mirror of the external rigid-body engine.
//!
//! The engine owns the bodies' kinematic state and the accumulated external
//! forces; this context mirrors both as plain values, in insertion order.
//! One tick of the stepper is *apply* then *integrate*: `step` clears the
//! force store, runs the field solver and records each body's net force —
//! the caller hands exactly those forces to the engine, invokes its
//! integration pass with zero global external acceleration, and reports the
//! engine's new state back through `sync_body`.

use vstd::prelude::*;
use crate::body::{Body, body_ok};
use crate::particle::{
    Force, MASS_LIMIT, MAX_BODIES, POS_LIMIT, Particle, ParticleSet, net_force_x, net_force_y,
    particle_ok,
};
use crate::trig::TAU_FX;
use crate::vec2::Vec2;

verus! {

/// The gravitational participants of a sequence of bodies, in order.
pub open spec fn particles_of(bodies: Seq<Body>) -> Seq<Particle> {
    bodies.map_values(|b: Body| (Particle { position: b.position, mass: b.mass }))
}

/// A force store with every entry zeroed.
pub open spec fn cleared(s: Seq<Force>) -> Seq<Force> {
    s.map_values(|f: Force| (Force { x: 0, y: 0 }))
}

/// Clearing the force store is idempotent: clearing an already cleared
/// store is the same as clearing it once.
pub proof fn lemma_cleared_idempotent(s: Seq<Force>)
    ensures
        cleared(cleared(s)) == cleared(s),
{
    assert(cleared(cleared(s)) =~= cleared(s));
}

/// Bodies and their engine-side external forces, in insertion order.
pub struct PhysicsContext {
    pub bodies: Vec<Body>,
    pub forces: Vec<Force>,
}

impl PhysicsContext {
    /// One force entry per body, every body within the documented limits.
    pub open spec fn wf(self) -> bool {
        &&& self.forces@.len() == self.bodies@.len()
        &&& self.bodies@.len() <= MAX_BODIES
        &&& forall|i: int| 0 <= i < self.bodies@.len() ==> body_ok(#[trigger] self.bodies@[i])
    }

    pub fn new() -> (r: PhysicsContext)
        ensures
            r.bodies@.len() == 0,
            r.forces@.len() == 0,
            r.wf(),
    {
        PhysicsContext { bodies: Vec::new(), forces: Vec::new() }
    }

    /// Record a body that the caller has just created in the engine, giving
    /// its handles and its initial state in fixed point.
    pub fn create_body(
        &mut self,
        rigidbody_handle: u64,
        collider_handle: u64,
        position: Vec2,
        rotation: i64,
        radius: i64,
        mass: i64,
    )
        requires
            old(self).wf(),
            old(self).bodies@.len() < MAX_BODIES,
            position.in_range(POS_LIMIT as int),
            0 <= rotation < TAU_FX,
            0 <= radius <= POS_LIMIT,
            0 <= mass <= MASS_LIMIT,
        ensures
            final(self).wf(),
            final(self).bodies@.len() == old(self).bodies@.len() + 1,
            final(self).bodies@ == old(self).bodies@.push(
                (Body {
                    position,
                    rotation,
                    radius,
                    mass,
                    rigidbody_handle,
                    collider_handle,
                }),
            ),
            final(self).forces@ == old(self).forces@.push((Force { x: 0, y: 0 })),
    {
        let mut body: Body = Body::new(rigidbody_handle, collider_handle);
        body.sync_to_rigidbody(position, rotation, radius, mass);
        self.bodies.push(body);
        self.forces.push(Force::zero());
    }

    /// Clear every accumulated external force (the engine keeps forces
    /// across steps unless cleared, so the stepper does this first).
    pub fn reset_forces(&mut self)
        ensures
            final(self).bodies@ == old(self).bodies@,
            final(self).forces@ == cleared(old(self).forces@),
            final(self).forces@.len() == old(self).forces@.len(),
            forall|i: int|
                0 <= i < final(self).forces@.len() ==> #[trigger] final(self).forces@[i]
                    == (Force { x: 0, y: 0 }),
    {
        let n: usize = self.forces.len();
        let mut z: Vec<Force> = Vec::new();
        let mut i: usize = 0;
        while i < n
            invariant
                i <= n,
                z@.len() == i,
                forall|k: int| 0 <= k < i ==> #[trigger] z@[k] == (Force { x: 0, y: 0 }),
            decreases n - i,
        {
            z.push(Force::zero());
            i += 1;
        }
        self.forces = z;
        proof {
            assert(self.forces@ =~= cleared(old(self).forces@));
        }
    }

    /// Add a force to one body's accumulated external force.
    pub fn apply_force(&mut self, index: usize, f: Force)
        requires
            (index as int) < old(self).forces@.len(),
            i128::MIN <= old(self).forces@[index as int].x + f.x <= i128::MAX,
            i128::MIN <= old(self).forces@[index as int].y + f.y <= i128::MAX,
        ensures
            final(self).bodies@ == old(self).bodies@,
            final(self).forces@ == old(self).forces@.update(
                index as int,
                (Force {
                    x: (old(self).forces@[index as int].x + f.x) as i128,
                    y: (old(self).forces@[index as int].y + f.y) as i128,
                }),
            ),
    {
        let cur: Force = self.forces[index];
        self.forces[index] = Force { x: cur.x + f.x, y: cur.y + f.y };
    }

    /// Report one body's state after an engine integration pass.
    pub fn sync_body(&mut self, index: usize, position: Vec2, rotation: i64, radius: i64, mass: i64)
        requires
            old(self).wf(),
            (index as int) < old(self).bodies@.len(),
            position.in_range(POS_LIMIT as int),
            0 <= rotation < TAU_FX,
            0 <= radius <= POS_LIMIT,
            0 <= mass <= MASS_LIMIT,
        ensures
            final(self).wf(),
            final(self).forces@ == old(self).forces@,
            final(self).bodies@ == old(self).bodies@.update(
                index as int,
                (Body {
                    position,
                    rotation,
                    radius,
                    mass,
                    rigidbody_handle: old(self).bodies@[index as int].rigidbody_handle,
                    collider_handle: old(self).bodies@[index as int].collider_handle,
                }),
            ),
    {
        let mut body: Body = self.bodies[index];
        body.sync_to_rigidbody(position, rotation, radius, mass);
        self.bodies[index] = body;
    }

    /// The *apply* tick: clear the force store, run the field solver over
    /// the current body states, and record each body's net gravitational
    /// force. Returns the recorded forces, in body order, for the caller to
    /// hand to the engine.
    pub fn step(&mut self) -> (r: Vec<Force>)
        requires
            old(self).wf(),
        ensures
            final(self).wf(),
            final(self).bodies@ == old(self).bodies@,
            r@.len() == old(self).bodies@.len(),
            forall|i: int|
                0 <= i < r@.len() ==> #[trigger] r@[i].x == net_force_x(
                    particles_of(old(self).bodies@),
                    i,
                    old(self).bodies@.len() as nat,
                ),
            forall|i: int|
                0 <= i < r@.len() ==> #[trigger] r@[i].y == net_force_y(
                    particles_of(old(self).bodies@),
                    i,
                    old(self).bodies@.len() as nat,
                ),
            final(self).forces@ == r@,
    {
        self.reset_forces();
        let n: usize = self.bodies.len();
        let mut set: ParticleSet = ParticleSet::new();
        let mut i: usize = 0;
        while i < n
            invariant
                old(self).wf(),
                self.bodies@ == old(self).bodies@,
                self.forces@ == cleared(old(self).forces@),
                n == self.bodies@.len(),
                i <= n,
                set.particles@.len() == i,
                forall|k: int| 0 <= k < i ==> #[trigger] set.particles@[k] == particles_of(
                    self.bodies@,
                )[k],
            decreases n - i,
        {
            let p: Particle = self.bodies[i].as_particle();
            set.add(p);
            i += 1;
        }
        proof {
            assert(set.particles@ =~= particles_of(self.bodies@));
        }
        let forces: Vec<Force> = set.get_forces();
        let mut j: usize = 0;
        while j < n
            invariant
                old(self).wf(),
                self.bodies@ == old(self).bodies@,
                n == self.bodies@.len(),
                self.forces@.len() == n,
                forces@.len() == n,
                j <= n,
                forall|k: int| 0 <= k < j ==> #[trigger] self.forces@[k] == forces@[k],
                forall|k: int|
                    j <= k < n ==> #[trigger] self.forces@[k] == (Force { x: 0, y: 0 }),
            decreases n - j,
        {
            let f: Force = forces[j];
            self.forces[j] = f;
            j += 1;
        }
        proof {
            assert(self.forces@ =~= forces@);
        }
        forces
    }
}

} // verus!
