//! Pairwise Newtonian gravity over a set of point masses.
//!
//! For bodies `i != j` at distinct positions the force on `i` from `j` is
//! `G * m_i * m_j * (p_j - p_i) / (d2 * sqrt(d2))`, where `d2` is the squared
//! distance; a pair at the exact same position contributes the zero vector,
//! so coincidence never divides by zero. The whole computation is integer
//! arithmetic on fixed-point values: the square root is the integer square
//! root and the one division rounds toward zero, which keeps the mutual
//! forces of a pair exactly opposite.

use vstd::prelude::*;
use crate::fixed::abs_u64;
use crate::vec2::Vec2;

verus! {

/// Gravitational constant folded together with the simulation's gravity
/// amplifier, in micro-units (the product of the universal constant and the
/// amplifier is about 2.66972).
pub const GRAVITY_FX: i64 = 2_669_720;

/// Largest magnitude a position component may have (1000 world units).
pub const POS_LIMIT: i64 = 1_000_000_000;

/// Largest mass a body may have (1000 mass units).
pub const MASS_LIMIT: i64 = 1_000_000_000;

/// Most bodies a set may hold.
pub const MAX_BODIES: usize = 10_000;

/// Largest magnitude of one pair's force contribution:
/// `GRAVITY_FX * MASS_LIMIT * MASS_LIMIT * (2 * POS_LIMIT)`.
pub const PAIR_FORCE_LIMIT: i128 = 5_339_440_000_000_000_000_000_000_000_000_000;

/// `r` is the integer square root of `n`.
pub open spec fn is_isqrt(n: int, r: int) -> bool {
    0 <= r && r * r <= n && n < (r + 1) * (r + 1)
}

/// The integer square root, as a recursive definition.
pub open spec fn isqrt_spec(n: nat) -> nat
    decreases n,
{
    if n == 0 {
        0
    } else {
        let r = isqrt_spec((n - 1) as nat);
        if (r + 1) * (r + 1) <= n {
            r + 1
        } else {
            r
        }
    }
}

pub proof fn lemma_isqrt_spec_is_isqrt(n: nat)
    ensures
        is_isqrt(n as int, isqrt_spec(n) as int),
    decreases n,
{
    if n > 0 {
        lemma_isqrt_spec_is_isqrt((n - 1) as nat);
        let r = isqrt_spec((n - 1) as nat) as int;
        if (r + 1) * (r + 1) <= n {
            assert((r + 1) * (r + 1) + 1 <= (r + 2) * (r + 2)) by (nonlinear_arith)
                requires
                    r >= 0,
            ;
        }
    }
}

pub proof fn lemma_isqrt_unique(n: int, a: int, b: int)
    requires
        is_isqrt(n, a),
        is_isqrt(n, b),
    ensures
        a == b,
{
    assert(a == b) by (nonlinear_arith)
        requires
            0 <= a && a * a <= n && n < (a + 1) * (a + 1),
            0 <= b && b * b <= n && n < (b + 1) * (b + 1),
    ;
}

/// Integer square root by bisection.
pub fn isqrt(n: u64) -> (r: u64)
    requires
        n < 9_000_000_000_000_000_000,
    ensures
        is_isqrt(n as int, r as int),
        r == isqrt_spec(n as nat),
{
    let mut lo: u64 = 0;
    let mut hi: u64 = 3_000_000_000;
    while lo + 1 < hi
        invariant
            lo < hi <= 3_000_000_000,
            (lo as int) * (lo as int) <= n as int,
            (n as int) < (hi as int) * (hi as int),
        decreases hi - lo,
    {
        let mid: u64 = lo + (hi - lo) / 2;
        assert((mid as int) * (mid as int) < 9_000_000_000_000_000_000int) by (nonlinear_arith)
            requires
                mid < 3_000_000_000u64,
        ;
        if mid * mid <= n {
            lo = mid;
        } else {
            hi = mid;
        }
    }
    proof {
        lemma_isqrt_spec_is_isqrt(n as nat);
        lemma_isqrt_unique(n as int, lo as int, isqrt_spec(n as nat) as int);
    }
    lo
}

/// Square root of a nonnegative fixed-point scalar: `sqrt(v / SCALE)` in
/// micro-units, which is the integer square root of `v * SCALE`.
pub open spec fn sqrt_fx_spec(v: int) -> int {
    isqrt_spec((v * (crate::fixed::SCALE as int)) as nat) as int
}

/// Fixed-point square root.
pub fn sqrt_fx(v: i64) -> (r: i64)
    requires
        0 <= v <= 1_000_000_000_000,
    ensures
        r == sqrt_fx_spec(v as int),
        is_isqrt((v as int) * (crate::fixed::SCALE as int), r as int),
        0 <= r,
{
    assert(0 <= (v as int) * (crate::fixed::SCALE as int) <= 1_000_000_000_000_000_000int)
        by (nonlinear_arith)
        requires
            0 <= v <= 1_000_000_000_000i64,
            crate::fixed::SCALE == 1_000_000i64,
    ;
    let n: u64 = (v as u64) * (crate::fixed::SCALE as u64);
    let r: u64 = isqrt(n);
    proof {
        assert(r <= 1_000_000_000u64) by (nonlinear_arith)
            requires
                (r as int) * (r as int) <= n as int,
                n <= 1_000_000_000_000_000_000u64,
                r >= 0,
        ;
    }
    r as i64
}

/// A gravitational participant: a position and a mass, both fixed-point.
#[derive(Clone, Copy, PartialEq, Eq, Structural, Debug)]
pub struct Particle {
    pub position: Vec2,
    pub mass: i64,
}

impl Particle {
    pub fn new(position: Vec2, mass: i64) -> (r: Particle)
        ensures
            r.position == position,
            r.mass == mass,
    {
        Particle { position, mass }
    }
}

/// A force vector. Components are wide so that the sum over a full set of
/// near-coincident heavy bodies still fits.
#[derive(Clone, Copy, PartialEq, Eq, Structural, Debug)]
pub struct Force {
    pub x: i128,
    pub y: i128,
}

impl Force {
    pub fn zero() -> (r: Force)
        ensures
            r.x == 0,
            r.y == 0,
    {
        Force { x: 0, y: 0 }
    }
}

/// A particle within the documented position and mass limits.
pub open spec fn particle_ok(p: Particle) -> bool {
    &&& p.position.in_range(POS_LIMIT as int)
    &&& 0 <= p.mass <= MASS_LIMIT
}

/// Squared distance between two particles, in squared micro-units.
pub open spec fn dist_sq(p: Particle, q: Particle) -> int {
    let dx = q.position.x - p.position.x;
    let dy = q.position.y - p.position.y;
    dx * dx + dy * dy
}

/// Magnitude of one component of the force of `q` on `p`: the component
/// distance `ad >= 0` scaled by `G * m_p * m_q / (d2 * sqrt(d2))`.
pub open spec fn pair_mag(p: Particle, q: Particle, ad: int) -> int {
    let d2 = dist_sq(p, q);
    (GRAVITY_FX as int) * p.mass * q.mass * ad / (d2 * (isqrt_spec(d2 as nat) as int))
}

/// X component of the gravitational force of `q` on `p`. Zero for a pair
/// at the exact same position.
pub open spec fn pair_force_x(p: Particle, q: Particle) -> int {
    let dx = q.position.x - p.position.x;
    if dist_sq(p, q) == 0 {
        0
    } else if dx >= 0 {
        pair_mag(p, q, dx)
    } else {
        -pair_mag(p, q, -dx)
    }
}

/// Y component of the gravitational force of `q` on `p`.
pub open spec fn pair_force_y(p: Particle, q: Particle) -> int {
    let dy = q.position.y - p.position.y;
    if dist_sq(p, q) == 0 {
        0
    } else if dy >= 0 {
        pair_mag(p, q, dy)
    } else {
        -pair_mag(p, q, -dy)
    }
}

/// Sum of the X components of the forces on `ps[i]` from `ps[0..j]`,
/// skipping `i` itself.
pub open spec fn net_force_x(ps: Seq<Particle>, i: int, j: nat) -> int
    decreases j,
{
    if j == 0 {
        0
    } else {
        net_force_x(ps, i, (j - 1) as nat) + if j - 1 == i {
            0
        } else {
            pair_force_x(ps[i], ps[j - 1])
        }
    }
}

/// Sum of the Y components of the forces on `ps[i]` from `ps[0..j]`,
/// skipping `i` itself.
pub open spec fn net_force_y(ps: Seq<Particle>, i: int, j: nat) -> int
    decreases j,
{
    if j == 0 {
        0
    } else {
        net_force_y(ps, i, (j - 1) as nat) + if j - 1 == i {
            0
        } else {
            pair_force_y(ps[i], ps[j - 1])
        }
    }
}

/// A nonzero squared distance is at least one, and so is the integer
/// square root and their product.
proof fn lemma_den_pos(p: Particle, q: Particle)
    requires
        dist_sq(p, q) != 0,
    ensures
        dist_sq(p, q) >= 1,
        dist_sq(p, q) * (isqrt_spec(dist_sq(p, q) as nat) as int) >= 1,
{
    let dx = q.position.x - p.position.x;
    let dy = q.position.y - p.position.y;
    assert(dx * dx + dy * dy >= 0) by (nonlinear_arith);
    let d2 = dist_sq(p, q);
    lemma_isqrt_spec_is_isqrt(d2 as nat);
    let r = isqrt_spec(d2 as nat) as int;
    assert(r >= 1) by (nonlinear_arith)
        requires
            0 <= r,
            r * r <= d2,
            d2 < (r + 1) * (r + 1),
            d2 >= 1,
    ;
    assert(d2 * r >= 1) by (nonlinear_arith)
        requires
            d2 >= 1,
            r >= 1,
    ;
}

/// A zero component distance contributes nothing, whatever the masses.
proof fn lemma_pair_mag_zero(p: Particle, q: Particle)
    requires
        dist_sq(p, q) != 0,
    ensures
        pair_mag(p, q, 0) == 0,
{
    lemma_den_pos(p, q);
    let d2 = dist_sq(p, q);
    let den = d2 * (isqrt_spec(d2 as nat) as int);
    assert((GRAVITY_FX as int) * p.mass * q.mass * 0 == 0) by (nonlinear_arith);
    vstd::arithmetic::div_mod::lemma_div_of0(den);
}

/// Newton's third law, exactly: the two force contributions of a pair are
/// opposite component by component, whatever the positions and masses.
pub proof fn lemma_pair_force_antisymmetric(p: Particle, q: Particle)
    ensures
        pair_force_x(p, q) == -pair_force_x(q, p),
        pair_force_y(p, q) == -pair_force_y(q, p),
{
    assert(dist_sq(p, q) == dist_sq(q, p)) by (nonlinear_arith)
        requires
            dist_sq(p, q) == (q.position.x - p.position.x) * (q.position.x - p.position.x) + (
            q.position.y - p.position.y) * (q.position.y - p.position.y),
            dist_sq(q, p) == (p.position.x - q.position.x) * (p.position.x - q.position.x) + (
            p.position.y - q.position.y) * (p.position.y - q.position.y),
    ;
    assert forall|ad: int| pair_mag(p, q, ad) == pair_mag(q, p, ad) by {
        assert((GRAVITY_FX as int) * p.mass * q.mass * ad == (GRAVITY_FX as int) * q.mass * p.mass
            * ad) by (nonlinear_arith);
    }
    if dist_sq(p, q) != 0 {
        if q.position.x == p.position.x {
            lemma_pair_mag_zero(p, q);
            lemma_pair_mag_zero(q, p);
        }
        if q.position.y == p.position.y {
            lemma_pair_mag_zero(p, q);
            lemma_pair_mag_zero(q, p);
        }
    }
}

/// A pair at the exact same position exerts exactly the zero vector.
pub proof fn lemma_pair_force_coincident(p: Particle, q: Particle)
    requires
        p.position == q.position,
    ensures
        pair_force_x(p, q) == 0,
        pair_force_y(p, q) == 0,
{
    assert(dist_sq(p, q) == 0);
}

/// An isolated body feels no force at all.
pub proof fn lemma_single_body_no_force(ps: Seq<Particle>)
    requires
        ps.len() == 1,
    ensures
        net_force_x(ps, 0, 1) == 0,
        net_force_y(ps, 0, 1) == 0,
{
    assert(net_force_x(ps, 0, 0) == 0);
    assert(net_force_y(ps, 0, 0) == 0);
}

/// Sum over `i < m` of the X components of the net forces that the first
/// `k` bodies exert on body `i`.
pub open spec fn sum_forces_x(ps: Seq<Particle>, m: nat, k: nat) -> int
    decreases m,
{
    if m == 0 {
        0
    } else {
        sum_forces_x(ps, (m - 1) as nat, k) + net_force_x(ps, m - 1, k)
    }
}

/// Sum over `i < m` of the Y components of the net forces that the first
/// `k` bodies exert on body `i`.
pub open spec fn sum_forces_y(ps: Seq<Particle>, m: nat, k: nat) -> int
    decreases m,
{
    if m == 0 {
        0
    } else {
        sum_forces_y(ps, (m - 1) as nat, k) + net_force_y(ps, m - 1, k)
    }
}

/// Sum over `i < m`, skipping `i == j`, of the force of body `j` on body
/// `i` (one column of the pair-force matrix).
pub open spec fn column_force_x(ps: Seq<Particle>, m: nat, j: int) -> int
    decreases m,
{
    if m == 0 {
        0
    } else {
        column_force_x(ps, (m - 1) as nat, j) + if m - 1 == j {
            0
        } else {
            pair_force_x(ps[m - 1], ps[j])
        }
    }
}

/// Sum over `i < m`, skipping `i == j`, of the Y force of body `j` on
/// body `i`.
pub open spec fn column_force_y(ps: Seq<Particle>, m: nat, j: int) -> int
    decreases m,
{
    if m == 0 {
        0
    } else {
        column_force_y(ps, (m - 1) as nat, j) + if m - 1 == j {
            0
        } else {
            pair_force_y(ps[m - 1], ps[j])
        }
    }
}

/// By the third law, what a body receives from the first `m` bodies is the
/// opposite of what the column of forces it exerts on them sums to.
proof fn lemma_column_is_neg_net(ps: Seq<Particle>, m: nat, j: int)
    ensures
        column_force_x(ps, m, j) == -net_force_x(ps, j, m),
        column_force_y(ps, m, j) == -net_force_y(ps, j, m),
    decreases m,
{
    if m > 0 {
        lemma_column_is_neg_net(ps, (m - 1) as nat, j);
        lemma_pair_force_antisymmetric(ps[m - 1], ps[j]);
    }
}

/// Growing the force sums by one source body adds that body's column.
proof fn lemma_sum_forces_extend(ps: Seq<Particle>, m: nat, k: nat)
    requires
        k >= 1,
    ensures
        sum_forces_x(ps, m, k) == sum_forces_x(ps, m, (k - 1) as nat) + column_force_x(
            ps,
            m,
            k - 1,
        ),
        sum_forces_y(ps, m, k) == sum_forces_y(ps, m, (k - 1) as nat) + column_force_y(
            ps,
            m,
            k - 1,
        ),
    decreases m,
{
    if m > 0 {
        lemma_sum_forces_extend(ps, (m - 1) as nat, k);
    }
}

proof fn lemma_sum_forces_square_zero(ps: Seq<Particle>, k: nat)
    ensures
        sum_forces_x(ps, k, k) == 0,
        sum_forces_y(ps, k, k) == 0,
    decreases k,
{
    if k > 0 {
        lemma_sum_forces_square_zero(ps, (k - 1) as nat);
        lemma_sum_forces_extend(ps, k, k);
        lemma_column_is_neg_net(ps, (k - 1) as nat, k - 1);
    }
}

/// The third law summed over the whole set: the gravitational field moves
/// no total momentum — the net forces of all bodies cancel exactly.
pub proof fn lemma_field_conserves_momentum(ps: Seq<Particle>)
    ensures
        sum_forces_x(ps, ps.len(), ps.len()) == 0,
        sum_forces_y(ps, ps.len(), ps.len()) == 0,
{
    lemma_sum_forces_square_zero(ps, ps.len());
}

/// One pair contribution stays within `PAIR_FORCE_LIMIT`.
pub proof fn lemma_pair_force_bound(p: Particle, q: Particle)
    requires
        particle_ok(p),
        particle_ok(q),
    ensures
        -PAIR_FORCE_LIMIT <= pair_force_x(p, q) <= PAIR_FORCE_LIMIT,
        -PAIR_FORCE_LIMIT <= pair_force_y(p, q) <= PAIR_FORCE_LIMIT,
{
    if dist_sq(p, q) != 0 {
        lemma_den_pos(p, q);
        let d2 = dist_sq(p, q);
        let den = d2 * (isqrt_spec(d2 as nat) as int);
        assert forall|ad: int|
            0 <= ad <= 2 * (POS_LIMIT as int) implies 0 <= #[trigger] pair_mag(p, q, ad)
            <= PAIR_FORCE_LIMIT as int by {
            let num = (GRAVITY_FX as int) * p.mass * q.mass * ad;
            assert(0 <= num <= PAIR_FORCE_LIMIT as int) by (nonlinear_arith)
                requires
                    0 <= p.mass <= MASS_LIMIT as int,
                    0 <= q.mass <= MASS_LIMIT as int,
                    0 <= ad <= 2 * (POS_LIMIT as int),
                    num == (GRAVITY_FX as int) * p.mass * q.mass * ad,
                    PAIR_FORCE_LIMIT as int == (GRAVITY_FX as int) * (MASS_LIMIT as int) * (
                    MASS_LIMIT as int) * (2 * (POS_LIMIT as int)),
            ;
            vstd::arithmetic::div_mod::lemma_div_pos_is_pos(num, den);
            vstd::arithmetic::div_mod::lemma_div_nonincreasing(num, den);
        }
    }
}

/// The running sums of the field solver stay within `j` pair limits.
pub proof fn lemma_net_force_bound(ps: Seq<Particle>, i: int, j: nat)
    requires
        0 <= i < ps.len(),
        j <= ps.len(),
        forall|k: int| 0 <= k < ps.len() ==> particle_ok(#[trigger] ps[k]),
    ensures
        -(j as int) * PAIR_FORCE_LIMIT <= net_force_x(ps, i, j) <= (j as int) * PAIR_FORCE_LIMIT,
        -(j as int) * PAIR_FORCE_LIMIT <= net_force_y(ps, i, j) <= (j as int) * PAIR_FORCE_LIMIT,
    decreases j,
{
    if j > 0 {
        lemma_net_force_bound(ps, i, (j - 1) as nat);
        lemma_pair_force_bound(ps[i], ps[j - 1]);
    }
}

/// The force of one particle on another, by the formula above.
pub fn pair_force(p: &Particle, q: &Particle) -> (f: Force)
    requires
        particle_ok(*p),
        particle_ok(*q),
    ensures
        f.x == pair_force_x(*p, *q),
        f.y == pair_force_y(*p, *q),
{
    let dx: i64 = q.position.x - p.position.x;
    let dy: i64 = q.position.y - p.position.y;
    let adx: u64 = abs_u64(dx);
    let ady: u64 = abs_u64(dy);
    assert((adx as int) * (adx as int) + (ady as int) * (ady as int) <= 8_000_000_000_000_000_000int
        && (adx as int) * (adx as int) == (dx as int) * (dx as int) && (ady as int) * (ady as int)
        == (dy as int) * (dy as int)) by (nonlinear_arith)
        requires
            adx == vstd::math::abs(dx as int),
            ady == vstd::math::abs(dy as int),
            adx <= 2_000_000_000u64,
            ady <= 2_000_000_000u64,
    ;
    let d2: u64 = adx * adx + ady * ady;
    if d2 == 0 {
        Force { x: 0, y: 0 }
    } else {
        proof {
            lemma_den_pos(*p, *q);
        }
        let rt: u64 = isqrt(d2);
        proof {
            assert(rt <= 3_000_000_000u64) by (nonlinear_arith)
                requires
                    (rt as int) * (rt as int) <= d2 as int,
                    d2 < 9_000_000_000_000_000_000u64,
                    rt >= 0,
            ;
            assert((d2 as int) * (rt as int) <= 27_000_000_000_000_000_000_000_000_000int)
                by (nonlinear_arith)
                requires
                    d2 <= 9_000_000_000_000_000_000u64,
                    rt <= 3_000_000_000u64,
            ;
        }
        let den: u128 = (d2 as u128) * (rt as u128);
        proof {
            assert((GRAVITY_FX as int) * (p.mass as int) <= 2_669_720_000_000_000int
                && 0 <= (GRAVITY_FX as int) * (p.mass as int)) by (nonlinear_arith)
                requires
                    0 <= p.mass <= 1_000_000_000i64,
            ;
        }
        let gm: u128 = (GRAVITY_FX as u128) * (p.mass as u128);
        proof {
            assert((gm as int) * (q.mass as int) <= 2_669_720_000_000_000_000_000_000int && 0 <= (
            gm as int) * (q.mass as int)) by (nonlinear_arith)
                requires
                    0 <= q.mass <= 1_000_000_000i64,
                    0 <= gm <= 2_669_720_000_000_000u128,
            ;
        }
        let gmm: u128 = gm * (q.mass as u128);
        proof {
            assert((gmm as int) * (adx as int) <= PAIR_FORCE_LIMIT as int && (gmm as int) * (
            ady as int) <= PAIR_FORCE_LIMIT as int && 0 <= (gmm as int) * (adx as int) && 0 <= (
            gmm as int) * (ady as int)) by (nonlinear_arith)
                requires
                    0 <= gmm <= 2_669_720_000_000_000_000_000_000u128,
                    adx <= 2_000_000_000u64,
                    ady <= 2_000_000_000u64,
                    PAIR_FORCE_LIMIT == 5_339_440_000_000_000_000_000_000_000_000_000i128,
            ;
        }
        let nx: u128 = gmm * (adx as u128);
        let ny: u128 = gmm * (ady as u128);
        proof {
            assert(nx == (GRAVITY_FX as int) * (p.mass as int) * (q.mass as int) * (adx as int))
                by (nonlinear_arith)
                requires
                    gm == (GRAVITY_FX as int) * (p.mass as int),
                    gmm == (gm as int) * (q.mass as int),
                    nx == (gmm as int) * (adx as int),
            ;
            assert(ny == (GRAVITY_FX as int) * (p.mass as int) * (q.mass as int) * (ady as int))
                by (nonlinear_arith)
                requires
                    gm == (GRAVITY_FX as int) * (p.mass as int),
                    gmm == (gm as int) * (q.mass as int),
                    ny == (gmm as int) * (ady as int),
            ;
        }
        let mx: u128 = nx / den;
        let my: u128 = ny / den;
        proof {
            vstd::arithmetic::div_mod::lemma_div_pos_is_pos(nx as int, den as int);
            vstd::arithmetic::div_mod::lemma_div_nonincreasing(nx as int, den as int);
            vstd::arithmetic::div_mod::lemma_div_pos_is_pos(ny as int, den as int);
            vstd::arithmetic::div_mod::lemma_div_nonincreasing(ny as int, den as int);
            assert(mx == pair_mag(*p, *q, adx as int));
            assert(my == pair_mag(*p, *q, ady as int));
        }
        let fx: i128 = if dx >= 0 {
            mx as i128
        } else {
            -(mx as i128)
        };
        let fy: i128 = if dy >= 0 {
            my as i128
        } else {
            -(my as i128)
        };
        Force { x: fx, y: fy }
    }
}

/// An insertion-ordered set of gravitational participants.
pub struct ParticleSet {
    pub particles: Vec<Particle>,
}

impl ParticleSet {
    pub fn new() -> (r: ParticleSet)
        ensures
            r.particles@.len() == 0,
    {
        ParticleSet { particles: Vec::new() }
    }

    pub fn add(&mut self, p: Particle)
        ensures
            final(self).particles@ == old(self).particles@.push(p),
    {
        self.particles.push(p);
    }

    /// The gravitational field: one net force per particle, in the order
    /// of the set, each the sum of that particle's pair contributions.
    pub fn get_forces(&self) -> (r: Vec<Force>)
        requires
            self.particles@.len() <= MAX_BODIES,
            forall|k: int|
                0 <= k < self.particles@.len() ==> particle_ok(#[trigger] self.particles@[k]),
        ensures
            r@.len() == self.particles@.len(),
            forall|i: int|
                0 <= i < r@.len() ==> #[trigger] r@[i].x == net_force_x(
                    self.particles@,
                    i,
                    self.particles@.len(),
                ),
            forall|i: int|
                0 <= i < r@.len() ==> #[trigger] r@[i].y == net_force_y(
                    self.particles@,
                    i,
                    self.particles@.len(),
                ),
    {
        let n: usize = self.particles.len();
        let mut out: Vec<Force> = Vec::new();
        let mut i: usize = 0;
        while i < n
            invariant
                n == self.particles@.len(),
                n <= MAX_BODIES,
                forall|k: int|
                    0 <= k < self.particles@.len() ==> particle_ok(#[trigger] self.particles@[k]),
                i <= n,
                out@.len() == i,
                forall|k: int|
                    0 <= k < i ==> #[trigger] out@[k].x == net_force_x(
                        self.particles@,
                        k,
                        self.particles@.len(),
                    ),
                forall|k: int|
                    0 <= k < i ==> #[trigger] out@[k].y == net_force_y(
                        self.particles@,
                        k,
                        self.particles@.len(),
                    ),
            decreases n - i,
        {
            let mut acc_x: i128 = 0;
            let mut acc_y: i128 = 0;
            let mut j: usize = 0;
            while j < n
                invariant
                    n == self.particles@.len(),
                    n <= MAX_BODIES,
                    forall|k: int|
                        0 <= k < self.particles@.len() ==> particle_ok(
                            #[trigger] self.particles@[k],
                        ),
                    i < n,
                    j <= n,
                    acc_x == net_force_x(self.particles@, i as int, j as nat),
                    acc_y == net_force_y(self.particles@, i as int, j as nat),
                decreases n - j,
            {
                if j != i {
                    let f: Force = pair_force(&self.particles[i], &self.particles[j]);
                    proof {
                        lemma_net_force_bound(self.particles@, i as int, j as nat);
                        lemma_pair_force_bound(self.particles@[i as int], self.particles@[j as int]);
                        assert((j as int) * PAIR_FORCE_LIMIT + PAIR_FORCE_LIMIT <= (MAX_BODIES
                            as int) * PAIR_FORCE_LIMIT) by (nonlinear_arith)
                            requires
                                0 <= j < MAX_BODIES as int,
                        ;
                        assert((MAX_BODIES as int) * PAIR_FORCE_LIMIT
                            < 100_000_000_000_000_000_000_000_000_000_000_000_000int);
                    }
                    acc_x = acc_x + f.x;
                    acc_y = acc_y + f.y;
                }
                j += 1;
            }
            out.push(Force { x: acc_x, y: acc_y });
            i += 1;
        }
        out
    }
}

} // verus!
