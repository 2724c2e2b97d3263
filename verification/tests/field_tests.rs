use gravity_sim::particle::{Force, Particle, ParticleSet, isqrt, pair_force};
use gravity_sim::vec2::Vec2;

fn particle(x: i64, y: i64, mass: i64) -> Particle {
    Particle::new(Vec2::new(x, y), mass)
}

#[test]
fn isqrt_small_values() {
    assert_eq!(isqrt(0), 0);
    assert_eq!(isqrt(1), 1);
    assert_eq!(isqrt(3), 1);
    assert_eq!(isqrt(4), 2);
    assert_eq!(isqrt(8), 2);
    assert_eq!(isqrt(9), 3);
    assert_eq!(isqrt(1_000_000_000_000), 1_000_000);
}

#[test]
fn isqrt_large_values() {
    assert_eq!(isqrt(8_999_999_999_999_999_999), 2_999_999_999);
    let n: u64 = 2_999_999_999;
    assert_eq!(isqrt(n * n), n);
    assert_eq!(isqrt(n * n - 1), n - 1);
}

#[test]
fn unit_masses_one_unit_apart() {
    // Two unit masses one world unit apart: the force is exactly the
    // amplified gravitational constant, along +x for the left body.
    let p = particle(0, 0, 1_000_000);
    let q = particle(1_000_000, 0, 1_000_000);
    let f = pair_force(&p, &q);
    assert_eq!(f.x, 2_669_720);
    assert_eq!(f.y, 0);
}

#[test]
fn force_follows_inverse_square() {
    // Doubling the distance quarters the force, exactly in this grid.
    let p = particle(0, 0, 1_000_000);
    let q = particle(2_000_000, 0, 1_000_000);
    let f = pair_force(&p, &q);
    assert_eq!(f.x, 667_430);
    assert_eq!(f.y, 0);
}

#[test]
fn mutual_forces_are_opposite() {
    // Newton's third law on an asymmetric pair, component by component.
    let p = particle(-123_456, 789_123, 5_000_000);
    let q = particle(1_000_000, -456_789, 17_000_000);
    let fpq = pair_force(&p, &q);
    let fqp = pair_force(&q, &p);
    assert_eq!(fpq.x, -fqp.x);
    assert_eq!(fpq.y, -fqp.y);
    assert!(fpq.x != 0 || fpq.y != 0);
}

#[test]
fn coincident_pair_contributes_zero() {
    // The exact-coincidence guard: same position, masses notwithstanding.
    let p = particle(42, -17, 1_000_000_000);
    let q = particle(42, -17, 1_000_000_000);
    let f = pair_force(&p, &q);
    assert_eq!(f.x, 0);
    assert_eq!(f.y, 0);
}

#[test]
fn single_body_feels_nothing() {
    let mut set = ParticleSet::new();
    set.add(particle(123_456, -654_321, 999_999_999));
    let forces = set.get_forces();
    assert_eq!(forces.len(), 1);
    assert_eq!(forces[0], Force { x: 0, y: 0 });
}

#[test]
fn empty_set_has_no_forces() {
    let set = ParticleSet::new();
    let forces = set.get_forces();
    assert_eq!(forces.len(), 0);
}

#[test]
fn two_body_field_matches_pair_force() {
    let p = particle(0, 0, 1_000_000);
    let q = particle(1_000_000, 0, 1_000_000);
    let mut set = ParticleSet::new();
    set.add(p);
    set.add(q);
    let forces = set.get_forces();
    assert_eq!(forces.len(), 2);
    assert_eq!(forces[0], pair_force(&p, &q));
    assert_eq!(forces[1], pair_force(&q, &p));
}

#[test]
fn three_body_field_sums_contributions() {
    let a = particle(0, 0, 1_000_000);
    let b = particle(1_000_000, 0, 1_000_000);
    let c = particle(-1_000_000, 0, 1_000_000);
    let mut set = ParticleSet::new();
    set.add(a);
    set.add(b);
    set.add(c);
    let forces = set.get_forces();
    assert_eq!(forces.len(), 3);
    let fab = pair_force(&a, &b);
    let fac = pair_force(&a, &c);
    assert_eq!(forces[0].x, fab.x + fac.x);
    assert_eq!(forces[0].y, fab.y + fac.y);
    // The middle body is pulled equally both ways.
    assert_eq!(forces[0].x, 0);
    assert_eq!(forces[0].y, 0);
}

#[test]
fn total_momentum_change_cancels() {
    // Summed over all bodies, the field forces cancel exactly.
    let bodies = [
        particle(0, 0, 1_000_000),
        particle(1_000_000, 250_000, 2_000_000),
        particle(-750_000, 333_333, 3_141_592),
        particle(10_000, -999_999, 123_456),
    ];
    let mut set = ParticleSet::new();
    for b in bodies.iter() {
        set.add(*b);
    }
    let forces = set.get_forces();
    let sum_x: i128 = forces.iter().map(|f| f.x).sum();
    let sum_y: i128 = forces.iter().map(|f| f.y).sum();
    assert_eq!(sum_x, 0);
    assert_eq!(sum_y, 0);
}
