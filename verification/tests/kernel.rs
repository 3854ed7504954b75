use nbody::sim::{
    advance, advance_once, compute_energy, offset_momentum, pair_list, BodiesAdvance, System,
    BODIES_COUNT, INTERACTIONS,
};
use nbody::triple::Triple;

fn f(b: u64) -> f64 {
    f64::from_bits(b)
}

fn round12(x: f64) -> f64 {
    (x * 1e12).round() / 1e12
}

fn energy_f64(s: &System) -> f64 {
    f(compute_energy(s))
}

/// The hardware-IEEE replica of the energy fold, for cross-checking the
/// software floating point behind the library.
fn energy_by_hand(s: &System) -> f64 {
    let mut e = 0.0f64;
    for i in 0..BODIES_COUNT {
        let b1 = s.body(i);
        let v = b1.velocity;
        e += 0.5 * f(b1.mass) * (f(v.0) * f(v.0) + f(v.1) * f(v.1) + f(v.2) * f(v.2));
        for j in i + 1..BODIES_COUNT {
            let b2 = s.body(j);
            let dx = f(b1.position.0) - f(b2.position.0);
            let dy = f(b1.position.1) - f(b2.position.1);
            let dz = f(b1.position.2) - f(b2.position.2);
            e -= f(b1.mass) * f(b2.mass) / (dx * dx + dy * dy + dz * dz).sqrt();
        }
    }
    e
}

#[test]
fn compare() {
    let mut a = System::new();
    let mut b = System::new();
    let mut c = System::new();
    let mut sim = BodiesAdvance::new();

    offset_momentum(&mut a);
    offset_momentum(&mut b);
    offset_momentum(&mut c);

    for _ in 0..1000 {
        let ea = round12(energy_f64(&a));
        let eb = round12(energy_f64(&b));
        let ec = round12(energy_f64(&c));
        assert_eq!(ea, eb);
        assert_eq!(ea, ec);
        advance_once(&mut a);
        sim.advance(&mut b);
        advance(&mut c, 1);
    }
}

#[test]
fn momentum_zero_after_offset() {
    let mut s = System::new();
    offset_momentum(&mut s);
    let mut px = 0.0f64;
    let mut py = 0.0f64;
    let mut pz = 0.0f64;
    for i in 0..BODIES_COUNT {
        let b = s.body(i);
        px += f(b.mass) * f(b.velocity.0);
        py += f(b.mass) * f(b.velocity.1);
        pz += f(b.mass) * f(b.velocity.2);
    }
    assert!(px.abs() < 1e-12);
    assert!(py.abs() < 1e-12);
    assert!(pz.abs() < 1e-12);
}

#[test]
fn multi_step_matches_repeated_single_steps() {
    let mut a = System::new();
    let mut b = System::new();
    offset_momentum(&mut a);
    offset_momentum(&mut b);

    advance(&mut a, 1000);
    for _ in 0..1000 {
        advance_once(&mut b);
    }

    for i in 0..BODIES_COUNT {
        let ba = a.body(i);
        let bb = b.body(i);
        assert_eq!(ba.position, bb.position);
        assert_eq!(ba.velocity, bb.velocity);
        assert_eq!(ba.mass, bb.mass);
    }
    assert_eq!(compute_energy(&a), compute_energy(&b));
}

#[test]
fn energy_drift_bounded() {
    let mut s = System::new();
    offset_momentum(&mut s);
    let e0 = energy_f64(&s);
    advance(&mut s, 1000);
    let e1 = energy_f64(&s);
    assert!((e1 - e0).abs() < 1e-4);
    // golden value after 1000 steps
    assert_eq!(round12(e1), -0.169087605235);
}

#[test]
fn golden_initial_energy() {
    let mut s = System::new();
    offset_momentum(&mut s);
    assert_eq!(round12(energy_f64(&s)), -0.169075163829);
}

#[test]
fn sun_position_after_first_step() {
    let mut s = System::new();
    offset_momentum(&mut s);
    advance_once(&mut s);
    // The sun starts at the origin, so after one step its position is exactly
    // its newly kicked velocity times dt, in hardware IEEE arithmetic too.
    let sun = s.body(0);
    assert_eq!(f(sun.position.0), f(sun.velocity.0) * 0.01);
    assert_eq!(f(sun.position.1), f(sun.velocity.1) * 0.01);
    assert_eq!(f(sun.position.2), f(sun.velocity.2) * 0.01);
    assert!(f(sun.position.0) != 0.0);
    // golden values for the canonical first step
    assert_eq!(sun.position.0, 0xBECF2DC243B2D251);
    assert_eq!(sun.position.1, 0xBF01302A0A640563);
    assert_eq!(sun.position.2, 0x3E8FA016FCEF4181);
}

#[test]
fn zero_steps_leave_the_state_unchanged() {
    let mut a = System::new();
    let b = System::new();
    offset_momentum(&mut a);
    let before = compute_energy(&a);
    advance(&mut a, 0);
    assert_eq!(compute_energy(&a), before);
    let mut c = System::new();
    advance(&mut c, 0);
    for i in 0..BODIES_COUNT {
        assert_eq!(c.body(i).position, b.body(i).position);
        assert_eq!(c.body(i).velocity, b.body(i).velocity);
        assert_eq!(c.body(i).mass, b.body(i).mass);
    }
}

#[test]
fn pair_enumeration_is_the_ten_unordered_pairs() {
    assert_eq!(BODIES_COUNT, 5);
    assert_eq!(INTERACTIONS, 10);
    let ps = pair_list();
    let expected = vec![
        (0, 1), (0, 2), (0, 3), (0, 4),
        (1, 2), (1, 3), (1, 4),
        (2, 3), (2, 4),
        (3, 4),
    ];
    assert_eq!(ps, expected);
}

#[test]
fn triple_ops_match_hardware_ieee() {
    let a = Triple(
        (4.841431442464721f64).to_bits(),
        (-1.1603200440274284f64).to_bits(),
        (-0.10362204447112311f64).to_bits(),
    );
    let b = Triple(
        (8.34336671824458f64).to_bits(),
        (4.124798564124305f64).to_bits(),
        (-0.4035234171143214f64).to_bits(),
    );
    let n = (0.01f64).to_bits();

    let sum = a.add(b);
    assert_eq!(f(sum.0), f(a.0) + f(b.0));
    assert_eq!(f(sum.1), f(a.1) + f(b.1));
    assert_eq!(f(sum.2), f(a.2) + f(b.2));

    let diff = a.sub(b);
    assert_eq!(f(diff.0), f(a.0) - f(b.0));
    assert_eq!(f(diff.1), f(a.1) - f(b.1));
    assert_eq!(f(diff.2), f(a.2) - f(b.2));

    let scaled = a.scale(n);
    assert_eq!(f(scaled.0), f(a.0) * 0.01);
    assert_eq!(f(scaled.1), f(a.1) * 0.01);
    assert_eq!(f(scaled.2), f(a.2) * 0.01);

    let ss = a.sum_squared();
    assert_eq!(f(ss), f(a.0) * f(a.0) + f(a.1) * f(a.1) + f(a.2) * f(a.2));
}

#[test]
fn offset_momentum_matches_hardware_ieee() {
    let init = System::new();
    let solar_mass = f(init.body(0).mass);
    let mut vx = 0.0f64;
    let mut vy = 0.0f64;
    let mut vz = 0.0f64;
    for i in 1..BODIES_COUNT {
        let b = init.body(i);
        let s = f(b.mass) / solar_mass;
        vx -= f(b.velocity.0) * s;
        vy -= f(b.velocity.1) * s;
        vz -= f(b.velocity.2) * s;
    }

    let mut sys = System::new();
    offset_momentum(&mut sys);
    let sun = sys.body(0);
    assert_eq!(sun.velocity.0, vx.to_bits());
    assert_eq!(sun.velocity.1, vy.to_bits());
    assert_eq!(sun.velocity.2, vz.to_bits());
    // only the sun's velocity changed
    for i in 1..BODIES_COUNT {
        assert_eq!(sys.body(i).position, init.body(i).position);
        assert_eq!(sys.body(i).velocity, init.body(i).velocity);
    }
    assert_eq!(sys.body(0).position, init.body(0).position);
}

#[test]
fn energy_matches_hardware_ieee() {
    let mut s = System::new();
    offset_momentum(&mut s);
    assert_eq!(energy_f64(&s).to_bits(), energy_by_hand(&s).to_bits());
    advance_once(&mut s);
    assert_eq!(energy_f64(&s).to_bits(), energy_by_hand(&s).to_bits());
}
