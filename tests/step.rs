use solar_sim::step::{
    accumulate_forces, check_masses, integrate_bodies, interaction_pairs, semi_implicit_step,
    Kinematics,
};

type V3 = [f64; 3];

const G_SCALED: f64 = 6.67430e-11 * 86400.0 * 86400.0 * 1e-6 / (1.5 * 1.5 * 1.5);

fn plus(a: V3, b: V3) -> V3 {
    [a[0] + b[0], a[1] + b[1], a[2] + b[2]]
}

fn minus(a: V3, b: V3) -> V3 {
    [a[0] - b[0], a[1] - b[1], a[2] - b[2]]
}

fn scale(a: V3, t: f64) -> V3 {
    [a[0] * t, a[1] * t, a[2] * t]
}

fn per_mass(a: V3, m: f64) -> V3 {
    [a[0] / m, a[1] / m, a[2] / m]
}

fn length(a: V3) -> f64 {
    (a[0] * a[0] + a[1] * a[1] + a[2] * a[2]).sqrt()
}

/// The attraction on the body at `pb` (mass `mb`) towards the body at `pa`
/// (mass `ma`); zero for coincident positions.
fn gravity(pa: V3, ma: f64, pb: V3, mb: f64) -> V3 {
    let d = minus(pa, pb);
    let r2 = d[0] * d[0] + d[1] * d[1] + d[2] * d[2];
    if r2 == 0.0 {
        return [0.0; 3];
    }
    scale(d, G_SCALED * ma * mb / r2 / r2.sqrt())
}

fn forces(pos: &[V3], mass: &[f64]) -> Vec<V3> {
    accumulate_forces(pos.len(), [0.0; 3], |a: usize, b: usize| gravity(pos[a], mass[a], pos[b], mass[b]), plus, minus)
}

fn tick(bodies: &mut Vec<Kinematics<V3>>, mass: &Vec<f64>, paused: bool, dt: f64) {
    let pos: Vec<V3> = bodies.iter().map(|k| k.position).collect();
    let f = forces(&pos, mass);
    integrate_bodies(bodies, &f, mass, paused, dt, per_mass, plus, scale);
}

#[test]
fn no_pairs_for_a_lone_body() {
    assert!(interaction_pairs(0).is_empty());
    assert!(interaction_pairs(1).is_empty());
}

#[test]
fn pairs_in_visiting_order() {
    assert_eq!(interaction_pairs(2), vec![(0, 1)]);
    assert_eq!(interaction_pairs(4), vec![(0, 1), (0, 2), (1, 2), (0, 3), (1, 3), (2, 3)]);
}

#[test]
fn every_pair_once_for_twelve_bodies() {
    let p = interaction_pairs(12);
    assert_eq!(p.len(), 66);
    for a in 0..12 {
        for b in 0..12 {
            let n = p.iter().filter(|&&(x, y)| (x, y) == (a, b)).count();
            assert_eq!(n, if a < b { 1 } else { 0 });
        }
    }
}

#[test]
fn pair_forces_are_exact_negations() {
    let pos = [[1.0, 2.0, 3.0], [-4.0, 0.5, 2.0]];
    let mass = [3.0, 7.0];
    let f = forces(&pos, &mass);
    assert_eq!(f.len(), 2);
    assert_eq!(f[0], [-f[1][0], -f[1][1], -f[1][2]]);
    assert!(length(f[1]) > 0.0);
}

#[test]
fn three_bodies_sum_to_zero_force_per_pair() {
    let pos = [[0.0, 0.0, 0.0], [10.0, 0.0, 0.0], [0.0, 5.0, 0.0]];
    let mass = [1988500.0, 5.97219, 0.07346];
    let f = forces(&pos, &mass);
    let total = plus(plus(f[0], f[1]), f[2]);
    for c in 0..3 {
        assert!(total[c].abs() <= 1e-9 * length(f[0]));
    }
}

#[test]
fn force_magnitude_for_earth_like_pair() {
    let pos = [[0.0, 0.0, 0.0], [10.0, 0.0, 0.0]];
    let mass = [5.972, 1.0];
    let f = forces(&pos, &mass);
    let expected = G_SCALED * 5.972 * 1.0 / 100.0;
    assert!((length(f[1]) - expected).abs() <= 1e-12 * expected);
    assert!(f[1][0] < 0.0 && f[1][1] == 0.0 && f[1][2] == 0.0);
    assert!(f[0][0] > 0.0);
}

#[test]
fn coincident_bodies_feel_nothing() {
    let pos = [[2.0, 2.0, 2.0], [2.0, 2.0, 2.0]];
    let f = forces(&pos, &[1.0, 1.0]);
    assert_eq!(f, vec![[0.0; 3], [0.0; 3]]);
}

#[test]
fn lone_body_stays_put() {
    let mass = vec![5.97219];
    let start = Kinematics { position: [4.0, 7.0, 0.0], velocity: [0.0; 3] };
    let mut bodies = vec![start];
    assert_eq!(forces(&[start.position], &mass), vec![[0.0; 3]]);
    for _ in 0..100 {
        tick(&mut bodies, &mass, false, 0.25);
    }
    assert_eq!(bodies, vec![start]);
}

#[test]
fn velocity_is_updated_before_position() {
    let k = Kinematics { position: [1.0, 0.0, 0.0], velocity: [1.0, 0.0, -1.0] };
    let r = semi_implicit_step(k, [2.0, 4.0, 0.0], 0.5, &plus, &scale);
    assert_eq!(r.velocity, [2.0, 2.0, -1.0]);
    assert_eq!(r.position, [2.0, 1.0, -0.5]);
}

#[test]
fn momentum_is_conserved_for_two_bodies() {
    let mass = vec![1988500.0, 5.97219];
    let mut bodies = vec![
        Kinematics { position: [0.0; 3], velocity: [0.0; 3] },
        Kinematics { position: [4.4877, 8.7512, 0.0016], velocity: [-0.15528, 0.07906, 0.0] },
    ];
    let momentum = |b: &Vec<Kinematics<V3>>| plus(scale(b[0].velocity, mass[0]), scale(b[1].velocity, mass[1]));
    let before = momentum(&bodies);
    for _ in 0..1000 {
        tick(&mut bodies, &mass, false, 0.1);
    }
    let after = momentum(&bodies);
    for c in 0..3 {
        assert!((after[c] - before[c]).abs() <= 1e-9);
    }
    assert_ne!(bodies[1].position, [4.4877, 8.7512, 0.0016]);
}

#[test]
fn paused_ticks_change_nothing() {
    let mass = vec![1988500.0, 5.97219];
    let start = vec![
        Kinematics { position: [0.0; 3], velocity: [0.0; 3] },
        Kinematics { position: [10.0, 0.0, 0.0], velocity: [0.0, 0.17, 0.0] },
    ];
    let mut bodies = start.clone();
    for _ in 0..50 {
        tick(&mut bodies, &mass, true, 1.0);
    }
    assert_eq!(bodies, start);
}

fn positive(m: f64) -> bool {
    m > 0.0 && m.is_finite()
}

#[test]
fn masses_all_positive() {
    assert_eq!(check_masses(&vec![1988500.0, 5.97219, 4.4e-22], positive), Ok(()));
    assert_eq!(check_masses(&Vec::<f64>::new(), positive), Ok(()));
}

#[test]
fn first_bad_mass_is_named() {
    assert_eq!(check_masses(&vec![1.0, 0.0, -3.0], positive), Err(1));
    assert_eq!(check_masses(&vec![-1.0], positive), Err(0));
    assert_eq!(check_masses(&vec![2.0, f64::NAN], positive), Err(1));
}
