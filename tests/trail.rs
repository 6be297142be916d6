use solar_sim::trail::{PointBits, Trail, TRAIL_LENGTH};

fn pt(x: f32, y: f32, z: f32) -> PointBits {
    (x.to_bits(), y.to_bits(), z.to_bits())
}

#[test]
fn new_trail_is_empty() {
    let t = Trail::new();
    assert_eq!(t.len(), 0);
    assert!(t.points().is_empty());
    assert_eq!(t.last_two(), None);
}

#[test]
fn first_point_is_appended_even_when_straight() {
    let mut t = Trail::new();
    t.record(pt(1.0, 2.0, 3.0), true);
    assert_eq!(t.points(), vec![pt(1.0, 2.0, 3.0)]);
    assert_eq!(t.last_two(), Some((pt(1.0, 2.0, 3.0), pt(1.0, 2.0, 3.0))));
}

#[test]
fn turning_path_appends() {
    let mut t = Trail::new();
    t.record(pt(0.0, 0.0, 0.0), false);
    t.record(pt(1.0, 0.0, 0.0), false);
    t.record(pt(1.0, 1.0, 0.0), false);
    assert_eq!(t.points(), vec![pt(0.0, 0.0, 0.0), pt(1.0, 0.0, 0.0), pt(1.0, 1.0, 0.0)]);
    assert_eq!(t.last_two(), Some((pt(1.0, 1.0, 0.0), pt(1.0, 0.0, 0.0))));
}

#[test]
fn straight_path_overwrites_newest() {
    let mut t = Trail::new();
    t.record(pt(0.0, 0.0, 0.0), false);
    t.record(pt(1.0, 0.0, 0.0), false);
    t.record(pt(2.0, 0.0, 0.0), true);
    assert_eq!(t.points(), vec![pt(0.0, 0.0, 0.0), pt(2.0, 0.0, 0.0)]);
    assert_eq!(t.len(), 2);
}

#[test]
fn trail_keeps_newest_points_in_order() {
    let mut t = Trail::new();
    let total: u32 = 1500;
    for i in 0..total {
        t.record(pt(i as f32, (i % 7) as f32, 0.5), false);
        assert!(t.len() <= TRAIL_LENGTH);
    }
    assert_eq!(t.len(), TRAIL_LENGTH);
    let expected: Vec<PointBits> = (total - TRAIL_LENGTH as u32..total)
        .map(|i| pt(i as f32, (i % 7) as f32, 0.5))
        .collect();
    assert_eq!(t.points(), expected);
}

#[test]
fn full_trail_overwrite_keeps_length() {
    let mut t = Trail::new();
    for i in 0..(TRAIL_LENGTH as u32) {
        t.record(pt(i as f32, 0.0, 0.0), false);
    }
    t.record(pt(-1.0, 0.0, 0.0), true);
    let p = t.points();
    assert_eq!(p.len(), TRAIL_LENGTH);
    assert_eq!(p[0], pt(0.0, 0.0, 0.0));
    assert_eq!(p[TRAIL_LENGTH - 1], pt(-1.0, 0.0, 0.0));
}

fn straight(last: PointBits, before: PointBits, p: PointBits) -> bool {
    let f = |b: PointBits| [f32::from_bits(b.0), f32::from_bits(b.1), f32::from_bits(b.2)];
    let (l, o, c) = (f(last), f(before), f(p));
    let u = [l[0] - c[0], l[1] - c[1], l[2] - c[2]];
    let v = [o[0] - c[0], o[1] - c[1], o[2] - c[2]];
    u[0] * v[0] + u[1] * v[1] + u[2] * v[2] > 1.48341872
}

#[test]
fn update_appends_small_steps_and_merges_long_straight_ones() {
    let mut t = Trail::new();
    t.update(pt(0.0, 0.0, 0.0), straight);
    t.update(pt(0.1, 0.0, 0.0), straight);
    assert_eq!(t.points(), vec![pt(0.0, 0.0, 0.0), pt(0.1, 0.0, 0.0)]);
    t.update(pt(5.0, 0.0, 0.0), straight);
    assert_eq!(t.points(), vec![pt(0.0, 0.0, 0.0), pt(5.0, 0.0, 0.0)]);
    t.update(pt(5.0, 0.5, 0.0), straight);
    assert_eq!(t.points(), vec![pt(0.0, 0.0, 0.0), pt(5.0, 0.0, 0.0), pt(5.0, 0.5, 0.0)]);
}
