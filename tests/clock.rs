use solar_sim::clock::SimClock;

fn times(a: f64, b: f64) -> f64 {
    a * b
}

fn plus(a: f64, b: f64) -> f64 {
    a + b
}

#[test]
fn clock_starts_running_at_unit_speed() {
    let c = SimClock::new(0.0, 1.0);
    assert_eq!(c, SimClock { speed: 1.0, paused: false, elapsed: 0.0 });
}

#[test]
fn tick_scales_real_time_by_speed() {
    let mut c = SimClock::new(0.0, 1.0);
    c.speed = 20.0;
    let dt = c.tick(0.25, times, plus);
    assert_eq!(dt, 5.0);
    assert_eq!(c.elapsed, 5.0);
    c.tick(0.5, times, plus);
    assert_eq!(c.elapsed, 15.0);
}

#[test]
fn paused_clock_does_not_advance() {
    let mut c = SimClock::new(0.0, 1.0);
    c.tick(1.0, times, plus);
    c.set_paused(true);
    for _ in 0..10 {
        let dt = c.tick(1.0, times, plus);
        assert_eq!(dt, 1.0);
    }
    assert_eq!(c.elapsed, 1.0);
    c.set_paused(false);
    c.tick(2.0, times, plus);
    assert_eq!(c.elapsed, 3.0);
}

#[test]
fn reset_restores_start() {
    let mut c = SimClock::new(0.0, 1.0);
    c.speed = 0.01;
    c.set_paused(true);
    c.elapsed = 42.0;
    c.reset(0.0, 1.0);
    assert_eq!(c, SimClock::new(0.0, 1.0));
}
