use vehicle_control::pid::{Pid, DEFAULT_INTEGRAL_LIMIT};

#[test]
fn new_controller_is_at_rest() {
    let pid = Pid::new(3000, 0, 200);
    assert_eq!(pid.cum_error(), 0);
    assert_eq!(pid.last_error(), 0);
}

#[test]
fn update_adds_the_three_terms() {
    let mut pid = Pid::new(2000, 500, 100);
    // error 1.0 for 10 ms: P = 2.0, I = 0.5 * 0.01, D = 0.1 * 100
    assert_eq!(pid.update(1000, 0, 10), 12005);
    assert_eq!(pid.cum_error(), 10_000);
    assert_eq!(pid.last_error(), 1000);
    // same error again: the derivative term is gone, the integral has doubled
    assert_eq!(pid.update(1000, 0, 10), 2010);
    assert_eq!(pid.cum_error(), 20_000);
}

#[test]
fn update_with_negative_error_mirrors() {
    let mut pid = Pid::new(2000, 500, 100);
    assert_eq!(pid.update(0, 1000, 10), -12005);
    assert_eq!(pid.cum_error(), -10_000);
    assert_eq!(pid.update(-500, 500, 10), -2010);
}

#[test]
fn proportional_only() {
    let mut pid = Pid::new(3000, 0, 0);
    assert_eq!(pid.update(200, -100, 20), 900);
    assert_eq!(pid.update(0, 0, 20), 0);
    assert_eq!(pid.update(1, 0, 20), 3);
    assert_eq!(pid.update(0, 1, 20), -3);
}

#[test]
fn zero_duration_skips_integral_and_derivative() {
    let mut pid = Pid::new(1000, 1000, 1000);
    assert_eq!(pid.update(100, 0, 1000), 100 + 100 + 100);
    assert_eq!(pid.cum_error(), 100_000);
    assert_eq!(pid.last_error(), 100);
    // no time has passed: only P and the integral as it stands
    assert_eq!(pid.update(500, 0, 0), 500 + 100);
    assert_eq!(pid.cum_error(), 100_000);
    assert_eq!(pid.last_error(), 100);
}

#[test]
fn integral_is_bounded() {
    let mut pid = Pid::with_limit(0, 1000, 0, 25_000);
    let mut seen = Vec::new();
    for _ in 0..5 {
        pid.update(1000, 0, 10);
        seen.push(pid.cum_error());
    }
    assert_eq!(seen, vec![10_000, 20_000, 25_000, 25_000, 25_000]);
    let mut pid = Pid::with_limit(0, 1000, 0, 25_000);
    let mut seen = Vec::new();
    for _ in 0..4 {
        pid.update(-1000, 0, 10);
        seen.push(pid.cum_error());
    }
    assert_eq!(seen, vec![-10_000, -20_000, -25_000, -25_000]);
}

#[test]
fn integral_grows_monotonically_under_constant_error() {
    for error in [-700, -1, 0, 1, 450] {
        let mut pid = Pid::with_limit(100, 100, 100, 1_000_000);
        let mut last: i64 = 0;
        for _ in 0..200 {
            pid.update(error, 0, 25);
            let now = pid.cum_error();
            assert!(now.abs() >= last.abs());
            assert!(now.abs() <= 1_000_000);
            last = now;
        }
    }
}

#[test]
fn default_bound_holds_under_extreme_input() {
    let mut pid = Pid::new(i32::MAX, i32::MAX, i32::MAX);
    assert_eq!(pid.update(i32::MAX, i32::MIN, u32::MAX), i32::MAX);
    assert_eq!(pid.cum_error(), DEFAULT_INTEGRAL_LIMIT);
    assert_eq!(pid.update(i32::MIN, i32::MAX, u32::MAX), i32::MIN);
    assert_eq!(pid.cum_error(), -DEFAULT_INTEGRAL_LIMIT);
    assert_eq!(pid.update(i32::MIN, i32::MAX, 1), i32::MIN);
}

#[test]
fn negative_limit_counts_as_zero() {
    let mut pid = Pid::with_limit(0, 1000, 0, -5);
    assert_eq!(pid.update(1000, 0, 1000), 0);
    assert_eq!(pid.cum_error(), 0);
}

#[test]
fn derivative_rounds_toward_zero() {
    let mut pid = Pid::new(0, 0, 1000);
    // change of 10 over 3 ms: 3333 per second
    assert_eq!(pid.update(10, 0, 3), 3333);
    // change of -20 over 3 ms: -6666 per second
    assert_eq!(pid.update(-10, 0, 3), -6666);
}

#[test]
fn reset_clears_integral_and_remembered_error() {
    let mut pid = Pid::new(2000, 500, 100);
    let first = pid.update(1000, 0, 10);
    pid.update(900, 0, 10);
    pid.reset();
    assert_eq!(pid.cum_error(), 0);
    assert_eq!(pid.last_error(), 0);
    assert_eq!(pid.update(1000, 0, 10), first);
}
