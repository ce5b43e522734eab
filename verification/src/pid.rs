//! One PID controller per axis, in fixed-point arithmetic, with a bounded integral.
//!
//! Errors and gains are thousandths, durations are milliseconds. The
//! integral is kept exactly, as the sum of `error * duration`, and limited
//! to a configured bound after every step.

use vstd::prelude::*;
use crate::fixed::{clamp, clamp_i128, magnitude, trunc_div};

verus! {

/// Bound of the integral of a controller made by [`Pid::new`]: an error of
/// 1.0 held for ten seconds.
pub const DEFAULT_INTEGRAL_LIMIT: i64 = 10_000_000;

/// The integral after one step: the old one plus `error * duration`, limited to `limit`.
pub open spec fn integrate(cum_error: int, error: int, duration: int, limit: int) -> int {
    clamp(cum_error + error * duration, -limit, limit)
}

/// The change of the error per second over one step of `duration` milliseconds.
pub open spec fn error_rate(error: int, last_error: int, duration: int) -> int
    recommends
        duration > 0,
{
    trunc_div((error - last_error) * 1000, duration)
}

/// The correction for an error, an integral and an error rate: the three
/// terms weighted by their gains, scaled back to thousandths and limited to
/// what 32 bits hold.
pub open spec fn correction(kp: int, ki: int, kd: int, error: int, cum_error: int, rate: int) -> int {
    clamp(
        trunc_div(error * kp + trunc_div(cum_error * ki, 1000) + rate * kd, 1000),
        i32::MIN as int,
        i32::MAX as int,
    )
}

/// The integral after `steps` steps with the same error and duration.
pub open spec fn integral_after(
    start: int,
    error: int,
    duration: int,
    limit: int,
    steps: nat,
) -> int
    decreases steps,
{
    if steps == 0 {
        start
    } else {
        integrate(
            integral_after(start, error, duration, limit, (steps - 1) as nat),
            error,
            duration,
            limit,
        )
    }
}

/// A PID controller for one axis.
pub struct Pid {
    kp: i32,
    ki: i32,
    kd: i32,
    last_error: i64,
    cum_error: i64,
    limit: i64,
}

impl Pid {
    #[verifier::type_invariant]
    spec fn sound(&self) -> bool {
        &&& 0 <= self.limit
        &&& -self.limit <= self.cum_error <= self.limit
        &&& -0x1_0000_0000 <= self.last_error <= 0x1_0000_0000
    }

    /// The proportional gain.
    pub closed spec fn kp(&self) -> int {
        self.kp as int
    }

    /// The integral gain.
    pub closed spec fn ki(&self) -> int {
        self.ki as int
    }

    /// The derivative gain.
    pub closed spec fn kd(&self) -> int {
        self.kd as int
    }

    /// The error of the last step that had a duration.
    pub closed spec fn previous(&self) -> int {
        self.last_error as int
    }

    /// The integral accumulator.
    pub closed spec fn integral(&self) -> int {
        self.cum_error as int
    }

    /// The bound of the integral accumulator.
    pub closed spec fn bound(&self) -> int {
        self.limit as int
    }

    /// The integral after a step with the given error and duration.
    pub open spec fn next_integral(&self, error: int, duration: int) -> int {
        if duration > 0 {
            integrate(self.integral(), error, duration, self.bound())
        } else {
            self.integral()
        }
    }

    /// The correction that a step with the given error and duration returns.
    pub open spec fn response(&self, error: int, duration: int) -> int {
        correction(
            self.kp(),
            self.ki(),
            self.kd(),
            error,
            self.next_integral(error, duration),
            if duration > 0 {
                error_rate(error, self.previous(), duration)
            } else {
                0
            },
        )
    }

    /// The controller after a step with the given error and duration.
    pub closed spec fn stepped(&self, error: int, duration: int) -> Pid {
        Pid {
            kp: self.kp,
            ki: self.ki,
            kd: self.kd,
            last_error: if duration > 0 {
                error as i64
            } else {
                self.last_error
            },
            cum_error: self.next_integral(error, duration) as i64,
            limit: self.limit,
        }
    }

    /// What a step keeps and what it changes.
    pub proof fn lemma_stepped(&self, error: int, duration: int)
        requires
            -0x1_0000_0000 <= error <= 0x1_0000_0000,
            0 <= self.bound(),
            magnitude(self.integral()) <= self.bound(),
        ensures
            self.stepped(error, duration).kp() == self.kp(),
            self.stepped(error, duration).ki() == self.ki(),
            self.stepped(error, duration).kd() == self.kd(),
            self.stepped(error, duration).bound() == self.bound(),
            self.stepped(error, duration).integral() == self.next_integral(error, duration),
            magnitude(self.stepped(error, duration).integral()) <= self.bound(),
            self.stepped(error, duration).previous() == if duration > 0 {
                error
            } else {
                self.previous()
            },
    {
    }

    /// A controller at rest with the default bound on its integral.
    pub fn new(kp: i32, ki: i32, kd: i32) -> (pid: Pid)
        ensures
            pid.kp() == kp,
            pid.ki() == ki,
            pid.kd() == kd,
            pid.previous() == 0,
            pid.integral() == 0,
            pid.bound() == DEFAULT_INTEGRAL_LIMIT,
    {
        Pid { kp, ki, kd, last_error: 0, cum_error: 0, limit: DEFAULT_INTEGRAL_LIMIT }
    }

    /// A controller at rest whose integral never leaves the interval from
    /// `-limit` to `limit`. A negative `limit` counts as zero.
    pub fn with_limit(kp: i32, ki: i32, kd: i32, limit: i64) -> (pid: Pid)
        ensures
            pid.kp() == kp,
            pid.ki() == ki,
            pid.kd() == kd,
            pid.previous() == 0,
            pid.integral() == 0,
            pid.bound() == if limit < 0 {
                0
            } else {
                limit as int
            },
    {
        let limit: i64 = if limit < 0 {
            0
        } else {
            limit
        };
        Pid { kp, ki, kd, last_error: 0, cum_error: 0, limit }
    }

    /// Brings the controller back to rest, as when the vehicle is armed:
    /// the integral and the remembered error are cleared, gains and bound stay.
    pub fn reset(&mut self)
        ensures
            final(self).kp() == old(self).kp(),
            final(self).ki() == old(self).ki(),
            final(self).kd() == old(self).kd(),
            final(self).bound() == old(self).bound(),
            final(self).previous() == 0,
            final(self).integral() == 0,
    {
        proof {
            use_type_invariant(&*self);
        }
        self.last_error = 0;
        self.cum_error = 0;
    }

    /// The integral accumulator; its magnitude never exceeds the bound.
    pub fn cum_error(&self) -> (cum: i64)
        ensures
            cum == self.integral(),
            magnitude(cum as int) <= self.bound(),
    {
        proof {
            use_type_invariant(self);
        }
        self.cum_error
    }

    /// The error of the last step that had a duration.
    pub fn last_error(&self) -> (last: i64)
        ensures
            last == self.previous(),
    {
        self.last_error
    }

    /// Advances the controller by one step and returns the correction.
    ///
    /// The error is `target_error - actual_error`. With a duration above
    /// zero the integral grows by `error * duration` and is limited to the
    /// bound, and the derivative term is built from the change of the error.
    /// With a duration of zero neither the integral nor the remembered error
    /// changes and the derivative term is left out.
    pub fn update(&mut self, target_error: i32, actual_error: i32, duration: u32) -> (out: i32)
        ensures
            *final(self) == old(self).stepped(target_error - actual_error, duration as int),
            out == old(self).response(target_error - actual_error, duration as int),
            final(self).kp() == old(self).kp(),
            final(self).ki() == old(self).ki(),
            final(self).kd() == old(self).kd(),
            final(self).bound() == old(self).bound(),
            0 <= final(self).bound(),
            magnitude(final(self).integral()) <= final(self).bound(),
            duration > 0 ==> {
                &&& final(self).integral() == integrate(
                    old(self).integral(),
                    target_error - actual_error,
                    duration as int,
                    old(self).bound(),
                )
                &&& final(self).previous() == target_error - actual_error
                &&& out == correction(
                    old(self).kp(),
                    old(self).ki(),
                    old(self).kd(),
                    target_error - actual_error,
                    final(self).integral(),
                    error_rate(
                        target_error - actual_error,
                        old(self).previous(),
                        duration as int,
                    ),
                )
            },
            duration == 0 ==> {
                &&& final(self).integral() == old(self).integral()
                &&& final(self).previous() == old(self).previous()
                &&& out == correction(
                    old(self).kp(),
                    old(self).ki(),
                    old(self).kd(),
                    target_error - actual_error,
                    old(self).integral(),
                    0,
                )
            },
    {
        proof {
            use_type_invariant(&*self);
        }
        let error: i64 = target_error as i64 - actual_error as i64;
        let mut rate: i128 = 0;
        if duration > 0 {
            assert(-0x1_0000_0000 * 0x1_0000_0000 <= error * duration <= 0x1_0000_0000
                * 0x1_0000_0000) by (nonlinear_arith)
                requires
                    -0x1_0000_0000 <= error <= 0x1_0000_0000,
                    0 <= duration <= 0x1_0000_0000,
            ;
            let step: i128 = error as i128 * duration as i128;
            let change: i128 = (error - self.last_error) as i128 * 1000;
            rate = change / (duration as i128);
            proof {
                assert(rate == error_rate(error as int, self.last_error as int, duration as int));
                lemma_rate_bounded(change as int, duration as int);
            }
            self.cum_error = clamp_i128(self.cum_error as i128 + step, -self.limit, self.limit);
            self.last_error = error;
        }
        let gain_p: i128 = self.kp as i128;
        let gain_i: i128 = self.ki as i128;
        let gain_d: i128 = self.kd as i128;
        let wide_error: i128 = error as i128;
        let wide_cum: i128 = self.cum_error as i128;
        assert(-0x1_0000_0000 * 0x8000_0000 <= wide_error * gain_p <= 0x1_0000_0000 * 0x8000_0000)
            by (nonlinear_arith)
            requires
                -0x1_0000_0000 <= wide_error <= 0x1_0000_0000,
                -0x8000_0000 <= gain_p <= 0x8000_0000,
        ;
        assert(-0x8000_0000_0000_0000 * 0x8000_0000 <= wide_cum * gain_i <= 0x8000_0000_0000_0000
            * 0x8000_0000) by (nonlinear_arith)
            requires
                -0x8000_0000_0000_0000 <= wide_cum <= 0x8000_0000_0000_0000,
                -0x8000_0000 <= gain_i <= 0x8000_0000,
        ;
        assert(-0x1_0000_0000_0000 * 0x8000_0000 <= rate * gain_d <= 0x1_0000_0000_0000
            * 0x8000_0000) by (nonlinear_arith)
            requires
                -0x1_0000_0000_0000 <= rate <= 0x1_0000_0000_0000,
                -0x8000_0000 <= gain_d <= 0x8000_0000,
        ;
        let total: i128 = wide_error * gain_p + (wide_cum * gain_i) / 1000 + rate * gain_d;
        let scaled: i128 = total / 1000;
        clamp_i128(scaled, i32::MIN as i64, i32::MAX as i64) as i32
    }
}

/// An error rate is no larger in magnitude than the change it is built from.
proof fn lemma_rate_bounded(change: int, duration: int)
    requires
        duration > 0,
        -0x1_0000_0000_0000 <= change <= 0x1_0000_0000_0000,
    ensures
        -0x1_0000_0000_0000 <= trunc_div(change, duration) <= 0x1_0000_0000_0000,
{
    if change >= 0 {
        vstd::arithmetic::div_mod::lemma_div_pos_is_pos(change, duration);
        vstd::arithmetic::div_mod::lemma_div_is_ordered_by_denominator(change, 1, duration);
    } else {
        vstd::arithmetic::div_mod::lemma_div_pos_is_pos(-change, duration);
        vstd::arithmetic::div_mod::lemma_div_is_ordered_by_denominator(-change, 1, duration);
    }
}

/// One step with an error that does not pull against the integral never
/// shrinks the integral's magnitude, keeps its direction, and keeps it
/// inside the bound.
pub proof fn lemma_integrate_grows(cum_error: int, error: int, duration: int, limit: int)
    requires
        0 <= duration,
        0 <= limit,
        magnitude(cum_error) <= limit,
        (cum_error >= 0 && error >= 0) || (cum_error <= 0 && error <= 0),
    ensures
        magnitude(integrate(cum_error, error, duration, limit)) >= magnitude(cum_error),
        magnitude(integrate(cum_error, error, duration, limit)) <= limit,
        cum_error >= 0 && error >= 0 ==> integrate(cum_error, error, duration, limit) >= 0,
        cum_error <= 0 && error <= 0 ==> integrate(cum_error, error, duration, limit) <= 0,
        magnitude(cum_error + error * duration) <= limit ==> integrate(
            cum_error,
            error,
            duration,
            limit,
        ) == cum_error + error * duration,
{
    if error >= 0 {
        assert(error * duration >= 0) by (nonlinear_arith)
            requires
                error >= 0,
                duration >= 0,
        ;
    } else {
        assert(error * duration <= 0) by (nonlinear_arith)
            requires
                error <= 0,
                duration >= 0,
        ;
    }
}

/// Under a constant error and a constant duration, starting from an empty
/// integral, the magnitude of the integral never shrinks from one step to
/// the next and never exceeds the bound; while the bound is not reached it
/// is the exact sum of the steps.
pub proof fn lemma_constant_error_accumulates(error: int, duration: int, limit: int, steps: nat)
    requires
        0 <= duration,
        0 <= limit,
    ensures
        magnitude(integral_after(0, error, duration, limit, steps)) <= magnitude(
            integral_after(0, error, duration, limit, steps + 1),
        ) <= limit,
        error >= 0 ==> integral_after(0, error, duration, limit, steps) >= 0,
        error <= 0 ==> integral_after(0, error, duration, limit, steps) <= 0,
        magnitude(steps * (error * duration)) <= limit ==> integral_after(
            0,
            error,
            duration,
            limit,
            steps,
        ) == steps * (error * duration),
    decreases steps,
{
    let now = integral_after(0, error, duration, limit, steps);
    if steps > 0 {
        let before = (steps - 1) as nat;
        lemma_constant_error_accumulates(error, duration, limit, before);
        lemma_integrate_grows(
            integral_after(0, error, duration, limit, before),
            error,
            duration,
            limit,
        );
        let step = error * duration;
        assert(steps * step == before * step + step) by (nonlinear_arith)
            requires
                steps == before + 1,
        ;
        if error >= 0 {
            assert(step >= 0) by (nonlinear_arith)
                requires
                    step == error * duration,
                    error >= 0,
                    duration >= 0,
            ;
            assert(before * step >= 0) by (nonlinear_arith)
                requires
                    step >= 0,
                    before >= 0,
            ;
        } else {
            assert(step <= 0) by (nonlinear_arith)
                requires
                    step == error * duration,
                    error <= 0,
                    duration >= 0,
            ;
            assert(before * step <= 0) by (nonlinear_arith)
                requires
                    step <= 0,
                    before >= 0,
            ;
        }
    }
    assert(magnitude(now) <= limit);
    lemma_integrate_grows(now, error, duration, limit);
}

} // verus!
