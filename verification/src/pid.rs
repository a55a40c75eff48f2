//! The per-sensor PID controller, in exact fixed-point arithmetic.
//!
//! Unit conventions:
//! - temperatures (measured values and setpoints) are in millidegrees;
//! - values on the actuation interval `[0, 1]` are in micro-units, so `SCALE`
//!   stands for `1.0`;
//! - configured gains arrive in micro-units of the human-readable value and
//!   are pre-divided by `MILLI` at construction, so that `run` can be fed raw
//!   millidegree readings directly;
//! - elapsed time is in milliseconds.

use vstd::prelude::*;

verus! {

/// Fixed-point one: the value `1.0` on the actuation interval, in micro-units.
pub const SCALE: i64 = 1_000_000;

/// Half of `SCALE`, used for round-to-nearest.
pub const HALF_SCALE: i64 = 500_000;

/// Milli-units per unit: the pre-division applied to gains at construction,
/// and the number of milliseconds in a second.
pub const MILLI: i64 = 1000;

/// Largest magnitude accepted for a configured gain (in micro-units).
pub const GAIN_CFG_LIMIT: i64 = 1_000_000_000_000;

/// Largest magnitude of an internal (pre-divided) gain.
pub const GAIN_LIMIT: i64 = 1_000_000_000;

/// Largest magnitude accepted for a temperature (in millidegrees).
pub const TEMP_LIMIT: i64 = 1_000_000_000;

/// Saturation bound for the accumulated integral (millidegree-milliseconds).
/// Far beyond any physical operating point; it only keeps the state within
/// machine range over an unbounded run.
pub const INTEGRAL_LIMIT: i128 = 1_000_000_000_000_000_000_000_000_000;

/// Truncating division (round toward zero) for a positive divisor.
/// On non-negative dividends this agrees with euclidean `/`.
pub open spec fn div_trunc(a: int, b: int) -> int {
    if a >= 0 {
        a / b
    } else {
        -((-a) / b)
    }
}

/// The internal gain stored for a configured gain `g`: `g` divided by
/// `MILLI`, rounding toward zero.
pub open spec fn spec_gain(g: int) -> int {
    div_trunc(g, MILLI as int)
}

/// A PID controller over one sensor.  `prev_error` and `integral` are the
/// controller's memory; they are mutated only by `run` and are zero at
/// construction.
#[derive(Clone, Copy, Debug, PartialEq, Eq, Structural)]
pub struct Pid {
    /// Proportional gain, pre-divided (micro-output per millidegree).
    pub p: i64,
    /// Integral gain, pre-divided (micro-output per millidegree-second).
    pub i: i64,
    /// Derivative gain, pre-divided (micro-output per millidegree-per-second).
    pub d: i64,
    /// Target measured value, in millidegrees.
    pub setpoint: i64,
    /// Error of the previous tick, in millidegrees.
    pub prev_error: i64,
    /// Accumulated error-time product, in millidegree-milliseconds.
    pub integral: i128,
}

impl Pid {
    /// Bounds under which every step of the controller stays in machine range.
    pub open spec fn wf(self) -> bool {
        &&& -GAIN_LIMIT <= self.p <= GAIN_LIMIT
        &&& -GAIN_LIMIT <= self.i <= GAIN_LIMIT
        &&& -GAIN_LIMIT <= self.d <= GAIN_LIMIT
        &&& -TEMP_LIMIT <= self.setpoint <= TEMP_LIMIT
        &&& -2 * TEMP_LIMIT <= self.prev_error <= 2 * TEMP_LIMIT
        &&& -INTEGRAL_LIMIT <= self.integral <= INTEGRAL_LIMIT
    }

    /// Builds a controller from configured gains (micro-units) and a setpoint
    /// (millidegrees), pre-dividing each gain by `MILLI` exactly once so that
    /// `run` can be called directly with raw millidegree readings.
    pub fn new(p: i64, i: i64, d: i64, setpoint: i64) -> (pid: Pid)
        requires
            -GAIN_CFG_LIMIT <= p <= GAIN_CFG_LIMIT,
            -GAIN_CFG_LIMIT <= i <= GAIN_CFG_LIMIT,
            -GAIN_CFG_LIMIT <= d <= GAIN_CFG_LIMIT,
            -TEMP_LIMIT <= setpoint <= TEMP_LIMIT,
        ensures
            pid.p == spec_gain(p as int),
            pid.i == spec_gain(i as int),
            pid.d == spec_gain(d as int),
            pid.setpoint == setpoint,
            pid.prev_error == 0,
            pid.integral == 0,
            pid.wf(),
    {
        Pid {
            p: div_milli(p),
            i: div_milli(i),
            d: div_milli(d),
            setpoint,
            prev_error: 0,
            integral: 0,
        }
    }
}

/// The error of a tick: setpoint minus measured value (millidegrees).
pub open spec fn spec_error(pid: Pid, measured: int) -> int {
    pid.setpoint - measured
}

/// The proportional plus derivative part of a tick's output (micro-units):
/// `error * p + ((error - prev_error) / dt_seconds) * d`, with the division
/// performed last and truncated toward zero.  `dt` is in milliseconds, hence
/// the `MILLI` factor in the numerator.
pub open spec fn spec_base_output(pid: Pid, measured: int, dt: int) -> int {
    let error: int = spec_error(pid, measured);
    error * pid.p + div_trunc((error - pid.prev_error) * MILLI * pid.d, dt)
}

/// The integral term (micro-units) for a given accumulated integral
/// (millidegree-milliseconds): `integral_seconds * i`, truncated toward zero.
pub open spec fn spec_i_term(integral: int, i_gain: int) -> int {
    div_trunc(integral * i_gain, MILLI as int)
}

/// The anti-windup test: the integral accumulates only while the tentative
/// combined output -- evaluated with the integral of the previous tick --
/// stays strictly inside the actuation range `(0, 1)`.
pub open spec fn spec_windup_open(pid: Pid, measured: int, dt: int) -> bool {
    let tentative: int = spec_base_output(pid, measured, dt) + spec_i_term(
        pid.integral as int,
        pid.i as int,
    );
    0 < tentative < SCALE
}

/// Saturation of the accumulated integral at `INTEGRAL_LIMIT`.
pub open spec fn clamp_integral(x: int) -> int {
    if x > INTEGRAL_LIMIT {
        INTEGRAL_LIMIT as int
    } else if x < -INTEGRAL_LIMIT {
        -INTEGRAL_LIMIT
    } else {
        x
    }
}

/// The accumulated integral after a tick: grown by `error * dt` when the
/// anti-windup condition holds, unchanged otherwise.
pub open spec fn spec_new_integral(pid: Pid, measured: int, dt: int) -> int {
    if spec_windup_open(pid, measured, dt) {
        clamp_integral(pid.integral + spec_error(pid, measured) * dt)
    } else {
        pid.integral as int
    }
}

/// Clamp onto the actuation interval `[0, SCALE]`.
pub open spec fn clamp_unit(x: int) -> int {
    if x < 0 {
        0
    } else if x > SCALE {
        SCALE as int
    } else {
        x
    }
}

/// The output of a tick (micro-units): base output plus the integral term of
/// the freshly accumulated integral, clamped onto `[0, SCALE]`.
pub open spec fn spec_output(pid: Pid, measured: int, dt: int) -> int {
    clamp_unit(
        spec_base_output(pid, measured, dt)
            + spec_i_term(spec_new_integral(pid, measured, dt), pid.i as int),
    )
}

/// The controller state after a tick: gains and setpoint unchanged, the
/// error remembered for the next derivative term, the integral accumulated.
pub open spec fn spec_stepped(pid: Pid, measured: int, dt: int) -> Pid {
    Pid {
        prev_error: spec_error(pid, measured) as i64,
        integral: spec_new_integral(pid, measured, dt) as i128,
        ..pid
    }
}

impl Pid {
    /// One tick of the controller: `is` is the measured value in
    /// millidegrees, `delta_t` the elapsed time in milliseconds.  Returns the
    /// normalized output in micro-units, always within `[0, SCALE]`, and
    /// stores this tick's error and integral for the next tick.
    pub fn run(&mut self, is: i64, delta_t: u32) -> (output: i64)
        requires
            old(self).wf(),
            -TEMP_LIMIT <= is <= TEMP_LIMIT,
            delta_t >= 1,
        ensures
            final(self).p == old(self).p,
            final(self).i == old(self).i,
            final(self).d == old(self).d,
            final(self).setpoint == old(self).setpoint,
            *final(self) == spec_stepped(*old(self), is as int, delta_t as int),
            output == spec_output(*old(self), is as int, delta_t as int),
            0 <= output <= SCALE,
            final(self).wf(),
    {
        let error: i64 = self.setpoint - is;
        let delta_e: i128 = error as i128 - self.prev_error as i128;
        proof {
            assert(error as i128 * self.p as i128 <= 2_000_000_000_000_000_000i128
                && error as i128 * self.p as i128 >= -2_000_000_000_000_000_000i128)
                by (nonlinear_arith)
                requires
                    -2_000_000_000i128 <= error as i128 <= 2_000_000_000i128,
                    -1_000_000_000i128 <= self.p as i128 <= 1_000_000_000i128;
        }
        let prop: i128 = error as i128 * self.p as i128;
        proof {
            assert(delta_e * 1000 * self.d as i128 <= 4_000_000_000_000_000_000_000i128
                && delta_e * 1000 * self.d as i128 >= -4_000_000_000_000_000_000_000i128)
                by (nonlinear_arith)
                requires
                    -4_000_000_000i128 <= delta_e <= 4_000_000_000i128,
                    -1_000_000_000i128 <= self.d as i128 <= 1_000_000_000i128;
        }
        let d_num: i128 = delta_e * 1000 * (self.d as i128);
        let d_term: i128 = div_trunc_i128(d_num, delta_t as i128);
        let base: i128 = prop + d_term;
        proof {
            assert(self.integral * self.i as i128 <= 0x4000_0000_0000_0000_0000_0000_0000_0000i128 - 1
                && self.integral * self.i as i128 >= -(0x4000_0000_0000_0000_0000_0000_0000_0000i128 - 1))
                by (nonlinear_arith)
                requires
                    -INTEGRAL_LIMIT <= self.integral <= INTEGRAL_LIMIT,
                    -1_000_000_000i128 <= self.i as i128 <= 1_000_000_000i128;
        }
        let i_term_prev: i128 = div_trunc_i128(self.integral * (self.i as i128), 1000);
        let tentative: i128 = base + i_term_prev;
        if 0 < tentative && tentative < SCALE as i128 {
            proof {
                assert(error as i128 * delta_t as i128 <= 9_000_000_000_000_000_000i128
                    && error as i128 * delta_t as i128 >= -9_000_000_000_000_000_000i128)
                    by (nonlinear_arith)
                    requires
                        -2_000_000_000i128 <= error as i128 <= 2_000_000_000i128,
                        0i128 <= delta_t as i128 <= 4_294_967_295i128;
            }
            let grown: i128 = self.integral + error as i128 * (delta_t as i128);
            self.integral = if grown > INTEGRAL_LIMIT {
                INTEGRAL_LIMIT
            } else if grown < -INTEGRAL_LIMIT {
                -INTEGRAL_LIMIT
            } else {
                grown
            };
        }
        proof {
            assert(self.integral * self.i as i128 <= 0x4000_0000_0000_0000_0000_0000_0000_0000i128 - 1
                && self.integral * self.i as i128 >= -(0x4000_0000_0000_0000_0000_0000_0000_0000i128 - 1))
                by (nonlinear_arith)
                requires
                    -INTEGRAL_LIMIT <= self.integral <= INTEGRAL_LIMIT,
                    -1_000_000_000i128 <= self.i as i128 <= 1_000_000_000i128;
        }
        let i_term: i128 = div_trunc_i128(self.integral * (self.i as i128), 1000);
        let out: i128 = base + i_term;
        self.prev_error = error;
        if out < 0 {
            0
        } else if out > SCALE as i128 {
            SCALE
        } else {
            out as i64
        }
    }
}

/// At the setpoint, with no history (zero previous error) and zero
/// accumulated integral, a tick contributes nothing: the proportional and
/// derivative terms are both zero, no integral accumulates, and
/// the output is zero -- whatever the gains.
pub proof fn lemma_first_tick_at_setpoint(pid: Pid, dt: int)
    requires
        pid.wf(),
        pid.prev_error == 0,
        pid.integral == 0,
        dt >= 1,
    ensures
        spec_error(pid, pid.setpoint as int) == 0,
        spec_base_output(pid, pid.setpoint as int, dt) == 0,
        spec_new_integral(pid, pid.setpoint as int, dt) == 0,
        spec_output(pid, pid.setpoint as int, dt) == 0,
{
    assert(0int / dt == 0) by (nonlinear_arith)
        requires
            dt >= 1;
    assert(spec_base_output(pid, pid.setpoint as int, dt) == 0);
    assert(spec_i_term(0, pid.i as int) == 0);
}

/// The clamping invariant: whatever the controller state, the gains, the
/// reading or the tick length, a tick's output lies on `[0, SCALE]` -- so
/// runaway gains cannot produce out-of-range actuation, on any sequence of
/// ticks.
pub proof fn lemma_output_clamped(pid: Pid, measured: int, dt: int)
    ensures
        0 <= spec_output(pid, measured, dt) <= SCALE,
{
}

/// Construction-time gain scaling is exact on whole multiples of `MILLI`: a
/// gain configured `MILLI` times larger is applied internally as the bare
/// value, so a configured `2.0` (in micro-units, `2_000_000`) acts as exactly
/// `0.002` per millidegree (internally, `2000`).
pub proof fn lemma_gain_prescaling(g: int)
    requires
        -GAIN_LIMIT <= g <= GAIN_LIMIT,
    ensures
        spec_gain(MILLI * g) == g,
{
    if g >= 0 {
        assert((1000 * g) / 1000 == g) by (nonlinear_arith);
    } else {
        assert(-((-(1000 * g)) / 1000) == g) by (nonlinear_arith);
    }
}

/// Truncating division on `i128` with a positive divisor, computed through
/// unsigned magnitudes so that it matches `div_trunc` exactly.
fn div_trunc_i128(a: i128, b: i128) -> (r: i128)
    requires
        b > 0,
        a > i128::MIN,
    ensures
        r == div_trunc(a as int, b as int),
        a >= 0 ==> 0 <= r <= a,
        a < 0 ==> a <= r <= 0,
{
    if a >= 0 {
        let q: u128 = (a as u128) / (b as u128);
        proof {
            assert(a as u128 / b as u128 <= a as u128) by (nonlinear_arith)
                requires
                    b as u128 >= 1;
        }
        q as i128
    } else {
        let m: i128 = -a;
        let q: u128 = (m as u128) / (b as u128);
        proof {
            assert(m as u128 / b as u128 <= m as u128) by (nonlinear_arith)
                requires
                    b as u128 >= 1;
        }
        -(q as i128)
    }
}

/// Truncating division of a configured gain by `MILLI`.
fn div_milli(g: i64) -> (r: i64)
    requires
        -GAIN_CFG_LIMIT <= g <= GAIN_CFG_LIMIT,
    ensures
        r == spec_gain(g as int),
        -GAIN_LIMIT <= r <= GAIN_LIMIT,
{
    if g >= 0 {
        let q: u64 = (g as u64) / 1000;
        q as i64
    } else {
        let m: i64 = -g;
        let q: u64 = (m as u64) / 1000;
        -(q as i64)
    }
}

} // verus!
