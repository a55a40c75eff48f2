//! A fan actuator: a min/max duty range, a cutoff policy, and the heat
//! sources (by index) whose worst-case pressure drives it.

use vstd::prelude::*;

use crate::heat::HeatSrc;
use crate::pid::{HALF_SCALE, SCALE};

verus! {

/// A fan with its duty range, cutoff policy, and assigned heat sources.
/// `range` is `max_duty - min_duty`; the fan never writes anywhere itself,
/// it only computes the duty command for its caller to apply.
#[derive(Debug)]
pub struct Fan {
    /// The duty written at zero pressure (unless `cutoff` turns it off).
    pub min_pwm: u32,
    /// The width of the duty range: `max_pwm - min_pwm`.
    pub range: u32,
    /// If true, a duty that lands exactly on `min_pwm` is forced to `0`
    /// (full stop) instead of idling at the minimum.
    pub cutoff: bool,
    /// Indices into the heat source collection; the fan follows the highest
    /// output among them.
    pub heat_pressure_srcs: Vec<usize>,
}

impl Fan {
    /// The duty range stays within the actuator's machine word.
    pub open spec fn wf(self) -> bool {
        self.min_pwm + self.range <= u32::MAX
    }

    /// Every source index points into a heat source collection of length `n`.
    pub open spec fn refs_ok(self, n: nat) -> bool {
        forall|j: int|
            0 <= j < self.heat_pressure_srcs@.len() ==> self.heat_pressure_srcs@[j] < n
    }

    /// Builds a fan from its configured duty range, cutoff policy and source
    /// indices.
    pub fn new(min_pwm: u32, max_pwm: u32, cutoff: bool, heat_pressure_srcs: Vec<usize>) -> (fan:
        Fan)
        requires
            min_pwm <= max_pwm,
        ensures
            fan.min_pwm == min_pwm,
            fan.range == max_pwm - min_pwm,
            fan.cutoff == cutoff,
            fan.heat_pressure_srcs == heat_pressure_srcs,
            fan.wf(),
    {
        Fan { min_pwm, range: max_pwm - min_pwm, cutoff, heat_pressure_srcs }
    }
}

/// The worst-case pressure over the referenced heat sources: the maximum of
/// their last outputs, starting from a floor of `0` (micro-units).
pub open spec fn spec_pressure(refs: Seq<usize>, srcs: Seq<HeatSrc>) -> int
    decreases refs.len(),
{
    if refs.len() == 0 {
        0
    } else {
        let rest: int = spec_pressure(refs.drop_last(), srcs);
        let v: int = srcs[refs.last() as int].last_pid as int;
        if v > rest {
            v
        } else {
            rest
        }
    }
}

/// Every heat source's last output lies on the actuation interval.
pub open spec fn srcs_ok(srcs: Seq<HeatSrc>) -> bool {
    forall|k: int| 0 <= k < srcs.len() ==> 0 <= #[trigger] srcs[k].last_pid <= SCALE
}

/// The duty that pressure `pressure` (micro-units) maps to, before cutoff:
/// `min_pwm + round(range * pressure)`, rounding to nearest.
pub open spec fn spec_mapped_duty(fan: Fan, pressure: int) -> int {
    fan.min_pwm + (fan.range * pressure + HALF_SCALE) / (SCALE as int)
}

/// The duty command for pressure `pressure`: the mapped duty, forced to `0`
/// when it lands exactly on `min_pwm` and cutoff is enabled.
pub open spec fn spec_drive(fan: Fan, pressure: int) -> int {
    let duty: int = spec_mapped_duty(fan, pressure);
    if duty == fan.min_pwm && fan.cutoff {
        0
    } else {
        duty
    }
}

/// The duty command a fan computes from a heat source collection: worst-case
/// pressure over its referenced sources, mapped onto the duty range.
pub open spec fn spec_fan_duty(fan: Fan, srcs: Seq<HeatSrc>) -> int {
    spec_drive(fan, spec_pressure(fan.heat_pressure_srcs@, srcs))
}

impl Fan {
    /// Maps a normalized pressure (micro-units, on `[0, SCALE]`) onto the
    /// duty range, rounding to nearest, and applies the cutoff policy.
    pub fn drive(&self, pressure: i64) -> (duty: u32)
        requires
            self.wf(),
            0 <= pressure <= SCALE,
        ensures
            duty == spec_drive(*self, pressure as int),
            duty <= self.min_pwm + self.range,
    {
        proof {
            let r: int = self.range as int;
            let pr: int = pressure as int;
            assert(r * pr <= r * (SCALE as int) && 0 <= r * pr) by (nonlinear_arith)
                requires
                    0 <= pr <= SCALE as int,
                    0 <= r;
            assert(r * (SCALE as int) <= 0xffffffffi64 * (SCALE as int)) by (nonlinear_arith)
                requires
                    0 <= r <= 0xffffffffi64;
            assert((r * pr + HALF_SCALE) / (SCALE as int) <= (r * (SCALE as int) + HALF_SCALE) / (
            SCALE as int)) by (nonlinear_arith)
                requires
                    r * pr <= r * (SCALE as int);
            assert((r * (SCALE as int) + HALF_SCALE) / (SCALE as int) == r) by (nonlinear_arith);
        }
        let num: u64 = (self.range as u64) * (pressure as u64) + (HALF_SCALE as u64);
        let rounded: u64 = num / (SCALE as u64);
        let duty: u32 = self.min_pwm + (rounded as u32);
        if duty == self.min_pwm && self.cutoff {
            0
        } else {
            duty
        }
    }

    /// The duty command for the current tick: takes the highest last output
    /// among this fan's heat sources (floor `0`) and maps it onto the duty
    /// range.  It mutates nothing, so computing it twice in one tick yields
    /// the same duty.
    pub fn compute_duty(&self, srcs: &Vec<HeatSrc>) -> (duty: u32)
        requires
            self.wf(),
            self.refs_ok(srcs@.len()),
            srcs_ok(srcs@),
        ensures
            duty == spec_fan_duty(*self, srcs@),
    {
        let mut highest: i64 = 0;
        let n: usize = self.heat_pressure_srcs.len();
        let mut j: usize = 0;
        while j < n
            invariant
                0 <= j <= n,
                n == self.heat_pressure_srcs@.len(),
                self.refs_ok(srcs@.len()),
                srcs_ok(srcs@),
                highest == spec_pressure(self.heat_pressure_srcs@.take(j as int), srcs@),
                0 <= highest <= SCALE,
            decreases n - j,
        {
            let idx: usize = self.heat_pressure_srcs[j];
            let v: i64 = srcs[idx].last_pid;
            proof {
                assert(self.heat_pressure_srcs@.take(j + 1).drop_last() =~= self
                    .heat_pressure_srcs@.take(j as int));
            }
            if v > highest {
                highest = v;
            }
            j = j + 1;
        }
        proof {
            assert(self.heat_pressure_srcs@.take(n as int) =~= self.heat_pressure_srcs@);
        }
        self.drive(highest)
    }
}

/// Computing the duty twice in the same tick -- the same fan against the same
/// heat source collection, with no update in between -- yields the same duty.
pub proof fn lemma_compute_duty_idempotent(fan: Fan, srcs: Seq<HeatSrc>, first: int, second: int)
    requires
        first == spec_fan_duty(fan, srcs),
        second == spec_fan_duty(fan, srcs),
    ensures
        first == second,
{
}

} // verus!
