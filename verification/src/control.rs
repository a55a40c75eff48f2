//! The orchestrator: on each tick every heat source is updated from its raw
//! sensor reading, then every fan computes its duty from the fresh outputs.
//! The loop itself -- reading sensor files, writing duties, sleeping for the
//! interval -- is the caller's concern; this module holds the state and the
//! per-tick decision, so every fan sees a consistent snapshot of all sensors.

use vstd::prelude::*;

use crate::fan::{spec_fan_duty, srcs_ok, Fan};
use crate::heat::{spec_src_stepped, HeatSrc};
use crate::pid::TEMP_LIMIT;

verus! {

/// The hands-off value a disabled loop writes to each actuator's mode switch:
/// `1` selects manual (software-driven) control, `2` automatic passthrough.
pub open spec fn spec_mode(enable: bool) -> u8 {
    if enable {
        1
    } else {
        2
    }
}

/// The mode value to write to an actuator's enable switch at startup.
pub fn pwm_mode_value(enable: bool) -> (mode: u8)
    ensures
        mode == spec_mode(enable),
{
    if enable {
        1
    } else {
        2
    }
}

/// The heat source collection after one tick on the given raw readings.
pub open spec fn spec_tick_srcs(srcs: Seq<HeatSrc>, readings: Seq<i64>, dt: int) -> Seq<HeatSrc> {
    Seq::new(srcs.len(), |k: int| spec_src_stepped(srcs[k], readings[k] as int, dt))
}

/// The duty commands of one tick: each fan's duty against the freshly
/// updated heat sources.
pub open spec fn spec_tick_duties(fans: Seq<Fan>, srcs: Seq<HeatSrc>) -> Seq<int> {
    Seq::new(fans.len(), |k: int| spec_fan_duty(fans[k], srcs))
}

/// The control loop's state: it exclusively owns the heat sources and fans;
/// fans reference heat sources only by index.
pub struct ControlLoop {
    /// The heat sources, in configuration order; fans index into this.
    pub heat_srcs: Vec<HeatSrc>,
    /// The fans, in configuration order.
    pub fans: Vec<Fan>,
    /// The sampling interval, in milliseconds.
    pub interval_ms: u32,
}

impl ControlLoop {
    /// Every controller is within machine bounds, every fan's source indices
    /// point into the heat source collection, and the interval is positive.
    pub open spec fn wf(self) -> bool {
        &&& self.interval_ms >= 1
        &&& forall|k: int| 0 <= k < self.heat_srcs@.len() ==> (#[trigger] self.heat_srcs@[k]).wf()
        &&& forall|k: int|
            0 <= k < self.fans@.len() ==> (#[trigger] self.fans@[k]).wf() && self.fans@[k].refs_ok(
                self.heat_srcs@.len(),
            )
    }

    /// Assembles the loop state from already-validated configuration.
    pub fn new(heat_srcs: Vec<HeatSrc>, fans: Vec<Fan>, interval_ms: u32) -> (cl: ControlLoop)
        requires
            interval_ms >= 1,
            forall|k: int| 0 <= k < heat_srcs@.len() ==> (#[trigger] heat_srcs@[k]).wf(),
            forall|k: int|
                0 <= k < fans@.len() ==> (#[trigger] fans@[k]).wf() && fans@[k].refs_ok(
                    heat_srcs@.len(),
                ),
        ensures
            cl.heat_srcs == heat_srcs,
            cl.fans == fans,
            cl.interval_ms == interval_ms,
            cl.wf(),
    {
        ControlLoop { heat_srcs, fans, interval_ms }
    }

    /// The mode value each actuator's enable switch gets at startup, one per
    /// fan: manual control when the loop will run, automatic passthrough when
    /// it is disabled.
    pub fn startup_modes(&self, enable: bool) -> (modes: Vec<u8>)
        ensures
            modes@.len() == self.fans@.len(),
            forall|k: int| 0 <= k < modes@.len() ==> modes@[k] == spec_mode(enable),
    {
        let value: u8 = pwm_mode_value(enable);
        let mut modes: Vec<u8> = Vec::new();
        let n: usize = self.fans.len();
        let mut k: usize = 0;
        while k < n
            invariant
                0 <= k <= n,
                modes@.len() == k,
                forall|j: int| 0 <= j < k ==> modes@[j] == spec_mode(enable),
                value == spec_mode(enable),
            decreases n - k,
        {
            modes.push(value);
            k = k + 1;
        }
        modes
    }

    /// One tick: updates every heat source from its raw reading (in order),
    /// then computes every fan's duty against the updated collection.  The
    /// returned duties are in fan order; applying them is the caller's
    /// concern.
    pub fn tick(&mut self, readings: &Vec<i64>) -> (duties: Vec<u32>)
        requires
            old(self).wf(),
            readings@.len() == old(self).heat_srcs@.len(),
            forall|k: int| 0 <= k < readings@.len() ==> -TEMP_LIMIT <= #[trigger] readings@[k] <= TEMP_LIMIT,
        ensures
            final(self).wf(),
            final(self).fans == old(self).fans,
            final(self).interval_ms == old(self).interval_ms,
            final(self).heat_srcs@ == spec_tick_srcs(
                old(self).heat_srcs@,
                readings@,
                old(self).interval_ms as int,
            ),
            duties@.len() == old(self).fans@.len(),
            forall|k: int|
                0 <= k < duties@.len() ==> duties@[k] == spec_tick_duties(
                    old(self).fans@,
                    final(self).heat_srcs@,
                )[k],
    {
        let ghost orig: ControlLoop = *self;
        let dt: u32 = self.interval_ms;
        let n: usize = self.heat_srcs.len();
        let mut j: usize = 0;
        while j < n
            invariant
                0 <= j <= n,
                n == self.heat_srcs@.len(),
                n == orig.heat_srcs@.len(),
                n == readings@.len(),
                dt == orig.interval_ms,
                dt >= 1,
                self.fans == orig.fans,
                self.interval_ms == orig.interval_ms,
                orig.wf(),
                forall|k: int| 0 <= k < readings@.len() ==> -TEMP_LIMIT <= #[trigger] readings@[k] <= TEMP_LIMIT,
                forall|k: int|
                    0 <= k < j ==> self.heat_srcs@[k] == spec_src_stepped(
                        orig.heat_srcs@[k],
                        readings@[k] as int,
                        dt as int,
                    ),
                forall|k: int| 0 <= k < j ==> (#[trigger] self.heat_srcs@[k]).wf(),
                forall|k: int| j <= k < n ==> self.heat_srcs@[k] == orig.heat_srcs@[k],
            decreases n - j,
        {
            let raw: i64 = readings[j];
            proof {
                assert(self.heat_srcs@[j as int] == orig.heat_srcs@[j as int]);
                assert(orig.heat_srcs@[j as int].wf());
            }
            self.heat_srcs[j].run_pwm(raw, dt);
            j = j + 1;
        }
        proof {
            assert(self.heat_srcs@ =~= spec_tick_srcs(orig.heat_srcs@, readings@, dt as int));
        }
        let mut duties: Vec<u32> = Vec::new();
        let m: usize = self.fans.len();
        let mut k: usize = 0;
        while k < m
            invariant
                0 <= k <= m,
                m == self.fans@.len(),
                self.fans == orig.fans,
                self.interval_ms == orig.interval_ms,
                orig.wf(),
                self.heat_srcs@.len() == orig.heat_srcs@.len(),
                self.heat_srcs@ == spec_tick_srcs(orig.heat_srcs@, readings@, dt as int),
                forall|i: int| 0 <= i < self.heat_srcs@.len() ==> (#[trigger] self.heat_srcs@[i]).wf(),
                duties@.len() == k,
                forall|i: int|
                    0 <= i < k ==> duties@[i] == spec_fan_duty(self.fans@[i], self.heat_srcs@),
            decreases m - k,
        {
            let fan = &self.fans[k];
            let duty: u32 = fan.compute_duty(&self.heat_srcs);
            duties.push(duty);
            k = k + 1;
        }
        duties
    }
}

} // verus!
