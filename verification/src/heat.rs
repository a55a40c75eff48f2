//! A heat source: one sensor bound to its PID controller, remembering the
//! most recently computed normalized output for consumption by fans.

use vstd::prelude::*;

use crate::pid::{Pid, spec_output, spec_stepped, SCALE, TEMP_LIMIT};

verus! {

/// Binds a PID controller to a logical sensor.  `last_pid` is the normalized
/// output of the most recent tick, in micro-units within `[0, SCALE]`; it is
/// `0` until the first tick.  Reading the sensor itself is the caller's
/// concern: `run_pwm` is handed the already-decoded raw value.
#[derive(Clone, Copy, Debug, PartialEq, Eq, Structural)]
pub struct HeatSrc {
    /// Normalized output of the most recent tick, in micro-units.
    pub last_pid: i64,
    /// The controller fed by this sensor.
    pub pid: Pid,
}

/// The heat source state after one tick on raw reading `raw` (millidegrees)
/// with elapsed time `dt` (milliseconds).
pub open spec fn spec_src_stepped(src: HeatSrc, raw: int, dt: int) -> HeatSrc {
    HeatSrc {
        last_pid: spec_output(src.pid, raw, dt) as i64,
        pid: spec_stepped(src.pid, raw, dt),
    }
}

impl HeatSrc {
    /// A controller within machine bounds, with its last output on `[0, SCALE]`.
    pub open spec fn wf(self) -> bool {
        &&& self.pid.wf()
        &&& 0 <= self.last_pid <= SCALE
    }

    /// A fresh heat source: no output computed yet.
    pub fn new(pid: Pid) -> (src: HeatSrc)
        requires
            pid.wf(),
        ensures
            src.pid == pid,
            src.last_pid == 0,
            src.wf(),
    {
        HeatSrc { last_pid: 0, pid }
    }

    /// One tick: feeds the raw millidegree reading through the controller and
    /// stores the normalized result in `last_pid`.
    pub fn run_pwm(&mut self, raw: i64, delta_t: u32)
        requires
            old(self).wf(),
            -TEMP_LIMIT <= raw <= TEMP_LIMIT,
            delta_t >= 1,
        ensures
            *final(self) == spec_src_stepped(*old(self), raw as int, delta_t as int),
            final(self).wf(),
    {
        let out: i64 = self.pid.run(raw, delta_t);
        self.last_pid = out;
    }
}

} // verus!
