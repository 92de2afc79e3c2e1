//! The replayer: reproduces a recorded workflow against the live system.
//!
//! Events replay in stored order. Before acting on an event the replayer
//! sleeps for the recorded gap to the event before, scaled by a rational
//! speed factor; the host performs the sleeps and the injections, the
//! library computes the plan and keeps the books. A `Text` event replays as
//! one text-insertion call, not per character. On a re-resolution failure
//! the mode decides: fail-fast aborts the rest, best-effort skips the event,
//! records the skip and continues. Raw coordinate events act at the literal
//! recorded coordinates — fragile to layout change, a documented limitation.

use vstd::prelude::*;

use crate::event::{EventV, RecordedWorkflow, events_view};

verus! {

/// A rational replay speed: recorded gaps are multiplied by `num / den`.
/// One over one replays at the recorded pace; one over two replays twice as
/// fast.
pub struct ReplaySpeed {
    /// The numerator of the scale.
    pub num: u32,
    /// The denominator of the scale; never zero.
    pub den: u32,
}

impl ReplaySpeed {
    /// A usable speed has a positive denominator.
    pub open spec fn wf(&self) -> bool {
        self.den >= 1
    }

    /// The recorded pace.
    pub fn unit() -> (s: ReplaySpeed)
        ensures
            s.wf(),
            s.num == 1,
            s.den == 1,
    {
        ReplaySpeed { num: 1, den: 1 }
    }
}

/// What to do when one replay step cannot act.
#[derive(Clone, Copy, Debug, PartialEq, Eq, Structural)]
pub enum ReplayMode {
    /// Abort the remaining replay on the first failure.
    FailFast,
    /// Skip the failed event, record the skip, and continue.
    BestEffort,
}

/// The outcome of acting on one replay step.
#[derive(Clone, Copy, Debug, PartialEq, Eq, Structural)]
pub enum StepOutcome {
    /// The event was reproduced.
    Replayed,
    /// The event was skipped, by policy, after a failure to re-resolve.
    Skipped,
    /// Acting on the event failed.
    Failed,
}

/// The books of one replay: how many events were replayed, skipped, failed.
#[derive(Clone, Copy, Debug, PartialEq, Eq, Structural)]
pub struct ReplayStats {
    pub replayed: u64,
    pub skipped: u64,
    pub failed: u64,
}

impl ReplayStats {
    /// Books with nothing in them.
    pub fn new() -> (s: ReplayStats)
        ensures
            s.replayed == 0,
            s.skipped == 0,
            s.failed == 0,
    {
        ReplayStats { replayed: 0, skipped: 0, failed: 0 }
    }

    /// Records one outcome, saturating at the counters' top, and says
    /// whether the replay must abort: exactly on a failure under fail-fast.
    pub fn record(&mut self, mode: ReplayMode, outcome: StepOutcome) -> (abort: bool)
        ensures
            final(self).replayed == if outcome is Replayed && old(self).replayed < u64::MAX {
                (old(self).replayed + 1) as u64
            } else {
                old(self).replayed
            },
            final(self).skipped == if outcome is Skipped && old(self).skipped < u64::MAX {
                (old(self).skipped + 1) as u64
            } else {
                old(self).skipped
            },
            final(self).failed == if outcome is Failed && old(self).failed < u64::MAX {
                (old(self).failed + 1) as u64
            } else {
                old(self).failed
            },
            abort == (outcome is Failed && mode is FailFast),
    {
        match outcome {
            StepOutcome::Replayed => {
                if self.replayed < u64::MAX {
                    self.replayed = self.replayed + 1;
                }
                false
            },
            StepOutcome::Skipped => {
                if self.skipped < u64::MAX {
                    self.skipped = self.skipped + 1;
                }
                false
            },
            StepOutcome::Failed => {
                if self.failed < u64::MAX {
                    self.failed = self.failed + 1;
                }
                match mode {
                    ReplayMode::FailFast => true,
                    ReplayMode::BestEffort => false,
                }
            },
        }
    }
}

/// One planned step: sleep `wait_ms`, then act on the event at `index`.
#[derive(Clone, Copy, Debug, PartialEq, Eq, Structural)]
pub struct ReplayStep {
    /// How long to sleep before acting, in milliseconds.
    pub wait_ms: u64,
    /// Which stored event to act on.
    pub index: usize,
}

/// The recorded gap before event `i`: its timestamp minus the one before it,
/// the session start standing before the first event.
pub open spec fn spec_delta(evs: Seq<EventV>, i: int) -> int {
    if i == 0 {
        evs[0].t as int
    } else {
        evs[i].t - evs[i - 1].t
    }
}

/// A recorded gap scaled by the speed: `dt * num / den`, capped at the
/// counter's top.
pub open spec fn spec_scaled(dt: int, speed: ReplaySpeed) -> int {
    let v = dt * speed.num / speed.den as int;
    if v > u64::MAX {
        u64::MAX as int
    } else {
        v
    }
}

/// The sum of the planned waits of the first `n` steps.
pub open spec fn spec_wait_sum(evs: Seq<EventV>, speed: ReplaySpeed, n: int) -> int
    decreases n,
{
    if n <= 0 {
        0
    } else {
        spec_wait_sum(evs, speed, n - 1) + spec_scaled(spec_delta(evs, n - 1), speed)
    }
}

/// The pacing law of replay: at the recorded pace, the total planned wait is
/// exactly the recording's last timestamp — the sum of the recorded gaps.
pub proof fn lemma_replay_duration(evs: Seq<EventV>, speed: ReplaySpeed, n: int)
    requires
        speed.wf(),
        speed.num == speed.den,
        0 <= n <= evs.len(),
        forall|i: int, j: int| 0 <= i <= j < evs.len() ==> evs[i].t <= evs[j].t,
    ensures
        spec_wait_sum(evs, speed, n) == if n == 0 {
            0int
        } else {
            evs[n - 1].t as int
        },
    decreases n,
{
    if n > 0 {
        lemma_replay_duration(evs, speed, n - 1);
        let dt = spec_delta(evs, n - 1);
        assert(dt * speed.num / speed.den as int == dt) by (nonlinear_arith)
            requires
                speed.num == speed.den,
                speed.den >= 1,
                dt >= 0,
        ;
    }
}

/// Builds the replay plan of a workflow: one step per stored event, in
/// stored order, each waiting the recorded gap scaled by the speed. The
/// plan preserves the event count and order exactly.
pub fn build_plan(w: &RecordedWorkflow, speed: ReplaySpeed) -> (plan: Vec<ReplayStep>)
    requires
        w.wf(),
        speed.wf(),
    ensures
        plan@.len() == w.events@.len(),
        forall|i: int| 0 <= i < plan@.len() ==> (#[trigger] plan@[i]).index == i,
        forall|i: int|
            0 <= i < plan@.len() ==> (#[trigger] plan@[i]).wait_ms == spec_scaled(
                spec_delta(events_view(w.events@), i),
                speed,
            ),
{
    let ghost evs = events_view(w.events@);
    let mut plan: Vec<ReplayStep> = Vec::new();
    let n = w.events.len();
    let mut prev: u64 = 0;
    let mut i: usize = 0;
    while i < n
        invariant
            0 <= i <= n,
            n == w.events@.len(),
            evs == events_view(w.events@),
            w.wf(),
            speed.wf(),
            plan@.len() == i,
            prev == if i == 0 {
                0int
            } else {
                evs[i - 1].t as int
            },
            forall|j: int| 0 <= j < i ==> (#[trigger] plan@[j]).index == j,
            forall|j: int|
                0 <= j < i ==> (#[trigger] plan@[j]).wait_ms == spec_scaled(
                    spec_delta(evs, j),
                    speed,
                ),
        decreases n - i,
    {
        let t = w.events[i].t;
        proof {
            assert(evs[i as int] == w.events@[i as int]@);
            if i > 0 {
                assert(evs[i - 1] == w.events@[i - 1]@);
                assert(w.events@[i - 1].t <= w.events@[i as int].t);
            }
        }
        let dt: u64 = t - prev;
        proof {
            let dw = dt as int;
            let nw = speed.num as int;
            assert(dw * nw <= 0xffffffffffffffff * 0xffffffff && dw * nw >= 0) by (nonlinear_arith)
                requires
                    0 <= dw <= 0xffffffffffffffff,
                    0 <= nw <= 0xffffffff,
            ;
        }
        let scaled_wide: u128 = (dt as u128) * (speed.num as u128) / (speed.den as u128);
        let wait: u64 = if scaled_wide > (u64::MAX as u128) {
            u64::MAX
        } else {
            scaled_wide as u64
        };
        proof {
            assert((dt as u128) * (speed.num as u128) == dt * speed.num) by (nonlinear_arith)
                requires
                    dt >= 0,
            ;
        }
        plan.push(ReplayStep { wait_ms: wait, index: i });
        prev = t;
        i = i + 1;
    }
    plan
}

/// The saturating sum of the first `n` planned waits.
pub open spec fn spec_sat_sum(plan: Seq<ReplayStep>, n: int) -> int
    decreases n,
{
    if n <= 0 {
        0
    } else {
        let s = spec_sat_sum(plan, n - 1) + plan[n - 1].wait_ms;
        if s > u64::MAX {
            u64::MAX as int
        } else {
            s
        }
    }
}

/// Sums the planned waits, saturating at the counter's top.
pub fn plan_total_wait(plan: &Vec<ReplayStep>) -> (total: u64)
    ensures
        total == spec_sat_sum(plan@, plan@.len() as int),
{
    let mut total: u64 = 0;
    let n = plan.len();
    let mut i: usize = 0;
    while i < n
        invariant
            0 <= i <= n,
            n == plan@.len(),
            total == spec_sat_sum(plan@, i as int),
        decreases n - i,
    {
        let w = plan[i].wait_ms;
        if total <= u64::MAX - w {
            total = total + w;
        } else {
            total = u64::MAX;
        }
        i = i + 1;
    }
    total
}

/// The whole pacing law, at the plan level: a plan built at the recorded
/// pace from a well-formed recording waits, in total, exactly the
/// recording's last timestamp.
pub proof fn lemma_plan_total(evs: Seq<EventV>, speed: ReplaySpeed, plan: Seq<ReplayStep>, n: int)
    requires
        speed.wf(),
        speed.num == speed.den,
        plan.len() == evs.len(),
        0 <= n <= plan.len(),
        forall|i: int, j: int| 0 <= i <= j < evs.len() ==> evs[i].t <= evs[j].t,
        forall|i: int|
            0 <= i < plan.len() ==> (#[trigger] plan[i]).wait_ms == spec_scaled(
                spec_delta(evs, i),
                speed,
            ),
    ensures
        spec_sat_sum(plan, n) == if n == 0 {
            0int
        } else {
            evs[n - 1].t as int
        },
    decreases n,
{
    if n > 0 {
        lemma_plan_total(evs, speed, plan, n - 1);
        lemma_replay_duration(evs, speed, n);
        lemma_replay_duration(evs, speed, n - 1);
    }
}

} // verus!
