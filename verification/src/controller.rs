//! The hysteresis controller: when to start a cleanup cycle and when to
//! record its completion.
//!
//! The controller is driven by an external periodic tick.  On each tick it
//! consumes a fresh sample of the metric (or none, when the sampler failed)
//! and decides whether to start a cleanup cycle; a cycle starts only when
//! automatic cleaning is enabled, the controller is idle, the metric has
//! reached the start threshold, and the cooldown window since the last
//! completed cycle has elapsed.  The caller performs the actual reclamation
//! and then reports completion, which resets the cooldown origin whatever
//! the reclamation achieved.  Timestamps come from a monotonic clock and
//! share one unit with the cooldown duration.

use vstd::prelude::*;

use crate::config::Config;
use crate::outcome::CleanupOutcome;

verus! {

/// Cooldown applied between automatic cleanup cycles, in seconds, when the
/// caller drives the controller with timestamps in seconds.
pub const DEFAULT_COOLDOWN_SECS: u64 = 30;

/// Whether a cleanup cycle is in flight.  At most one ever is: the phase
/// acts as a mutex-of-one over the cleaning transition.
#[derive(Clone, Copy, PartialEq, Eq, Structural, Debug)]
pub enum Phase {
    Idle,
    /// A cycle is in flight; `target_mb` is the amount the controller asked
    /// the executor to reclaim.
    Cleaning { target_mb: u64 },
}

/// `a - b`, clamped to zero.
pub open spec fn sat_sub(a: u64, b: u64) -> u64 {
    if a >= b {
        (a - b) as u64
    } else {
        0
    }
}

/// Whether enough time has passed since the last completed cycle.  Absent a
/// prior cycle the window is open.
pub open spec fn cooldown_over(last_action_at: Option<u64>, now: u64, cooldown: u64) -> bool {
    match last_action_at {
        None => true,
        Some(t) => sat_sub(now, t) >= cooldown,
    }
}

/// Hysteresis cleanup controller: configuration plus transient state.
#[derive(Clone, Copy, PartialEq, Eq, Debug)]
pub struct HysteresisController {
    /// Thresholds and enable flag.
    pub config: Config,
    /// Minimum time between the completion of one automatic cycle and the
    /// start of the next, in the same unit as the `now` arguments.
    pub cooldown: u64,
    /// When the most recent cleanup cycle completed; `None` before the first.
    pub last_action_at: Option<u64>,
    /// Whether a cleanup cycle is in flight.
    pub phase: Phase,
    /// Last sampled value of the metric.
    pub current_metric: u64,
}

impl HysteresisController {
    /// The metric the controller holds after seeing `sample`: a failed read
    /// leaves the last known value unchanged.
    pub open spec fn spec_metric_after(self, sample: Option<u64>) -> u64 {
        match sample {
            Some(m) => m,
            None => self.current_metric,
        }
    }

    /// The automatic start condition: idle, enabled, metric at or above the
    /// start threshold (inclusive), cooldown elapsed.
    pub open spec fn spec_starts(self, now: u64, sample: Option<u64>) -> bool {
        &&& self.phase is Idle
        &&& self.config.auto_clean_enabled
        &&& self.spec_metric_after(sample) >= self.config.start_threshold_mb
        &&& cooldown_over(self.last_action_at, now, self.cooldown)
    }

    /// How much a cycle started now would ask the executor to reclaim: the
    /// excess of the metric over the stop threshold, never negative.
    pub open spec fn spec_target(self, sample: Option<u64>) -> u64 {
        sat_sub(self.spec_metric_after(sample), self.config.stop_threshold_mb)
    }

    /// The controller state one tick later.
    pub open spec fn spec_tick(self, now: u64, sample: Option<u64>) -> HysteresisController {
        if self.spec_starts(now, sample) {
            HysteresisController {
                current_metric: self.spec_metric_after(sample),
                phase: Phase::Cleaning { target_mb: self.spec_target(sample) },
                ..self
            }
        } else {
            HysteresisController {
                current_metric: self.spec_metric_after(sample),
                ..self
            }
        }
    }

    /// The controller state after a cycle completes at `now`.
    pub open spec fn spec_finish(self, now: u64) -> HysteresisController {
        HysteresisController {
            phase: Phase::Idle,
            last_action_at: Some(now),
            ..self
        }
    }

    /// A fresh, idle controller that has not sampled or cleaned yet.
    pub fn new(config: Config, cooldown: u64) -> (c: HysteresisController)
        ensures
            c.config == config,
            c.cooldown == cooldown,
            c.last_action_at is None,
            c.phase is Idle,
            c.current_metric == 0,
    {
        HysteresisController {
            config,
            cooldown,
            last_action_at: None,
            phase: Phase::Idle,
            current_metric: 0,
        }
    }

    /// Whether a cleanup cycle is in flight, for the status display.
    pub fn is_cleaning(&self) -> (b: bool)
        ensures
            b == (self.phase is Cleaning),
    {
        match self.phase {
            Phase::Idle => false,
            Phase::Cleaning { .. } => true,
        }
    }

    /// One tick: consume a sample (or none, when the sampler failed, which
    /// leaves the metric unchanged and never starts a cycle by itself) and
    /// decide whether to start a cleanup cycle.  Returns the amount to ask
    /// the executor to reclaim exactly when a cycle starts; the caller then
    /// performs the reclamation and reports it through `finish_cycle`.
    pub fn tick(&mut self, now: u64, sample: Option<u64>) -> (target: Option<u64>)
        ensures
            *final(self) == old(self).spec_tick(now, sample),
            target is Some <==> old(self).spec_starts(now, sample),
            target matches Some(t) ==> t == old(self).spec_target(sample),
    {
        match sample {
            Some(m) => {
                self.current_metric = m;
            },
            None => {},
        }
        let idle: bool = match self.phase {
            Phase::Idle => true,
            Phase::Cleaning { .. } => false,
        };
        let cooled: bool = match self.last_action_at {
            None => true,
            Some(t) => {
                let elapsed: u64 = if now >= t {
                    now - t
                } else {
                    0
                };
                elapsed >= self.cooldown
            },
        };
        if idle && self.config.auto_clean_enabled
            && self.current_metric >= self.config.start_threshold_mb && cooled {
            let target: u64 = if self.current_metric >= self.config.stop_threshold_mb {
                self.current_metric - self.config.stop_threshold_mb
            } else {
                0
            };
            self.phase = Phase::Cleaning { target_mb: target };
            Some(target)
        } else {
            None
        }
    }

    /// Force a cleanup cycle outside the automatic schedule, ignoring the
    /// thresholds, the enable flag and the cooldown.  A trigger while a
    /// cycle is already in flight is a no-op and returns `None`; otherwise
    /// the requested amount is returned as for an automatic start.
    pub fn manual_trigger(&mut self) -> (target: Option<u64>)
        ensures
            target is Some <==> old(self).phase is Idle,
            target matches Some(t) ==> {
                &&& t == sat_sub(old(self).current_metric, old(self).config.stop_threshold_mb)
                &&& *final(self) == (HysteresisController {
                    phase: Phase::Cleaning { target_mb: t },
                    ..*old(self)
                })
            },
            target is None ==> *final(self) == *old(self),
    {
        match self.phase {
            Phase::Idle => {
                let target: u64 = if self.current_metric >= self.config.stop_threshold_mb {
                    self.current_metric - self.config.stop_threshold_mb
                } else {
                    0
                };
                self.phase = Phase::Cleaning { target_mb: target };
                Some(target)
            },
            Phase::Cleaning { .. } => None,
        }
    }

    /// Record the completion of the cycle in flight at time `now`.  The
    /// reported outcome carries what was asked and what the executor says it
    /// reclaimed; an executor that failed outright is reported as zero
    /// reclaimed and degraded.  Completion always returns the controller to
    /// idle and always resets the cooldown origin, degraded or not, so a
    /// failing executor is not retried before the cooldown elapses.
    pub fn finish_cycle(&mut self, now: u64, reclaimed_mb: u64, degraded: bool) -> (o:
        CleanupOutcome)
        requires
            old(self).phase is Cleaning,
        ensures
            *final(self) == old(self).spec_finish(now),
            final(self).phase is Idle,
            final(self).last_action_at == Some(now),
            o.attempted_target_mb == old(self).phase->target_mb,
            o.actually_reclaimed_mb == reclaimed_mb,
            o.degraded == degraded,
    {
        let attempted: u64 = match self.phase {
            Phase::Cleaning { target_mb } => target_mb,
            Phase::Idle => 0,
        };
        self.phase = Phase::Idle;
        self.last_action_at = Some(now);
        CleanupOutcome {
            attempted_target_mb: attempted,
            actually_reclaimed_mb: reclaimed_mb,
            degraded,
        }
    }
}

/// The controller state after a sequence of ticks, each a timestamp and an
/// optional sample, applied left to right.
pub open spec fn spec_run(c: HysteresisController, inputs: Seq<(u64, Option<u64>)>)
    -> HysteresisController
    decreases inputs.len(),
{
    if inputs.len() == 0 {
        c
    } else {
        spec_run(c.spec_tick(inputs[0].0, inputs[0].1), inputs.drop_first())
    }
}

/// Whether any tick of the sequence starts a cleanup cycle.
pub open spec fn spec_any_start(c: HysteresisController, inputs: Seq<(u64, Option<u64>)>) -> bool
    decreases inputs.len(),
{
    if inputs.len() == 0 {
        false
    } else {
        c.spec_starts(inputs[0].0, inputs[0].1) || spec_any_start(
            c.spec_tick(inputs[0].0, inputs[0].1),
            inputs.drop_first(),
        )
    }
}

/// Hysteresis invariant, first half: a cleanup cycle never starts while one
/// is already in flight, whatever the sample and the clock say.
pub proof fn lemma_no_start_while_cleaning(
    c: HysteresisController,
    now: u64,
    sample: Option<u64>,
)
    requires
        c.phase is Cleaning,
    ensures
        !c.spec_starts(now, sample),
{
}

/// Hysteresis invariant, second half: after a cycle completes at `t0`, a
/// tick whose clock still lies inside the cooldown window starts nothing.
pub proof fn lemma_cooldown_window_blocks(
    c: HysteresisController,
    t0: u64,
    now: u64,
    sample: Option<u64>,
)
    requires
        sat_sub(now, t0) < c.cooldown,
    ensures
        !c.spec_finish(t0).spec_starts(now, sample),
{
}

/// Hysteresis invariant over whole runs: as long as every tick of a run
/// stays inside the cooldown window opened by the cycle that completed at
/// `t0`, no tick of the run starts a cleanup cycle.
pub proof fn lemma_no_start_within_cooldown_run(
    c: HysteresisController,
    t0: u64,
    inputs: Seq<(u64, Option<u64>)>,
)
    requires
        forall|i: int|
            0 <= i < inputs.len() ==> sat_sub((#[trigger] inputs[i]).0, t0) < c.cooldown,
    ensures
        !spec_any_start(c.spec_finish(t0), inputs),
{
    lemma_run_in_window_never_starts(c.spec_finish(t0), t0, inputs);
}

/// Helper for the run-level cooldown law: from any state whose last action
/// completed at `t0`, ticks that all fall inside the cooldown window start
/// nothing.
proof fn lemma_run_in_window_never_starts(
    c: HysteresisController,
    t0: u64,
    inputs: Seq<(u64, Option<u64>)>,
)
    requires
        c.last_action_at == Some(t0),
        forall|i: int|
            0 <= i < inputs.len() ==> sat_sub((#[trigger] inputs[i]).0, t0) < c.cooldown,
    ensures
        !spec_any_start(c, inputs),
    decreases inputs.len(),
{
    if inputs.len() > 0 {
        let c1 = c.spec_tick(inputs[0].0, inputs[0].1);
        assert(c1.last_action_at == Some(t0));
        assert(c1.cooldown == c.cooldown);
        assert forall|i: int| 0 <= i < inputs.drop_first().len()
            implies sat_sub((#[trigger] inputs.drop_first()[i]).0, t0) < c1.cooldown by {
            assert(inputs.drop_first()[i] == inputs[i + 1]);
        }
        lemma_run_in_window_never_starts(c1, t0, inputs.drop_first());
    }
}

/// No false trigger when disabled: with automatic cleaning switched off, no
/// tick of any run ever starts a cycle, and an idle controller stays idle.
pub proof fn lemma_disabled_never_triggers(
    c: HysteresisController,
    inputs: Seq<(u64, Option<u64>)>,
)
    requires
        !c.config.auto_clean_enabled,
    ensures
        !spec_any_start(c, inputs),
        c.phase is Idle ==> spec_run(c, inputs).phase is Idle,
    decreases inputs.len(),
{
    if inputs.len() > 0 {
        let c1 = c.spec_tick(inputs[0].0, inputs[0].1);
        assert(c1.config == c.config);
        lemma_disabled_never_triggers(c1, inputs.drop_first());
    }
}

/// A degraded or failed reclamation still resets the cooldown origin:
/// completion at `now` records `now` as the last action time no matter what
/// the executor reported.
pub proof fn lemma_degraded_reclaim_resets_cooldown(c: HysteresisController, now: u64)
    ensures
        c.spec_finish(now).last_action_at == Some(now),
        c.spec_finish(now).phase is Idle,
{
}

} // verus!
