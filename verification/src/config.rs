//! Controller configuration and the threshold-ordering guard.
//!
//! A configuration carries a start threshold and a stop threshold (in the
//! metric's unit, megabytes) plus an enable flag for automatic cleaning.
//! The invariant `start_threshold_mb > stop_threshold_mb` must hold at all
//! times, even while the user edits either field independently: whenever an
//! edit would break the ordering, the guard moves the other field one fixed
//! step away from the edited one.

use vstd::prelude::*;

verus! {

/// Default start threshold in megabytes.
pub const DEFAULT_START_THRESHOLD_MB: u64 = 2048;

/// Default stop threshold in megabytes.
pub const DEFAULT_STOP_THRESHOLD_MB: u64 = 1024;

/// Fixed distance the guard keeps between the thresholds when it has to move
/// the side the user did not edit.
pub const THRESHOLD_STEP_MB: u64 = 1;

/// User-editable controller configuration.
#[derive(Clone, Copy, PartialEq, Eq, Structural, Debug)]
pub struct Config {
    /// Metric level at or above which an automatic cleanup cycle may begin.
    pub start_threshold_mb: u64,
    /// Target floor a cleanup cycle aims to reduce the metric toward.
    pub stop_threshold_mb: u64,
    /// When false, the controller never self-triggers; manual triggers remain
    /// possible.
    pub auto_clean_enabled: bool,
}

/// One user edit of either threshold.
#[derive(Clone, Copy, PartialEq, Eq, Structural, Debug)]
pub enum ThresholdEdit {
    SetStart { value: u64 },
    SetStop { value: u64 },
}

impl Config {
    /// Threshold ordering invariant: cleaning starts strictly above the level
    /// it aims to stop at.
    pub open spec fn wf(self) -> bool {
        self.start_threshold_mb > self.stop_threshold_mb
    }

    /// The configuration after the user sets the start threshold to `v` and
    /// the guard has run: if `v` still sits above the stop threshold nothing
    /// else moves; otherwise the stop threshold is pulled one step below the
    /// new start.  A start of zero cannot sit above any unsigned stop, so in
    /// that corner the start is raised to one step above a stop of zero.
    pub open spec fn spec_set_start(self, v: u64) -> Config {
        if v > self.stop_threshold_mb {
            Config { start_threshold_mb: v, ..self }
        } else if v >= THRESHOLD_STEP_MB {
            Config {
                start_threshold_mb: v,
                stop_threshold_mb: (v - THRESHOLD_STEP_MB) as u64,
                ..self
            }
        } else {
            Config {
                start_threshold_mb: THRESHOLD_STEP_MB,
                stop_threshold_mb: 0,
                ..self
            }
        }
    }

    /// The configuration after the user sets the stop threshold to `v` and
    /// the guard has run: if `v` still sits below the start threshold nothing
    /// else moves; otherwise the start threshold is pushed one step above the
    /// new stop.  A stop too close to the top of the unsigned range is capped
    /// one step below it so the start can still exceed it.
    pub open spec fn spec_set_stop(self, v: u64) -> Config {
        if v < self.start_threshold_mb {
            Config { stop_threshold_mb: v, ..self }
        } else if v <= u64::MAX - THRESHOLD_STEP_MB {
            Config {
                start_threshold_mb: (v + THRESHOLD_STEP_MB) as u64,
                stop_threshold_mb: v,
                ..self
            }
        } else {
            Config {
                start_threshold_mb: u64::MAX,
                stop_threshold_mb: (u64::MAX - THRESHOLD_STEP_MB) as u64,
                ..self
            }
        }
    }

    /// Set the start threshold, letting the guard keep the ordering intact.
    pub fn set_start_threshold(&mut self, v: u64)
        ensures
            *final(self) == old(self).spec_set_start(v),
            final(self).wf(),
            final(self).auto_clean_enabled == old(self).auto_clean_enabled,
    {
        if v > self.stop_threshold_mb {
            self.start_threshold_mb = v;
        } else if v >= THRESHOLD_STEP_MB {
            self.start_threshold_mb = v;
            self.stop_threshold_mb = v - THRESHOLD_STEP_MB;
        } else {
            self.start_threshold_mb = THRESHOLD_STEP_MB;
            self.stop_threshold_mb = 0;
        }
    }

    /// Set the stop threshold, letting the guard keep the ordering intact.
    pub fn set_stop_threshold(&mut self, v: u64)
        ensures
            *final(self) == old(self).spec_set_stop(v),
            final(self).wf(),
            final(self).auto_clean_enabled == old(self).auto_clean_enabled,
    {
        if v < self.start_threshold_mb {
            self.stop_threshold_mb = v;
        } else if v <= u64::MAX - THRESHOLD_STEP_MB {
            self.start_threshold_mb = v + THRESHOLD_STEP_MB;
            self.stop_threshold_mb = v;
        } else {
            self.start_threshold_mb = u64::MAX;
            self.stop_threshold_mb = u64::MAX - THRESHOLD_STEP_MB;
        }
    }

    /// Build a configuration from persisted parts.  Returns `None` exactly
    /// when the persisted pair violates the ordering invariant; the caller
    /// then falls back to the default configuration.
    pub fn from_parts(start_mb: u64, stop_mb: u64, enabled: bool) -> (r: Option<Config>)
        ensures
            r is Some <==> start_mb > stop_mb,
            r matches Some(c) ==> c == (Config {
                start_threshold_mb: start_mb,
                stop_threshold_mb: stop_mb,
                auto_clean_enabled: enabled,
            }),
    {
        if start_mb > stop_mb {
            Some(Config {
                start_threshold_mb: start_mb,
                stop_threshold_mb: stop_mb,
                auto_clean_enabled: enabled,
            })
        } else {
            None
        }
    }
}

/// The configuration after one user edit and the guard.
pub open spec fn spec_apply_edit(c: Config, e: ThresholdEdit) -> Config {
    match e {
        ThresholdEdit::SetStart { value } => c.spec_set_start(value),
        ThresholdEdit::SetStop { value } => c.spec_set_stop(value),
    }
}

/// The configuration after a whole sequence of user edits, each followed by
/// the guard, applied left to right.
pub open spec fn spec_apply_edits(c: Config, edits: Seq<ThresholdEdit>) -> Config
    decreases edits.len(),
{
    if edits.len() == 0 {
        c
    } else {
        spec_apply_edits(spec_apply_edit(c, edits[0]), edits.drop_first())
    }
}

/// Every single edit leaves the thresholds ordered, whatever state the pair
/// was in before.
pub proof fn lemma_edit_establishes_ordering(c: Config, e: ThresholdEdit)
    ensures
        spec_apply_edit(c, e).wf(),
{
}

/// Threshold ordering invariant: for every sequence of user edits to either
/// threshold, the pair the guard leaves behind satisfies
/// `start_threshold_mb > stop_threshold_mb`.
pub proof fn lemma_edits_preserve_ordering(c: Config, edits: Seq<ThresholdEdit>)
    requires
        c.wf(),
    ensures
        spec_apply_edits(c, edits).wf(),
    decreases edits.len(),
{
    if edits.len() > 0 {
        lemma_edit_establishes_ordering(c, edits[0]);
        lemma_edits_preserve_ordering(spec_apply_edit(c, edits[0]), edits.drop_first());
    }
}

/// The guard is a no-op on a pair that already satisfies the ordering
/// invariant: re-setting either threshold to its current value changes
/// nothing.
pub proof fn lemma_guard_noop_on_valid(c: Config)
    requires
        c.wf(),
    ensures
        c.spec_set_start(c.start_threshold_mb) == c,
        c.spec_set_stop(c.stop_threshold_mb) == c,
{
}

/// Idempotence: applying the guard twice in a row with the same edited start
/// value yields the same pair as applying it once.
pub proof fn lemma_set_start_idempotent(c: Config, v: u64)
    ensures
        c.spec_set_start(v).spec_set_start(v) == c.spec_set_start(v),
{
}

/// Idempotence: applying the guard twice in a row with the same edited stop
/// value yields the same pair as applying it once.
pub proof fn lemma_set_stop_idempotent(c: Config, v: u64)
    ensures
        c.spec_set_stop(v).spec_set_stop(v) == c.spec_set_stop(v),
{
}

impl Default for Config {
    /// The configuration used when nothing valid was persisted.
    fn default() -> (c: Config)
        ensures
            c.start_threshold_mb == DEFAULT_START_THRESHOLD_MB,
            c.stop_threshold_mb == DEFAULT_STOP_THRESHOLD_MB,
            c.auto_clean_enabled,
            c.wf(),
    {
        Config {
            start_threshold_mb: DEFAULT_START_THRESHOLD_MB,
            stop_threshold_mb: DEFAULT_STOP_THRESHOLD_MB,
            auto_clean_enabled: true,
        }
    }
}

} // verus!
