//! The budget interval job: when the budget is next reset, what a reset
//! does to the record, and how the job ends.

use vstd::prelude::*;
use crate::budget::{BudgetIntervalConfig, NwcStore, NwcStoreView};

verus! {

/// Whether a job runs.
#[derive(Clone, Copy, Debug, PartialEq, Eq, Structural)]
pub enum JobState {
    Running,
    Stopped,
}

/// What woke the job.
#[derive(Clone, Copy, Debug, PartialEq, Eq, Structural)]
pub enum JobEvent {
    /// The signal to stop came.
    Cancelled,
    /// The timer ran out, at the time `now`.
    TimerFired { now: u64 },
}

/// Why a job cannot go on.
#[derive(Clone, Copy, Debug, PartialEq, Eq, Structural)]
pub enum JobError {
    /// The record has no interval any more.
    IntervalMissing,
    /// The record has no budget to reset.
    BudgetMissing,
}

/// What the job does next.
#[derive(Clone, Copy, Debug, PartialEq, Eq, Structural)]
pub enum JobAction {
    /// Store the record, then wait so many seconds for the next reset.
    StoreAndWait { secs: u64 },
    /// Leave without a trace.
    Exit,
    /// Give up with an error.
    Fail { error: JobError },
}

/// The message that goes with a [`JobError`].
pub fn job_error_message(error: JobError) -> (r: String)
    ensures
        r@ == match error {
            JobError::IntervalMissing => "interval_config disappeared!"@,
            JobError::BudgetMissing => "budget_msat missing"@,
        },
{
    match error {
        JobError::IntervalMissing => "interval_config disappeared!".to_owned(),
        JobError::BudgetMissing => "budget_msat missing".to_owned(),
    }
}

/// How many seconds lie between `now` and the next reset: what is left of
/// the interval since the last reset, and never less than one second.
pub open spec fn next_fire(conf: BudgetIntervalConfig, now: u64) -> u64 {
    let elapsed: int = if now > conf.last_reset {
        now - conf.last_reset
    } else {
        0
    };
    if conf.interval_secs - elapsed >= 1 {
        (conf.interval_secs - elapsed) as u64
    } else {
        1
    }
}

/// Computes the seconds until the next reset.
pub fn next_reset_delay(conf: &BudgetIntervalConfig, now: u64) -> (r: u64)
    ensures
        r == next_fire(*conf, now),
        r >= 1,
{
    let left = conf.interval_secs.saturating_sub(now.saturating_sub(conf.last_reset));
    if left < 1 {
        1
    } else {
        left
    }
}

/// Right after a reset, the next one is a full interval away.
pub proof fn lemma_full_interval_after_reset(conf: BudgetIntervalConfig, now: u64)
    requires
        conf.last_reset == now,
    ensures
        next_fire(conf, now) == if conf.interval_secs >= 1 {
            conf.interval_secs
        } else {
            1
        },
{
}

/// The seconds that a job waits when it starts on a record at the time
/// `now`; a record without an interval has no job.
pub fn job_start(nwc_store: &NwcStore, now: u64) -> (r: Result<u64, JobError>)
    ensures
        r == match nwc_store.interval_config {
            Some(conf) => Ok::<u64, JobError>(next_fire(conf, now)),
            None => Err(JobError::IntervalMissing),
        },
{
    match &nwc_store.interval_config {
        Some(conf) => Ok(next_reset_delay(conf, now)),
        None => Err(JobError::IntervalMissing),
    }
}

/// What a reset at the time `now` makes of a record: the budget is the
/// amount of the interval again, and the interval begins anew.
pub open spec fn after_reset(store: NwcStoreView, now: u64) -> NwcStoreView {
    NwcStoreView {
        budget_msat: Some(store.interval_config->0.reset_budget_msat),
        interval_config: Some(
            BudgetIntervalConfig { last_reset: now, ..store.interval_config->0 },
        ),
        ..store
    }
}

/// The next state of a job, its record and its action, after an event.
///
/// Cancelled, the job stops and leaves the record as it is. When its timer
/// runs out, it resets the budget and waits a full interval; a record that
/// has lost its interval or its budget ends the job with an error and is
/// left as it is.
pub open spec fn job_next(store: NwcStoreView, event: JobEvent) -> (
    JobState,
    NwcStoreView,
    JobAction,
) {
    match event {
        JobEvent::Cancelled => (JobState::Stopped, store, JobAction::Exit),
        JobEvent::TimerFired { now } => if store.interval_config is None {
            (JobState::Stopped, store, JobAction::Fail { error: JobError::IntervalMissing })
        } else if store.budget_msat is None {
            (JobState::Stopped, store, JobAction::Fail { error: JobError::BudgetMissing })
        } else {
            (
                JobState::Running,
                after_reset(store, now),
                JobAction::StoreAndWait {
                    secs: next_fire(after_reset(store, now).interval_config->0, now),
                },
            )
        },
    }
}

/// Moves a running job on by one event.
pub fn job_step(nwc_store: &mut NwcStore, event: JobEvent) -> (r: (JobState, JobAction))
    ensures
        (r.0, final(nwc_store).deep_view(), r.1) == job_next(old(nwc_store).deep_view(), event),
        old(nwc_store).deep_view().well_formed() ==> final(nwc_store).deep_view().well_formed(),
{
    match event {
        JobEvent::Cancelled => (JobState::Stopped, JobAction::Exit),
        JobEvent::TimerFired { now } => {
            match nwc_store.interval_config {
                None => (JobState::Stopped, JobAction::Fail { error: JobError::IntervalMissing }),
                Some(conf) => {
                    if nwc_store.budget_msat.is_none() {
                        return (
                            JobState::Stopped,
                            JobAction::Fail { error: JobError::BudgetMissing },
                        );
                    }
                    let renewed = BudgetIntervalConfig {
                        interval_secs: conf.interval_secs,
                        reset_budget_msat: conf.reset_budget_msat,
                        last_reset: now,
                    };
                    nwc_store.budget_msat = Some(conf.reset_budget_msat);
                    nwc_store.interval_config = Some(renewed);
                    (
                        JobState::Running,
                        JobAction::StoreAndWait { secs: next_reset_delay(&renewed, now) },
                    )
                },
            }
        },
    }
}

/// A job that was cancelled never touches the record again.
pub proof fn lemma_cancel_prevents_reset(store: NwcStoreView)
    ensures
        job_next(store, JobEvent::Cancelled) == (JobState::Stopped, store, JobAction::Exit),
{
}

/// A reset brings the budget back to the amount of the interval and moves
/// the time of the last reset to the time of the reset.
pub proof fn lemma_reset_restores_budget(store: NwcStoreView, now: u64)
    requires
        store.well_formed(),
        store.interval_config is Some,
    ensures
        job_next(store, JobEvent::TimerFired { now }).0 == JobState::Running,
        job_next(store, JobEvent::TimerFired { now }).1.budget_msat == Some(
            store.interval_config->0.reset_budget_msat,
        ),
        job_next(store, JobEvent::TimerFired { now }).1.interval_config->0.last_reset == now,
        job_next(store, JobEvent::TimerFired { now }).1.well_formed(),
{
}

} // verus!
