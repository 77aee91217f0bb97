//! Elapsed-time accounting for a running task.
//!
//! A [`RunTimer`] accumulates wall-clock time spent running, excluding paused
//! intervals. Instants are milliseconds on a monotonic clock; every
//! subtraction saturates so a skewed or backward-jumping clock can never
//! produce a negative delta.

use vstd::prelude::*;

verus! {

/// Saturating subtraction on millisecond instants.
pub open spec fn sat_sub64(a: u64, b: u64) -> u64 {
    if a >= b {
        (a - b) as u64
    } else {
        0u64
    }
}

/// Saturating addition on millisecond durations.
pub open spec fn sat_add64(a: u64, b: u64) -> u64 {
    if a + b > u64::MAX {
        u64::MAX as u64
    } else {
        (a + b) as u64
    }
}

/// Tracks accumulated running time across pause/resume cycles, plus a fixed
/// animation anchor set at creation and never touched again.
#[derive(Clone, Copy, Debug)]
pub struct RunTimer {
    /// Milliseconds accumulated while running, excluding paused intervals.
    pub elapsed_running_ms: u64,
    /// Instant of the most recent resume; meaningful while not paused.
    pub last_resume_at: Option<u64>,
    /// Whether the timer is currently paused.
    pub is_paused: bool,
    /// Fixed anchor for the animation phase; never mutated after creation.
    pub spinner_started_at: u64,
}

/// Materialized timer state for one render frame.
#[derive(Clone, Copy, Debug, PartialEq, Eq)]
pub struct RunTimerSnapshot {
    pub elapsed_running_ms: u64,
    pub last_resume_at: Option<u64>,
    pub is_paused: bool,
}

impl RunTimer {
    /// A running timer always knows when it was last resumed.
    pub open spec fn wf(self) -> bool {
        !self.is_paused ==> self.last_resume_at is Some
    }

    /// The timer a fresh start yields: running, nothing accumulated, both the
    /// resume point and the spinner anchor at `now`.
    pub open spec fn spec_new(now: u64) -> RunTimer {
        RunTimer {
            elapsed_running_ms: 0,
            last_resume_at: Some(now),
            is_paused: false,
            spinner_started_at: now,
        }
    }

    /// Total running time as observed at instant `now`.
    pub open spec fn elapsed_at(self, now: u64) -> u64 {
        if self.is_paused {
            self.elapsed_running_ms
        } else {
            match self.last_resume_at {
                Some(last) => sat_add64(self.elapsed_running_ms, sat_sub64(now, last)),
                None => self.elapsed_running_ms,
            }
        }
    }

    /// The timer `pause(now)` leaves behind.
    pub open spec fn spec_paused(self, now: u64) -> RunTimer {
        if self.is_paused {
            self
        } else {
            RunTimer {
                elapsed_running_ms: match self.last_resume_at {
                    Some(last) => sat_add64(self.elapsed_running_ms, sat_sub64(now, last)),
                    None => self.elapsed_running_ms,
                },
                is_paused: true,
                ..self
            }
        }
    }

    /// The timer `resume(now)` leaves behind.
    pub open spec fn spec_resumed(self, now: u64) -> RunTimer {
        if self.is_paused {
            RunTimer { last_resume_at: Some(now), is_paused: false, ..self }
        } else {
            self
        }
    }

    /// The snapshot `snapshot(now)` returns.
    pub open spec fn spec_snapshot(self, now: u64) -> RunTimerSnapshot {
        RunTimerSnapshot {
            elapsed_running_ms: self.elapsed_at(now),
            last_resume_at: self.last_resume_at,
            is_paused: self.is_paused,
        }
    }

    /// Start a timer that is running immediately.
    pub fn new(now: u64) -> (t: RunTimer)
        ensures
            t == RunTimer::spec_new(now),
            t.wf(),
    {
        RunTimer {
            elapsed_running_ms: 0,
            last_resume_at: Some(now),
            is_paused: false,
            spinner_started_at: now,
        }
    }

    /// Resume a paused timer; a running timer is left untouched. Idempotent.
    pub fn resume(&mut self, now: u64)
        requires
            old(self).wf(),
        ensures
            *final(self) == old(self).spec_resumed(now),
            final(self).wf(),
    {
        if self.is_paused {
            self.last_resume_at = Some(now);
            self.is_paused = false;
        }
    }

    /// Pause a running timer, banking the time since the last resume; a
    /// paused timer is left untouched. Idempotent.
    pub fn pause(&mut self, now: u64)
        requires
            old(self).wf(),
        ensures
            *final(self) == old(self).spec_paused(now),
            final(self).wf(),
    {
        if self.is_paused {
            return ;
        }
        if let Some(last) = self.last_resume_at {
            self.elapsed_running_ms = sat_add_exec(self.elapsed_running_ms, sat_sub_exec(now, last));
        }
        self.is_paused = true;
    }

    /// Materialize the current elapsed time without altering any state.
    pub fn snapshot(&self, now: u64) -> (s: RunTimerSnapshot)
        ensures
            s == self.spec_snapshot(now),
    {
        let mut elapsed = self.elapsed_running_ms;
        if !self.is_paused {
            if let Some(last) = self.last_resume_at {
                elapsed = sat_add_exec(elapsed, sat_sub_exec(now, last));
            }
        }
        RunTimerSnapshot {
            elapsed_running_ms: elapsed,
            last_resume_at: self.last_resume_at,
            is_paused: self.is_paused,
        }
    }
}

/// Executable saturating subtraction, proved against [`sat_sub64`].
pub fn sat_sub_exec(a: u64, b: u64) -> (r: u64)
    ensures
        r == sat_sub64(a, b),
{
    if a >= b {
        a - b
    } else {
        0
    }
}

/// Executable saturating addition, proved against [`sat_add64`].
pub fn sat_add_exec(a: u64, b: u64) -> (r: u64)
    ensures
        r == sat_add64(a, b),
{
    if a <= u64::MAX - b {
        a + b
    } else {
        u64::MAX
    }
}

/// Law: observed elapsed time never decreases as the clock advances, and is
/// constant while the timer is paused.
pub proof fn lemma_elapsed_monotone(t: RunTimer, n1: u64, n2: u64)
    requires
        n1 <= n2,
    ensures
        t.elapsed_at(n1) <= t.elapsed_at(n2),
        t.is_paused ==> t.elapsed_at(n1) == t.elapsed_at(n2),
{
}

/// Law: a paused gap is never counted. Pausing at `pause_at`, resuming at
/// `resume_at`, and reading the clock `d` milliseconds after the resume
/// yields exactly the elapsed time observed at the pause plus `d`, no matter
/// how long the pause lasted.
pub proof fn lemma_pause_resume_excludes_gap(t: RunTimer, pause_at: u64, resume_at: u64, d: u64)
    requires
        t.wf(),
        !t.is_paused,
        t.last_resume_at->0 <= pause_at,
        t.elapsed_running_ms + (pause_at - t.last_resume_at->0) + d <= u64::MAX,
        resume_at + d <= u64::MAX,
    ensures
        t.spec_paused(pause_at).spec_resumed(resume_at).elapsed_at((resume_at + d) as u64)
            == t.elapsed_at(pause_at) + d,
{
}

} // verus!
