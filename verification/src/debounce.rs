//! The debounced writer: it keeps the most recent geometry update and decides,
//! each time the background flush cycle wakes, whether that update is written,
//! waited for, or whether the cycle ends.
//!
//! The writer holds no clock and does no I/O. The host passes the current time
//! in milliseconds of a monotonic clock, runs the cycle (sleep, wake, write),
//! and reports back after each write. All calls on one writer are made under
//! one lock, so that each is a single step of the state machine below.

use vstd::prelude::*;
use crate::window_state::WindowState;

verus! {

/// The recommended quiet period, in milliseconds.
pub const DEBOUNCE_MILLIS: u64 = 500;

/// What the flush cycle does after a step of the writer.
#[derive(Debug, Clone, Copy, PartialEq, Eq, Structural)]
pub enum CycleStep {
    /// Write this record, then call [`DebouncedWriter::persisted`].
    Persist(WindowState),
    /// Sleep for another quiet period, then call [`DebouncedWriter::wake`].
    Sleep,
    /// The cycle is over; the next update starts a new one.
    Stop,
}

/// An update that waits to be written, with the time at which it was recorded.
#[derive(Debug, Clone, Copy, PartialEq, Eq, Structural)]
pub struct PendingUpdate {
    pub state: WindowState,
    pub recorded_at: u64,
}

/// The mathematical state of a writer: its quiet period, the one pending
/// update if there is any, and whether a flush cycle is alive.
pub struct WriterModel {
    pub quiet: nat,
    pub pending: Option<(WindowState, nat)>,
    pub running: bool,
}

impl WriterModel {
    /// A writer with nothing pending and no cycle.
    pub open spec fn idle(quiet: nat) -> WriterModel {
        WriterModel { quiet, pending: None, running: false }
    }

    /// A pending update always has a live cycle that will service it.
    pub open spec fn well_formed(self) -> bool {
        self.pending is Some ==> self.running
    }

    /// Whether recording an update now has to start a cycle.
    pub open spec fn spawns(self) -> bool {
        !self.running
    }

    /// The writer after an update was recorded at `now`: the update replaces
    /// whatever was pending, and a cycle is alive.
    pub open spec fn record(self, state: WindowState, now: nat) -> WriterModel {
        WriterModel { pending: Some((state, now)), running: true, ..self }
    }

    /// How long ago `at` was, seen from `now`; zero if the clock went back.
    pub open spec fn age(at: nat, now: nat) -> nat {
        if now >= at {
            (now - at) as nat
        } else {
            0
        }
    }

    /// Whether the pending update, if any, has been left alone for a full
    /// quiet period at `now`.
    pub open spec fn due(self, now: nat) -> bool {
        self.pending matches Some((_, at)) && Self::age(at, now) >= self.quiet
    }

    /// What the cycle does when it wakes at `now`.
    pub open spec fn wake_step(self, now: nat) -> CycleStep {
        match self.pending {
            None => CycleStep::Stop,
            Some((state, _)) => if self.due(now) {
                CycleStep::Persist(state)
            } else {
                CycleStep::Sleep
            },
        }
    }

    /// The writer after the cycle woke at `now`: an update that is due is
    /// taken out, a younger one stays, and with nothing pending the cycle ends.
    pub open spec fn wake(self, now: nat) -> WriterModel {
        match self.pending {
            None => WriterModel { running: false, ..self },
            Some(_) => if self.due(now) {
                WriterModel { pending: None, ..self }
            } else {
                self
            },
        }
    }

    /// What the cycle does after a write has finished.
    pub open spec fn persisted_step(self) -> CycleStep {
        if self.pending is Some {
            CycleStep::Sleep
        } else {
            CycleStep::Stop
        }
    }

    /// The writer after a write has finished: the cycle ends unless an update
    /// arrived in the meantime.
    pub open spec fn persisted(self) -> WriterModel {
        if self.pending is Some {
            self
        } else {
            WriterModel { running: false, ..self }
        }
    }
}

/// Coalesces bursts of geometry updates into one write per quiet period.
pub struct DebouncedWriter {
    quiet_period: u64,
    pending: Option<PendingUpdate>,
    running: bool,
}

impl View for DebouncedWriter {
    type V = WriterModel;

    closed spec fn view(&self) -> WriterModel {
        WriterModel {
            quiet: self.quiet_period as nat,
            pending: match self.pending {
                Some(p) => Some((p.state, p.recorded_at as nat)),
                None => None,
            },
            running: self.running,
        }
    }
}

impl DebouncedWriter {
    /// A pending update always has a live cycle.
    #[verifier::type_invariant]
    spec fn has_cycle_when_pending(self) -> bool {
        self.pending is Some ==> self.running
    }

    /// A writer with the given quiet period in milliseconds, nothing pending
    /// and no cycle.
    pub fn new(quiet_period: u64) -> (writer: Self)
        ensures
            writer@ == WriterModel::idle(quiet_period as nat),
    {
        DebouncedWriter { quiet_period, pending: None, running: false }
    }

    /// The quiet period in milliseconds.
    pub fn quiet_period(&self) -> (quiet: u64)
        ensures
            quiet == self@.quiet,
    {
        self.quiet_period
    }

    /// The update that waits to be written, if any.
    pub fn pending(&self) -> (pending: Option<PendingUpdate>)
        ensures
            match pending {
                Some(p) => self@.pending == Some((p.state, p.recorded_at as nat)),
                None => self@.pending is None,
            },
    {
        self.pending
    }

    /// Whether a flush cycle is alive.
    pub fn is_running(&self) -> (running: bool)
        ensures
            running == self@.running,
    {
        self.running
    }

    /// Records an update made at `now`. The update replaces the pending one.
    /// Returns whether the caller has to start a flush cycle: exactly when
    /// none was alive.
    pub fn record(&mut self, state: WindowState, now: u64) -> (spawn: bool)
        ensures
            final(self)@ == old(self)@.record(state, now as nat),
            spawn == old(self)@.spawns(),
            final(self)@.well_formed(),
    {
        let spawn: bool = !self.running;
        self.running = true;
        self.pending = Some(PendingUpdate { state, recorded_at: now });
        spawn
    }

    /// One wake-up of the flush cycle at `now`, after it slept for the quiet
    /// period.
    pub fn wake(&mut self, now: u64) -> (step: CycleStep)
        ensures
            final(self)@ == old(self)@.wake(now as nat),
            step == old(self)@.wake_step(now as nat),
            final(self)@.well_formed(),
    {
        proof {
            use_type_invariant(&*self);
        }
        match self.pending {
            None => {
                self.running = false;
                CycleStep::Stop
            },
            Some(p) => {
                let age: u64 = if now >= p.recorded_at {
                    now - p.recorded_at
                } else {
                    0
                };
                if age >= self.quiet_period {
                    self.pending = None;
                    CycleStep::Persist(p.state)
                } else {
                    CycleStep::Sleep
                }
            },
        }
    }

    /// Called by the flush cycle when a write has finished, whether it
    /// succeeded or not.
    pub fn persisted(&mut self) -> (step: CycleStep)
        ensures
            final(self)@ == old(self)@.persisted(),
            step == old(self)@.persisted_step(),
            final(self)@.well_formed(),
    {
        proof {
            use_type_invariant(&*self);
        }
        if self.pending.is_some() {
            CycleStep::Sleep
        } else {
            self.running = false;
            CycleStep::Stop
        }
    }
}

} // verus!
