//! Runs of the debounced writer: what is written when updates and wake-ups of
//! the flush cycle arrive in a given order. The laws that hold of every such
//! run are in [`crate::laws`].

use vstd::prelude::*;
use crate::debounce::{CycleStep, WriterModel};
use crate::window_state::WindowState;

verus! {

/// One thing that happens to a writer, with the time at which it happens.
pub enum Event {
    /// The host recorded an update.
    Record { state: WindowState, at: nat },
    /// The flush cycle woke from a sleep.
    Wake { at: nat },
    /// The flush cycle finished the write it had begun.
    Persisted { at: nat },
    /// The host wrote a record at once, past the writer, as it does when the
    /// window closes.
    Flush { current: WindowState, at: nat },
}

impl Event {
    /// The time at which the event happens.
    pub open spec fn at(self) -> nat {
        match self {
            Event::Record { at, .. } => at,
            Event::Wake { at } => at,
            Event::Persisted { at } => at,
            Event::Flush { at, .. } => at,
        }
    }
}

/// A write begun by the flush cycle.
pub struct Write {
    pub state: WindowState,
    pub at: nat,
}

/// A writer in the middle of a run.
pub struct Timeline {
    pub writer: WriterModel,
    /// The cycle has begun a write and has not yet reported it finished.
    pub writing: bool,
    /// The writes that the cycle has begun, oldest first.
    pub written: Seq<Write>,
    /// The record that was written last, by the cycle or at once: what the
    /// file holds, if anything was written.
    pub disk: Option<WindowState>,
}

impl Timeline {
    /// A fresh writer: nothing pending, no cycle, nothing written.
    pub open spec fn start(quiet: nat) -> Timeline {
        Timeline {
            writer: WriterModel::idle(quiet),
            writing: false,
            written: Seq::empty(),
            disk: None,
        }
    }

    /// The records written so far, oldest first.
    pub open spec fn states(self) -> Seq<WindowState> {
        Seq::new(self.written.len(), |i: int| self.written[i].state)
    }

    /// Whether `event` can happen now: the cycle wakes only while it is alive
    /// and not writing, and reports a write finished only while one is under
    /// way.
    pub open spec fn admits(self, event: Event) -> bool {
        match event {
            Event::Record { .. } => true,
            Event::Wake { .. } => self.writer.running && !self.writing,
            Event::Persisted { .. } => self.writing,
            Event::Flush { .. } => true,
        }
    }

    /// The run after one more event. A wake-up counts only while a cycle is
    /// alive and not busy writing; a report of a finished write counts only
    /// while a write is under way. A write at once goes to the file and
    /// leaves the writer as it is.
    pub open spec fn step(self, event: Event) -> Timeline {
        match event {
            Event::Record { state, at } => Timeline {
                writer: self.writer.record(state, at),
                ..self
            },
            Event::Wake { at } => if self.writer.running && !self.writing {
                match self.writer.wake_step(at) {
                    CycleStep::Persist(state) => Timeline {
                        writer: self.writer.wake(at),
                        writing: true,
                        written: self.written.push(Write { state, at }),
                        disk: Some(state),
                    },
                    _ => Timeline { writer: self.writer.wake(at), ..self },
                }
            } else {
                self
            },
            Event::Persisted { .. } => if self.writing {
                Timeline { writer: self.writer.persisted(), writing: false, ..self }
            } else {
                self
            },
            Event::Flush { current, .. } => Timeline { disk: Some(current), ..self },
        }
    }

    /// The run after all events of `trace`, in order.
    pub open spec fn replay(self, trace: Seq<Event>) -> Timeline
        decreases trace.len(),
    {
        if trace.len() == 0 {
            self
        } else {
            self.replay(trace.drop_last()).step(trace.last())
        }
    }
}

/// Time does not go back along the trace.
pub open spec fn ordered(trace: Seq<Event>) -> bool {
    forall|i: int, j: int| 0 <= i <= j < trace.len() ==> trace[i].at() <= trace[j].at()
}

/// The index of the last update in the trace, or -1 if it holds none.
pub open spec fn last_record_index(trace: Seq<Event>) -> int
    decreases trace.len(),
{
    if trace.len() == 0 {
        -1
    } else if trace.last() is Record {
        trace.len() - 1
    } else {
        last_record_index(trace.drop_last())
    }
}

/// The states of the updates in the trace, in order.
pub open spec fn recorded(trace: Seq<Event>) -> Seq<WindowState>
    decreases trace.len(),
{
    if trace.len() == 0 {
        Seq::empty()
    } else {
        match trace.last() {
            Event::Record { state, .. } => recorded(trace.drop_last()).push(state),
            _ => recorded(trace.drop_last()),
        }
    }
}

/// Every update but the first comes less than a quiet period after the
/// update before it.
pub open spec fn rapid(trace: Seq<Event>, quiet: nat) -> bool {
    forall|j: int|
        0 <= j < trace.len() && (#[trigger] trace[j]) is Record && last_record_index(
            trace.take(j),
        ) >= 0 ==> trace[j].at() < trace[last_record_index(trace.take(j))].at() + quiet
}

/// The wake-up at index `k` serves the update at index `i`: it comes a full
/// quiet period or more after the update, and no other update comes between.
pub open spec fn serves(trace: Seq<Event>, quiet: nat, i: int, k: int) -> bool {
    &&& 0 <= i < k < trace.len()
    &&& trace[k] is Wake
    &&& trace[k].at() >= trace[i].at() + quiet
    &&& forall|j: int| i < j <= k ==> !((#[trigger] trace[j]) is Record)
}

/// Every update is left alone for a full quiet period, and the cycle wakes
/// after that period and before the next update.
pub open spec fn spaced(trace: Seq<Event>, quiet: nat) -> bool {
    forall|i: int|
        0 <= i < trace.len() && (#[trigger] trace[i]) is Record ==> exists|k: int|
            serves(trace, quiet, i, k)
}

/// The trace is one that a cycle can produce: every event in it can happen
/// in the state that the events before it lead to.
pub open spec fn feasible(trace: Seq<Event>, quiet: nat) -> bool {
    forall|n: int|
        0 <= n < trace.len() ==> #[trigger] Timeline::start(quiet).replay(trace.take(n)).admits(
            trace[n],
        )
}

/// No record is written at once, past the writer.
pub open spec fn no_flush(trace: Seq<Event>) -> bool {
    forall|i: int| 0 <= i < trace.len() ==> !((#[trigger] trace[i]) is Flush)
}

/// The events are wake-ups of the cycle and reports of finished writes only.
pub open spec fn cycle_only(trace: Seq<Event>) -> bool {
    forall|i: int| 0 <= i < trace.len() ==> (#[trigger] trace[i]) is Wake || trace[i] is Persisted
}

/// Where the last update of a trace stands: it is an update, and none follows.
pub proof fn lemma_last_record_index(trace: Seq<Event>)
    ensures
        -1 <= last_record_index(trace) < trace.len(),
        last_record_index(trace) >= 0 ==> trace[last_record_index(trace)] is Record,
        forall|j: int|
            last_record_index(trace) < j < trace.len() ==> !((#[trigger] trace[j]) is Record),
    decreases trace.len(),
{
    if trace.len() > 0 && !(trace.last() is Record) {
        let front = trace.drop_last();
        lemma_last_record_index(front);
        assert forall|j: int| last_record_index(trace) < j < trace.len() implies !((
        #[trigger] trace[j]) is Record) by {
            if j < front.len() {
                assert(front[j] == trace[j]);
            }
        }
    }
}

/// Replaying one more event of a trace is one more step.
pub proof fn lemma_replay_next(start: Timeline, trace: Seq<Event>, n: int)
    requires
        0 <= n < trace.len(),
    ensures
        start.replay(trace.take(n + 1)) == start.replay(trace.take(n)).step(trace[n]),
        last_record_index(trace.take(n + 1)) == if trace[n] is Record {
            n
        } else {
            last_record_index(trace.take(n))
        },
        recorded(trace.take(n + 1)) == match trace[n] {
            Event::Record { state, .. } => recorded(trace.take(n)).push(state),
            _ => recorded(trace.take(n)),
        },
{
    let longer = trace.take(n + 1);
    assert(longer.drop_last() =~= trace.take(n));
    assert(longer.last() == trace[n]);
}

} // verus!
