//! The laws of the debounced writer: what holds of every run, however updates
//! and wake-ups of the flush cycle fall.
//!
//! A burst of updates is written once, with its last value. Updates that are
//! each left alone for a quiet period are each written. Two writes of the
//! cycle are at least a quiet period apart, the cycle always writes the
//! latest update, no update is left behind without a cycle, and a write made
//! at once does not disturb any of this.

use vstd::prelude::*;
use crate::debounce::{CycleStep, WriterModel};
use crate::timeline::{
    cycle_only, feasible, last_record_index, lemma_last_record_index, lemma_replay_next,
    no_flush, ordered, rapid, recorded, serves, spaced, Event, Timeline, Write,
};
use crate::window_state::WindowState;

verus! {

/// While a later update of a rapid trace is still to come, an event that is
/// no update comes less than a quiet period after the latest update.
proof fn lemma_inside_burst(trace: Seq<Event>, quiet: nat, n: int, j: int)
    requires
        ordered(trace),
        rapid(trace, quiet),
        0 <= n < j < trace.len(),
        trace[j] is Record,
        !(trace[n] is Record),
        last_record_index(trace.take(n)) >= 0,
    ensures
        trace[n].at() < trace[last_record_index(trace.take(n))].at() + quiet,
    decreases j - n,
{
    let before_n = trace.take(n);
    let before_j = trace.take(j);
    let a = last_record_index(before_n);
    let i = last_record_index(before_j);
    lemma_last_record_index(before_n);
    lemma_last_record_index(before_j);
    assert(before_n[a] == trace[a]);
    assert(before_j[a] == trace[a]);
    assert(i >= a);
    assert(before_j[i] == trace[i]);
    if i < n {
        assert(before_n[i] == trace[i]);
        assert(i == a);
    } else {
        lemma_inside_burst(trace, quiet, n, i);
    }
}

/// Up to its last update, a rapid trace writes nothing: the latest update
/// is pending and the cycle sleeps.
proof fn lemma_burst_pending(quiet: nat, trace: Seq<Event>, n: int)
    requires
        ordered(trace),
        rapid(trace, quiet),
        0 <= n <= last_record_index(trace) + 1,
    ensures
        ({
            let run = Timeline::start(quiet).replay(trace.take(n));
            let a = last_record_index(trace.take(n));
            &&& run.written.len() == 0
            &&& !run.writing
            &&& run.writer.quiet == quiet
            &&& a < 0 ==> run.writer == WriterModel::idle(quiet)
            &&& a >= 0 ==> run.writer.running && run.writer.pending == Some(
                (trace[a]->state, trace[a].at()),
            )
        }),
    decreases n,
{
    lemma_last_record_index(trace);
    if n == 0 {
        assert(trace.take(0).len() == 0);
    } else {
        let m = last_record_index(trace);
        let start = Timeline::start(quiet);
        let before = start.replay(trace.take(n - 1));
        let event = trace[n - 1];
        let a = last_record_index(trace.take(n - 1));
        lemma_burst_pending(quiet, trace, n - 1);
        lemma_replay_next(start, trace, n - 1);
        assert(start.replay(trace.take(n)) == before.step(event));
        match event {
            Event::Record { state, at } => {},
            Event::Persisted { at } => {
                assert(before.step(event) == before);
            },
            Event::Flush { current, at } => {},
            Event::Wake { at } => {
                if a >= 0 {
                    lemma_last_record_index(trace.take(n - 1));
                    assert(trace.take(n - 1)[a] == trace[a]);
                    lemma_inside_burst(trace, quiet, n - 1, m);
                    assert(trace[a].at() <= at);
                    assert(!before.writer.due(at));
                    assert(before.writer.wake_step(at) == CycleStep::Sleep);
                    assert(before.writer.wake(at) == before.writer);
                    assert(before.step(event) == before);
                } else {
                    assert(before.step(event) == before);
                }
            },
        }
    }
}

/// After the last update of a rapid trace, that update is either still
/// pending or the one thing written; once the cycle has woken a quiet period
/// after it, it is written.
proof fn lemma_burst_settles(quiet: nat, trace: Seq<Event>, k: int, n: int)
    requires
        ordered(trace),
        rapid(trace, quiet),
        last_record_index(trace) >= 0,
        last_record_index(trace) < k < trace.len(),
        trace[k] is Wake,
        trace[k].at() >= trace[last_record_index(trace)].at() + quiet,
        last_record_index(trace) < n <= trace.len(),
    ensures
        ({
            let run = Timeline::start(quiet).replay(trace.take(n));
            let last = trace[last_record_index(trace)];
            &&& run.writer.quiet == quiet
            &&& {
                ||| {
                    &&& n <= k
                    &&& run.written.len() == 0
                    &&& !run.writing
                    &&& run.writer.running
                    &&& run.writer.pending == Some((last->state, last.at()))
                }
                ||| {
                    &&& run.written.len() == 1
                    &&& run.written[0].state == last->state
                    &&& run.writer.pending is None
                }
            }
        }),
    decreases n,
{
    let m = last_record_index(trace);
    let start = Timeline::start(quiet);
    lemma_last_record_index(trace);
    lemma_replay_next(start, trace, n - 1);
    if n == m + 1 {
        lemma_burst_pending(quiet, trace, m);
    } else {
        let before = start.replay(trace.take(n - 1));
        let event = trace[n - 1];
        lemma_burst_settles(quiet, trace, k, n - 1);
        assert(start.replay(trace.take(n)) == before.step(event));
        assert(!(event is Record));
        assert(trace[m].at() <= event.at());
        if before.written.len() == 0 {
            match event {
                Event::Wake { at } => {
                    if before.writer.due(at) {
                        assert(before.writer.wake_step(at) == CycleStep::Persist(trace[m]->state));
                        assert(before.step(event).written[0].state == trace[m]->state);
                    } else {
                        assert(n - 1 != k);
                        assert(before.step(event) == before);
                    }
                },
                Event::Flush { current, at } => {
                    assert(before.step(event).writer == before.writer);
                },
                _ => {
                    assert(before.step(event) == before);
                },
            }
        } else {
            match event {
                Event::Wake { at } => {
                    assert(before.writer.wake_step(at) == CycleStep::Stop);
                    assert(before.step(event).written == before.written);
                },
                _ => {
                    assert(before.step(event).written == before.written);
                },
            }
        }
    }
}

/// Where nothing is written at once, the file holds what the cycle wrote
/// last, and nothing before the cycle's first write.
pub proof fn lemma_disk_holds_the_last_write(start: Timeline, trace: Seq<Event>)
    requires
        no_flush(trace),
        start.disk == if start.written.len() == 0 {
            None
        } else {
            Some(start.written.last().state)
        },
    ensures
        start.replay(trace).disk == if start.replay(trace).written.len() == 0 {
            None
        } else {
            Some(start.replay(trace).written.last().state)
        },
    decreases trace.len(),
{
    if trace.len() > 0 {
        let front = trace.drop_last();
        assert forall|i: int| 0 <= i < front.len() implies !((#[trigger] front[i]) is Flush) by {
            assert(front[i] == trace[i]);
        }
        lemma_disk_holds_the_last_write(start, front);
        assert(trace.last() == trace[trace.len() - 1]);
    }
}

/// Updates that follow one another faster than the quiet period are written
/// once: when the cycle has woken a full quiet period after the last of them
/// (at index `k`), exactly one write has been made, and it holds the state of
/// the last update. Where nothing else was written at once, that state is
/// what the file holds.
pub proof fn lemma_burst_is_written_once(quiet: nat, trace: Seq<Event>, k: int)
    requires
        ordered(trace),
        rapid(trace, quiet),
        last_record_index(trace) >= 0,
        last_record_index(trace) < k < trace.len(),
        trace[k] is Wake,
        trace[k].at() >= trace[last_record_index(trace)].at() + quiet,
    ensures
        Timeline::start(quiet).replay(trace).states() == seq![
            trace[last_record_index(trace)]->state,
        ],
        Timeline::start(quiet).replay(trace).writer.pending is None,
        no_flush(trace) ==> Timeline::start(quiet).replay(trace).disk == Some(
            trace[last_record_index(trace)]->state,
        ),
{
    if no_flush(trace) {
        lemma_disk_holds_the_last_write(Timeline::start(quiet), trace);
    }
    lemma_burst_settles(quiet, trace, k, trace.len() as int);
    assert(trace.take(trace.len() as int) =~= trace);
    let run = Timeline::start(quiet).replay(trace);
    assert(run.states() =~= seq![trace[last_record_index(trace)]->state]);
}

/// The last of the recorded states is the state of the last update.
proof fn lemma_recorded_last(trace: Seq<Event>)
    requires
        last_record_index(trace) >= 0,
    ensures
        recorded(trace).len() > 0,
        recorded(trace).last() == trace[last_record_index(trace)]->state,
    decreases trace.len(),
{
    if !(trace.last() is Record) {
        let front = trace.drop_last();
        lemma_recorded_last(front);
        lemma_last_record_index(front);
        assert(front[last_record_index(front)] == trace[last_record_index(front)]);
    }
}

/// The three conditions under which spaced updates are each written.
#[verifier::opaque]
spec fn paced(trace: Seq<Event>, quiet: nat) -> bool {
    ordered(trace) && spaced(trace, quiet) && feasible(trace, quiet)
}

proof fn lemma_paced_order(trace: Seq<Event>, quiet: nat, i: int, j: int)
    requires
        paced(trace, quiet),
        0 <= i <= j < trace.len(),
    ensures
        trace[i].at() <= trace[j].at(),
{
    reveal(paced);
}

proof fn lemma_paced_cycle(trace: Seq<Event>, quiet: nat, n: int)
    requires
        paced(trace, quiet),
        0 <= n < trace.len(),
    ensures
        trace[n] is Wake ==> Timeline::start(quiet).replay(trace.take(n)).writer.running
            && !Timeline::start(quiet).replay(trace.take(n)).writing,
        trace[n] is Persisted ==> Timeline::start(quiet).replay(trace.take(n)).writing,
{
    reveal(paced);
    assert(Timeline::start(quiet).replay(trace.take(n)).admits(trace[n]));
}

proof fn lemma_paced_served(trace: Seq<Event>, quiet: nat, i: int) -> (k: int)
    requires
        paced(trace, quiet),
        0 <= i < trace.len(),
        trace[i] is Record,
    ensures
        serves(trace, quiet, i, k),
{
    reveal(paced);
    choose|k: int| serves(trace, quiet, i, k)
}

/// How far a spaced trace has come after its first `n` events: every update
/// so far is written, unless it is the latest one and the cycle has not yet
/// woken a quiet period after it.
spec fn progress(trace: Seq<Event>, quiet: nat, n: int) -> bool {
    let run = Timeline::start(quiet).replay(trace.take(n));
    let a = last_record_index(trace.take(n));
    &&& run.writer.quiet == quiet
    &&& {
        ||| {
            &&& run.writer.pending is None
            &&& run.states() == recorded(trace.take(n))
        }
        ||| {
            &&& a >= 0
            &&& run.writer.pending == Some((trace[a]->state, trace[a].at()))
            &&& run.states() == recorded(trace.take(n)).drop_last()
            &&& forall|k: int|
                a < k < n && (#[trigger] trace[k]) is Wake ==> trace[k].at() < trace[a].at()
                    + quiet
        }
    }
}

/// The wake-up that serves an update comes before the next update.
proof fn lemma_served_before_next(trace: Seq<Event>, quiet: nat, a: int, n: int, k: int)
    requires
        serves(trace, quiet, a, k),
        a < n < trace.len(),
        trace[n] is Record,
    ensures
        a < k < n,
{
    assert(!(trace[n] is Record) || k < n);
}

proof fn lemma_spaced_progress(quiet: nat, trace: Seq<Event>, n: int)
    requires
        paced(trace, quiet),
        0 <= n <= trace.len(),
    ensures
        progress(trace, quiet, n),
    decreases n,
{
    let start = Timeline::start(quiet);
    if n == 0 {
        assert(trace.take(0).len() == 0);
        assert(start.states() =~= Seq::<WindowState>::empty());
    } else {
        let before = start.replay(trace.take(n - 1));
        let after = start.replay(trace.take(n));
        let event = trace[n - 1];
        let a = last_record_index(trace.take(n - 1));
        lemma_spaced_progress(quiet, trace, n - 1);
        lemma_replay_next(start, trace, n - 1);
        lemma_last_record_index(trace.take(n - 1));
        lemma_paced_cycle(trace, quiet, n - 1);
        assert(after == before.step(event));
        if a >= 0 {
            assert(trace.take(n - 1)[a] == trace[a]);
            lemma_recorded_last(trace.take(n - 1));
            lemma_paced_order(trace, quiet, a, n - 1);
        }
        match event {
            Event::Record { state, at } => {
                if before.writer.pending is Some {
                    let k = lemma_paced_served(trace, quiet, a);
                    lemma_served_before_next(trace, quiet, a, n - 1, k);
                    assert(trace[k] is Wake);
                }
                assert(after.states() =~= before.states());
                assert(recorded(trace.take(n)).drop_last() =~= recorded(trace.take(n - 1)));
            },
            Event::Wake { at } => {
                if before.writer.pending is Some {
                    if before.writer.due(at) {
                        assert(before.writer.wake_step(at) == CycleStep::Persist(trace[a]->state));
                        assert(after.written == before.written.push(
                            Write { state: trace[a]->state, at },
                        ));
                        assert(after.states() =~= before.states().push(trace[a]->state));
                        assert(recorded(trace.take(n - 1)).drop_last().push(trace[a]->state)
                            =~= recorded(trace.take(n - 1)));
                    } else {
                        assert(after == before);
                    }
                } else {
                    assert(before.writer.wake_step(at) == CycleStep::Stop);
                    assert(after.states() =~= before.states());
                }
            },
            Event::Persisted { at } => {
                assert(after.states() =~= before.states());
            },
            Event::Flush { current, at } => {
                assert(after.states() =~= before.states());
            },
        }
    }
}

/// Updates that are each left alone for a full quiet period are written one
/// by one: when the cycle wakes after each of them, a quiet period or more
/// later and before the next, the writes made are the updates, in order, each
/// once.
pub proof fn lemma_spaced_updates_are_each_written(quiet: nat, trace: Seq<Event>)
    requires
        ordered(trace),
        spaced(trace, quiet),
        feasible(trace, quiet),
    ensures
        Timeline::start(quiet).replay(trace).states() == recorded(trace),
        Timeline::start(quiet).replay(trace).writer.pending is None,
{
    let n = trace.len() as int;
    assert(paced(trace, quiet)) by {
        reveal(paced);
    }
    lemma_spaced_progress(quiet, trace, n);
    assert(trace.take(n) =~= trace);
    let run = Timeline::start(quiet).replay(trace);
    if run.writer.pending is Some {
        let a = last_record_index(trace);
        lemma_last_record_index(trace);
        let k = lemma_paced_served(trace, quiet, a);
        assert(trace[k] is Wake);
        assert(false);
    }
}

/// No update is ever stranded: in every run, whatever the order of events,
/// a pending update has a live cycle, and so has a write that is under way.
pub proof fn lemma_pending_update_has_a_cycle(quiet: nat, trace: Seq<Event>)
    ensures
        Timeline::start(quiet).replay(trace).writer.well_formed(),
        Timeline::start(quiet).replay(trace).writing ==> Timeline::start(quiet).replay(
            trace,
        ).writer.running,
        Timeline::start(quiet).replay(trace).writer.quiet == quiet,
    decreases trace.len(),
{
    if trace.len() > 0 {
        lemma_pending_update_has_a_cycle(quiet, trace.drop_last());
    }
}

/// The writes of a run so far are a quiet period apart, the last of them is
/// not later than the latest event, and a pending update is not older than it.
spec fn paced_writes(trace: Seq<Event>, quiet: nat, n: int) -> bool {
    let run = Timeline::start(quiet).replay(trace.take(n));
    &&& run.writer.quiet == quiet
    &&& forall|i: int, j: int|
        0 <= i < j < run.written.len() ==> (#[trigger] run.written[i]).at + quiet <= (
        #[trigger] run.written[j]).at
    &&& run.written.len() > 0 ==> n > 0 && run.written.last().at <= trace[n - 1].at()
    &&& run.written.len() > 0 ==> (run.writer.pending matches Some((_, at))
        ==> run.written.last().at <= at)
}

proof fn lemma_paced_writes(trace: Seq<Event>, quiet: nat, n: int)
    requires
        ordered(trace),
        0 <= n <= trace.len(),
    ensures
        paced_writes(trace, quiet, n),
    decreases n,
{
    let start = Timeline::start(quiet);
    if n == 0 {
        assert(trace.take(0).len() == 0);
    } else {
        let before = start.replay(trace.take(n - 1));
        let after = start.replay(trace.take(n));
        let event = trace[n - 1];
        lemma_paced_writes(trace, quiet, n - 1);
        lemma_replay_next(start, trace, n - 1);
        assert(after == before.step(event));
        if n >= 2 {
            assert(trace[n - 2].at() <= trace[n - 1].at());
        }
        match event {
            Event::Wake { at } => {
                if before.writer.running && !before.writing && before.writer.due(at) {
                    let state = match before.writer.pending {
                        Some((state, _)) => state,
                        None => arbitrary(),
                    };
                    assert(before.writer.wake_step(at) == CycleStep::Persist(state));
                    assert(after.written == before.written.push(Write { state, at }));
                    assert forall|i: int, j: int| 0 <= i < j < after.written.len() implies (
                    #[trigger] after.written[i]).at + quiet <= (#[trigger] after.written[j]).at by {
                        if j < before.written.len() {
                            assert(after.written[i] == before.written[i]);
                            assert(after.written[j] == before.written[j]);
                        } else {
                            assert(after.written[i] == before.written[i]);
                            assert(before.written[i].at <= before.written.last().at) by {
                                if i < before.written.len() - 1 {
                                    assert(before.written[i].at + quiet
                                        <= before.written[before.written.len() - 1].at);
                                }
                            }
                        }
                    }
                } else {
                    assert(after.written == before.written);
                    assert(after.writer.pending is Some ==> after.writer.pending
                        == before.writer.pending);
                }
            },
            _ => {
                assert(after.written == before.written);
            },
        }
    }
}

/// At most one write per quiet period: whatever the order and the frequency
/// of updates and wake-ups, as long as time does not go back, any two writes
/// of the cycle are a full quiet period or more apart.
pub proof fn lemma_writes_are_a_quiet_period_apart(quiet: nat, trace: Seq<Event>)
    requires
        ordered(trace),
    ensures
        forall|i: int, j: int|
            0 <= i < j < Timeline::start(quiet).replay(trace).written.len() ==> (
            #[trigger] Timeline::start(quiet).replay(trace).written[i]).at + quiet <= (
            #[trigger] Timeline::start(quiet).replay(trace).written[j]).at,
{
    lemma_paced_writes(trace, quiet, trace.len() as int);
    assert(trace.take(trace.len() as int) =~= trace);
}

/// Only the latest update counts: in every run, the pending update is the
/// last one recorded, whatever came before it.
pub proof fn lemma_pending_is_the_latest_update(quiet: nat, trace: Seq<Event>)
    ensures
        Timeline::start(quiet).replay(trace).writer.pending matches Some((state, at)) ==> {
            &&& last_record_index(trace) >= 0
            &&& trace[last_record_index(trace)] == (Event::Record { state, at })
        },
    decreases trace.len(),
{
    if trace.len() > 0 {
        let front = trace.drop_last();
        lemma_pending_is_the_latest_update(quiet, front);
        lemma_last_record_index(front);
        if last_record_index(front) >= 0 {
            assert(front[last_record_index(front)] == trace[last_record_index(front)]);
        }
    }
}

/// No earlier update wins over a later one: whenever the cycle writes, it
/// writes the last update recorded before that wake-up.
pub proof fn lemma_cycle_writes_the_latest_update(quiet: nat, trace: Seq<Event>, n: int)
    requires
        0 <= n < trace.len(),
        Timeline::start(quiet).replay(trace.take(n + 1)).written.len() > Timeline::start(
            quiet,
        ).replay(trace.take(n)).written.len(),
    ensures
        trace[n] is Wake,
        last_record_index(trace.take(n)) >= 0,
        trace[last_record_index(trace.take(n))] matches Event::Record { state, .. }
            && Timeline::start(quiet).replay(trace.take(n + 1)).written.last().state == state
            && Timeline::start(quiet).replay(trace.take(n + 1)).disk == Some(state),
{
    let before = Timeline::start(quiet).replay(trace.take(n));
    lemma_replay_next(Timeline::start(quiet), trace, n);
    lemma_pending_is_the_latest_update(quiet, trace.take(n));
    lemma_last_record_index(trace.take(n));
    if last_record_index(trace.take(n)) >= 0 {
        assert(trace.take(n)[last_record_index(trace.take(n))] == trace[last_record_index(
            trace.take(n),
        )]);
    }
    match trace[n] {
        Event::Wake { at } => {
            if before.writer.running && !before.writing {
                match before.writer.wake_step(at) {
                    CycleStep::Persist(state) => {},
                    _ => {},
                }
            }
        },
        _ => {},
    }
}

/// A write at once goes past the writer: the file holds the record written,
/// and the pending update, the cycle and its writes are as they were.
pub proof fn lemma_flush_goes_past_the_writer(run: Timeline, current: WindowState, at: nat)
    ensures
        run.step(Event::Flush { current, at }).disk == Some(current),
        run.step(Event::Flush { current, at }).writer == run.writer,
        run.step(Event::Flush { current, at }).writing == run.writing,
        run.step(Event::Flush { current, at }).written == run.written,
{
}

/// A write at once and the cycle do not garble each other: when the record
/// written at once is the pending update, if there is one, the file holds
/// that record whatever the cycle does afterwards, as long as no new update
/// is recorded.
pub proof fn lemma_flushed_update_stays_on_disk(
    run: Timeline,
    current: WindowState,
    at: nat,
    rest: Seq<Event>,
)
    requires
        run.writer.pending matches Some((state, _)) ==> state == current,
        cycle_only(rest),
    ensures
        run.step(Event::Flush { current, at }).replay(rest).disk == Some(current),
        run.step(Event::Flush { current, at }).replay(rest).writer.pending matches Some(
            (state, _),
        ) ==> state == current,
    decreases rest.len(),
{
    if rest.len() > 0 {
        let front = rest.drop_last();
        assert forall|i: int| 0 <= i < front.len() implies (#[trigger] front[i]) is Wake
            || front[i] is Persisted by {
            assert(front[i] == rest[i]);
        }
        lemma_flushed_update_stays_on_disk(run, current, at, front);
        assert(rest.last() == rest[rest.len() - 1]);
    }
}

/// After the last update of a trace, that update is either still pending or
/// the last thing the cycle wrote; once the cycle has woken a quiet period
/// after it, it is written.
proof fn lemma_last_update_settles(quiet: nat, trace: Seq<Event>, k: int, n: int)
    requires
        ordered(trace),
        feasible(trace, quiet),
        last_record_index(trace) >= 0,
        last_record_index(trace) < k < trace.len(),
        trace[k] is Wake,
        trace[k].at() >= trace[last_record_index(trace)].at() + quiet,
        last_record_index(trace) < n <= trace.len(),
    ensures
        ({
            let run = Timeline::start(quiet).replay(trace.take(n));
            let last = trace[last_record_index(trace)];
            &&& run.writer.quiet == quiet
            &&& {
                ||| {
                    &&& n <= k
                    &&& run.writer.pending == Some((last->state, last.at()))
                }
                ||| {
                    &&& run.written.len() > 0
                    &&& run.written.last().state == last->state
                    &&& run.writer.pending is None
                }
            }
        }),
    decreases n,
{
    let m = last_record_index(trace);
    let start = Timeline::start(quiet);
    let before = start.replay(trace.take(n - 1));
    let event = trace[n - 1];
    lemma_last_record_index(trace);
    lemma_replay_next(start, trace, n - 1);
    assert(start.replay(trace.take(n)) == before.step(event));
    if n == m + 1 {
        lemma_pending_update_has_a_cycle(quiet, trace.take(m));
    } else {
        lemma_last_update_settles(quiet, trace, k, n - 1);
        assert(!(event is Record));
        assert(trace[m].at() <= event.at());
        assert(before.admits(event));
        match event {
            Event::Wake { at } => {
                if before.writer.pending is Some {
                    if before.writer.due(at) {
                        assert(before.writer.wake_step(at) == CycleStep::Persist(trace[m]->state));
                    } else {
                        assert(n - 1 != k);
                        assert(before.step(event) == before);
                    }
                } else {
                    assert(before.writer.wake_step(at) == CycleStep::Stop);
                    assert(before.step(event).written == before.written);
                }
            },
            Event::Persisted { at } => {
                assert(before.step(event).written == before.written);
            },
            _ => {
                assert(before.step(event).written == before.written);
                assert(before.step(event).writer == before.writer);
            },
        }
    }
}

/// No update is dropped for good: however the updates before it came, once
/// the cycle has woken a full quiet period after the last update (at index
/// `k`), that update is the last thing the cycle wrote, and nothing is left
/// pending.
pub proof fn lemma_last_update_is_written(quiet: nat, trace: Seq<Event>, k: int)
    requires
        ordered(trace),
        feasible(trace, quiet),
        last_record_index(trace) >= 0,
        last_record_index(trace) < k < trace.len(),
        trace[k] is Wake,
        trace[k].at() >= trace[last_record_index(trace)].at() + quiet,
    ensures
        Timeline::start(quiet).replay(trace).written.len() > 0,
        Timeline::start(quiet).replay(trace).written.last().state
            == trace[last_record_index(trace)]->state,
        Timeline::start(quiet).replay(trace).writer.pending is None,
{
    lemma_last_update_settles(quiet, trace, k, trace.len() as int);
    assert(trace.take(trace.len() as int) =~= trace);
}

} // verus!
