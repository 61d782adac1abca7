//! What holds of the shared state over time: the invariant in every
//! reachable state, the count of capture sessions alive, the debounce, and
//! the pending queue under a worker cycle that runs beside the controller.

use vstd::prelude::*;
use crate::signal::spec_is_active;
use crate::state::{
    begin_error,
    begun,
    elapsed,
    poll_action,
    poll_state,
    retired,
    sealed,
    state_wf,
    Action,
    StateView,
};

verus! {

/// One call on the shared state.
pub enum Input {
    /// A reading of the signal.
    Reading { status: u8, now: u64 },
    /// The attempt to begin a recording under a name.
    Begin { name: Seq<char> },
    /// The confirmation that the capture loop has exited.
    Seal,
    /// The worker retiring the head of the pending queue.
    Retire { count: nat },
}

/// The state after one call.
pub open spec fn apply(v: StateView, input: Input) -> StateView {
    match input {
        Input::Reading { status, now } => poll_state(v, status, now),
        Input::Begin { name } => begun(v, name),
        Input::Seal => sealed(v),
        Input::Retire { count } => retired(v, count),
    }
}

/// The state after a sequence of calls.
pub open spec fn run(v: StateView, inputs: Seq<Input>) -> StateView
    decreases inputs.len(),
{
    if inputs.len() == 0 {
        v
    } else {
        apply(run(v, inputs.drop_last()), inputs.last())
    }
}

/// The number of capture sessions alive in a state.
pub open spec fn live(v: StateView) -> int {
    if v.recording {
        1
    } else {
        0
    }
}

/// Whether a call in state `v` brings a session to life.
pub open spec fn opens(v: StateView, input: Input) -> bool {
    input matches Input::Begin { name } && begin_error(v, name) is None
}

/// Whether a call in state `v` ends the session that is alive.
pub open spec fn closes(v: StateView, input: Input) -> bool {
    input is Seal && v.recording
}

/// The number of sessions that a sequence of calls brings to life.
pub open spec fn opened(v: StateView, inputs: Seq<Input>) -> int
    decreases inputs.len(),
{
    if inputs.len() == 0 {
        0
    } else {
        opened(v, inputs.drop_last()) + if opens(run(v, inputs.drop_last()), inputs.last()) {
            1int
        } else {
            0int
        }
    }
}

/// The number of sessions that a sequence of calls ends.
pub open spec fn ended(v: StateView, inputs: Seq<Input>) -> int
    decreases inputs.len(),
{
    if inputs.len() == 0 {
        0
    } else {
        ended(v, inputs.drop_last()) + if closes(run(v, inputs.drop_last()), inputs.last()) {
            1int
        } else {
            0int
        }
    }
}

/// How often `name` stands in `names`.
pub open spec fn occurrences(names: Seq<Seq<char>>, name: Seq<char>) -> nat
    decreases names.len(),
{
    if names.len() == 0 {
        0
    } else {
        occurrences(names.drop_last(), name) + if names.last() == name {
            1nat
        } else {
            0nat
        }
    }
}

/// A reading of the signal at a time.
pub struct Reading {
    /// The status byte that was read.
    pub status: u8,
    /// The time of the reading.
    pub now: u64,
}

/// One tick of a poller that confirms a stop at once: the reading is
/// taken, and where it asks for the capture to stop, the segment is sealed.
pub open spec fn tick(v: StateView, r: Reading) -> StateView {
    if poll_action(v, r.status, r.now) == Action::StopCapture {
        sealed(poll_state(v, r.status, r.now))
    } else {
        poll_state(v, r.status, r.now)
    }
}

/// The state after a sequence of ticks.
pub open spec fn tick_run(v: StateView, readings: Seq<Reading>) -> StateView
    decreases readings.len(),
{
    if readings.len() == 0 {
        v
    } else {
        tick(tick_run(v, readings.drop_last()), readings.last())
    }
}

/// The number of ticks in a sequence that ask for the capture to stop.
pub open spec fn stops(v: StateView, readings: Seq<Reading>) -> int
    decreases readings.len(),
{
    if readings.len() == 0 {
        0
    } else {
        let before = tick_run(v, readings.drop_last());
        stops(v, readings.drop_last()) + if poll_action(
            before,
            readings.last().status,
            readings.last().now,
        ) == Action::StopCapture {
            1int
        } else {
            0int
        }
    }
}

/// Whether every reading of a sequence is inactive.
pub open spec fn all_inactive(readings: Seq<Reading>) -> bool {
    forall|i: int| 0 <= i < readings.len() ==> !spec_is_active(#[trigger] readings[i].status)
}

/// Whether the debounce duration has passed at reading `k` since the first
/// reading of the sequence.
pub open spec fn expired_at(readings: Seq<Reading>, k: int, debounce: u64) -> bool {
    elapsed(readings[k].now, readings[0].now) >= debounce
}

/// Whether the debounce duration has passed at one of the readings that
/// follow the first.
pub open spec fn expires(readings: Seq<Reading>, debounce: u64) -> bool {
    exists|k: int| 1 <= k < readings.len() && #[trigger] expired_at(readings, k, debounce)
}

/// The state with the stop timer set to `since`.
pub open spec fn armed(v: StateView, since: u64) -> StateView {
    StateView { stop_timer: Some(since), ..v }
}

/// Every call keeps the invariant of the shared state.
pub proof fn lemma_apply_keeps_invariant(v: StateView, input: Input)
    requires
        state_wf(v),
    ensures
        state_wf(apply(v, input)),
{
    let after = apply(v, input);
    match input {
        Input::Reading { status, now } => {},
        Input::Begin { name } => {},
        Input::Seal => {
            if v.recording {
                let name = v.current->0;
                assert forall|i: int, j: int|
                    0 <= i < after.pending.len() && 0 <= j < after.pending.len() && i
                        != j implies after.pending[i] != after.pending[j] by {
                    if i < v.pending.len() && j < v.pending.len() {
                        assert(v.pending[i] != v.pending[j]);
                    } else if i < v.pending.len() {
                        assert(v.pending.contains(v.pending[i]));
                    } else {
                        assert(v.pending.contains(v.pending[j]));
                    }
                }
            }
        },
        Input::Retire { count } => {
            if count <= v.pending.len() {
                assert forall|i: int, j: int|
                    0 <= i < after.pending.len() && 0 <= j < after.pending.len() && i
                        != j implies after.pending[i] != after.pending[j] by {
                    assert(v.pending[i + count] != v.pending[j + count]);
                }
                if after.current is Some && after.pending.contains(after.current->0) {
                    let i = choose|i: int|
                        0 <= i < after.pending.len() && after.pending[i] == after.current->0;
                    assert(v.pending[i + count] == v.current->0);
                }
            }
        },
    }
}

/// The invariant holds in every state that calls can reach: a segment name
/// is held exactly while a session is alive, and no name is pending twice
/// or while it is being recorded.
pub proof fn lemma_run_keeps_invariant(v: StateView, inputs: Seq<Input>)
    requires
        state_wf(v),
    ensures
        state_wf(run(v, inputs)),
    decreases inputs.len(),
{
    if inputs.len() > 0 {
        lemma_run_keeps_invariant(v, inputs.drop_last());
        lemma_apply_keeps_invariant(run(v, inputs.drop_last()), inputs.last());
    }
}

/// Mutual exclusion. Whatever calls are made in whatever order, the
/// sessions brought to life less the sessions ended are the sessions alive,
/// and that is never more than one.
pub proof fn lemma_at_most_one_session(v: StateView, inputs: Seq<Input>)
    requires
        state_wf(v),
    ensures
        live(run(v, inputs)) == live(v) + opened(v, inputs) - ended(v, inputs),
        0 <= live(v) + opened(v, inputs) - ended(v, inputs) <= 1,
        live(run(v, inputs)) == 1 <==> run(v, inputs).current is Some,
    decreases inputs.len(),
{
    lemma_run_keeps_invariant(v, inputs);
    if inputs.len() > 0 {
        lemma_at_most_one_session(v, inputs.drop_last());
        lemma_run_keeps_invariant(v, inputs.drop_last());
    }
}

/// A run of inactive readings while recording. The first sets the stop
/// timer. If the debounce duration has passed at a later one, the capture
/// is asked to stop at exactly one tick and the segment is sealed; if not,
/// nothing but the stop timer has changed.
pub proof fn lemma_quiet_run(v: StateView, readings: Seq<Reading>)
    requires
        state_wf(v),
        v.recording,
        v.stop_timer is None,
        readings.len() >= 1,
        all_inactive(readings),
    ensures
        expires(readings, v.debounce) ==> tick_run(v, readings) == sealed(v) && stops(
            v,
            readings,
        ) == 1,
        !expires(readings, v.debounce) ==> tick_run(v, readings) == armed(v, readings[0].now)
            && stops(v, readings) == 0,
    decreases readings.len(),
{
    let head = readings.drop_last();
    let last = readings.last();
    assert(!spec_is_active(readings[readings.len() - 1].status));
    if readings.len() == 1 {
        assert(head.len() == 0);
        assert(tick_run(v, head) == v);
        assert(stops(v, head) == 0);
        assert(last == readings[0]);
    } else {
        assert(all_inactive(head)) by {
            assert forall|i: int| 0 <= i < head.len() implies !spec_is_active(
                #[trigger] head[i].status,
            ) by {
                assert(head[i] == readings[i]);
            }
        }
        lemma_quiet_run(v, head);
        assert(head[0] == readings[0]);
        if expires(head, v.debounce) {
            let k = choose|k: int| 1 <= k < head.len() && #[trigger] expired_at(head, k, v.debounce);
            assert(head[k] == readings[k]);
            assert(expired_at(readings, k, v.debounce));
        } else {
            let n = readings.len() - 1;
            if expired_at(readings, n, v.debounce) {
            } else {
                assert forall|k: int| 1 <= k < readings.len() implies !#[trigger] expired_at(
                    readings,
                    k,
                    v.debounce,
                ) by {
                    if k < n {
                        assert(head[k] == readings[k]);
                        assert(!expired_at(head, k, v.debounce));
                    }
                }
            }
        }
    }
}

/// Debounce cancel. While recording, if the signal reads inactive and
/// returns to active before the debounce duration has passed at any of the
/// inactive readings, the capture is never asked to stop, the active
/// reading clears the stop timer, and the state is what it was before the
/// signal went inactive.
pub proof fn lemma_debounce_cancel(v: StateView, quiet: Seq<Reading>, resume: Reading)
    requires
        state_wf(v),
        v.recording,
        v.stop_timer is None,
        quiet.len() >= 1,
        all_inactive(quiet),
        forall|k: int| 0 <= k < quiet.len() ==> !#[trigger] expired_at(quiet, k, v.debounce),
        spec_is_active(resume.status),
    ensures
        tick_run(v, quiet).stop_timer == Some(quiet[0].now),
        poll_action(tick_run(v, quiet), resume.status, resume.now) == Action::DebounceCancelled,
        stops(v, quiet.push(resume)) == 0,
        tick_run(v, quiet.push(resume)) == v,
{
    lemma_quiet_run(v, quiet);
    let all = quiet.push(resume);
    assert(all.drop_last() == quiet);
    assert(all.last() == resume);
}

/// Debounce fire. While recording, if the signal reads inactive and is
/// still inactive when the debounce duration has passed since the first
/// inactive reading, the capture is asked to stop exactly once, the
/// controller is idle, and the segment's name stands exactly once in the
/// pending queue, at its tail.
pub proof fn lemma_debounce_fire(v: StateView, quiet: Seq<Reading>)
    requires
        state_wf(v),
        v.recording,
        v.stop_timer is None,
        quiet.len() >= 2,
        all_inactive(quiet),
        quiet.last().now - quiet[0].now >= v.debounce,
    ensures
        stops(v, quiet) == 1,
        tick_run(v, quiet) == sealed(v),
        !tick_run(v, quiet).recording,
        tick_run(v, quiet).pending == v.pending.push(v.current->0),
        occurrences(tick_run(v, quiet).pending, v.current->0) == 1,
{
    lemma_quiet_run(v, quiet);
    assert(expired_at(quiet, quiet.len() - 1, v.debounce));
    lemma_absent_name(v.pending, v.current->0);
    assert(v.pending.push(v.current->0).drop_last() == v.pending);
}

/// A name that a queue does not hold stands in it no times.
pub proof fn lemma_absent_name(names: Seq<Seq<char>>, name: Seq<char>)
    requires
        !names.contains(name),
    ensures
        occurrences(names, name) == 0,
    decreases names.len(),
{
    if names.len() > 0 {
        assert(names.last() == names[names.len() - 1]);
        assert forall|i: int| 0 <= i < names.drop_last().len() implies names.drop_last()[i]
            != name by {
            assert(names.drop_last()[i] == names[i]);
        }
        lemma_absent_name(names.drop_last(), name);
    }
}

/// Whether none of the calls is the worker's.
pub open spec fn controller_only(inputs: Seq<Input>) -> bool {
    forall|i: int| 0 <= i < inputs.len() ==> !(#[trigger] inputs[i] is Retire)
}

/// Queue drain. The worker takes its snapshot in state `v`, the controller
/// goes on as it will, and the worker then retires as many segments as the
/// snapshot held. Exactly the snapshot is removed: what is left are the
/// segments sealed in between, in the order in which they were sealed.
pub proof fn lemma_drain_keeps_new_segments(v: StateView, inputs: Seq<Input>)
    requires
        state_wf(v),
        controller_only(inputs),
    ensures
        run(v, inputs).pending.len() >= v.pending.len(),
        run(v, inputs).pending.take(v.pending.len() as int) == v.pending,
        retired(run(v, inputs), v.pending.len()).pending == run(v, inputs).pending.skip(
            v.pending.len() as int,
        ),
        v.pending + retired(run(v, inputs), v.pending.len()).pending == run(v, inputs).pending,
    decreases inputs.len(),
{
    let n = v.pending.len() as int;
    if inputs.len() > 0 {
        let head = inputs.drop_last();
        assert(controller_only(head)) by {
            assert forall|i: int| 0 <= i < head.len() implies !(#[trigger] head[i] is Retire) by {
                assert(head[i] == inputs[i]);
            }
        }
        lemma_drain_keeps_new_segments(v, head);
        assert(!(inputs[inputs.len() - 1] is Retire));
        let before = run(v, head);
        let after = run(v, inputs);
        assert(after.pending.take(n) =~= before.pending.take(n));
    } else {
        assert(v.pending.take(n) =~= v.pending);
    }
    let after = run(v, inputs);
    assert(v.pending + after.pending.skip(n) =~= after.pending);
}

} // verus!
