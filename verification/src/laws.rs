//! What holds of every run, proved of the protocol's state machine.

use crate::protocol::{urls_of, ActionView, EventView, Phase, RunState};
use crate::status::StatusView;
use vstd::multiset::Multiset;
use vstd::prelude::*;

verus! {

/// The empty sequence names nothing.
pub(crate) proof fn lemma_bag_of_nothing()
    ensures
        Seq::<Seq<char>>::empty().to_multiset() =~= Multiset::<Seq<char>>::empty(),
{
    broadcast use vstd::multiset::group_multiset_axioms;

    let none = Seq::<Seq<char>>::empty();
    none.to_multiset_ensures();
    assert forall|url: Seq<char>| none.to_multiset().count(url) == 0 by {
        assert(none.to_multiset().count(url) <= none.to_multiset().len());
    }
}

/// A run that has not begun satisfies the invariant.
pub proof fn lemma_init_inv(targets: Seq<Seq<char>>)
    ensures
        RunState::init(targets).inv(),
{
    broadcast use vstd::multiset::group_multiset_axioms;

    let state = RunState::init(targets);
    let none = Seq::<Seq<char>>::empty();
    assert(urls_of(state.results) =~= none);
    assert(targets.take(0) =~= none);
    lemma_bag_of_nothing();
    assert(none.to_multiset().add(state.pending) =~= none.to_multiset());
}

/// No event leads out of the invariant, and none changes the targets.
pub proof fn lemma_step_keeps_inv(state: RunState, event: EventView)
    requires
        state.inv(),
    ensures
        state.step(event).0.inv(),
        state.step(event).0.targets == state.targets,
{
    broadcast use vstd::multiset::group_multiset_axioms;

    let next = state.step(event).0;
    let bag = urls_of(state.results).to_multiset();
    match (state.phase, event) {
        (Phase::Idle, EventView::Start) => {
            lemma_bag_of_nothing();
            assert(state.targets.take(0) =~= Seq::<Seq<char>>::empty());
            assert(bag.add(state.pending).len() == 0);
            urls_of(state.results).to_multiset_ensures();
            assert(urls_of(state.results).len() == state.results.len());
        },
        (Phase::Dispatching, EventView::Spawned) => {
            let url = state.targets[state.spawned as int];
            let before = state.targets.take(state.spawned as int);
            assert(state.targets.take(state.spawned as int + 1) =~= before.push(url));
            vstd::seq_lib::to_multiset_build(before, url);
            assert(bag.add(state.pending.insert(url)) =~= bag.add(state.pending).insert(url));
            assert(next.pending.count(url) > 0);
            assert(next.pending.count(url) <= next.pending.len());
        },
        (Phase::Collecting, EventView::Received(record)) => {
            if state.pending.contains(record.url) {
                assert(urls_of(state.results.push(record)) =~= urls_of(state.results).push(
                    record.url,
                ));
                vstd::seq_lib::to_multiset_build(urls_of(state.results), record.url);
                assert(bag.insert(record.url).add(state.pending.remove(record.url)) =~= bag.add(
                    state.pending,
                ));
                assert(state.targets.len() > 0) by {
                    assert(state.targets.take(state.spawned as int) =~= state.targets);
                    assert(bag.add(state.pending).count(record.url) > 0);
                    state.targets.to_multiset_ensures();
                    assert(state.targets.contains(record.url));
                }
            }
        },
        _ => {},
    }
}

/// Completeness: once the last result is in, there are as many results
/// as targets, and the URLs of the results are the URLs of the targets,
/// each as often as it was given.
pub proof fn lemma_collected_is_complete(state: RunState)
    requires
        state.inv(),
        state.phase is AwaitingCompletion || state.phase is Done,
    ensures
        state.complete(),
{
    broadcast use vstd::multiset::group_multiset_axioms;

    let bag = urls_of(state.results).to_multiset();
    assert(state.targets.take(state.spawned as int) =~= state.targets);
    assert forall|url: Seq<char>| state.pending.count(url) == 0 by {
        assert(state.pending.count(url) <= state.pending.len());
    }
    assert(bag.add(state.pending) =~= bag);
    urls_of(state.results).to_multiset_ensures();
    state.targets.to_multiset_ensures();
    assert(urls_of(state.results).len() == state.results.len());
}

/// A run over no target is complete at its first step: no task is asked
/// for, nothing is awaited, and the results are empty. A run over any
/// target is not.
pub proof fn lemma_empty_run_finishes_at_once(targets: Seq<Seq<char>>)
    ensures
        targets.len() == 0 ==> RunState::init(targets).step(EventView::Start) == (
            RunState { phase: Phase::Done, ..RunState::init(targets) },
            ActionView::Finish,
        ),
        targets.len() == 0 ==> RunState::init(targets).step(EventView::Start).0.complete(),
        RunState::init(targets).step(EventView::Start).0.results.len() == 0,
        RunState::init(targets).step(EventView::Start).0.spawned == 0,
        RunState::init(targets).step(EventView::Start).0.joined == 0,
        RunState::init(targets).step(EventView::Start).1 is Finish <==> targets.len() == 0,
        RunState::init(targets).step(EventView::Start).1 is Spawn <==> targets.len() > 0,
{
    if targets.len() == 0 {
        lemma_init_inv(targets);
        lemma_step_keeps_inv(RunState::init(targets), EventView::Start);
        lemma_collected_is_complete(RunState::init(targets).step(EventView::Start).0);
    }
}

/// No result is lost to the order of arrival: while results are owed,
/// a result for any URL that still owes one is taken in, at the end of
/// the results, and the run goes on.
pub proof fn lemma_owed_result_is_accepted(state: RunState, record: StatusView)
    requires
        state.inv(),
        state.phase is Collecting,
        state.pending.contains(record.url),
    ensures
        state.step(EventView::Received(record)).0.results == state.results.push(record),
        state.step(EventView::Received(record)).0.pending == state.pending.remove(record.url),
        !(state.step(EventView::Received(record)).0.phase is Failed),
        state.step(EventView::Received(record)).1 is Receive || state.step(
            EventView::Received(record),
        ).1 is Join,
{
}

/// No task outlives the run: in a complete run every target had its
/// task started and every started task has ended.
pub proof fn lemma_done_has_joined_all(state: RunState)
    requires
        state.inv(),
        state.phase is Done,
    ensures
        state.spawned == state.targets.len(),
        state.joined == state.spawned,
        state.pending.len() == 0,
{
}

/// The driver is told to finish only when the run is complete, with
/// every result in and every task ended, and to abort only when the run
/// has failed.
pub proof fn lemma_finish_means_done(state: RunState, event: EventView)
    requires
        state.inv(),
    ensures
        state.step(event).1 is Finish <==> state.step(event).0.phase is Done,
        state.step(event).1 is Abort <==> state.step(event).0.phase is Failed,
        state.step(event).1 is Finish ==> state.step(event).0.complete() && state.step(
            event,
        ).0.joined == state.targets.len(),
{
    lemma_step_keeps_inv(state, event);
    if state.step(event).0.phase is Done {
        lemma_collected_is_complete(state.step(event).0);
    }
}

/// A run is single-pass: an event leaves the phase as it is or moves it
/// to a later one, so no phase is entered twice.
pub proof fn lemma_phase_never_returns(state: RunState, event: EventView)
    ensures
        state.phase.rank() <= state.step(event).0.phase.rank(),
        state.phase.rank() == state.step(event).0.phase.rank() ==> state.step(event).0.phase
            == state.phase,
        state.phase.terminal() ==> state.step(event).0 == state,
{
}

/// Results are written once: an event leaves the results as they are or
/// puts one at their end.
pub proof fn lemma_results_only_grow(state: RunState, event: EventView)
    ensures
        state.results.is_prefix_of(state.step(event).0.results),
        state.step(event).0.results.len() <= state.results.len() + 1,
{
}

/// Each action names what the state holds: a task is asked for the next
/// target in input order, under that target's own URL, and the task
/// whose end is awaited is the next one not yet joined.
pub proof fn lemma_action_follows_state(state: RunState, event: EventView)
    requires
        state.inv(),
    ensures
        state.step(event).1 matches ActionView::Spawn(index, url) ==> state.step(
            event,
        ).0.phase is Dispatching && index == state.step(event).0.spawned && index
            < state.targets.len() && url == state.targets[index as int],
        state.step(event).1 is Receive ==> state.step(event).0.phase is Collecting,
        state.step(event).1 matches ActionView::Join(index) ==> state.step(
            event,
        ).0.phase is AwaitingCompletion && index == state.step(event).0.joined,
{
    lemma_step_keeps_inv(state, event);
}

} // verus!
