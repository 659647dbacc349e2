//! The protocol of one batch run, as a state machine over mathematical
//! values: what the run holds, what each event does to it, and what
//! holds of every state that a run can reach.

use crate::status::{StatusView, WebsiteStatus};
use vstd::multiset::Multiset;
use vstd::prelude::*;

verus! {

/// Why a run was given up.
#[derive(Debug, Clone, Copy, PartialEq, Eq, Structural)]
pub enum BatchError {
    /// A task could not be started.
    SpawnFailed,
    /// The channel closed while results were still owed.
    ChannelClosed,
    /// A result arrived for a URL that no outstanding task was probing.
    StrayResult,
    /// A task ended abnormally.
    TaskFailed,
    /// An event arrived that the phase does not expect.
    UnexpectedEvent,
}

/// Where a run stands. A run passes through the phases in this order
/// and enters none twice; `Failed` can follow any phase but `Done`.
#[derive(Debug, Clone, Copy, PartialEq, Eq, Structural)]
pub enum Phase {
    Idle,
    Dispatching,
    Collecting,
    AwaitingCompletion,
    Done,
    Failed(BatchError),
}

/// What the driver reports to the run.
#[derive(Debug)]
pub enum Event {
    /// The driver is ready to begin.
    Start,
    /// The task asked for is running.
    Spawned,
    /// The task asked for could not be started.
    SpawnFailed,
    /// A result came out of the channel.
    Received(WebsiteStatus),
    /// The channel has no sender left and is empty.
    ChannelClosed,
    /// The task asked for has ended.
    Joined,
    /// The task asked for ended abnormally.
    JoinFailed,
}

/// What the run asks of the driver next.
#[derive(Debug)]
pub enum Action {
    /// Start a task that probes this URL, the target of this index, and
    /// sends its result into the channel.
    Spawn(usize, String),
    /// Wait for the next result from the channel.
    Receive,
    /// Wait for the task of this index to end.
    Join(usize),
    /// Hand the results on: the run is complete.
    Finish,
    /// Give the run up.
    Abort(BatchError),
}

/// An `Event` with its record as a `StatusView`.
pub enum EventView {
    Start,
    Spawned,
    SpawnFailed,
    Received(StatusView),
    ChannelClosed,
    Joined,
    JoinFailed,
}

/// An `Action` with its index as a natural number and its URL as a
/// sequence of characters.
pub enum ActionView {
    Spawn(nat, Seq<char>),
    Receive,
    Join(nat),
    Finish,
    Abort(BatchError),
}

impl View for Event {
    type V = EventView;

    open spec fn view(&self) -> EventView {
        match self {
            Event::Start => EventView::Start,
            Event::Spawned => EventView::Spawned,
            Event::SpawnFailed => EventView::SpawnFailed,
            Event::Received(record) => EventView::Received(record@),
            Event::ChannelClosed => EventView::ChannelClosed,
            Event::Joined => EventView::Joined,
            Event::JoinFailed => EventView::JoinFailed,
        }
    }
}

impl View for Action {
    type V = ActionView;

    open spec fn view(&self) -> ActionView {
        match self {
            Action::Spawn(index, url) => ActionView::Spawn(*index as nat, url@),
            Action::Receive => ActionView::Receive,
            Action::Join(index) => ActionView::Join(*index as nat),
            Action::Finish => ActionView::Finish,
            Action::Abort(error) => ActionView::Abort(*error),
        }
    }
}

impl Phase {
    /// The place of a phase in the order of a run.
    pub open spec fn rank(self) -> nat {
        match self {
            Phase::Idle => 0,
            Phase::Dispatching => 1,
            Phase::Collecting => 2,
            Phase::AwaitingCompletion => 3,
            Phase::Done => 4,
            Phase::Failed(_) => 5,
        }
    }

    /// No event changes a run in this phase.
    pub open spec fn terminal(self) -> bool {
        self is Done || self is Failed
    }
}

/// The URLs that a sequence of records names, in the same order.
pub open spec fn urls_of(records: Seq<StatusView>) -> Seq<Seq<char>> {
    records.map_values(|record: StatusView| record.url)
}

/// The state of a run.
pub struct RunState {
    /// The URLs to probe, in input order.
    pub targets: Seq<Seq<char>>,
    pub phase: Phase,
    /// Tasks started so far: those of the targets before this index.
    pub spawned: nat,
    /// URLs of the tasks that were started and have not reported.
    pub pending: Multiset<Seq<char>>,
    /// The results so far, in arrival order.
    pub results: Seq<StatusView>,
    /// Tasks known to have ended: those of the indices before this one.
    pub joined: nat,
}

impl RunState {
    /// A run that has not begun.
    pub open spec fn init(targets: Seq<Seq<char>>) -> RunState {
        RunState {
            targets,
            phase: Phase::Idle,
            spawned: 0,
            pending: Multiset::empty(),
            results: Seq::empty(),
            joined: 0,
        }
    }

    /// This run, given up for `error`.
    pub open spec fn failed(self, error: BatchError) -> (RunState, ActionView) {
        (RunState { phase: Phase::Failed(error), ..self }, ActionView::Abort(error))
    }

    /// The run begins: the first task is asked for, or, with nothing to
    /// probe, the run is complete at once.
    pub open spec fn started(self) -> (RunState, ActionView) {
        if self.targets.len() == 0 {
            (RunState { phase: Phase::Done, ..self }, ActionView::Finish)
        } else {
            (RunState { phase: Phase::Dispatching, ..self }, ActionView::Spawn(0, self.targets[0]))
        }
    }

    /// A task is running: its URL is owed a result, and the next task is
    /// asked for, or, after the last, the first result.
    pub open spec fn spawned_one(self) -> (RunState, ActionView) {
        let spawned = self.spawned + 1;
        let pending = self.pending.insert(self.targets[self.spawned as int]);
        if spawned < self.targets.len() {
            (
                RunState { spawned, pending, ..self },
                ActionView::Spawn(spawned, self.targets[spawned as int]),
            )
        } else {
            (RunState { phase: Phase::Collecting, spawned, pending, ..self }, ActionView::Receive)
        }
    }

    /// A result arrived: it answers one outstanding task of its URL and
    /// goes to the end of the results, and the next result is asked for,
    /// or, after the last, the end of the first task. A result for a URL
    /// that is owed none gives the run up.
    pub open spec fn received(self, record: StatusView) -> (RunState, ActionView) {
        if self.pending.contains(record.url) {
            let pending = self.pending.remove(record.url);
            let results = self.results.push(record);
            if pending.len() == 0 {
                (
                    RunState { phase: Phase::AwaitingCompletion, pending, results, ..self },
                    ActionView::Join(0),
                )
            } else {
                (RunState { pending, results, ..self }, ActionView::Receive)
            }
        } else {
            self.failed(BatchError::StrayResult)
        }
    }

    /// A task has ended: the end of the next is asked for, or, after the
    /// last, the run is complete.
    pub open spec fn joined_one(self) -> (RunState, ActionView) {
        let joined = self.joined + 1;
        if joined < self.targets.len() {
            (RunState { joined, ..self }, ActionView::Join(joined))
        } else {
            (RunState { phase: Phase::Done, joined, ..self }, ActionView::Finish)
        }
    }

    /// The state after `event`, and what the driver is to do next.
    ///
    /// A complete run stays complete and a failed run stays failed,
    /// whatever arrives. In the other phases an event that the phase
    /// does not expect gives the run up.
    pub open spec fn step(self, event: EventView) -> (RunState, ActionView) {
        match (self.phase, event) {
            (Phase::Done, _) => (self, ActionView::Finish),
            (Phase::Failed(error), _) => (self, ActionView::Abort(error)),
            (Phase::Idle, EventView::Start) => self.started(),
            (Phase::Dispatching, EventView::Spawned) => self.spawned_one(),
            (Phase::Dispatching, EventView::SpawnFailed) => self.failed(BatchError::SpawnFailed),
            (Phase::Collecting, EventView::Received(record)) => self.received(record),
            (Phase::Collecting, EventView::ChannelClosed) => self.failed(
                BatchError::ChannelClosed,
            ),
            (Phase::AwaitingCompletion, EventView::Joined) => self.joined_one(),
            (Phase::AwaitingCompletion, EventView::JoinFailed) => self.failed(
                BatchError::TaskFailed,
            ),
            _ => self.failed(BatchError::UnexpectedEvent),
        }
    }

    /// Every started task is accounted for: its URL is among the results
    /// or still pending, once for each task.
    pub open spec fn accounted(self) -> bool {
        urls_of(self.results).to_multiset().add(self.pending) == self.targets.take(
            self.spawned as int,
        ).to_multiset()
    }

    /// What holds of every state that a run can reach.
    pub open spec fn inv(self) -> bool {
        &&& self.spawned <= self.targets.len()
        &&& self.joined <= self.spawned
        &&& self.accounted()
        &&& match self.phase {
            Phase::Idle => self.spawned == 0,
            Phase::Dispatching => self.spawned < self.targets.len() && self.results.len() == 0
                && self.joined == 0,
            Phase::Collecting => self.spawned == self.targets.len() && self.pending.len() > 0
                && self.joined == 0,
            Phase::AwaitingCompletion => self.spawned == self.targets.len() && self.pending.len()
                == 0 && self.joined < self.targets.len(),
            Phase::Done => self.spawned == self.targets.len() && self.pending.len() == 0
                && self.joined == self.targets.len(),
            Phase::Failed(_) => true,
        }
    }

    /// Every target has exactly one result: as many results as targets,
    /// and the same URLs as often.
    pub open spec fn complete(self) -> bool {
        &&& self.results.len() == self.targets.len()
        &&& urls_of(self.results).to_multiset() == self.targets.to_multiset()
    }
}

} // verus!
