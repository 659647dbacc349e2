//! One batch run in executable form: the state that the driver keeps,
//! and the step that takes each of the driver's events to the next
//! state and the next action.

use crate::laws::{
    lemma_bag_of_nothing, lemma_collected_is_complete, lemma_init_inv, lemma_step_keeps_inv,
};
use crate::protocol::{Action, BatchError, Event, EventView, Phase, RunState};
use crate::status::{StatusView, WebsiteStatus};
use vstd::prelude::*;

verus! {

/// The characters of each string, in the same order.
pub open spec fn chars_of(strings: Seq<String>) -> Seq<Seq<char>> {
    strings.map_values(|string: String| string@)
}

/// The view of each record, in the same order.
pub open spec fn views_of(records: Seq<WebsiteStatus>) -> Seq<StatusView> {
    records.map_values(|record: WebsiteStatus| record@)
}

/// Index of the first of `strings` that reads as `wanted` does, if any
/// does.
fn position(strings: &Vec<String>, wanted: &String) -> (found: Option<usize>)
    ensures
        match found {
            Some(index) => index < strings.len() && strings[index as int]@ == wanted@
                && forall|i: int| 0 <= i < index ==> strings[i]@ != wanted@,
            None => forall|i: int| 0 <= i < strings.len() ==> strings[i]@ != wanted@,
        },
{
    let mut index: usize = 0;
    while index < strings.len()
        invariant
            index <= strings.len(),
            forall|i: int| 0 <= i < index ==> strings[i]@ != wanted@,
        decreases strings.len() - index,
    {
        if strings[index] == *wanted {
            return Some(index);
        }
        index += 1;
    }
    None
}

/// A batch run: the targets, the phase, and what has been started,
/// received and joined so far.
///
/// Every value of this type satisfies the protocol's invariant.
pub struct Batch {
    targets: Vec<String>,
    phase: Phase,
    spawned: usize,
    pending: Vec<String>,
    results: Vec<WebsiteStatus>,
    joined: usize,
}

impl View for Batch {
    type V = RunState;

    closed spec fn view(&self) -> RunState {
        RunState {
            targets: chars_of(self.targets@),
            phase: self.phase,
            spawned: self.spawned as nat,
            pending: chars_of(self.pending@).to_multiset(),
            results: views_of(self.results@),
            joined: self.joined as nat,
        }
    }
}

impl Batch {
    #[verifier::type_invariant]
    spec fn wf(&self) -> bool {
        self@.inv()
    }

    /// A run over `urls` that has not begun.
    pub fn new(urls: Vec<String>) -> (batch: Batch)
        ensures
            batch@ == RunState::init(chars_of(urls@)),
            batch@.inv(),
    {
        let pending: Vec<String> = Vec::new();
        let results: Vec<WebsiteStatus> = Vec::new();
        proof {
            lemma_init_inv(chars_of(urls@));
            assert(chars_of(pending@) =~= Seq::<Seq<char>>::empty());
            lemma_bag_of_nothing();
            assert(views_of(results@) =~= Seq::<StatusView>::empty());
        }
        Batch { targets: urls, phase: Phase::Idle, spawned: 0, pending, results, joined: 0 }
    }

    /// Where the run stands.
    pub fn phase(&self) -> (phase: Phase)
        ensures
            phase == self@.phase,
            self@.inv(),
    {
        proof {
            use_type_invariant(self);
        }
        self.phase
    }

    /// Number of tasks started so far.
    pub fn spawned(&self) -> (count: usize)
        ensures
            count == self@.spawned,
    {
        self.spawned
    }

    /// Number of tasks known to have ended.
    pub fn joined(&self) -> (count: usize)
        ensures
            count == self@.joined,
    {
        self.joined
    }

    /// Gives the run up for `error`.
    fn fail(self, error: BatchError) -> (next: (Batch, Action))
        ensures
            (next.0@, next.1@) == self@.failed(error),
    {
        proof {
            use_type_invariant(&self);
        }
        (Batch { phase: Phase::Failed(error), ..self }, Action::Abort(error))
    }

    /// Takes the run to its next state on `event`, and says what the
    /// driver is to do next.
    pub fn step(self, event: Event) -> (next: (Batch, Action))
        ensures
            (next.0@, next.1@) == self@.step(event@),
            self@.inv(),
            next.0@.inv(),
    {
        proof {
            use_type_invariant(&self);
            lemma_step_keeps_inv(self@, event@);
        }
        match self.phase {
            Phase::Done => (self, Action::Finish),
            Phase::Failed(error) => (self, Action::Abort(error)),
            Phase::Idle => match event {
                Event::Start => self.start(),
                _ => self.fail(BatchError::UnexpectedEvent),
            },
            Phase::Dispatching => match event {
                Event::Spawned => self.spawned_one(),
                Event::SpawnFailed => self.fail(BatchError::SpawnFailed),
                _ => self.fail(BatchError::UnexpectedEvent),
            },
            Phase::Collecting => match event {
                Event::Received(record) => self.receive(record),
                Event::ChannelClosed => self.fail(BatchError::ChannelClosed),
                _ => self.fail(BatchError::UnexpectedEvent),
            },
            Phase::AwaitingCompletion => match event {
                Event::Joined => self.joined_one(),
                Event::JoinFailed => self.fail(BatchError::TaskFailed),
                _ => self.fail(BatchError::UnexpectedEvent),
            },
        }
    }

    /// Begins the run.
    fn start(self) -> (next: (Batch, Action))
        requires
            self.phase is Idle,
        ensures
            (next.0@, next.1@) == self@.started(),
    {
        proof {
            use_type_invariant(&self);
            lemma_step_keeps_inv(self@, EventView::Start);
        }
        if self.targets.len() == 0 {
            (Batch { phase: Phase::Done, ..self }, Action::Finish)
        } else {
            let url = self.targets[0].clone();
            (Batch { phase: Phase::Dispatching, ..self }, Action::Spawn(0, url))
        }
    }

    /// Records that the task asked for is running.
    fn spawned_one(self) -> (next: (Batch, Action))
        requires
            self.phase is Dispatching,
        ensures
            (next.0@, next.1@) == self@.spawned_one(),
    {
        proof {
            use_type_invariant(&self);
            lemma_step_keeps_inv(self@, EventView::Spawned);
            assert(chars_of(self.targets@).len() == self.targets@.len());
        }
        let Batch { targets, phase, spawned, mut pending, results, joined } = self;
        let ghost before = pending@;
        let owed = targets[spawned].clone();
        pending.push(owed);
        proof {
            assert(chars_of(pending@) =~= chars_of(before).push(targets[spawned as int]@));
            vstd::seq_lib::to_multiset_build(chars_of(before), targets[spawned as int]@);
        }
        let count: usize = targets.len();
        let spawned: usize = spawned + 1;
        if spawned < count {
            let url = targets[spawned].clone();
            (Batch { targets, phase, spawned, pending, results, joined }, Action::Spawn(spawned, url))
        } else {
            (
                Batch { targets, phase: Phase::Collecting, spawned, pending, results, joined },
                Action::Receive,
            )
        }
    }

    /// Takes in a result that came out of the channel.
    fn receive(self, record: WebsiteStatus) -> (next: (Batch, Action))
        requires
            self.phase is Collecting,
        ensures
            (next.0@, next.1@) == self@.received(record@),
    {
        proof {
            use_type_invariant(&self);
            lemma_step_keeps_inv(self@, EventView::Received(record@));
            chars_of(self.pending@).to_multiset_ensures();
        }
        match position(&self.pending, &record.url) {
            None => {
                proof {
                    assert(!chars_of(self.pending@).contains(record@.url));
                }
                self.fail(BatchError::StrayResult)
            },
            Some(index) => {
                let Batch { targets, phase, spawned, mut pending, mut results, joined } = self;
                let ghost owed = pending@;
                let ghost earlier = results@;
                proof {
                    assert(chars_of(owed)[index as int] == record@.url);
                    assert(chars_of(owed).contains(record@.url));
                }
                let _ = pending.remove(index);
                results.push(record);
                proof {
                    assert(chars_of(pending@) =~= chars_of(owed).remove(index as int));
                    vstd::seq_lib::to_multiset_remove(chars_of(owed), index as int);
                    assert(views_of(results@) =~= views_of(earlier).push(record@));
                    chars_of(pending@).to_multiset_ensures();
                }
                if pending.len() == 0 {
                    (
                        Batch {
                            targets,
                            phase: Phase::AwaitingCompletion,
                            spawned,
                            pending,
                            results,
                            joined,
                        },
                        Action::Join(0),
                    )
                } else {
                    (Batch { targets, phase, spawned, pending, results, joined }, Action::Receive)
                }
            },
        }
    }

    /// Records that the task asked for has ended.
    fn joined_one(self) -> (next: (Batch, Action))
        requires
            self.phase is AwaitingCompletion,
        ensures
            (next.0@, next.1@) == self@.joined_one(),
    {
        proof {
            use_type_invariant(&self);
            lemma_step_keeps_inv(self@, EventView::Joined);
        }
        let count: usize = self.targets.len();
        let joined: usize = self.joined + 1;
        if joined < count {
            (Batch { joined, ..self }, Action::Join(joined))
        } else {
            (Batch { phase: Phase::Done, joined, ..self }, Action::Finish)
        }
    }

    /// The results so far, in arrival order. In a complete run they are
    /// all there: one for each target.
    pub fn results(&self) -> (results: &Vec<WebsiteStatus>)
        ensures
            views_of(results@) == self@.results,
            self@.phase is Done ==> self@.complete(),
    {
        proof {
            use_type_invariant(self);
            if self@.phase is Done {
                lemma_collected_is_complete(self@);
            }
        }
        &self.results
    }

    /// Hands the results of a complete run on, in arrival order, and
    /// nothing of a run that is not complete.
    pub fn into_results(self) -> (results: Option<Vec<WebsiteStatus>>)
        ensures
            results is Some <==> self@.phase is Done,
            results matches Some(records) ==> views_of(records@) == self@.results
                && self@.complete(),
    {
        proof {
            use_type_invariant(&self);
            if self@.phase is Done {
                lemma_collected_is_complete(self@);
            }
        }
        match self.phase {
            Phase::Done => Some(self.results),
            _ => None,
        }
    }
}

} // verus!
