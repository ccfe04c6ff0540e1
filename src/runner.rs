//! The decisions of one run, as a state machine from answer to next action.

use vstd::prelude::*;
use vstd::std_specs::convert::FromSpec;

use crate::proc_res::ProcRes;
use crate::tally::{count_open, lemma_all_open, lemma_bump_one, lemma_close_one, lemma_none_open, lemma_total_uniform, total};

verus! {

/// Where the driving loop stands: which answer it waits for next.
#[derive(PartialEq, Eq, Structural, Clone, Copy, Debug)]
pub enum Phase {
    /// Built, not started yet.
    Starting,
    /// Waiting for the merged sources to yield something.
    Polling,
    /// Waiting for the processing step's result.
    Processing,
    /// Waiting for a single send to the sink.
    Sending,
    /// Waiting for the flush that follows a single send.
    Flushing,
    /// Waiting for a bulk send to the sink.
    BulkSending,
    /// Waiting for an error to have been handed to the processor.
    Reporting,
    /// Every source has ended; the run is over.
    Stopped,
}

/// What the world answered to the last action.
pub enum Event<I, E, O, SE> {
    /// Source `usize` yielded an item or an error.
    Arrived(usize, Result<I, E>),
    /// Source `usize` has no more items.
    Ended(usize),
    /// The processing step returned.
    Processed(Result<ProcRes<O>, E>),
    /// A single send returned.
    Sent(Result<(), SE>),
    /// A flush returned.
    Flushed(Result<(), SE>),
    /// A bulk send returned.
    BulkSent(Result<(), SE>),
    /// The last reported error was handed to the processor.
    Reported,
}

/// What the driving loop must do next.
pub enum Action<I, E, O> {
    /// Wait for the next item, error or end from the merged sources.
    Poll,
    /// Hand the item to the processing step.
    Process(I),
    /// Hand the error to the processor's error hook.
    Report(E),
    /// Send one item to the sink.
    Send(O),
    /// Flush the sink.
    Flush,
    /// Send these items to the sink in one ordered bulk operation.
    SendAll(Vec<O>),
    /// Call the processor's exhaustion hook; the run then returns success.
    Exhausted,
}

/// The abstract state of a run.
pub struct RunnerModel<O> {
    pub phase: Phase,
    /// For each source, whether it has ended.
    pub ended: Seq<bool>,
    /// For each source, how many items it yielded that went to processing.
    pub taken: Seq<nat>,
    /// What the current send or bulk send hands to the sink.
    pub pending: Seq<O>,
    /// Everything the sink has accepted, in order.
    pub delivered: Seq<O>,
    /// No event so far was an error, a filtered or multiple result, or a
    /// failed sink operation.
    pub clean: bool,
}

/// Whether every source has ended.
pub open spec fn all_ended(ended: Seq<bool>) -> bool {
    forall|j: int| 0 <= j < ended.len() ==> ended[j]
}

/// Whether `ev` is an answer that a run in state `m` can be waiting for.
pub open spec fn accepts<I, E, O, SE>(m: RunnerModel<O>, ev: Event<I, E, O, SE>) -> bool {
    match ev {
        Event::Arrived(i, _) => m.phase == Phase::Polling && i < m.ended.len() && !m.ended[i as int],
        Event::Ended(i) => m.phase == Phase::Polling && i < m.ended.len() && !m.ended[i as int],
        Event::Processed(_) => m.phase == Phase::Processing,
        Event::Sent(_) => m.phase == Phase::Sending,
        Event::Flushed(_) => m.phase == Phase::Flushing,
        Event::BulkSent(_) => m.phase == Phase::BulkSending,
        Event::Reported => m.phase == Phase::Reporting,
    }
}

/// The state that follows `m` on the answer `ev`.
pub open spec fn next_model<I, E, O, SE>(m: RunnerModel<O>, ev: Event<I, E, O, SE>) -> RunnerModel<O> {
    match ev {
        Event::Arrived(i, Ok(_)) => RunnerModel {
            phase: Phase::Processing,
            taken: m.taken.update(i as int, m.taken[i as int] + 1),
            ..m
        },
        Event::Arrived(_, Err(_)) => RunnerModel { phase: Phase::Reporting, clean: false, ..m },
        Event::Ended(i) => {
            let ended = m.ended.update(i as int, true);
            RunnerModel {
                phase: if all_ended(ended) { Phase::Stopped } else { Phase::Polling },
                ended,
                ..m
            }
        },
        Event::Processed(Err(_)) => RunnerModel { phase: Phase::Reporting, clean: false, ..m },
        Event::Processed(Ok(ProcRes::Nothing)) => RunnerModel { phase: Phase::Polling, clean: false, ..m },
        Event::Processed(Ok(ProcRes::One(o))) => RunnerModel { phase: Phase::Sending, pending: seq![o], ..m },
        Event::Processed(Ok(ProcRes::Many(v))) => RunnerModel {
            phase: Phase::BulkSending,
            pending: v@,
            clean: false,
            ..m
        },
        Event::Sent(Ok(_)) => RunnerModel { phase: Phase::Flushing, delivered: m.delivered + m.pending, ..m },
        Event::Sent(Err(_)) => RunnerModel { phase: Phase::Polling, clean: false, ..m },
        Event::Flushed(Ok(_)) => RunnerModel { phase: Phase::Polling, ..m },
        Event::Flushed(Err(_)) => RunnerModel { phase: Phase::Reporting, clean: false, ..m },
        Event::BulkSent(Ok(_)) => RunnerModel { phase: Phase::Polling, delivered: m.delivered + m.pending, ..m },
        Event::BulkSent(Err(_)) => RunnerModel { phase: Phase::Reporting, clean: false, ..m },
        Event::Reported => RunnerModel { phase: Phase::Polling, ..m },
    }
}

/// Whether `a` is the action that must follow the answer `ev` in state `m`.
/// A sink error is reported as what `E::from` makes of it.
pub open spec fn is_next_action<I, E: From<SE>, O, SE>(
    m: RunnerModel<O>,
    ev: Event<I, E, O, SE>,
    a: Action<I, E, O>,
) -> bool {
    match ev {
        Event::Arrived(_, Ok(x)) => a == Action::<I, E, O>::Process(x),
        Event::Arrived(_, Err(e)) => a == Action::<I, E, O>::Report(e),
        Event::Ended(i) => if all_ended(m.ended.update(i as int, true)) {
            a == Action::<I, E, O>::Exhausted
        } else {
            a == Action::<I, E, O>::Poll
        },
        Event::Processed(Err(e)) => a == Action::<I, E, O>::Report(e),
        Event::Processed(Ok(ProcRes::Nothing)) => a == Action::<I, E, O>::Poll,
        Event::Processed(Ok(ProcRes::One(o))) => a == Action::<I, E, O>::Send(o),
        Event::Processed(Ok(ProcRes::Many(v))) => a == Action::<I, E, O>::SendAll(v),
        Event::Sent(Ok(_)) => a == Action::<I, E, O>::Flush,
        Event::Sent(Err(_)) => a == Action::<I, E, O>::Poll,
        Event::Flushed(Ok(_)) => a == Action::<I, E, O>::Poll,
        Event::Flushed(Err(se)) => is_converted_report(a, se),
        Event::BulkSent(Ok(_)) => a == Action::<I, E, O>::Poll,
        Event::BulkSent(Err(se)) => is_converted_report(a, se),
        Event::Reported => a == Action::<I, E, O>::Poll,
    }
}

/// `a` reports the sink error `se` after converting it with `E::from`.
pub open spec fn is_converted_report<I, E: From<SE>, O, SE>(a: Action<I, E, O>, se: SE) -> bool {
    &&& a is Report
    &&& <E as FromSpec<SE>>::obeys_from_spec() ==> a->Report_0 == <E as FromSpec<SE>>::from_spec(se)
}

/// Items that have gone to processing and not yet reached the sink or been
/// dropped: one while the step or its single send is awaited.
pub open spec fn in_flight(p: Phase) -> nat {
    if p == Phase::Processing || p == Phase::Sending { 1 } else { 0 }
}

/// The decisions of one run: it pulls from the merged sources, hands items to
/// the processing step, routes its results to the sink and reports every
/// error, until all sources have ended.
pub struct Runner<O> {
    phase: Phase,
    ended: Vec<bool>,
    open: usize,
    taken: Ghost<Seq<nat>>,
    pending: Ghost<Seq<O>>,
    delivered: Ghost<Seq<O>>,
    clean: Ghost<bool>,
}

impl<O> View for Runner<O> {
    type V = RunnerModel<O>;

    closed spec fn view(&self) -> RunnerModel<O> {
        RunnerModel {
            phase: self.phase,
            ended: self.ended@,
            taken: self.taken@,
            pending: self.pending@,
            delivered: self.delivered@,
            clean: self.clean@,
        }
    }
}

impl<O> Runner<O> {
    /// The invariant that every state reached from `new` keeps.
    pub closed spec fn wf(&self) -> bool {
        &&& self.ended@.len() == self.taken@.len()
        &&& self.open as nat == count_open(self.ended@)
        &&& (self.phase == Phase::Stopped ==> self.open == 0)
        &&& (self.phase != Phase::Stopped && self.phase != Phase::Starting ==> self.open > 0)
        &&& (self.phase == Phase::Starting ==> forall|j: int| 0 <= j < self.ended@.len() ==> !self.ended@[j])
        &&& (self.phase == Phase::Sending ==> self.pending@.len() == 1)
        &&& (self.phase == Phase::BulkSending ==> !self.clean@)
        &&& (self.clean@ ==> self.delivered@.len() + in_flight(self.phase) == total(self.taken@))
    }

    /// A run over `n` sources, none of which has yielded anything yet.
    pub fn new(n: usize) -> (r: Self)
        ensures
            r.wf(),
            r@.phase == Phase::Starting,
            r@.ended == Seq::new(n as nat, |j: int| false),
            r@.taken == Seq::new(n as nat, |j: int| 0nat),
            r@.delivered.len() == 0,
            r@.clean,
    {
        let mut ended: Vec<bool> = Vec::new();
        let mut j: usize = 0;
        while j < n
            invariant
                j <= n,
                ended@ == Seq::new(j as nat, |k: int| false),
            decreases n - j,
        {
            ended.push(false);
            j = j + 1;
            assert(ended@ =~= Seq::new(j as nat, |k: int| false));
        }
        let taken = Ghost(Seq::new(n as nat, |k: int| 0nat));
        proof {
            lemma_all_open(n as nat);
            lemma_total_uniform(taken@, 0);
        }
        Runner {
            phase: Phase::Starting,
            ended,
            open: n,
            taken,
            pending: Ghost(Seq::empty()),
            delivered: Ghost(Seq::empty()),
            clean: Ghost(true),
        }
    }

    /// The current phase.
    pub fn phase(&self) -> (r: Phase)
        ensures
            r == self@.phase,
    {
        self.phase
    }

    /// The first action of the run: poll, or, with no source at all, end at
    /// once.
    pub fn start<I, E>(&mut self) -> (a: Action<I, E, O>)
        requires
            old(self).wf(),
            old(self)@.phase == Phase::Starting,
        ensures
            final(self).wf(),
            old(self)@.ended.len() == 0 ==> a == Action::<I, E, O>::Exhausted && final(self)@.phase
                == Phase::Stopped,
            old(self)@.ended.len() > 0 ==> a == Action::<I, E, O>::Poll && final(self)@.phase
                == Phase::Polling,
            final(self)@ == (RunnerModel { phase: final(self)@.phase, ..old(self)@ }),
    {
        if self.ended.len() == 0 {
            proof {
                assert(self.ended@ =~= Seq::<bool>::empty());
            }
            self.phase = Phase::Stopped;
            Action::Exhausted
        } else {
            proof {
                lemma_none_open(self.ended@);
                assert(!self.ended@[0]);
            }
            self.phase = Phase::Polling;
            Action::Poll
        }
    }

    /// Whether the run is waiting for the answer `ev`.
    pub fn accepts<I, E, SE>(&self, ev: &Event<I, E, O, SE>) -> (r: bool)
        requires
            self.wf(),
        ensures
            r == accepts(self@, *ev),
    {
        match ev {
            Event::Arrived(i, _) => self.phase == Phase::Polling && *i < self.ended.len() && !self.ended[*i],
            Event::Ended(i) => self.phase == Phase::Polling && *i < self.ended.len() && !self.ended[*i],
            Event::Processed(_) => self.phase == Phase::Processing,
            Event::Sent(_) => self.phase == Phase::Sending,
            Event::Flushed(_) => self.phase == Phase::Flushing,
            Event::BulkSent(_) => self.phase == Phase::BulkSending,
            Event::Reported => self.phase == Phase::Reporting,
        }
    }

    /// Takes the answer to the last action and decides the next one.
    ///
    /// A source error or a processing error is reported and the loop goes on;
    /// a filtered result goes back to polling with no sink interaction; one
    /// item is sent and then flushed; several items go out in one ordered
    /// bulk send. A failed single send is dropped without a report; a failed
    /// flush or bulk send is reported after conversion by `E::from`. The run
    /// ends when the last open source ends.
    pub fn step<I, E: From<SE>, SE>(&mut self, ev: Event<I, E, O, SE>) -> (a: Action<I, E, O>)
        requires
            old(self).wf(),
            accepts(old(self)@, ev),
        ensures
            final(self).wf(),
            final(self)@ == next_model(old(self)@, ev),
            is_next_action(old(self)@, ev, a),
    {
        match ev {
            Event::Arrived(i, Ok(x)) => {
                proof {
                    lemma_bump_one(self.taken@, i as int);
                }
                self.taken = Ghost(self.taken@.update(i as int, self.taken@[i as int] + 1));
                self.phase = Phase::Processing;
                Action::Process(x)
            },
            Event::Arrived(_, Err(e)) => {
                self.clean = Ghost(false);
                self.phase = Phase::Reporting;
                Action::Report(e)
            },
            Event::Ended(i) => {
                proof {
                    lemma_close_one(self.ended@, i as int);
                    lemma_none_open(self.ended@.update(i as int, true));
                }
                self.ended.set(i, true);
                self.open = self.open - 1;
                if self.open == 0 {
                    self.phase = Phase::Stopped;
                    Action::Exhausted
                } else {
                    self.phase = Phase::Polling;
                    Action::Poll
                }
            },
            Event::Processed(Err(e)) => {
                self.clean = Ghost(false);
                self.phase = Phase::Reporting;
                Action::Report(e)
            },
            Event::Processed(Ok(res)) => match res {
                ProcRes::Nothing => {
                    self.clean = Ghost(false);
                    self.phase = Phase::Polling;
                    Action::Poll
                },
                ProcRes::One(o) => {
                    self.pending = Ghost(Seq::empty().push(o));
                    self.phase = Phase::Sending;
                    Action::Send(o)
                },
                ProcRes::Many(v) => {
                    self.pending = Ghost(v@);
                    self.clean = Ghost(false);
                    self.phase = Phase::BulkSending;
                    Action::SendAll(v)
                },
            },
            Event::Sent(Ok(_)) => {
                self.delivered = Ghost(self.delivered@ + self.pending@);
                self.phase = Phase::Flushing;
                Action::Flush
            },
            Event::Sent(Err(_)) => {
                self.clean = Ghost(false);
                self.phase = Phase::Polling;
                Action::Poll
            },
            Event::Flushed(Ok(_)) => {
                self.phase = Phase::Polling;
                Action::Poll
            },
            Event::Flushed(Err(se)) => {
                self.clean = Ghost(false);
                self.phase = Phase::Reporting;
                Action::Report(E::from(se))
            },
            Event::BulkSent(Ok(_)) => {
                self.delivered = Ghost(self.delivered@ + self.pending@);
                self.phase = Phase::Polling;
                Action::Poll
            },
            Event::BulkSent(Err(se)) => {
                self.clean = Ghost(false);
                self.phase = Phase::Reporting;
                Action::Report(E::from(se))
            },
            Event::Reported => {
                self.phase = Phase::Polling;
                Action::Poll
            },
        }
    }

    /// In a clean run every item taken from a source has reached the sink,
    /// but for one that is still being processed or sent.
    pub proof fn lemma_delivered_matches_taken(&self)
        requires
            self.wf(),
            self@.clean,
        ensures
            self@.delivered.len() + in_flight(self@.phase) == total(self@.taken),
            self@.phase == Phase::Stopped ==> in_flight(self@.phase) == 0,
    {
    }
}

} // verus!
