//! Properties of a run that span several steps.

use vstd::prelude::*;

use crate::proc_res::ProcRes;
use crate::runner::{accepts, all_ended, is_next_action, next_model, Action, Event, Phase, Runner, RunnerModel};
use crate::tally::lemma_total_uniform;

verus! {

/// With `n` sources that each yielded `k` items, a step that turned every
/// item into exactly one result and a sink that never failed, a finished run
/// has delivered exactly `n * k` items to the sink, whatever the interleaving.
pub proof fn lemma_every_item_delivered<O>(r: &Runner<O>, n: nat, k: nat)
    requires
        r.wf(),
        r@.phase == Phase::Stopped,
        r@.clean,
        r@.taken.len() == n,
        forall|i: int| 0 <= i < n ==> r@.taken[i] == k,
    ensures
        r@.delivered.len() == n * k,
{
    r.lemma_delivered_matches_taken();
    lemma_total_uniform(r@.taken, k);
}

/// A filtered result leads straight back to polling: no send, no flush, and
/// the sink's contents stay as they were.
pub proof fn lemma_nothing_leaves_sink_alone<I, E: From<SE>, O, SE>(m: RunnerModel<O>, a: Action<I, E, O>)
    requires
        m.phase == Phase::Processing,
        is_next_action(m, Event::<I, E, O, SE>::Processed(Ok(ProcRes::Nothing)), a),
    ensures
        a == Action::<I, E, O>::Poll,
        next_model(m, Event::<I, E, O, SE>::Processed(Ok(ProcRes::Nothing))).phase == Phase::Polling,
        next_model(m, Event::<I, E, O, SE>::Processed(Ok(ProcRes::Nothing))).delivered == m.delivered,
{
}

/// A multiple result goes out as one bulk send of exactly its items; once
/// that send succeeds the sink holds them after what it held before, in their
/// original order.
pub proof fn lemma_many_is_one_bulk_send<I, E: From<SE>, O, SE>(m: RunnerModel<O>, v: Vec<O>, a: Action<I, E, O>)
    requires
        m.phase == Phase::Processing,
        is_next_action(m, Event::<I, E, O, SE>::Processed(Ok(ProcRes::Many(v))), a),
    ensures
        a == Action::<I, E, O>::SendAll(v),
        ({
            let sending = next_model(m, Event::<I, E, O, SE>::Processed(Ok(ProcRes::Many(v))));
            &&& sending.phase == Phase::BulkSending
            &&& sending.delivered == m.delivered
            &&& next_model(sending, Event::<I, E, O, SE>::BulkSent(Ok(()))).delivered == m.delivered + v@
            &&& next_model(sending, Event::<I, E, O, SE>::BulkSent(Ok(()))).phase == Phase::Polling
        }),
{
}

/// A source error or a processing error is reported exactly once, as it
/// came; the run then waits only for the report to be done and goes back to
/// polling.
pub proof fn lemma_error_reported_once<I, E: From<SE>, O, SE>(
    m: RunnerModel<O>,
    ev: Event<I, E, O, SE>,
    e: E,
    a: Action<I, E, O>,
)
    requires
        accepts(m, ev),
        is_next_action(m, ev, a),
        (ev matches Event::Arrived(_, Err(x)) && x == e) || ev == Event::<I, E, O, SE>::Processed(Err(e)),
    ensures
        a == Action::<I, E, O>::Report(e),
        next_model(m, ev).phase == Phase::Reporting,
        forall|later: Event<I, E, O, SE>| accepts(next_model(m, ev), later) <==> later is Reported,
        next_model(next_model(m, ev), Event::<I, E, O, SE>::Reported).phase == Phase::Polling,
{
}

/// The exhaustion hook is asked for only when the last open source has just
/// ended, and a stopped run accepts no further answer, so it is asked for at
/// most once.
pub proof fn lemma_exhausted_once<I, E: From<SE>, O, SE>(
    m: RunnerModel<O>,
    ev: Event<I, E, O, SE>,
    a: Action<I, E, O>,
    later: Event<I, E, O, SE>,
)
    requires
        accepts(m, ev),
        is_next_action(m, ev, a),
        a is Exhausted,
    ensures
        ev is Ended,
        all_ended(next_model(m, ev).ended),
        next_model(m, ev).phase == Phase::Stopped,
        !accepts(next_model(m, ev), later),
{
}

} // verus!
