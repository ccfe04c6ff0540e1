use enande::proc_res::ProcRes;
use enande::runner::{Action, Event, Phase, Runner};

#[derive(Debug, PartialEq)]
struct Failure {
    message: String,
}

#[derive(Debug, PartialEq)]
struct SinkFailure(u32);

impl From<SinkFailure> for Failure {
    fn from(s: SinkFailure) -> Self {
        Failure { message: format!("sink failed with {}", s.0) }
    }
}

type Ev = Event<u32, Failure, u32, SinkFailure>;
type Act = Action<u32, Failure, u32>;

#[derive(Default)]
struct Log {
    processed: Vec<u32>,
    reports: Vec<Failure>,
    sink: Vec<u32>,
    sends: usize,
    bulk_sends: Vec<Vec<u32>>,
    flushes: usize,
    exhausted: usize,
    arrivals: Vec<(usize, u32)>,
}

struct SinkBehaviour {
    fail_send: bool,
    fail_flush: Option<u32>,
    fail_bulk: Option<u32>,
}

const GOOD_SINK: SinkBehaviour = SinkBehaviour { fail_send: false, fail_flush: None, fail_bulk: None };

/// Runs the decisions of one run against in-memory sources, taking the open
/// sources in turn, with `process` as the step and a sink that behaves as told.
fn drive(
    sources: Vec<Vec<Result<u32, Failure>>>,
    mut process: impl FnMut(u32) -> Result<ProcRes<u32>, Failure>,
    sink: &SinkBehaviour,
) -> Log {
    let mut queues: Vec<std::collections::VecDeque<Result<u32, Failure>>> =
        sources.into_iter().map(|s| s.into_iter().collect()).collect();
    let mut open: Vec<bool> = vec![true; queues.len()];
    let mut turn = 0usize;
    let mut log = Log::default();
    let mut runner: Runner<u32> = Runner::new(queues.len());
    let mut action: Act = runner.start();
    loop {
        let ev: Ev = match action {
            Action::Poll => {
                while !open[turn % open.len()] {
                    turn += 1;
                }
                let i = turn % open.len();
                turn += 1;
                match queues[i].pop_front() {
                    Some(Ok(x)) => {
                        log.arrivals.push((i, x));
                        Event::Arrived(i, Ok(x))
                    }
                    Some(Err(e)) => Event::Arrived(i, Err(e)),
                    None => {
                        open[i] = false;
                        Event::Ended(i)
                    }
                }
            }
            Action::Process(x) => {
                log.processed.push(x);
                Event::Processed(process(x))
            }
            Action::Report(e) => {
                log.reports.push(e);
                Event::Reported
            }
            Action::Send(o) => {
                log.sends += 1;
                if sink.fail_send {
                    Event::Sent(Err(SinkFailure(0)))
                } else {
                    log.sink.push(o);
                    Event::Sent(Ok(()))
                }
            }
            Action::Flush => {
                log.flushes += 1;
                match sink.fail_flush {
                    Some(code) => Event::Flushed(Err(SinkFailure(code))),
                    None => Event::Flushed(Ok(())),
                }
            }
            Action::SendAll(v) => {
                log.bulk_sends.push(v.clone());
                match sink.fail_bulk {
                    Some(code) => Event::BulkSent(Err(SinkFailure(code))),
                    None => {
                        log.sink.extend(v);
                        Event::BulkSent(Ok(()))
                    }
                }
            }
            Action::Exhausted => {
                log.exhausted += 1;
                assert_eq!(runner.phase(), Phase::Stopped);
                return log;
            }
        };
        assert!(runner.accepts(&ev));
        action = runner.step(ev);
    }
}

fn spammer(count: u32) -> Vec<Result<u32, Failure>> {
    (0..count).map(Ok).collect()
}

#[test]
fn hundred_spammers_fill_the_sink() {
    let sources: Vec<_> = (0..100).map(|_| spammer(100)).collect();
    let log = drive(sources, |_| Ok(ProcRes::One(1)), &GOOD_SINK);
    assert_eq!(log.sink.len(), 100 * 100);
    assert_eq!(log.sends, 100 * 100);
    assert_eq!(log.flushes, 100 * 100);
    assert_eq!(log.exhausted, 1);
}

#[test]
fn nothing_touches_the_sink() {
    let log = drive(vec![spammer(5), spammer(3)], |_| Ok(ProcRes::Nothing), &GOOD_SINK);
    assert_eq!(log.processed.len(), 8);
    assert_eq!(log.sends, 0);
    assert_eq!(log.flushes, 0);
    assert!(log.bulk_sends.is_empty());
    assert!(log.sink.is_empty());
    assert_eq!(log.exhausted, 1);
}

#[test]
fn many_goes_out_as_one_ordered_bulk_send() {
    let log = drive(vec![vec![Ok(4)]], |x| Ok(ProcRes::Many(vec![x, x + 1, x + 2])), &GOOD_SINK);
    assert_eq!(log.bulk_sends, vec![vec![4, 5, 6]]);
    assert_eq!(log.sink, vec![4, 5, 6]);
    assert_eq!(log.sends, 0);
    assert_eq!(log.flushes, 0);
}

#[test]
fn empty_many_is_still_one_bulk_send() {
    let log = drive(vec![vec![Ok(4)]], |_| Ok(ProcRes::Many(Vec::new())), &GOOD_SINK);
    assert_eq!(log.bulk_sends, vec![Vec::<u32>::new()]);
    assert!(log.sink.is_empty());
}

#[test]
fn one_is_sent_then_flushed() {
    let log = drive(vec![vec![Ok(2), Ok(3)]], |x| Ok(ProcRes::One(x * 10)), &GOOD_SINK);
    assert_eq!(log.sink, vec![20, 30]);
    assert_eq!(log.sends, 2);
    assert_eq!(log.flushes, 2);
}

#[test]
fn items_of_one_source_keep_their_order() {
    let log = drive(vec![spammer(4), vec![Ok(10), Ok(11), Ok(12)]], |x| Ok(ProcRes::One(x)), &GOOD_SINK);
    let first: Vec<u32> = log.arrivals.iter().filter(|(i, _)| *i == 0).map(|(_, x)| *x).collect();
    let second: Vec<u32> = log.arrivals.iter().filter(|(i, _)| *i == 1).map(|(_, x)| *x).collect();
    assert_eq!(first, vec![0, 1, 2, 3]);
    assert_eq!(second, vec![10, 11, 12]);
    assert_eq!(log.sink.len(), 7);
}

#[test]
fn source_error_is_reported_once_and_the_run_goes_on() {
    let source = vec![Ok(1), Err(Failure { message: "bad read".to_string() }), Ok(2)];
    let log = drive(vec![source], |x| Ok(ProcRes::One(x)), &GOOD_SINK);
    assert_eq!(log.reports, vec![Failure { message: "bad read".to_string() }]);
    assert_eq!(log.sink, vec![1, 2]);
    assert_eq!(log.exhausted, 1);
}

#[test]
fn processing_error_is_reported_once_and_the_run_goes_on() {
    let log = drive(
        vec![spammer(3)],
        |x| if x == 1 { Err(Failure { message: format!("cannot take {}", x) }) } else { Ok(ProcRes::One(x)) },
        &GOOD_SINK,
    );
    assert_eq!(log.reports, vec![Failure { message: "cannot take 1".to_string() }]);
    assert_eq!(log.sink, vec![0, 2]);
    assert_eq!(log.exhausted, 1);
}

#[test]
fn failed_single_send_is_dropped_without_report() {
    let sink = SinkBehaviour { fail_send: true, fail_flush: None, fail_bulk: None };
    let log = drive(vec![spammer(3)], |x| Ok(ProcRes::One(x)), &sink);
    assert_eq!(log.sends, 3);
    assert_eq!(log.flushes, 0);
    assert!(log.reports.is_empty());
    assert_eq!(log.exhausted, 1);
}

#[test]
fn failed_flush_is_reported_after_conversion() {
    let sink = SinkBehaviour { fail_send: false, fail_flush: Some(17), fail_bulk: None };
    let log = drive(vec![vec![Ok(1)]], |x| Ok(ProcRes::One(x)), &sink);
    assert_eq!(log.reports, vec![Failure { message: "sink failed with 17".to_string() }]);
    assert_eq!(log.sink, vec![1]);
    assert_eq!(log.exhausted, 1);
}

#[test]
fn failed_bulk_send_is_reported_once_after_conversion() {
    let sink = SinkBehaviour { fail_send: false, fail_flush: None, fail_bulk: Some(3) };
    let log = drive(vec![vec![Ok(1), Ok(2)]], |x| Ok(ProcRes::Many(vec![x, x])), &sink);
    assert_eq!(
        log.reports,
        vec![
            Failure { message: "sink failed with 3".to_string() },
            Failure { message: "sink failed with 3".to_string() },
        ]
    );
    assert_eq!(log.exhausted, 1);
}

#[test]
fn exhausted_only_after_the_last_source_ends() {
    let mut runner: Runner<u32> = Runner::new(3);
    assert!(matches!(runner.start::<u32, Failure>(), Action::Poll));
    assert!(matches!(runner.step::<u32, Failure, SinkFailure>(Event::Ended(1)), Action::Poll));
    assert!(matches!(runner.step::<u32, Failure, SinkFailure>(Event::Ended(0)), Action::Poll));
    assert_eq!(runner.phase(), Phase::Polling);
    assert!(matches!(runner.step::<u32, Failure, SinkFailure>(Event::Ended(2)), Action::Exhausted));
    assert_eq!(runner.phase(), Phase::Stopped);
    let late: Ev = Event::Ended(2);
    assert!(!runner.accepts(&late));
}

#[test]
fn zero_sources_exhaust_at_once() {
    let log = drive(Vec::new(), |x| Ok(ProcRes::One(x)), &GOOD_SINK);
    assert_eq!(log.exhausted, 1);
    assert!(log.processed.is_empty());
    assert!(log.sink.is_empty());
    let mut runner: Runner<u32> = Runner::new(0);
    assert!(matches!(runner.start::<u32, Failure>(), Action::Exhausted));
}

#[test]
fn unexpected_answers_are_refused() {
    let mut runner: Runner<u32> = Runner::new(2);
    let _: Act = runner.start();
    let processed: Ev = Event::Processed(Ok(ProcRes::Nothing));
    assert!(!runner.accepts(&processed));
    let out_of_range: Ev = Event::Ended(2);
    assert!(!runner.accepts(&out_of_range));
    let _: Act = runner.step(Event::<u32, Failure, u32, SinkFailure>::Ended(0));
    let ended_again: Ev = Event::Arrived(0, Ok(1));
    assert!(!runner.accepts(&ended_again));
    let other: Ev = Event::Arrived(1, Ok(1));
    assert!(runner.accepts(&other));
}
