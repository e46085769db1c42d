use diskwipe::engine::{
    Action, Engine, Event, Failure, FaultKind, IoFault, Outcome, Phase,
};
use diskwipe::fill::{EntropyError, Mode};
use diskwipe::units::SizeError;

/// What a run on a target with room for `room` bytes looked like from
/// outside: the size of each write asked for, what each write took, each
/// total shown, the number of flushes, and how it ended.
struct Trace {
    asked: Vec<usize>,
    taken: Vec<usize>,
    shown: Vec<usize>,
    flushes: usize,
    all_zero: bool,
    outcome: Outcome,
    total: usize,
}

fn wipe(chunk_len: usize, mode: Mode, room: usize) -> Trace {
    let mut engine = Engine::new(chunk_len, mode).unwrap();
    let mut left = room;
    let mut trace = Trace {
        asked: vec![],
        taken: vec![],
        shown: vec![],
        flushes: 0,
        all_zero: true,
        outcome: Outcome::Completed,
        total: 0,
    };
    let mut event = Event::Start;
    loop {
        assert!(engine.accepts(&event));
        let action = engine.step(event);
        assert_eq!(engine.pending(), Some(action.clone()));
        event = match action {
            Action::Write => {
                let chunk = engine.chunk();
                trace.asked.push(chunk.len());
                trace.all_zero = trace.all_zero && chunk.iter().all(|b| *b == 0);
                let n = chunk.len().min(left);
                left -= n;
                trace.taken.push(n);
                Event::Written(n)
            }
            Action::Flush => {
                trace.flushes += 1;
                Event::Flushed
            }
            Action::Report(total) => {
                assert_eq!(total, engine.total());
                trace.shown.push(total);
                Event::Reported
            }
            Action::Stop(outcome) => {
                trace.outcome = outcome;
                trace.total = engine.total();
                assert!(engine.is_finished());
                return trace;
            }
        };
    }
}

fn fault(kind: FaultKind, detail: &str) -> IoFault {
    IoFault { kind, detail: detail.to_string() }
}

#[test]
fn new_engine_is_idle_and_zeroed() {
    let engine = Engine::new(8, Mode::Random).unwrap();
    assert_eq!(engine.chunk_len(), 8);
    assert_eq!(engine.mode(), Mode::Random);
    assert_eq!(engine.total(), 0);
    assert_eq!(*engine.phase(), Phase::Idle);
    assert_eq!(engine.pending(), None);
    assert!(!engine.is_finished());
    assert_eq!(engine.chunk(), &vec![0u8; 8]);
}

#[test]
fn empty_chunk_is_rejected() {
    assert_eq!(Engine::new(0, Mode::Zero).err(), Some(SizeError::Zero));
    assert_eq!(Engine::new(0, Mode::Random).err(), Some(SizeError::Zero));
}

#[test]
fn short_write_ends_the_run() {
    let trace = wipe(4, Mode::Zero, 10);
    assert_eq!(trace.asked, vec![4, 4, 4]);
    assert_eq!(trace.taken, vec![4, 4, 2]);
    assert_eq!(trace.shown, vec![4, 8, 10]);
    assert_eq!(trace.flushes, 3);
    assert_eq!(trace.outcome, Outcome::Completed);
    assert_eq!(trace.total, 10);
}

#[test]
fn exact_multiple_takes_one_more_write() {
    let trace = wipe(4, Mode::Zero, 8);
    assert_eq!(trace.taken, vec![4, 4, 0]);
    assert_eq!(trace.shown, vec![4, 8, 8]);
    assert_eq!(trace.flushes, 3);
    assert_eq!(trace.outcome, Outcome::Completed);
    assert_eq!(trace.total, 8);
}

#[test]
fn empty_target_takes_one_write_of_nothing() {
    let trace = wipe(4, Mode::Zero, 0);
    assert_eq!(trace.taken, vec![0]);
    assert_eq!(trace.shown, vec![0]);
    assert_eq!(trace.outcome, Outcome::Completed);
}

#[test]
fn target_smaller_than_chunk() {
    let trace = wipe(1024, Mode::Zero, 3);
    assert_eq!(trace.taken, vec![3]);
    assert_eq!(trace.shown, vec![3]);
    assert_eq!(trace.total, 3);
}

#[test]
fn chunk_of_one_byte() {
    let trace = wipe(1, Mode::Zero, 5);
    assert_eq!(trace.taken, vec![1, 1, 1, 1, 1, 0]);
    assert_eq!(trace.shown, vec![1, 2, 3, 4, 5, 5]);
}

#[test]
fn totals_shown_never_fall_and_grow_by_what_was_written() {
    for (chunk_len, room) in [(1, 7), (3, 10), (4, 16), (5, 4), (7, 0), (64, 1000)] {
        for mode in [Mode::Zero, Mode::Random] {
            let trace = wipe(chunk_len, mode, room);
            assert_eq!(trace.shown.len(), trace.taken.len());
            let mut before = 0;
            for (shown, taken) in trace.shown.iter().zip(trace.taken.iter()) {
                assert!(*shown >= before);
                assert_eq!(*shown - before, *taken);
                before = *shown;
            }
            assert_eq!(trace.total, room);
            assert_eq!(trace.taken.len(), room / chunk_len + 1);
            assert_eq!(*trace.taken.last().unwrap(), room % chunk_len);
        }
    }
}

#[test]
fn zero_mode_writes_only_zero_bytes() {
    for chunk_len in [1, 2, 17, 4096] {
        let trace = wipe(chunk_len, Mode::Zero, 3 * chunk_len + chunk_len / 2);
        assert!(trace.all_zero);
        assert_eq!(trace.asked, vec![chunk_len; 4]);
    }
}

#[test]
fn random_mode_refills_before_every_write() {
    let mut engine = Engine::new(64, Mode::Random).unwrap();
    assert_eq!(engine.step(Event::Start), Action::Write);
    let first = engine.chunk().clone();
    assert_ne!(first, vec![0u8; 64]);
    assert_eq!(engine.step(Event::Written(64)), Action::Flush);
    assert_eq!(engine.chunk(), &first);
    assert_eq!(engine.step(Event::Flushed), Action::Report(64));
    assert_eq!(engine.chunk(), &first);
    assert_eq!(engine.step(Event::Reported), Action::Write);
    let second = engine.chunk().clone();
    assert_eq!(second.len(), 64);
    assert_ne!(first, second);
}

#[test]
fn random_mode_refills_after_an_interrupted_write() {
    let mut engine = Engine::new(64, Mode::Random).unwrap();
    assert_eq!(engine.step(Event::Start), Action::Write);
    let first = engine.chunk().clone();
    let again = engine.step(Event::WriteFailed(fault(FaultKind::Interrupted, "interrupted")));
    assert_eq!(again, Action::Write);
    assert_ne!(engine.chunk(), &first);
    assert_eq!(engine.total(), 0);
}

#[test]
fn interrupted_write_is_repeated_without_progress() {
    let mut engine = Engine::new(4, Mode::Zero).unwrap();
    assert_eq!(engine.step(Event::Start), Action::Write);
    assert_eq!(engine.step(Event::Written(4)), Action::Flush);
    assert_eq!(engine.step(Event::Flushed), Action::Report(4));
    assert_eq!(engine.step(Event::Reported), Action::Write);
    for _ in 0..3 {
        let action = engine.step(Event::WriteFailed(fault(FaultKind::Interrupted, "EINTR")));
        assert_eq!(action, Action::Write);
        assert_eq!(engine.total(), 4);
        assert_eq!(*engine.phase(), Phase::Writing);
    }
    assert_eq!(engine.step(Event::Written(1)), Action::Flush);
    assert_eq!(engine.step(Event::Flushed), Action::Report(5));
    assert_eq!(engine.step(Event::Reported), Action::Stop(Outcome::Completed));
}

#[test]
fn fatal_write_error_halts_with_prior_total() {
    let mut engine = Engine::new(4, Mode::Zero).unwrap();
    assert_eq!(engine.step(Event::Start), Action::Write);
    assert_eq!(engine.step(Event::Written(4)), Action::Flush);
    assert_eq!(engine.step(Event::Flushed), Action::Report(4));
    assert_eq!(engine.step(Event::Reported), Action::Write);
    assert_eq!(engine.step(Event::Written(4)), Action::Flush);
    assert_eq!(engine.step(Event::Flushed), Action::Report(8));
    assert_eq!(engine.step(Event::Reported), Action::Write);
    let action = engine.step(Event::WriteFailed(fault(FaultKind::Other, "no space left")));
    let failure = Failure::Io("no space left".to_string());
    assert_eq!(action, Action::Stop(Outcome::Failed(failure.clone())));
    assert_eq!(engine.total(), 8);
    assert_eq!(*engine.phase(), Phase::Failed(failure));
    assert!(engine.is_finished());
    assert!(!engine.accepts(&Event::Written(4)));
    assert!(!engine.accepts(&Event::Start));
    assert!(!engine.accepts(&Event::Flushed));
    assert!(!engine.accepts(&Event::Reported));
}

#[test]
fn failed_flush_halts_and_counts_nothing_of_that_write() {
    let mut engine = Engine::new(4, Mode::Zero).unwrap();
    assert_eq!(engine.step(Event::Start), Action::Write);
    assert_eq!(engine.step(Event::Written(4)), Action::Flush);
    assert_eq!(engine.step(Event::Flushed), Action::Report(4));
    assert_eq!(engine.step(Event::Reported), Action::Write);
    assert_eq!(engine.step(Event::Written(3)), Action::Flush);
    let action = engine.step(Event::FlushFailed(fault(FaultKind::Other, "device gone")));
    assert_eq!(
        action,
        Action::Stop(Outcome::Failed(Failure::Io("device gone".to_string())))
    );
    assert_eq!(engine.total(), 4);
}

#[test]
fn interrupted_flush_is_fatal_too() {
    let mut engine = Engine::new(4, Mode::Zero).unwrap();
    engine.step(Event::Start);
    engine.step(Event::Written(4));
    let action = engine.step(Event::FlushFailed(fault(FaultKind::Interrupted, "EINTR")));
    assert_eq!(
        action,
        Action::Stop(Outcome::Failed(Failure::Io("EINTR".to_string())))
    );
    assert_eq!(engine.total(), 0);
}

#[test]
fn failed_refill_halts_a_random_run() {
    let failure = EntropyError { code: 38 };
    let mut engine = Engine::new(4, Mode::Random).unwrap();
    let action = engine.advance(Event::Start, Err(failure));
    assert_eq!(
        action,
        Action::Stop(Outcome::Failed(Failure::Entropy(failure)))
    );
    assert!(engine.is_finished());
    assert_eq!(engine.total(), 0);

    let mut engine = Engine::new(4, Mode::Random).unwrap();
    assert_eq!(engine.advance(Event::Start, Ok(())), Action::Write);
    assert_eq!(engine.advance(Event::Written(4), Err(failure)), Action::Flush);
    assert_eq!(engine.advance(Event::Flushed, Err(failure)), Action::Report(4));
    let action = engine.advance(Event::Reported, Err(failure));
    assert_eq!(
        action,
        Action::Stop(Outcome::Failed(Failure::Entropy(failure)))
    );
    assert_eq!(engine.total(), 4);
}

#[test]
fn zero_mode_has_no_refill_to_fail() {
    let mut engine = Engine::new(4, Mode::Zero).unwrap();
    let action = engine.advance(Event::Start, Err(EntropyError { code: 38 }));
    assert_eq!(action, Action::Write);
}

#[test]
fn short_report_completes_whatever_the_refill() {
    let mut engine = Engine::new(4, Mode::Random).unwrap();
    engine.advance(Event::Start, Ok(()));
    engine.advance(Event::Written(2), Ok(()));
    engine.advance(Event::Flushed, Ok(()));
    let action = engine.advance(Event::Reported, Err(EntropyError { code: 1 }));
    assert_eq!(action, Action::Stop(Outcome::Completed));
    assert_eq!(*engine.phase(), Phase::Completed);
}

#[test]
fn engine_accepts_only_what_it_waits_for() {
    let mut engine = Engine::new(4, Mode::Zero).unwrap();
    assert!(engine.accepts(&Event::Start));
    assert!(!engine.accepts(&Event::Written(1)));
    assert!(!engine.accepts(&Event::Flushed));
    assert!(!engine.accepts(&Event::Reported));
    engine.step(Event::Start);
    assert!(!engine.accepts(&Event::Start));
    assert!(engine.accepts(&Event::Written(0)));
    assert!(engine.accepts(&Event::Written(4)));
    assert!(!engine.accepts(&Event::Written(5)));
    assert!(engine.accepts(&Event::WriteFailed(fault(FaultKind::Other, "x"))));
    assert!(!engine.accepts(&Event::Flushed));
    engine.step(Event::Written(4));
    assert_eq!(*engine.phase(), Phase::Flushing(4));
    assert!(engine.accepts(&Event::Flushed));
    assert!(engine.accepts(&Event::FlushFailed(fault(FaultKind::Other, "x"))));
    assert!(!engine.accepts(&Event::Written(4)));
    assert!(!engine.accepts(&Event::Reported));
    engine.step(Event::Flushed);
    assert_eq!(*engine.phase(), Phase::Reporting(4));
    assert!(engine.accepts(&Event::Reported));
    assert!(!engine.accepts(&Event::Flushed));
}

#[test]
fn begins_iteration_where_the_chunk_is_due() {
    let mut engine = Engine::new(4, Mode::Zero).unwrap();
    assert!(engine.begins_iteration(&Event::Start));
    engine.step(Event::Start);
    assert!(!engine.begins_iteration(&Event::Written(4)));
    assert!(engine.begins_iteration(&Event::WriteFailed(fault(FaultKind::Interrupted, "x"))));
    assert!(!engine.begins_iteration(&Event::WriteFailed(fault(FaultKind::Other, "x"))));
    engine.step(Event::Written(4));
    assert!(!engine.begins_iteration(&Event::Flushed));
    engine.step(Event::Flushed);
    assert!(engine.begins_iteration(&Event::Reported));
    engine.step(Event::Reported);
    engine.step(Event::Written(3));
    engine.step(Event::Flushed);
    assert!(!engine.begins_iteration(&Event::Reported));
}
