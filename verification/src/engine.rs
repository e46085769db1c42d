//! The overwrite engine: what follows each write, flush and report.
//!
//! The engine owns the chunk and the count of bytes written. It never touches
//! the target itself. It names the next thing to do to the target (an
//! [`Action`]); the caller does it and hands back what came of it (an
//! [`Event`]). One iteration is: refill the chunk, write it, flush, report the
//! new total. A write of fewer bytes than the chunk holds ends the run: the
//! target is full.

use crate::fill::{fill_chunk, zeros, EntropyError, Mode};
use crate::units::SizeError;
use vstd::prelude::*;

verus! {

/// Whether a failed call on the target is worth repeating.
#[derive(Clone, Copy, Debug, PartialEq, Eq, Structural)]
pub enum FaultKind {
    /// The system broke the call off for a passing reason; nothing was written.
    Interrupted,
    /// A real fault.
    Other,
}

/// A failed call on the target.
#[derive(Clone, Debug, PartialEq, Eq)]
pub struct IoFault {
    pub kind: FaultKind,
    /// What the system said of the failure.
    pub detail: String,
}

/// Why a run failed.
#[derive(Clone, Debug, PartialEq, Eq)]
pub enum Failure {
    /// A write or a flush failed: what the system said of it.
    Io(String),
    /// The secure random source failed.
    Entropy(EntropyError),
}

/// How a run ended.
#[derive(Clone, Debug, PartialEq, Eq)]
pub enum Outcome {
    /// A write came back short: the target is full.
    Completed,
    Failed(Failure),
}

/// Where a run stands.
#[derive(Clone, Debug, PartialEq, Eq)]
pub enum Phase {
    /// Nothing was asked of the target yet.
    Idle,
    /// The chunk is to be written; the engine waits for what the write gave.
    Writing,
    /// A write took this many bytes; the engine waits for the flush.
    Flushing(usize),
    /// This many bytes were written and flushed and the total holds them; the
    /// engine waits for the total to be shown.
    Reporting(usize),
    /// The run is over: the target is full.
    Completed,
    /// The run is over: it failed.
    Failed(Failure),
}

/// What the caller is to do next.
#[derive(Clone, Debug, PartialEq, Eq)]
pub enum Action {
    /// Write the chunk to the target, once, and say how many bytes it took.
    Write,
    /// Force what was written to stable storage.
    Flush,
    /// Show this total of bytes written and flushed.
    Report(usize),
    /// Stop: the run is over.
    Stop(Outcome),
}

/// What the caller did, and what came of it.
#[derive(Clone, Debug, PartialEq, Eq)]
pub enum Event {
    /// The run may begin.
    Start,
    /// The write took this many bytes of the chunk.
    Written(usize),
    WriteFailed(IoFault),
    Flushed,
    FlushFailed(IoFault),
    /// The total was shown.
    Reported,
}

/// The engine as the contracts see it: everything but the bytes of the chunk.
pub struct EngineView {
    pub chunk_len: nat,
    pub mode: Mode,
    /// Bytes written and flushed since the run began.
    pub total: nat,
    pub phase: Phase,
}

/// The engine before its run.
pub open spec fn initial(chunk_len: nat, mode: Mode) -> EngineView {
    EngineView { chunk_len, mode, total: 0, phase: Phase::Idle }
}

/// What holds of an engine at every moment: the chunk is not empty, a write
/// never took more than the chunk, and the total, with what waits to be added
/// to it, fits in `usize`.
pub open spec fn well_formed(s: EngineView) -> bool {
    &&& s.chunk_len >= 1
    &&& s.total <= usize::MAX
    &&& match s.phase {
        Phase::Flushing(n) => n <= s.chunk_len && s.total + n <= usize::MAX,
        Phase::Reporting(n) => n <= s.chunk_len,
        _ => true,
    }
}

/// Whether the event answers what the engine waits for. A finished run takes
/// no event. A write cannot have taken more than the chunk, nor so much that
/// the total would leave `usize`.
pub open spec fn admissible(s: EngineView, e: Event) -> bool {
    match (s.phase, e) {
        (Phase::Idle, Event::Start) => true,
        (Phase::Writing, Event::Written(n)) => n <= s.chunk_len && s.total + n <= usize::MAX,
        (Phase::Writing, Event::WriteFailed(_)) => true,
        (Phase::Flushing(_), Event::Flushed) => true,
        (Phase::Flushing(_), Event::FlushFailed(_)) => true,
        (Phase::Reporting(_), Event::Reported) => true,
        _ => false,
    }
}

/// Whether an iteration begins with this event, so that the chunk is refilled:
/// at the start, after an interrupted write, and after the report of a full
/// write.
pub open spec fn refills(s: EngineView, e: Event) -> bool {
    admissible(s, e) && match (s.phase, e) {
        (_, Event::Start) => true,
        (_, Event::WriteFailed(fault)) => fault.kind == FaultKind::Interrupted,
        (Phase::Reporting(n), Event::Reported) => n >= s.chunk_len,
        _ => false,
    }
}

/// The engine at the beginning of an iteration, the chunk refilled with this
/// result. Only the random mode can fail here.
pub open spec fn begin_write(s: EngineView, refill: Result<(), EntropyError>) -> EngineView {
    match refill {
        Err(e) if s.mode == Mode::Random => EngineView {
            phase: Phase::Failed(Failure::Entropy(e)),
            ..s
        },
        _ => EngineView { phase: Phase::Writing, ..s },
    }
}

/// The engine after an event. `refill` is what refilling the chunk gave, and
/// counts only where the event begins an iteration. An event that the engine
/// does not wait for leaves it as it is.
pub open spec fn next(s: EngineView, e: Event, refill: Result<(), EntropyError>) -> EngineView {
    if !admissible(s, e) {
        s
    } else {
        match (s.phase, e) {
            (_, Event::Start) => begin_write(s, refill),
            (_, Event::Written(n)) => EngineView { phase: Phase::Flushing(n), ..s },
            (_, Event::WriteFailed(fault)) => if fault.kind == FaultKind::Interrupted {
                begin_write(s, refill)
            } else {
                EngineView { phase: Phase::Failed(Failure::Io(fault.detail)), ..s }
            },
            (Phase::Flushing(n), Event::Flushed) => EngineView {
                total: (s.total + n) as nat,
                phase: Phase::Reporting(n),
                ..s
            },
            (_, Event::FlushFailed(fault)) => EngineView {
                phase: Phase::Failed(Failure::Io(fault.detail)),
                ..s
            },
            (Phase::Reporting(n), Event::Reported) => if n < s.chunk_len {
                EngineView { phase: Phase::Completed, ..s }
            } else {
                begin_write(s, refill)
            },
            _ => s,
        }
    }
}

/// What the engine asks of its caller: nothing before the start, and after
/// that one action in every phase.
pub open spec fn response(s: EngineView) -> Option<Action> {
    match s.phase {
        Phase::Idle => None,
        Phase::Writing => Some(Action::Write),
        Phase::Flushing(_) => Some(Action::Flush),
        Phase::Reporting(_) => Some(Action::Report(s.total as usize)),
        Phase::Completed => Some(Action::Stop(Outcome::Completed)),
        Phase::Failed(failure) => Some(Action::Stop(Outcome::Failed(failure))),
    }
}

/// The result of the refill that led to `s`: an error where `s` failed for
/// want of random bytes, success otherwise.
pub open spec fn refill_of(s: EngineView) -> Result<(), EntropyError> {
    match s.phase {
        Phase::Failed(Failure::Entropy(e)) => Err(e),
        _ => Ok(()),
    }
}

/// The overwrite engine.
pub struct Engine {
    chunk: Vec<u8>,
    mode: Mode,
    total: usize,
    phase: Phase,
}

impl View for Engine {
    type V = EngineView;

    closed spec fn view(&self) -> EngineView {
        EngineView {
            chunk_len: self.chunk@.len(),
            mode: self.mode,
            total: self.total as nat,
            phase: self.phase,
        }
    }
}

impl Engine {
    /// The bytes of the chunk.
    pub closed spec fn buffer(&self) -> Seq<u8> {
        self.chunk@
    }

    /// What every engine keeps: it is well formed, the chunk has the length it
    /// was made with, and in zero mode every byte of it is zero.
    pub open spec fn inv(&self) -> bool {
        &&& well_formed(self@)
        &&& self.buffer().len() == self@.chunk_len
        &&& self@.mode == Mode::Zero ==> self.buffer() == zeros(self@.chunk_len)
    }

    /// An engine with a chunk of `chunk_len` zero bytes, before its run. A
    /// chunk of no bytes is refused: no write of it could ever come back short.
    pub fn new(chunk_len: usize, mode: Mode) -> (r: Result<Engine, SizeError>)
        ensures
            chunk_len == 0 <==> r == Err::<Engine, SizeError>(SizeError::Zero),
            chunk_len >= 1 <==> r.is_ok(),
            r matches Ok(engine) ==> {
                &&& engine.inv()
                &&& engine@ == initial(chunk_len as nat, mode)
                &&& engine.buffer() == zeros(chunk_len as nat)
            },
    {
        if chunk_len == 0 {
            return Err(SizeError::Zero);
        }
        let chunk: Vec<u8> = vec![0u8; chunk_len];
        assert(chunk@ =~= zeros(chunk_len as nat));
        Ok(Engine { chunk, mode, total: 0, phase: Phase::Idle })
    }

    /// The length of the chunk in bytes.
    pub fn chunk_len(&self) -> (n: usize)
        ensures
            n == self@.chunk_len,
    {
        self.chunk.len()
    }

    pub fn mode(&self) -> (mode: Mode)
        ensures
            mode == self@.mode,
    {
        self.mode
    }

    /// Bytes written and flushed since the run began.
    pub fn total(&self) -> (total: usize)
        ensures
            total == self@.total,
    {
        self.total
    }

    pub fn phase(&self) -> (phase: &Phase)
        ensures
            *phase == self@.phase,
    {
        &self.phase
    }

    /// Whether the run is over.
    pub fn is_finished(&self) -> (done: bool)
        ensures
            done == (self@.phase == Phase::Completed || self@.phase is Failed),
    {
        match &self.phase {
            Phase::Completed => true,
            Phase::Failed(_) => true,
            _ => false,
        }
    }

    /// The chunk to write. In zero mode it holds nothing but zero bytes,
    /// whatever the engine has gone through.
    pub fn chunk(&self) -> (bytes: &Vec<u8>)
        requires
            self.inv(),
        ensures
            bytes@ == self.buffer(),
            bytes@.len() == self@.chunk_len,
            self@.mode == Mode::Zero ==> forall|i: int|
                0 <= i < bytes@.len() ==> #[trigger] bytes@[i] == 0u8,
    {
        &self.chunk
    }

    /// Whether the engine waits for this event.
    pub fn accepts(&self, event: &Event) -> (yes: bool)
        ensures
            yes == admissible(self@, *event),
    {
        match (&self.phase, event) {
            (Phase::Idle, Event::Start) => true,
            (Phase::Writing, Event::Written(n)) => *n <= self.chunk.len() && *n <= usize::MAX
                - self.total,
            (Phase::Writing, Event::WriteFailed(_)) => true,
            (Phase::Flushing(_), Event::Flushed) => true,
            (Phase::Flushing(_), Event::FlushFailed(_)) => true,
            (Phase::Reporting(_), Event::Reported) => true,
            _ => false,
        }
    }

    /// What the engine asks of its caller now.
    pub fn pending(&self) -> (action: Option<Action>)
        ensures
            action == response(self@),
    {
        match &self.phase {
            Phase::Idle => None,
            Phase::Writing => Some(Action::Write),
            Phase::Flushing(_) => Some(Action::Flush),
            Phase::Reporting(_) => Some(Action::Report(self.total)),
            Phase::Completed => Some(Action::Stop(Outcome::Completed)),
            Phase::Failed(Failure::Io(detail)) => Some(
                Action::Stop(Outcome::Failed(Failure::Io(detail.clone()))),
            ),
            Phase::Failed(Failure::Entropy(e)) => Some(
                Action::Stop(Outcome::Failed(Failure::Entropy(*e))),
            ),
        }
    }

    /// Whether this event begins an iteration.
    pub fn begins_iteration(&self, event: &Event) -> (yes: bool)
        requires
            self.inv(),
        ensures
            yes == refills(self@, *event),
    {
        match (&self.phase, event) {
            (Phase::Idle, Event::Start) => true,
            (Phase::Writing, Event::WriteFailed(fault)) => match fault.kind {
                FaultKind::Interrupted => true,
                FaultKind::Other => false,
            },
            (Phase::Reporting(n), Event::Reported) => *n == self.chunk.len(),
            _ => false,
        }
    }

    /// Takes an event and says what to do next. Where the event begins an
    /// iteration, the chunk is refilled first, as the mode asks. Whether the
    /// random source delivers is not known beforehand: the engine ends where
    /// [`next`] leads with the refill's result, which in zero mode is success.
    pub fn step(&mut self, event: Event) -> (action: Action)
        requires
            old(self).inv(),
            admissible(old(self)@, event),
        ensures
            final(self).inv(),
            final(self)@ == next(old(self)@, event, refill_of(final(self)@)),
            old(self)@.mode == Mode::Zero ==> final(self)@ == next(old(self)@, event, Ok(())),
            response(final(self)@) == Some(action),
            !refills(old(self)@, event) ==> final(self).buffer() == old(self).buffer(),
    {
        let refill = if self.begins_iteration(&event) {
            fill_chunk(&mut self.chunk, self.mode)
        } else {
            Ok(())
        };
        self.advance(event, refill)
    }

    /// Takes an event as [`Engine::step`] does, but with the refill already
    /// made and its result given: the chunk is not touched here.
    pub fn advance(&mut self, event: Event, refill: Result<(), EntropyError>) -> (action: Action)
        requires
            old(self).inv(),
            admissible(old(self)@, event),
        ensures
            final(self).inv(),
            final(self)@ == next(old(self)@, event, refill),
            response(final(self)@) == Some(action),
            final(self).buffer() == old(self).buffer(),
    {
        match event {
            Event::Start => self.begin(refill),
            Event::Written(n) => {
                self.phase = Phase::Flushing(n);
                Action::Flush
            },
            Event::WriteFailed(fault) => match fault.kind {
                FaultKind::Interrupted => self.begin(refill),
                FaultKind::Other => self.fail(fault.detail),
            },
            Event::Flushed => {
                let n: usize = match &self.phase {
                    Phase::Flushing(n) => *n,
                    _ => 0,
                };
                self.total = self.total + n;
                self.phase = Phase::Reporting(n);
                Action::Report(self.total)
            },
            Event::FlushFailed(fault) => self.fail(fault.detail),
            Event::Reported => {
                let n: usize = match &self.phase {
                    Phase::Reporting(n) => *n,
                    _ => 0,
                };
                if n < self.chunk.len() {
                    self.phase = Phase::Completed;
                    Action::Stop(Outcome::Completed)
                } else {
                    self.begin(refill)
                }
            },
        }
    }

    /// Enters an iteration whose refill gave `refill`.
    fn begin(&mut self, refill: Result<(), EntropyError>) -> (action: Action)
        ensures
            final(self)@ == begin_write(old(self)@, refill),
            response(final(self)@) == Some(action),
            final(self).buffer() == old(self).buffer(),
    {
        match (self.mode, refill) {
            (Mode::Random, Err(e)) => {
                self.phase = Phase::Failed(Failure::Entropy(e));
                Action::Stop(Outcome::Failed(Failure::Entropy(e)))
            },
            _ => {
                self.phase = Phase::Writing;
                Action::Write
            },
        }
    }

    /// Ends the run on a failed write or flush.
    fn fail(&mut self, detail: String) -> (action: Action)
        ensures
            final(self)@ == (EngineView { phase: Phase::Failed(Failure::Io(detail)), ..old(self)@ }),
            action == Action::Stop(Outcome::Failed(Failure::Io(detail))),
            final(self).buffer() == old(self).buffer(),
    {
        self.phase = Phase::Failed(Failure::Io(detail.clone()));
        Action::Stop(Outcome::Failed(Failure::Io(detail)))
    }
}

} // verus!
