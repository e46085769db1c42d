//! What holds of every run of the engine, proved over [`next`].

use crate::engine::{
    admissible, initial, next, response, well_formed, Action, EngineView, Event, Failure,
    FaultKind, IoFault, Outcome, Phase,
};
use crate::fill::{EntropyError, Mode};
use vstd::prelude::*;

verus! {

/// One thing that happens to the engine: an event, and what refilling the
/// chunk gave where the event begins an iteration.
pub struct Input {
    pub event: Event,
    pub refill: Result<(), EntropyError>,
}

/// The engine after a series of inputs.
pub open spec fn run(s: EngineView, inputs: Seq<Input>) -> EngineView
    decreases inputs.len(),
{
    if inputs.len() == 0 {
        s
    } else {
        next(run(s, inputs.drop_last()), inputs.last().event, inputs.last().refill)
    }
}

/// The totals that the engine asked to have shown along a series of inputs, in
/// order: one for each flush that succeeded.
pub open spec fn reported(s: EngineView, inputs: Seq<Input>) -> Seq<nat>
    decreases inputs.len(),
{
    if inputs.len() == 0 {
        Seq::empty()
    } else {
        let before = run(s, inputs.drop_last());
        let earlier = reported(s, inputs.drop_last());
        if before.phase is Flushing && inputs.last().event == Event::Flushed {
            earlier.push(run(s, inputs).total)
        } else {
            earlier
        }
    }
}

/// The bytes that an event adds to the total: what the write took, once its
/// flush has succeeded, and nothing at any other moment.
pub open spec fn credit(s: EngineView, e: Event) -> nat {
    match (s.phase, e) {
        (Phase::Flushing(n), Event::Flushed) => n as nat,
        _ => 0,
    }
}

/// What a target with room for `room` more bytes takes of each chunk written
/// to it, write by write, up to the first write that comes back short.
pub open spec fn takes(chunk_len: nat, room: nat) -> Seq<nat>
    decreases room,
{
    if chunk_len == 0 || room < chunk_len {
        seq![room]
    } else {
        seq![chunk_len] + takes(chunk_len, (room - chunk_len) as nat)
    }
}

/// The engine after one iteration in which nothing failed: the write took
/// `taken` bytes, the flush succeeded, the total was shown.
pub open spec fn iteration(s: EngineView, taken: nat) -> EngineView {
    let written = next(s, Event::Written(taken as usize), Ok(()));
    let flushed = next(written, Event::Flushed, Ok(()));
    next(flushed, Event::Reported, Ok(()))
}

/// The engine after as many such iterations as `taken` has entries.
pub open spec fn iterations(s: EngineView, taken: Seq<nat>) -> EngineView
    decreases taken.len(),
{
    if taken.len() == 0 {
        s
    } else {
        iteration(iterations(s, taken.drop_last()), taken.last())
    }
}

/// The engine that has just been started, its first chunk ready.
pub open spec fn started(chunk_len: nat, mode: Mode) -> EngineView {
    next(initial(chunk_len, mode), Event::Start, Ok(()))
}

/// No event leads a well-formed engine to one that is not, and none changes
/// the chunk's length or the mode.
pub proof fn lemma_next_keeps_well_formed(s: EngineView, e: Event, refill: Result<(), EntropyError>)
    requires
        well_formed(s),
    ensures
        well_formed(next(s, e, refill)),
        next(s, e, refill).chunk_len == s.chunk_len,
        next(s, e, refill).mode == s.mode,
{
}

/// The total never falls. It grows by what a write took at the moment the
/// flush of that write succeeds, and at no other; the total then asked to be
/// shown is the new one.
pub proof fn lemma_total_grows_by_credit(
    s: EngineView,
    e: Event,
    refill: Result<(), EntropyError>,
)
    requires
        well_formed(s),
    ensures
        next(s, e, refill).total == s.total + credit(s, e),
        next(s, e, refill).total >= s.total,
        s.phase is Flushing && e == Event::Flushed ==> response(next(s, e, refill)) == Some(
            Action::Report(next(s, e, refill).total as usize),
        ),
{
}

/// In an iteration the total shown exceeds the one before by exactly what the
/// write of that iteration took.
pub proof fn lemma_report_adds_written(s: EngineView, taken: usize)
    requires
        well_formed(s),
        s.phase == Phase::Writing,
        admissible(s, Event::Written(taken)),
    ensures
        response(next(next(s, Event::Written(taken), Ok(())), Event::Flushed, Ok(()))) == Some(
            Action::Report((s.total + taken) as usize),
        ),
        iteration(s, taken as nat).total == s.total + taken,
{
}

/// A run keeps the engine well formed and never lowers its total.
pub proof fn lemma_run_total_never_falls(s: EngineView, inputs: Seq<Input>)
    requires
        well_formed(s),
    ensures
        well_formed(run(s, inputs)),
        run(s, inputs).total >= s.total,
        run(s, inputs).chunk_len == s.chunk_len,
        run(s, inputs).mode == s.mode,
    decreases inputs.len(),
{
    if inputs.len() > 0 {
        lemma_run_total_never_falls(s, inputs.drop_last());
        lemma_next_keeps_well_formed(
            run(s, inputs.drop_last()),
            inputs.last().event,
            inputs.last().refill,
        );
    }
}

/// Whatever happens in a run, the totals shown never fall: each is at least
/// the one shown before it, none is below the total at the start of the run
/// and none above the total at its end.
pub proof fn lemma_reported_totals_never_fall(s: EngineView, inputs: Seq<Input>)
    requires
        well_formed(s),
    ensures
        forall|i: int, j: int|
            0 <= i <= j < reported(s, inputs).len() ==> #[trigger] reported(s, inputs)[i]
                <= #[trigger] reported(s, inputs)[j],
        forall|i: int|
            0 <= i < reported(s, inputs).len() ==> s.total <= #[trigger] reported(s, inputs)[i]
                <= run(s, inputs).total,
    decreases inputs.len(),
{
    if inputs.len() > 0 {
        let head = inputs.drop_last();
        let earlier = reported(s, head);
        let all = reported(s, inputs);
        lemma_reported_totals_never_fall(s, head);
        lemma_run_total_never_falls(s, head);
        lemma_total_grows_by_credit(run(s, head), inputs.last().event, inputs.last().refill);
        assert forall|i: int| 0 <= i < all.len() implies s.total <= #[trigger] all[i] <= run(
            s,
            inputs,
        ).total by {
            if i < earlier.len() {
                assert(all[i] == earlier[i]);
            }
        }
        assert forall|i: int, j: int| 0 <= i <= j < all.len() implies #[trigger] all[i]
            <= #[trigger] all[j] by {
            if j < earlier.len() {
                assert(all[i] == earlier[i] && all[j] == earlier[j]);
            } else if i < earlier.len() {
                assert(all[i] == earlier[i]);
            }
        }
    }
}

/// Where the last thing in a run is a flush that succeeded, the run shows one
/// total more: the one that the engine then holds, which is the total before
/// that flush and what the write before it took.
pub proof fn lemma_reported_is_running_total(s: EngineView, inputs: Seq<Input>)
    requires
        well_formed(s),
        inputs.len() > 0,
        run(s, inputs.drop_last()).phase is Flushing,
        inputs.last().event == Event::Flushed,
    ensures
        reported(s, inputs) == reported(s, inputs.drop_last()).push(run(s, inputs).total),
        run(s, inputs).total == run(s, inputs.drop_last()).total + run(
            s,
            inputs.drop_last(),
        ).phase->Flushing_0,
{
}

/// A finished run takes no event: the engine stays as it is, total and all.
pub proof fn lemma_finished_run_stays(s: EngineView, e: Event, refill: Result<(), EntropyError>)
    requires
        s.phase == Phase::Completed || s.phase is Failed,
    ensures
        !admissible(s, e),
        next(s, e, refill) == s,
{
}

/// A write that fails for any reason but an interruption ends the run at
/// once: the engine has failed with what the system said, it asks its caller
/// to stop, and the total is what it was before that write.
pub proof fn lemma_fatal_write_halts(s: EngineView, fault: IoFault, refill: Result<(), EntropyError>)
    requires
        s.phase == Phase::Writing,
        fault.kind == FaultKind::Other,
    ensures
        next(s, Event::WriteFailed(fault), refill) == (EngineView {
            phase: Phase::Failed(Failure::Io(fault.detail)),
            ..s
        }),
        next(s, Event::WriteFailed(fault), refill).total == s.total,
        response(next(s, Event::WriteFailed(fault), refill)) == Some(
            Action::Stop(Outcome::Failed(Failure::Io(fault.detail))),
        ),
{
}

/// A flush that fails, for whatever reason, ends the run at once, and what
/// the write before it took is not counted.
pub proof fn lemma_failed_flush_halts(s: EngineView, fault: IoFault, refill: Result<(), EntropyError>)
    requires
        s.phase is Flushing,
    ensures
        next(s, Event::FlushFailed(fault), refill) == (EngineView {
            phase: Phase::Failed(Failure::Io(fault.detail)),
            ..s
        }),
        next(s, Event::FlushFailed(fault), refill).total == s.total,
{
}

/// An interrupted write changes nothing but that the chunk is refilled: the
/// engine waits for the same write again, with the same total.
pub proof fn lemma_interrupted_write_repeats(s: EngineView, fault: IoFault)
    requires
        s.phase == Phase::Writing,
        fault.kind == FaultKind::Interrupted,
    ensures
        next(s, Event::WriteFailed(fault), Ok(())) == s,
{
}

/// In zero mode no run fails for want of random bytes.
pub proof fn lemma_zero_mode_needs_no_entropy(s: EngineView, inputs: Seq<Input>)
    requires
        s.mode == Mode::Zero,
        !(s.phase matches Phase::Failed(Failure::Entropy(_))),
    ensures
        !(run(s, inputs).phase matches Phase::Failed(Failure::Entropy(_))),
        run(s, inputs).mode == Mode::Zero,
    decreases inputs.len(),
{
    if inputs.len() > 0 {
        lemma_zero_mode_needs_no_entropy(s, inputs.drop_last());
    }
}

/// The writes on a target with room for `room` bytes: there are
/// `room / chunk_len + 1` of them, every one but the last takes a whole chunk,
/// and the last takes the `room % chunk_len` bytes that are left, which may be
/// none.
pub proof fn lemma_takes(chunk_len: nat, room: nat)
    requires
        chunk_len >= 1,
    ensures
        takes(chunk_len, room).len() == room / chunk_len + 1,
        takes(chunk_len, room).last() == room % chunk_len,
        forall|i: int|
            0 <= i < takes(chunk_len, room).len() - 1 ==> #[trigger] takes(chunk_len, room)[i]
                == chunk_len,
    decreases room,
{
    if room < chunk_len {
        assert(room / chunk_len == 0 && room % chunk_len == room) by (nonlinear_arith)
            requires
                0 <= room < chunk_len,
        ;
    } else {
        let rest = (room - chunk_len) as nat;
        lemma_takes(chunk_len, rest);
        assert(room / chunk_len == rest / chunk_len + 1 && room % chunk_len == rest % chunk_len)
            by (nonlinear_arith)
            requires
                rest == room - chunk_len,
                chunk_len >= 1,
                room >= chunk_len,
        ;
        assert(takes(chunk_len, room) == seq![chunk_len] + takes(chunk_len, rest));
    }
}

/// A run on a target with room for `room` more bytes, in which nothing fails:
/// before each of its writes the engine waits for a write, the total holding
/// what the writes before took; after the last, which came back short, the run
/// is completed and the total has grown by `room`.
pub proof fn lemma_run_fills_target(s: EngineView, room: nat)
    requires
        well_formed(s),
        s.phase == Phase::Writing,
        s.total + room <= usize::MAX,
    ensures
        forall|k: int|
            0 <= k < takes(s.chunk_len, room).len() ==> #[trigger] iterations(
                s,
                takes(s.chunk_len, room).take(k),
            ) == (EngineView { total: (s.total + k * s.chunk_len) as nat, ..s }),
        iterations(s, takes(s.chunk_len, room)) == (EngineView {
            total: (s.total + room) as nat,
            phase: Phase::Completed,
            ..s
        }),
{
    let c = s.chunk_len;
    let w = takes(c, room);
    lemma_takes(c, room);
    let count = w.len() as int;
    assert((room / c) * c + room % c == room && (room / c) * c <= room) by (nonlinear_arith)
        requires
            c >= 1,
    ;
    assert forall|k: int| 0 <= k < count implies #[trigger] iterations(s, w.take(k)) == (
    EngineView { total: (s.total + k * c) as nat, ..s }) by {
        assert(k * c <= (room / c) * c) by (nonlinear_arith)
            requires
                0 <= k <= room / c,
                c >= 1,
        ;
        lemma_full_iterations(s, w, k);
    }
    let last = count - 1;
    lemma_full_iterations(s, w, last);
    assert(w.take(count) == w);
    assert(w.drop_last() == w.take(last));
    assert(w.last() < c) by (nonlinear_arith)
        requires
            w.last() == room % c,
            c >= 1,
    ;
}

/// After `k` writes that each took a whole chunk the engine waits for the
/// next write, and the total has grown by `k` chunks.
proof fn lemma_full_iterations(s: EngineView, taken: Seq<nat>, k: int)
    requires
        well_formed(s),
        s.phase == Phase::Writing,
        0 <= k <= taken.len(),
        forall|i: int| 0 <= i < k ==> #[trigger] taken[i] == s.chunk_len,
        s.total + k * s.chunk_len <= usize::MAX,
    ensures
        iterations(s, taken.take(k)) == (EngineView {
            total: (s.total + k * s.chunk_len) as nat,
            ..s
        }),
    decreases k,
{
    let c = s.chunk_len;
    if k == 0 {
        assert(taken.take(0).len() == 0);
        assert(s.total + 0 * c == s.total);
    } else {
        assert(s.total + (k - 1) * c <= usize::MAX && (k - 1) * c + c == k * c) by (nonlinear_arith)
            requires
                s.total + k * c <= usize::MAX,
                k >= 1,
                c >= 1,
        ;
        lemma_full_iterations(s, taken, k - 1);
        assert(taken.take(k).drop_last() == taken.take(k - 1));
        assert(taken.take(k).last() == taken[k - 1]);
    }
}

/// Where the target's length is no multiple of the chunk's, a run in which
/// nothing fails makes as many writes as the length holds chunks, rounded up;
/// the last takes what is left over, less than a chunk, and with it the run
/// is completed, the total being the target's length.
pub proof fn lemma_short_write_ends_run(chunk_len: nat, mode: Mode, target_len: nat)
    requires
        1 <= chunk_len <= usize::MAX,
        target_len <= usize::MAX,
        target_len % chunk_len != 0,
    ensures
        takes(chunk_len, target_len).len() == (target_len + chunk_len - 1) / (chunk_len as int),
        takes(chunk_len, target_len).last() == target_len % chunk_len,
        0 < takes(chunk_len, target_len).last() < chunk_len,
        iterations(started(chunk_len, mode), takes(chunk_len, target_len)).phase
            == Phase::Completed,
        iterations(started(chunk_len, mode), takes(chunk_len, target_len)).total == target_len,
        forall|k: int|
            0 <= k < takes(chunk_len, target_len).len() ==> (#[trigger] iterations(
                started(chunk_len, mode),
                takes(chunk_len, target_len).take(k),
            )).phase == Phase::Writing,
{
    let s = started(chunk_len, mode);
    lemma_takes(chunk_len, target_len);
    lemma_run_fills_target(s, target_len);
    assert((target_len + chunk_len - 1) / (chunk_len as int) == target_len / chunk_len + 1
        && target_len % chunk_len < chunk_len) by (nonlinear_arith)
        requires
            chunk_len >= 1,
            target_len % chunk_len != 0,
    ;
}

/// Where the target's length is `k` chunks exactly, a run in which nothing
/// fails makes `k + 1` writes: `k` that take a whole chunk each, after which
/// the engine still waits for a write, and one more that takes nothing and
/// completes the run.
pub proof fn lemma_exact_multiple_takes_one_more_write(chunk_len: nat, mode: Mode, k: nat)
    requires
        1 <= chunk_len <= usize::MAX,
        k * chunk_len <= usize::MAX,
    ensures
        takes(chunk_len, k * chunk_len).len() == k + 1,
        takes(chunk_len, k * chunk_len).last() == 0,
        forall|i: int| 0 <= i < k ==> #[trigger] takes(chunk_len, k * chunk_len)[i] == chunk_len,
        iterations(started(chunk_len, mode), takes(chunk_len, k * chunk_len).take(k as int))
            == (EngineView {
            total: k * chunk_len,
            phase: Phase::Writing,
            ..initial(chunk_len, mode)
        }),
        iterations(started(chunk_len, mode), takes(chunk_len, k * chunk_len)) == (EngineView {
            total: k * chunk_len,
            phase: Phase::Completed,
            ..initial(chunk_len, mode)
        }),
{
    let s = started(chunk_len, mode);
    let len = k * chunk_len;
    lemma_takes(chunk_len, len);
    lemma_run_fills_target(s, len);
    assert(len / chunk_len == k && len % chunk_len == 0) by (nonlinear_arith)
        requires
            len == k * chunk_len,
            chunk_len >= 1,
    ;
}

} // verus!
