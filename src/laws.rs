//! What holds of every measurement run, stated over the transition model
//! that `Measurement::on_event` follows.
use crate::engine::{accepts, inv, next, sum, Command, Event, Phase, RunView};
use crate::error::SpeedTestError;
use crate::events::Notice;
use vstd::prelude::*;

verus! {

/// A run that ends in success has read exactly the announced total.
pub proof fn lemma_success_reads_total(v: RunView, e: Event)
    requires
        inv(v),
        accepts(v, e),
    ensures
        next(v, e).command matches Command::Done(Ok(s)) ==> s.bytes_downloaded == s.total_bytes,
        v.phase == Phase::Finished ==> v.info.bytes_downloaded == v.info.total_bytes,
{
    crate::engine::lemma_next_keeps_inv(v, e);
}

/// The start is announced once, as the first notification, with nothing read;
/// every run that got past probing has announced it.
pub proof fn lemma_start_announced_once(v: RunView)
    requires
        inv(v),
    ensures
        v.trace.len() > 0 ==> v.trace[0] is Download && v.trace[0].info().bytes_downloaded == 0,
        forall|i: int| 0 < i < v.trace.len() ==> !(#[trigger] v.trace[i] is Download),
        v.phase == Phase::Downloading || v.phase == Phase::Finished ==> v.trace.len() > 0,
{
    if v.phase == Phase::Finished {
        let t = v.trace;
        assert forall|i: int| 0 < i < t.len() implies !(#[trigger] t[i] is Download) by {
            if i < t.len() - 1 {
                assert(t.drop_last()[i] is Downloading);
            }
        }
        assert(t.drop_last()[0] == t[0]);
    }
}

/// Progress notifications never go back in bytes read nor in elapsed time.
pub proof fn lemma_progress_monotone(v: RunView)
    requires
        inv(v),
    ensures
        forall|i: int, j: int|
            0 <= i < j < v.trace.len() && v.trace[i] is Downloading && v.trace[j] is Downloading
                ==> (#[trigger] v.trace[i]).info().bytes_downloaded
                <= (#[trigger] v.trace[j]).info().bytes_downloaded && v.trace[i].info().time_elapsed
                <= v.trace[j].info().time_elapsed,
{
}

/// The end is announced at most once, as the last notification, and only by a
/// run that finished; a finished run has announced it; a finished or failed
/// run takes no further event.
pub proof fn lemma_end_announced_last(v: RunView)
    requires
        inv(v),
    ensures
        forall|i: int|
            0 <= i < v.trace.len() && (#[trigger] v.trace[i] is Downloaded) ==> i == v.trace.len() - 1
                && v.phase == Phase::Finished,
        v.phase == Phase::Finished ==> v.trace.len() > 0 && v.trace.last() is Downloaded,
        v.phase == Phase::Finished || v.phase == Phase::Failed ==> forall|e: Event|
            !accepts(v, e),
{
    let t = v.trace;
    assert forall|i: int|
        0 <= i < t.len() && (#[trigger] t[i] is Downloaded) implies i == t.len() - 1 && v.phase
        == Phase::Finished by {
        if v.phase == Phase::Finished && i < t.len() - 1 {
            assert(t.drop_last()[i] == t[i]);
        }
    }
}

/// A step announces the end only together with a successful outcome.
pub proof fn lemma_end_only_on_success(v: RunView, e: Event)
    requires
        inv(v),
        accepts(v, e),
    ensures
        forall|i: int|
            0 <= i < next(v, e).notices.len() && (#[trigger] next(v, e).notices[i] is Downloaded)
                ==> next(v, e).command is Done && next(v, e).command->0 is Ok,
{
}

/// A failed probe of any target stops the run with an error that names it,
/// before the start is announced and before any body is read.
pub proof fn lemma_probe_failure_stops(v: RunView, e: Event)
    requires
        inv(v),
        v.phase == Phase::Probing,
        e is ProbeFailed || e == Event::Probed(None),
    ensures
        next(v, e).command == Command::Done(Err(SpeedTestError::Probe(v.targets[v.current as int].name))),
        next(v, e).notices.len() == 0,
        next(v, e).state.phase == Phase::Failed,
        next(v, e).state.trace.len() == 0,
        next(v, e).state.info.bytes_downloaded == 0,
        forall|f: Event| !accepts(next(v, e).state, f),
{
}

/// A failed body of target `v.current`, after every earlier target was read
/// in full, stops the run with an error that names it; the end is never
/// announced.
pub proof fn lemma_transfer_failure_stops(v: RunView, e: Event)
    requires
        inv(v),
        v.phase == Phase::Downloading,
        e is TransferFailed,
    ensures
        next(v, e).command == Command::Done(
            Err(SpeedTestError::Transfer(v.targets[v.current as int].name)),
        ),
        next(v, e).state.phase == Phase::Failed,
        next(v, e).state.info.bytes_downloaded >= sum(v.sizes.take(v.current as int)),
        forall|i: int|
            0 <= i < next(v, e).state.trace.len() ==> !(#[trigger] next(v, e).state.trace[i] is Downloaded),
        forall|f: Event| !accepts(next(v, e).state, f),
{
}

} // verus!
