use vstd::prelude::*;
use crate::race::{step_outcome, Readiness};

verus! {

/// A run of successive polls of the combinator, starting at poll `i`.
///
/// At poll `k` the deadline timer reports `timer[k]` and the inner
/// computation, if it is polled, reports `inner[k]`. The run resolves at the
/// first poll whose step outcome is ready, and stays pending if none is
/// within the recorded polls.
pub open spec fn run_from<T>(timer: Seq<bool>, inner: Seq<Readiness<T>>, i: int) -> Readiness<Option<T>>
    decreases timer.len() - i,
{
    if 0 <= i < timer.len() && i < inner.len() {
        match step_outcome(timer[i], inner[i]) {
            Readiness::Pending => run_from(timer, inner, i + 1),
            resolved => resolved,
        }
    } else {
        Readiness::Pending
    }
}

/// A run from the first poll on.
pub open spec fn run<T>(timer: Seq<bool>, inner: Seq<Readiness<T>>) -> Readiness<Option<T>> {
    run_from(timer, inner, 0)
}

/// The timer has not fired at any poll before `d`.
pub open spec fn quiet_before(timer: Seq<bool>, d: int) -> bool {
    forall|k: int| 0 <= k < d ==> !#[trigger] timer[k]
}

/// The inner computation reported pending at every poll before `c`.
pub open spec fn pending_before<T>(inner: Seq<Readiness<T>>, c: int) -> bool {
    forall|k: int| 0 <= k < c ==> #[trigger] inner[k] == Readiness::<T>::Pending
}

/// Polls on which neither the timer fired nor the inner computation finished
/// leave a run where it was.
proof fn lemma_run_skips_quiet_polls<T>(timer: Seq<bool>, inner: Seq<Readiness<T>>, i: int, j: int)
    requires
        0 <= i <= j,
        j < timer.len(),
        j < inner.len(),
        quiet_before(timer, j),
        pending_before(inner, j),
    ensures
        run_from(timer, inner, i) == run_from(timer, inner, j),
    decreases j - i,
{
    if i < j {
        assert(!timer[i]);
        assert(inner[i] == Readiness::<T>::Pending);
        lemma_run_skips_quiet_polls(timer, inner, i + 1, j);
    }
}

/// A computation that finishes at poll `c`, strictly before the timer fires,
/// resolves the combinator to its exact result.
pub proof fn lemma_finish_before_deadline<T>(timer: Seq<bool>, inner: Seq<Readiness<T>>, c: int, v: T)
    requires
        0 <= c < timer.len(),
        c < inner.len(),
        quiet_before(timer, c + 1),
        pending_before(inner, c),
        inner[c] == Readiness::Ready(v),
    ensures
        run(timer, inner) == Readiness::Ready(Some(v)),
{
    lemma_run_skips_quiet_polls(timer, inner, 0, c);
    assert(!timer[c]);
}

/// A timer that fires at poll `d`, while the computation is still pending at
/// every earlier poll, resolves the combinator to `None`, whatever the
/// computation would report at poll `d` or later.
pub proof fn lemma_deadline_first<T>(timer: Seq<bool>, inner: Seq<Readiness<T>>, d: int)
    requires
        0 <= d < timer.len(),
        d < inner.len(),
        quiet_before(timer, d),
        timer[d],
        pending_before(inner, d),
    ensures
        run(timer, inner) == Readiness::<Option<T>>::Ready(None),
{
    lemma_run_skips_quiet_polls(timer, inner, 0, d);
}

/// A computation that finishes strictly after the timer fires leaves the
/// combinator with `None`.
pub proof fn lemma_finish_after_deadline<T>(timer: Seq<bool>, inner: Seq<Readiness<T>>, d: int, c: int, v: T)
    requires
        0 <= d < c,
        c < inner.len(),
        d < timer.len(),
        quiet_before(timer, d),
        timer[d],
        pending_before(inner, c),
        inner[c] == Readiness::Ready(v),
    ensures
        run(timer, inner) == Readiness::<Option<T>>::Ready(None),
{
    lemma_deadline_first(timer, inner, d);
}

/// When the timer fires at the very poll at which the computation finishes,
/// the timeout wins.
pub proof fn lemma_tie_goes_to_timeout<T>(timer: Seq<bool>, inner: Seq<Readiness<T>>, d: int, v: T)
    requires
        0 <= d < timer.len(),
        d < inner.len(),
        quiet_before(timer, d),
        timer[d],
        pending_before(inner, d),
        inner[d] == Readiness::Ready(v),
    ensures
        run(timer, inner) == Readiness::<Option<T>>::Ready(None),
{
    lemma_deadline_first(timer, inner, d);
}

/// A timer that is ready at the first poll (a zero duration) resolves the
/// combinator to `None` on that poll, whatever the computation reports.
pub proof fn lemma_zero_duration<T>(timer: Seq<bool>, inner: Seq<Readiness<T>>)
    requires
        timer.len() > 0,
        inner.len() > 0,
        timer[0],
    ensures
        run(timer, inner) == Readiness::<Option<T>>::Ready(None),
{
}

} // verus!
