use vstd::prelude::*;

verus! {

/// What one poll of an asynchronous computation reports.
#[derive(Debug, PartialEq, Eq)]
pub enum Readiness<T> {
    /// Not finished yet; the scheduler polls again once woken.
    Pending,
    /// Finished with this value.
    Ready(T),
}

/// The result of one poll of the timeout combinator, given whether the
/// deadline timer reported ready and what the inner computation reported.
/// When the timer has fired the inner report plays no part.
pub open spec fn step_outcome<T>(timer_fired: bool, inner: Readiness<T>) -> Readiness<Option<T>> {
    if timer_fired {
        Readiness::Ready(None)
    } else {
        match inner {
            Readiness::Ready(v) => Readiness::Ready(Some(v)),
            Readiness::Pending => Readiness::Pending,
        }
    }
}

/// One poll of the timeout combinator.
///
/// `timer_fired` is what polling the deadline timer reported. If it fired,
/// the combinator resolves to `None` and `poll_inner` is never called (its
/// precondition need not even hold). Otherwise the inner computation is
/// polled once through `poll_inner`: its value resolves the combinator to
/// `Some(value)`, and its pending leaves the combinator pending.
pub fn poll_timeout<T, P>(timer_fired: bool, poll_inner: P) -> (r: Readiness<Option<T>>)
    where
        P: FnOnce() -> Readiness<T>,
    requires
        timer_fired || poll_inner.requires(()),
    ensures
        timer_fired ==> r == Readiness::<Option<T>>::Ready(None),
        !timer_fired ==> exists|p: Readiness<T>|
            #[trigger] poll_inner.ensures((), p) && r == step_outcome(false, p),
{
    if timer_fired {
        return Readiness::Ready(None);
    }
    let p = poll_inner();
    match p {
        Readiness::Ready(v) => Readiness::Ready(Some(v)),
        Readiness::Pending => Readiness::Pending,
    }
}

} // verus!
