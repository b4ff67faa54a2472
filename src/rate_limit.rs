//! Bounding how many calls are in flight through one service at a time.
use core::marker::PhantomData;
use core::sync::atomic::{AtomicUsize, Ordering};
use vstd::prelude::*;

verus! {

/// Failure of a call made through a `RateLimit`.
#[derive(Debug)]
pub enum RateLimitError<E> {
    /// The call was admitted and the inner service failed with this error.
    ServiceError(E),
    /// The call was refused because the limit of calls in flight was reached.
    RateLimited,
}

/// The in-flight count after an admission attempt at count `current`:
/// one more when it is below `limit`, none when the attempt is refused.
pub open spec fn admitted_count(current: int, limit: int) -> Option<int> {
    if current < limit {
        Some(current + 1)
    } else {
        None
    }
}

/// The atomic update made on each admission attempt.
pub fn admission_step(current: usize, limit: usize) -> (r: Option<usize>)
    ensures
        r matches Some(n) ==> admitted_count(current as int, limit as int) == Some(n as int),
        r is None ==> admitted_count(current as int, limit as int) is None,
{
    if current < limit {
        Some(current + 1)
    } else {
        None
    }
}

/// One update of the in-flight count of a `RateLimit`: an admission attempt
/// (`admission_step`) or the release of an admitted call.
pub enum CountUpdate {
    Acquire,
    Release,
}

/// The in-flight count after `updates` were applied, in order, to a fresh
/// count under `limit`.
pub open spec fn count_after(limit: nat, updates: Seq<CountUpdate>) -> int
    decreases updates.len(),
{
    if updates.len() == 0 {
        0
    } else {
        let c = count_after(limit, updates.drop_last());
        match updates.last() {
            CountUpdate::Acquire => match admitted_count(c, limit as int) {
                Some(n) => n,
                None => c,
            },
            CountUpdate::Release => c - 1,
        }
    }
}

/// How many of the admission attempts in `updates` were admitted.
pub open spec fn admissions(limit: nat, updates: Seq<CountUpdate>) -> int
    decreases updates.len(),
{
    if updates.len() == 0 {
        0
    } else {
        let earlier = admissions(limit, updates.drop_last());
        match updates.last() {
            CountUpdate::Acquire => if count_after(limit, updates.drop_last()) < limit {
                earlier + 1
            } else {
                earlier
            },
            CountUpdate::Release => earlier,
        }
    }
}

/// How many releases `updates` holds.
pub open spec fn releases(updates: Seq<CountUpdate>) -> int
    decreases updates.len(),
{
    if updates.len() == 0 {
        0
    } else {
        releases(updates.drop_last()) + if updates.last() is Release {
            1int
        } else {
            0int
        }
    }
}

proof fn lemma_count_tracks_calls(limit: nat, updates: Seq<CountUpdate>)
    ensures
        count_after(limit, updates) == admissions(limit, updates) - releases(updates),
        count_after(limit, updates) <= limit,
    decreases updates.len(),
{
    if updates.len() > 0 {
        lemma_count_tracks_calls(limit, updates.drop_last());
    }
}

/// The count never exceeds the limit: whatever the interleaving of any
/// number of callers, as long as each release belongs to an admitted call,
/// at every point the count equals the calls admitted and not yet released,
/// and at most `limit` of them are in flight.
pub proof fn lemma_in_flight_within_limit(limit: nat, updates: Seq<CountUpdate>)
    requires
        forall|i: int|
            0 <= i <= updates.len() ==> releases(#[trigger] updates.take(i)) <= admissions(
                limit,
                updates.take(i),
            ),
    ensures
        forall|i: int|
            0 <= i <= updates.len() ==> {
                &&& 0 <= count_after(limit, #[trigger] updates.take(i)) <= limit
                &&& count_after(limit, updates.take(i)) == admissions(limit, updates.take(i))
                    - releases(updates.take(i))
            },
{
    assert forall|i: int| 0 <= i <= updates.len() implies {
        &&& 0 <= count_after(limit, #[trigger] updates.take(i)) <= limit
        &&& count_after(limit, updates.take(i)) == admissions(limit, updates.take(i)) - releases(
            updates.take(i),
        )
    } by {
        lemma_count_tracks_calls(limit, updates.take(i));
    }
}

/// `n` calls made one after another: each is admitted, then released.
pub open spec fn sequential_calls(n: nat) -> Seq<CountUpdate>
    decreases n,
{
    if n == 0 {
        Seq::empty()
    } else {
        sequential_calls((n - 1) as nat).push(CountUpdate::Acquire).push(CountUpdate::Release)
    }
}

/// Repeated calls leak no slot: under a limit of at least one, every one of
/// `n` calls made one after another is admitted, and the count is back to
/// zero after them.
pub proof fn lemma_sequential_calls_leak_nothing(limit: nat, n: nat)
    requires
        limit >= 1,
    ensures
        admissions(limit, sequential_calls(n)) == n,
        count_after(limit, sequential_calls(n)) == 0,
    decreases n,
{
    if n > 0 {
        let before = sequential_calls((n - 1) as nat);
        let with_acquire = before.push(CountUpdate::Acquire);
        lemma_sequential_calls_leak_nothing(limit, (n - 1) as nat);
        let calls = with_acquire.push(CountUpdate::Release);
        assert(with_acquire.drop_last() == before);
        assert(calls.drop_last() == with_acquire);
        assert(calls == sequential_calls(n));
        assert(count_after(limit, with_acquire) == 1);
        assert(admissions(limit, with_acquire) == n);
    }
}

/// Relies on `AtomicUsize::fetch_update`: the update function is applied
/// atomically to the current value, and the result is `Ok(previous)` when it
/// returned `Some`, `Err(previous)` when it returned `None`.
#[verifier::external_body]
fn fetch_admission(counter: &AtomicUsize, limit: usize) -> (r: Result<usize, usize>)
    ensures
        match r {
            Ok(previous) => previous < limit,
            Err(previous) => previous >= limit,
        },
{
    counter.fetch_update(Ordering::Relaxed, Ordering::Relaxed, |v| admission_step(v, limit))
}

/// A service that admits at most `LIMIT` calls in flight at once and
/// refuses the others at once with `RateLimitError::RateLimited`.
pub struct RateLimit<const LIMIT: usize, R, T> {
    inner: T,
    current: AtomicUsize,
    phantom: PhantomData<R>,
}

impl<const LIMIT: usize, R, T> RateLimit<LIMIT, R, T> {
    /// The inner service, wrapped.
    pub closed spec fn inner_spec(&self) -> T {
        self.inner
    }

    pub fn new(service: T) -> (r: Self)
        ensures
            r.inner_spec() == service,
    {
        RateLimit { inner: service, current: AtomicUsize::new(0), phantom: PhantomData }
    }

    pub fn inner_service(&self) -> (r: &T)
        ensures
            *r == self.inner_spec(),
    {
        &self.inner
    }

    /// The largest number of calls admitted at once.
    pub fn limit(&self) -> (r: usize)
        ensures
            r == LIMIT,
    {
        LIMIT
    }

    /// Attempts to admit one call, in a single atomic update of the count of
    /// calls in flight. `Some(previous)` when admitted, the count then being
    /// one more than `previous`, which was below the limit; `None` when the
    /// count had reached the limit and was left unchanged. With a limit of
    /// zero no call is ever admitted.
    pub fn try_acquire(&self) -> (r: Option<usize>)
        ensures
            r matches Some(previous) ==> previous < LIMIT,
            LIMIT == 0 ==> r is None,
    {
        match fetch_admission(&self.current, LIMIT) {
            Ok(previous) => Some(previous),
            Err(_) => None,
        }
    }

    /// Gives back the slot of an admitted call once it has finished,
    /// whatever its outcome.
    pub fn release(&self) {
        self.current.fetch_sub(1, Ordering::Relaxed);
    }

    /// The result of an admitted call: the inner response, or the inner
    /// error tagged as the service's.
    pub fn admitted_outcome<Resp, E>(outcome: Result<Resp, E>) -> (r: Result<Resp, RateLimitError<E>>)
        ensures
            r == match outcome {
                Ok(v) => Ok(v),
                Err(e) => Err(RateLimitError::ServiceError(e)),
            },
    {
        match outcome {
            Ok(v) => Ok(v),
            Err(e) => Err(RateLimitError::ServiceError(e)),
        }
    }

    /// The result of a refused call.
    pub fn refused<Resp, E>() -> (r: Result<Resp, RateLimitError<E>>)
        ensures
            r == Err::<Resp, RateLimitError<E>>(RateLimitError::RateLimited),
    {
        Err(RateLimitError::RateLimited)
    }
}

} // verus!
