//! Retrying failed calls a fixed number of times.
use core::marker::PhantomData;
use core::time::Duration;
use vstd::prelude::*;

verus! {

/// What a retried call does after one attempt.
#[derive(Debug, PartialEq)]
pub enum RetryStep<Resp, E> {
    /// The call ends with this result.
    Finish(Result<Resp, E>),
    /// The attempt failed and retries remain: wait for the configured delay,
    /// if any, and attempt again with `retries_left` retries remaining.
    Again { retries_left: usize },
}

/// The step after an attempt that returned `outcome` with `retries_left`
/// retries remaining: a success ends the call, a failure is retried while
/// retries remain and is the call's result once none do.
pub open spec fn retry_step<Resp, E>(retries_left: usize, outcome: Result<Resp, E>) -> RetryStep<
    Resp,
    E,
> {
    match outcome {
        Ok(v) => RetryStep::Finish(Ok(v)),
        Err(e) => if retries_left == 0 {
            RetryStep::Finish(Err(e))
        } else {
            RetryStep::Again { retries_left: (retries_left - 1) as usize }
        },
    }
}

/// A whole retried call, when attempt `i` (counted from zero) returns
/// `attempts(i)` and `made` attempts came before with `retries_left`
/// retries remaining: the call's result and the number of attempts made in
/// all.
pub open spec fn retried_call<Resp, E>(
    retries_left: usize,
    attempts: spec_fn(nat) -> Result<Resp, E>,
    made: nat,
) -> (Result<Resp, E>, nat)
    decreases retries_left,
{
    match retry_step(retries_left, attempts(made)) {
        RetryStep::Finish(r) => (r, made + 1),
        RetryStep::Again { retries_left: left } => if left < retries_left {
            retried_call(left, attempts, made + 1)
        } else {
            (attempts(made), made + 1)
        },
    }
}

/// A service that retries a failed call up to `RETRY_COUNT` times, so that
/// it makes at most `RETRY_COUNT + 1` attempts, optionally waiting a fixed
/// delay between attempts. When every attempt fails, the last error is
/// returned unchanged.
pub struct Retry<const RETRY_COUNT: usize, R, T> {
    inner: T,
    delay: Option<Duration>,
    phantom: PhantomData<R>,
}

impl<const RETRY_COUNT: usize, R, T> Retry<RETRY_COUNT, R, T> {
    /// The inner service, wrapped.
    pub closed spec fn inner_spec(&self) -> T {
        self.inner
    }

    /// The wait between attempts; `None` when attempts follow at once.
    pub closed spec fn delay_spec(&self) -> Option<Duration> {
        self.delay
    }

    /// Retries with no wait between attempts.
    pub fn instant(service: T) -> (r: Retry<RETRY_COUNT, R, T>)
        ensures
            r.inner_spec() == service,
            r.delay_spec() is None,
    {
        Retry { inner: service, delay: None, phantom: PhantomData }
    }

    /// Retries after waiting `duration` each time.
    pub fn with_wait(service: T, duration: Duration) -> (r: Retry<RETRY_COUNT, R, T>)
        ensures
            r.inner_spec() == service,
            r.delay_spec() == Some(duration),
    {
        Retry { inner: service, delay: Some(duration), phantom: PhantomData }
    }

    pub fn inner_service(&self) -> (r: &T)
        ensures
            *r == self.inner_spec(),
    {
        &self.inner
    }

    pub fn delay(&self) -> (r: Option<Duration>)
        ensures
            r == self.delay_spec(),
    {
        self.delay
    }

    /// The retries a fresh call may make.
    pub fn retry_count(&self) -> (r: usize)
        ensures
            r == RETRY_COUNT,
    {
        RETRY_COUNT
    }

    /// Decides what follows an attempt that returned `outcome` while
    /// `retries_left` retries remained.
    pub fn next_step<Resp, E>(retries_left: usize, outcome: Result<Resp, E>) -> (r: RetryStep<
        Resp,
        E,
    >)
        ensures
            r == retry_step(retries_left, outcome),
    {
        match outcome {
            Ok(v) => RetryStep::Finish(Ok(v)),
            Err(e) => if retries_left == 0 {
                RetryStep::Finish(Err(e))
            } else {
                RetryStep::Again { retries_left: retries_left - 1 }
            },
        }
    }
}

proof fn lemma_failures_until<Resp, E>(
    retries_left: usize,
    attempts: spec_fn(nat) -> Result<Resp, E>,
    made: nat,
    k: nat,
)
    requires
        made <= k,
        forall|i: nat| i < k ==> (#[trigger] attempts(i)) is Err,
        attempts(k) is Ok,
    ensures
        k - made <= retries_left ==> {
            &&& retried_call(retries_left, attempts, made).0 == attempts(k)
            &&& retried_call(retries_left, attempts, made).1 == k + 1
        },
        k - made > retries_left ==> {
            &&& retried_call(retries_left, attempts, made).0 == attempts(
                (made + retries_left) as nat,
            )
            &&& retried_call(retries_left, attempts, made).1 == made + retries_left + 1
        },
    decreases retries_left,
{
    if made < k && retries_left > 0 {
        lemma_failures_until((retries_left - 1) as usize, attempts, made + 1, k);
    }
}

/// A call retried up to `retry_count` times through a service that fails
/// its first `k` calls and then succeeds: when `k <= retry_count` the call
/// succeeds with the response of attempt `k`, after exactly `k + 1`
/// attempts; otherwise it returns the error of the last attempt, after
/// exactly `retry_count + 1` attempts.
pub proof fn lemma_retry_outlasts_failures<Resp, E>(
    retry_count: usize,
    attempts: spec_fn(nat) -> Result<Resp, E>,
    k: nat,
)
    requires
        forall|i: nat| i < k ==> (#[trigger] attempts(i)) is Err,
        attempts(k) is Ok,
    ensures
        k <= retry_count ==> {
            &&& retried_call(retry_count, attempts, 0).0 == attempts(k)
            &&& retried_call(retry_count, attempts, 0).0 is Ok
            &&& retried_call(retry_count, attempts, 0).1 == k + 1
        },
        k > retry_count ==> {
            &&& retried_call(retry_count, attempts, 0).0 == attempts(retry_count as nat)
            &&& retried_call(retry_count, attempts, 0).0 is Err
            &&& retried_call(retry_count, attempts, 0).1 == retry_count + 1
        },
{
    lemma_failures_until(retry_count, attempts, 0, k);
}

} // verus!
