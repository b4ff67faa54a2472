//! A deadline around each call of the inner service.
use core::marker::PhantomData;
use core::time::Duration;
use tokio::time::error::Elapsed;
use vstd::prelude::*;

verus! {

/// The error of a call made through tokio's `timeout`: the deadline passed
/// before the inner future finished.
#[verifier::external_type_specification]
#[verifier::external_body]
pub struct ExElapsed(Elapsed);

/// Failure of a call made under a deadline.
#[derive(Debug, PartialEq)]
pub enum TimeoutError<E> {
    /// The inner service answered in time, with this error.
    ServiceError(E),
    /// The deadline passed before the inner service answered.
    TimeoutError,
}

/// What a call under a deadline returns, given what the race between the
/// inner call and the timer produced (`Err` when the timer won).
pub open spec fn timed_outcome<Resp, E>(raced: Result<Result<Resp, E>, Elapsed>) -> Result<
    Resp,
    TimeoutError<E>,
> {
    match raced {
        Ok(Ok(v)) => Ok(v),
        Ok(Err(e)) => Err(TimeoutError::ServiceError(e)),
        Err(_) => Err(TimeoutError::TimeoutError),
    }
}

/// A service whose calls fail with `TimeoutError::TimeoutError` when the
/// inner service takes longer than a fixed duration.
pub struct Timeout<R, T> {
    inner: T,
    timeout_duration: Duration,
    phantom: PhantomData<R>,
}

impl<R, T> Timeout<R, T> {
    /// The inner service, wrapped.
    pub closed spec fn inner_spec(&self) -> T {
        self.inner
    }

    /// The deadline of each call.
    pub closed spec fn duration_spec(&self) -> Duration {
        self.timeout_duration
    }

    pub fn new(service: T, timeout_duration: Duration) -> (r: Self)
        ensures
            r.inner_spec() == service,
            r.duration_spec() == timeout_duration,
    {
        Timeout { inner: service, timeout_duration, phantom: PhantomData }
    }

    pub fn inner_service(&self) -> (r: &T)
        ensures
            *r == self.inner_spec(),
    {
        &self.inner
    }

    pub fn duration(&self) -> (r: Duration)
        ensures
            r == self.duration_spec(),
    {
        self.timeout_duration
    }

    /// Turns the result of racing the inner call against the deadline into
    /// the call's result: the inner result when it came first, with its
    /// error tagged as the service's, and `TimeoutError` when the timer won,
    /// whatever the inner call would have returned.
    pub fn settle<Resp, E>(raced: Result<Result<Resp, E>, Elapsed>) -> (r: Result<
        Resp,
        TimeoutError<E>,
    >)
        ensures
            r == timed_outcome(raced),
    {
        match raced {
            Ok(Ok(v)) => Ok(v),
            Ok(Err(e)) => Err(TimeoutError::ServiceError(e)),
            Err(_) => Err(TimeoutError::TimeoutError),
        }
    }
}

} // verus!
