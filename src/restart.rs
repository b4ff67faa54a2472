//! Replacing a failed service instance with a fresh one from a generator.
//!
//! A call through a restarting service first goes to the current instance.
//! If that fails, the generator is asked once for a new instance; when it
//! gives one, the new instance takes the old one's place and the request is
//! sent to it once more, and that second outcome is final. When the
//! generator fails, the old instance stays in place and the call fails with
//! both errors. The whole sequence runs under exclusive access to the
//! instance, which is the caller's to provide.
use vstd::prelude::*;

verus! {

/// Failure of a call made through a restarting service.
#[derive(Debug, PartialEq)]
pub enum RestartError<SE, GE> {
    /// The instance failed, on the only attempt or on the retry after a
    /// successful restart, with this error.
    ServiceError(SE),
    /// The instance failed with the second error and the generator then
    /// failed to make a new one with the first.
    RestartingFailed(GE, SE),
}

/// Where one call through a restarting service stands.
#[derive(Debug, PartialEq)]
pub enum RestartPhase<SE> {
    /// Waiting for the current instance to answer the request.
    Serving,
    /// The current instance failed with this error; waiting for the
    /// generator.
    Regenerating(SE),
    /// A new instance is in place; waiting for its answer to the request.
    Retrying,
    /// The call has its result.
    Finished,
}

/// What the caller observed after the last action.
#[derive(Debug, PartialEq)]
pub enum RestartEvent<SResp, SE, S, GE> {
    /// The instance in place answered the request.
    Served(Result<SResp, SE>),
    /// The generator answered.
    Generated(Result<S, GE>),
}

/// What the caller does next.
#[derive(Debug, PartialEq)]
pub enum RestartAction<SResp, SE, S, GE> {
    /// Ask the generator for a new instance.
    Regenerate,
    /// Put this instance in place of the failed one and send it the request.
    Replace(S),
    /// The call ends with this result.
    Finish(Result<SResp, RestartError<SE, GE>>),
}

/// Whether a call in `phase` is waiting for `event`: an answer of the
/// instance while serving or retrying, of the generator while regenerating.
pub open spec fn awaits<SResp, SE, S, GE>(
    phase: RestartPhase<SE>,
    event: RestartEvent<SResp, SE, S, GE>,
) -> bool {
    match phase {
        RestartPhase::Serving => event is Served,
        RestartPhase::Regenerating(_) => event is Generated,
        RestartPhase::Retrying => event is Served,
        RestartPhase::Finished => false,
    }
}

/// The next phase and action of a call in `phase` that observes `event`.
pub open spec fn restart_transition<SResp, SE, S, GE>(
    phase: RestartPhase<SE>,
    event: RestartEvent<SResp, SE, S, GE>,
) -> (RestartPhase<SE>, RestartAction<SResp, SE, S, GE>) {
    match (phase, event) {
        (RestartPhase::Serving, RestartEvent::Served(Ok(v))) => (
            RestartPhase::Finished,
            RestartAction::Finish(Ok(v)),
        ),
        (RestartPhase::Serving, RestartEvent::Served(Err(e))) => (
            RestartPhase::Regenerating(e),
            RestartAction::Regenerate,
        ),
        (RestartPhase::Regenerating(failure), RestartEvent::Generated(Ok(s))) => (
            RestartPhase::Retrying,
            RestartAction::Replace(s),
        ),
        (RestartPhase::Regenerating(failure), RestartEvent::Generated(Err(g))) => (
            RestartPhase::Finished,
            RestartAction::Finish(Err(RestartError::RestartingFailed(g, failure))),
        ),
        (RestartPhase::Retrying, RestartEvent::Served(Ok(v))) => (
            RestartPhase::Finished,
            RestartAction::Finish(Ok(v)),
        ),
        (RestartPhase::Retrying, RestartEvent::Served(Err(e))) => (
            RestartPhase::Finished,
            RestartAction::Finish(Err(RestartError::ServiceError(e))),
        ),
        (p, _) => (p, RestartAction::Regenerate),
    }
}

impl<SE> RestartPhase<SE> {
    /// The phase in which every call starts.
    pub fn start() -> (r: Self)
        ensures
            r == RestartPhase::<SE>::Serving,
    {
        RestartPhase::Serving
    }

    /// Whether the call has its result.
    pub fn is_finished(&self) -> (r: bool)
        ensures
            r == (*self is Finished),
    {
        match self {
            RestartPhase::Finished => true,
            _ => false,
        }
    }

    /// Whether the call waits for `event` now.
    pub fn expects<SResp, S, GE>(&self, event: &RestartEvent<SResp, SE, S, GE>) -> (r: bool)
        ensures
            r == awaits(*self, *event),
    {
        match (self, event) {
            (RestartPhase::Serving, RestartEvent::Served(_)) => true,
            (RestartPhase::Regenerating(_), RestartEvent::Generated(_)) => true,
            (RestartPhase::Retrying, RestartEvent::Served(_)) => true,
            _ => false,
        }
    }

    /// Moves a call on by one event.
    ///
    /// A first success is the call's result. A first failure asks for one
    /// regeneration. A new instance replaces the failed one and gets the
    /// request once more; a failed regeneration ends the call with
    /// `RestartingFailed`, carrying both errors. The answer of the new
    /// instance is final, its error tagged as the service's: no second
    /// regeneration is ever asked for.
    pub fn step<SResp, S, GE>(self, event: RestartEvent<SResp, SE, S, GE>) -> (r: (
        RestartPhase<SE>,
        RestartAction<SResp, SE, S, GE>,
    ))
        requires
            awaits(self, event),
        ensures
            r == restart_transition(self, event),
    {
        match (self, event) {
            (RestartPhase::Serving, RestartEvent::Served(Ok(v))) => (
                RestartPhase::Finished,
                RestartAction::Finish(Ok(v)),
            ),
            (RestartPhase::Serving, RestartEvent::Served(Err(e))) => (
                RestartPhase::Regenerating(e),
                RestartAction::Regenerate,
            ),
            (RestartPhase::Regenerating(failure), RestartEvent::Generated(Ok(s))) => (
                RestartPhase::Retrying,
                RestartAction::Replace(s),
            ),
            (RestartPhase::Regenerating(failure), RestartEvent::Generated(Err(g))) => (
                RestartPhase::Finished,
                RestartAction::Finish(Err(RestartError::RestartingFailed(g, failure))),
            ),
            (RestartPhase::Retrying, RestartEvent::Served(Ok(v))) => (
                RestartPhase::Finished,
                RestartAction::Finish(Ok(v)),
            ),
            (RestartPhase::Retrying, RestartEvent::Served(Err(e))) => (
                RestartPhase::Finished,
                RestartAction::Finish(Err(RestartError::ServiceError(e))),
            ),
            (p, _) => (p, RestartAction::Regenerate),
        }
    }
}

/// The actions a call in `phase` takes on `events`, up to the first event
/// it does not wait for.
pub open spec fn restart_actions<SResp, SE, S, GE>(
    phase: RestartPhase<SE>,
    events: Seq<RestartEvent<SResp, SE, S, GE>>,
) -> Seq<RestartAction<SResp, SE, S, GE>>
    decreases events.len(),
{
    if events.len() == 0 || !awaits(phase, events[0]) {
        Seq::empty()
    } else {
        let (next, action) = restart_transition(phase, events[0]);
        seq![action] + restart_actions(next, events.drop_first())
    }
}

/// One restart at most, and only after a failure: whatever a call observes,
/// it takes at most three actions and stops at the first `Finish`; it asks
/// for a regeneration only as its first action, after the instance failed;
/// and it replaces the instance only as its second action, with the
/// instance that the generator gave.
pub proof fn lemma_single_restart<SResp, SE, S, GE>(events: Seq<RestartEvent<SResp, SE, S, GE>>)
    ensures
        ({
            let actions = restart_actions(RestartPhase::Serving, events);
            &&& actions.len() <= 3
            &&& forall|i: int|
                0 <= i < actions.len() - 1 ==> !(#[trigger] actions[i] is Finish)
            &&& forall|i: int|
                0 <= i < actions.len() && #[trigger] actions[i] is Regenerate ==> i == 0
                    && events[0] is Served && events[0]->Served_0 is Err
            &&& forall|i: int|
                0 <= i < actions.len() && #[trigger] actions[i] is Replace ==> i == 1
                    && events[1] == RestartEvent::<SResp, SE, S, GE>::Generated(
                    Ok(actions[i]->Replace_0),
                )
        }),
{
    let actions = restart_actions(RestartPhase::Serving, events);
    if events.len() > 0 && awaits(RestartPhase::<SE>::Serving, events[0]) {
        let (p1, a1) = restart_transition(RestartPhase::Serving, events[0]);
        let rest1 = events.drop_first();
        assert(actions == seq![a1] + restart_actions(p1, rest1));
        if rest1.len() > 0 && awaits(p1, rest1[0]) {
            let (p2, a2) = restart_transition(p1, rest1[0]);
            let rest2 = rest1.drop_first();
            assert(p1 is Regenerating);
            assert(restart_actions(p1, rest1) == seq![a2] + restart_actions(p2, rest2));
            if rest2.len() > 0 && awaits(p2, rest2[0]) {
                let (p3, a3) = restart_transition(p2, rest2[0]);
                let rest3 = rest2.drop_first();
                assert(p2 is Retrying);
                assert(p3 is Finished);
                assert(restart_actions(p2, rest2) == seq![a3] + restart_actions(p3, rest3));
                assert(restart_actions(p3, rest3) == Seq::<RestartAction<SResp, SE, S, GE>>::empty());
            }
        }
    }
}

} // verus!
