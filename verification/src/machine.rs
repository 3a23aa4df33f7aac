//! The life of one request, collapsed across the stages, as a state
//! machine, and what holds of every run of it.

use vstd::prelude::*;

verus! {

/// The two kinds of route: those anyone may call, and those behind the auth gate.
#[derive(Debug, Clone, Copy, PartialEq, Eq, Structural)]
pub enum RouteGroup {
    Public,
    Protected,
}

/// Where a request stands.
#[derive(Debug, Clone, Copy, PartialEq, Eq, Structural)]
pub enum Phase {
    Received,
    Authenticating,
    Rejected,
    Authenticated,
    Handling,
    Completed,
    Faulted,
    Logged,
}

/// What can happen to a request.
#[derive(Debug, Clone, Copy, PartialEq, Eq, Structural)]
pub enum Event {
    /// The logger let the request into the chain of its route group.
    Admitted(RouteGroup),
    /// The auth gate refused the request.
    TokenRejected,
    /// The auth gate accepted the request's token.
    TokenAccepted,
    /// The auth gate handed the request on to the handler.
    Forwarded,
    /// The handler produced a response.
    HandlerReturned,
    /// The handler propagated an error.
    HandlerFailed,
    /// The logger saw the request settle.
    Observed,
}

/// The phase after `event` in `phase`. An event that has no place in a
/// phase leaves it as it is.
pub open spec fn step(phase: Phase, event: Event) -> Phase {
    match (phase, event) {
        (Phase::Received, Event::Admitted(RouteGroup::Protected)) => Phase::Authenticating,
        (Phase::Received, Event::Admitted(RouteGroup::Public)) => Phase::Handling,
        (Phase::Authenticating, Event::TokenRejected) => Phase::Rejected,
        (Phase::Authenticating, Event::TokenAccepted) => Phase::Authenticated,
        (Phase::Authenticated, Event::Forwarded) => Phase::Handling,
        (Phase::Handling, Event::HandlerReturned) => Phase::Completed,
        (Phase::Handling, Event::HandlerFailed) => Phase::Faulted,
        (Phase::Rejected, Event::Observed) => Phase::Logged,
        (Phase::Completed, Event::Observed) => Phase::Logged,
        (Phase::Faulted, Event::Observed) => Phase::Logged,
        _ => phase,
    }
}

/// Whether a request has settled: a response or an error is on its way
/// back, and the logger has not seen it yet.
pub open spec fn settled(phase: Phase) -> bool {
    phase == Phase::Rejected || phase == Phase::Completed || phase == Phase::Faulted
}

/// Whether `event` in `phase` makes the logger emit a record.
pub open spec fn emits(phase: Phase, event: Event) -> bool {
    event == Event::Observed && settled(phase)
}

/// Whether `event` in `phase` makes the handler run.
pub open spec fn invokes_handler(phase: Phase, event: Event) -> bool {
    phase != Phase::Handling && step(phase, event) == Phase::Handling
}

/// The phase after a sequence of events.
pub open spec fn run(phase: Phase, events: Seq<Event>) -> Phase
    decreases events.len(),
{
    if events.len() == 0 {
        phase
    } else {
        run(step(phase, events[0]), events.drop_first())
    }
}

/// The number of records emitted along a sequence of events.
pub open spec fn records(phase: Phase, events: Seq<Event>) -> nat
    decreases events.len(),
{
    if events.len() == 0 {
        0
    } else {
        (if emits(phase, events[0]) {
            1nat
        } else {
            0nat
        }) + records(step(phase, events[0]), events.drop_first())
    }
}

/// The number of times the handler runs along a sequence of events.
pub open spec fn invocations(phase: Phase, events: Seq<Event>) -> nat
    decreases events.len(),
{
    if events.len() == 0 {
        0
    } else {
        (if invokes_handler(phase, events[0]) {
            1nat
        } else {
            0nat
        }) + invocations(step(phase, events[0]), events.drop_first())
    }
}

/// Whether `event` in `phase` is the auth gate's refusal.
pub open spec fn rejects(phase: Phase, event: Event) -> bool {
    phase != Phase::Rejected && step(phase, event) == Phase::Rejected
}

/// The number of times a request is rejected along a sequence of events.
pub open spec fn rejections(phase: Phase, events: Seq<Event>) -> nat
    decreases events.len(),
{
    if events.len() == 0 {
        0
    } else {
        (if rejects(phase, events[0]) {
            1nat
        } else {
            0nat
        }) + rejections(step(phase, events[0]), events.drop_first())
    }
}

/// How far a phase is from the end of a request's life: no event ever
/// raises it.
pub open spec fn rank(phase: Phase) -> nat {
    match phase {
        Phase::Received => 5,
        Phase::Authenticating => 4,
        Phase::Authenticated => 3,
        Phase::Handling => 2,
        Phase::Rejected => 1,
        Phase::Completed => 1,
        Phase::Faulted => 1,
        Phase::Logged => 0,
    }
}

impl Phase {
    /// The phase after `event`.
    pub fn after(self, event: Event) -> (next: Phase)
        ensures
            next == step(self, event),
    {
        match (self, event) {
            (Phase::Received, Event::Admitted(RouteGroup::Protected)) => Phase::Authenticating,
            (Phase::Received, Event::Admitted(RouteGroup::Public)) => Phase::Handling,
            (Phase::Authenticating, Event::TokenRejected) => Phase::Rejected,
            (Phase::Authenticating, Event::TokenAccepted) => Phase::Authenticated,
            (Phase::Authenticated, Event::Forwarded) => Phase::Handling,
            (Phase::Handling, Event::HandlerReturned) => Phase::Completed,
            (Phase::Handling, Event::HandlerFailed) => Phase::Faulted,
            (Phase::Rejected, Event::Observed) => Phase::Logged,
            (Phase::Completed, Event::Observed) => Phase::Logged,
            (Phase::Faulted, Event::Observed) => Phase::Logged,
            _ => self,
        }
    }

    /// Whether the request has settled and awaits the logger.
    pub fn is_settled(self) -> (b: bool)
        ensures
            b == settled(self),
    {
        match self {
            Phase::Rejected | Phase::Completed | Phase::Faulted => true,
            _ => false,
        }
    }
}

/// From any phase, a sequence of events emits one record if it leads into
/// `Logged` from elsewhere, and none otherwise.
pub proof fn lemma_records_from(phase: Phase, events: Seq<Event>)
    ensures
        records(phase, events) == (if run(phase, events) == Phase::Logged && phase
            != Phase::Logged {
            1nat
        } else {
            0nat
        }),
        run(phase, events) == Phase::Logged || phase != Phase::Logged,
    decreases events.len(),
{
    if events.len() > 0 {
        lemma_records_from(step(phase, events[0]), events.drop_first());
    }
}

/// For every request, whatever happens to it and in whatever order: exactly
/// one record is emitted if it reaches `Logged`, and none as long as it has
/// not, as when it is abandoned before the handler returns.
pub proof fn lemma_one_record_per_request(events: Seq<Event>)
    ensures
        run(Phase::Received, events) == Phase::Logged ==> records(Phase::Received, events) == 1,
        run(Phase::Received, events) != Phase::Logged ==> records(Phase::Received, events) == 0,
{
    lemma_records_from(Phase::Received, events);
}

/// `Logged` is terminal: nothing moves a request out of it, and nothing
/// more is emitted for it.
pub proof fn lemma_logged_is_terminal(events: Seq<Event>)
    ensures
        run(Phase::Logged, events) == Phase::Logged,
        records(Phase::Logged, events) == 0,
        invocations(Phase::Logged, events) == 0,
    decreases events.len(),
{
    if events.len() > 0 {
        lemma_logged_is_terminal(events.drop_first());
    }
}

/// A request never goes back: the rank of its phase never rises.
pub proof fn lemma_run_never_goes_back(phase: Phase, events: Seq<Event>)
    ensures
        rank(run(phase, events)) <= rank(phase),
    decreases events.len(),
{
    if events.len() > 0 {
        lemma_run_never_goes_back(step(phase, events[0]), events.drop_first());
    }
}

/// From any phase, the handler runs once at most, and not at all once the
/// request is being handled, has settled or was logged.
pub proof fn lemma_invocations_from(phase: Phase, events: Seq<Event>)
    ensures
        invocations(phase, events) <= 1,
        rank(phase) <= 2 ==> invocations(phase, events) == 0,
    decreases events.len(),
{
    if events.len() > 0 {
        lemma_invocations_from(step(phase, events[0]), events.drop_first());
    }
}

/// A rejected request never reaches the handler, whatever follows; it can
/// only be logged.
pub proof fn lemma_rejected_skips_handler(events: Seq<Event>)
    ensures
        invocations(Phase::Rejected, events) == 0,
        run(Phase::Rejected, events) == Phase::Rejected || run(Phase::Rejected, events)
            == Phase::Logged,
{
    lemma_invocations_from(Phase::Rejected, events);
    lemma_run_never_goes_back(Phase::Rejected, events);
    lemma_stays_or_logs(Phase::Rejected, events);
}

/// A settled request stays as it is until it is logged.
pub proof fn lemma_stays_or_logs(phase: Phase, events: Seq<Event>)
    requires
        settled(phase),
    ensures
        run(phase, events) == phase || run(phase, events) == Phase::Logged,
    decreases events.len(),
{
    if events.len() > 0 {
        if step(phase, events[0]) == Phase::Logged {
            lemma_logged_is_terminal(events.drop_first());
        } else {
            lemma_stays_or_logs(phase, events.drop_first());
        }
    }
}

/// Of a request that is logged from `phase` on: it is rejected or handled
/// exactly once if neither has happened yet, and never again otherwise.
pub proof fn lemma_paths_from(phase: Phase, events: Seq<Event>)
    requires
        run(phase, events) == Phase::Logged,
    ensures
        invocations(phase, events) + rejections(phase, events) == (if rank(phase) >= 3 {
            1nat
        } else {
            0nat
        }),
    decreases events.len(),
{
    if events.len() > 0 {
        lemma_paths_from(step(phase, events[0]), events.drop_first());
    }
}

/// A request that is logged was either rejected or handled, never both and
/// never neither: only a rejected request skips the handler.
pub proof fn lemma_logged_after_rejection_or_handling(events: Seq<Event>)
    requires
        run(Phase::Received, events) == Phase::Logged,
    ensures
        invocations(Phase::Received, events) + rejections(Phase::Received, events) == 1,
{
    lemma_paths_from(Phase::Received, events);
}

} // verus!
