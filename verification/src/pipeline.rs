//! The pipeline itself: one request led through the chain of its route
//! group, from its entry to the one record made of it.

use crate::gate::{gate_decision, secret_view, AppState, AuthContext, AuthMiddleware,
    AuthMiddlewareService, Rejection};
use crate::logger::{record_of, Completion, CompletionView, LogRecord, Observation,
    ObservationView, RequestLogger, RequestLoggerService};
use crate::machine::{emits, run, settled, step, Event, Phase, RouteGroup};
use crate::routes::{compose, group_under, stage_order, RouteTable, Stage};
use crate::text::{opt_str, opt_text};
use vstd::prelude::*;

verus! {

/// What the pipeline reads of an inbound request.
#[derive(Debug, Clone, PartialEq, Eq)]
pub struct Request {
    pub method: String,
    pub path: String,
    /// The value of the `Authorization` header, if the request has one.
    pub authorization: Option<String>,
}

/// One request on its way through the pipeline: the only place where the
/// stages keep what they know of it.
#[derive(Debug, PartialEq, Eq)]
pub struct Exchange {
    phase: Phase,
    seen: Observation,
    context: Option<AuthContext>,
    rejection: Option<Rejection>,
    completion: Option<Completion>,
}

/// Mathematical value of [`Exchange`].
pub struct ExchangeView {
    pub phase: Phase,
    /// What the logger noted at entry.
    pub seen: ObservationView,
    /// The subject the auth gate attached.
    pub subject: Option<Seq<char>>,
    /// Why the auth gate ended the request.
    pub rejection: Option<Rejection>,
    /// How the request settled.
    pub completion: Option<CompletionView>,
}

pub open spec fn opt_completion(c: Option<Completion>) -> Option<CompletionView> {
    match c {
        Some(c) => Some(c@),
        None => None,
    }
}

pub open spec fn opt_subject(c: Option<AuthContext>) -> Option<Seq<char>> {
    match c {
        Some(c) => Some(c.subject@),
        None => None,
    }
}

pub open spec fn opt_subject_ref(c: Option<&AuthContext>) -> Option<Seq<char>> {
    match c {
        Some(c) => Some(c.subject@),
        None => None,
    }
}

impl View for Exchange {
    type V = ExchangeView;

    closed spec fn view(&self) -> ExchangeView {
        ExchangeView {
            phase: self.phase,
            seen: self.seen@,
            subject: opt_subject(self.context),
            rejection: self.rejection,
            completion: opt_completion(self.completion),
        }
    }
}

/// The response the logger observes for a rejection.
pub open spec fn rejection_response(rejection: Rejection) -> CompletionView {
    CompletionView::Response { status_code: rejection.spec_status_code() }
}

/// The events of a request's entry: it is admitted to the chain of its
/// group, and on a protected route the auth gate accepts and forwards it, or
/// rejects it.
pub open spec fn entry_events(group: RouteGroup, decision: Result<Seq<char>, Rejection>) -> Seq<
    Event,
> {
    match group {
        RouteGroup::Public => seq![Event::Admitted(group)],
        RouteGroup::Protected => match decision {
            Ok(_) => seq![Event::Admitted(group), Event::TokenAccepted, Event::Forwarded],
            Err(_) => seq![Event::Admitted(group), Event::TokenRejected],
        },
    }
}

/// A request after its entry. On a public route it is handed to the
/// handler without an identity. On a protected route it is handed to the
/// handler with the subject the auth gate let through, or it has settled with
/// the auth gate's rejection and the handler is left out.
pub open spec fn entered(
    group: RouteGroup,
    decision: Result<Seq<char>, Rejection>,
    seen: ObservationView,
) -> ExchangeView {
    match group {
        RouteGroup::Public => ExchangeView {
            phase: Phase::Handling,
            seen,
            subject: None,
            rejection: None,
            completion: None,
        },
        RouteGroup::Protected => match decision {
            Ok(subject) => ExchangeView {
                phase: Phase::Handling,
                seen,
                subject: Some(subject),
                rejection: None,
                completion: None,
            },
            Err(rejection) => ExchangeView {
                phase: Phase::Rejected,
                seen,
                subject: None,
                rejection: Some(rejection),
                completion: Some(rejection_response(rejection)),
            },
        },
    }
}

/// The event that a completion of the handler is.
pub open spec fn completion_event(completion: CompletionView) -> Event {
    match completion {
        CompletionView::Response { .. } => Event::HandlerReturned,
        CompletionView::Failure { .. } => Event::HandlerFailed,
    }
}

/// A request after the handler settled with `completion`: only a request
/// that is being handled takes it.
pub open spec fn after_handler(x: ExchangeView, completion: CompletionView) -> ExchangeView {
    if x.phase == Phase::Handling {
        ExchangeView {
            phase: step(x.phase, completion_event(completion)),
            completion: Some(completion),
            ..x
        }
    } else {
        x
    }
}

/// A request after the logger looked at it: a settled request is logged,
/// any other is left as it is.
pub open spec fn after_observation(x: ExchangeView) -> ExchangeView {
    if settled(x.phase) {
        ExchangeView { phase: Phase::Logged, ..x }
    } else {
        x
    }
}

/// What every exchange that this module hands out satisfies.
pub open spec fn coherent(x: ExchangeView) -> bool {
    &&& x.phase == Phase::Handling || settled(x.phase) || x.phase == Phase::Logged
    &&& (x.rejection is Some) ==> x.subject is None
    &&& x.phase == Phase::Rejected ==> (x.rejection matches Some(r) && x.completion == Some(
        rejection_response(r),
    ))
    &&& x.phase == Phase::Completed ==> (x.completion matches Some(c) && c is Response)
    &&& x.phase == Phase::Faulted ==> (x.completion matches Some(c) && c is Failure)
    &&& x.phase == Phase::Handling ==> x.rejection is None
}

impl Exchange {
    #[verifier::type_invariant]
    spec fn inv(self) -> bool {
        coherent(self@)
    }

    /// Takes in how the handler settled. Returns whether the request was
    /// being handled; if it was not, nothing changes.
    pub fn settle(&mut self, completion: Completion) -> (taken: bool)
        ensures
            final(self)@ == after_handler(old(self)@, completion@),
            final(self)@.phase == step(old(self)@.phase, completion_event(completion@)),
            taken == (old(self)@.phase == Phase::Handling),
            coherent(old(self)@),
            coherent(final(self)@),
    {
        proof {
            use_type_invariant(&*self);
        }
        match self.phase {
            Phase::Handling => {
                let next = match completion {
                    Completion::Response { .. } => Phase::Completed,
                    Completion::Failure { .. } => Phase::Faulted,
                };
                self.completion = Some(completion);
                self.phase = next;
                true
            },
            _ => false,
        }
    }

    /// The identity the auth gate attached, for the handler to read.
    pub fn context(&self) -> (context: Option<&AuthContext>)
        ensures
            opt_subject_ref(context) == self@.subject,
    {
        self.context.as_ref()
    }

    /// Why the auth gate ended the request, if it did.
    pub fn rejection(&self) -> (rejection: Option<Rejection>)
        ensures
            rejection == self@.rejection,
    {
        self.rejection
    }

    /// Where the request stands.
    pub fn phase(&self) -> (phase: Phase)
        ensures
            phase == self@.phase,
    {
        self.phase
    }

    /// The logger's look at the request. A settled request is logged: its
    /// one record is handed out, built from what the logger noted at entry,
    /// the way the request settled (for a rejection, the response with the
    /// rejection's status), the subject the auth gate attached, and the
    /// reading of the monotonic clock now. Any other request is left as it
    /// is and yields nothing: a request that was logged yields no second
    /// record.
    pub fn observe(&mut self, now_ms: u64) -> (record: Option<LogRecord>)
        ensures
            coherent(old(self)@),
            coherent(final(self)@),
            final(self)@ == after_observation(old(self)@),
            final(self)@.phase == step(old(self)@.phase, Event::Observed),
            record is Some <==> emits(old(self)@.phase, Event::Observed),
            record matches Some(r) ==> exists|trace: Seq<char>|
                r@ == record_of(
                    old(self)@.seen,
                    old(self)@.completion->0,
                    old(self)@.subject,
                    now_ms,
                    trace,
                ),
    {
        proof {
            use_type_invariant(&*self);
        }
        if !self.phase.is_settled() {
            return None;
        }
        let record = match &self.completion {
            Some(completion) => {
                let subject: Option<&str> = match &self.context {
                    Some(context) => Some(context.subject.as_str()),
                    None => None,
                };
                self.seen.duplicate().complete(completion, subject, now_ms)
            },
            None => vstd::pervasive::unreached(),
        };
        self.phase = Phase::Logged;
        Some(record)
    }
}

/// The pipeline of the service: the route table, and the chain of each
/// route group, built once and never changed.
#[derive(Debug)]
pub struct Pipeline {
    table: RouteTable,
    public_chain: Vec<Stage>,
    protected_chain: Vec<Stage>,
    logger: RequestLoggerService,
    gate: AuthMiddlewareService,
}

impl Pipeline {
    #[verifier::type_invariant]
    spec fn inv(self) -> bool {
        &&& self.public_chain@ == stage_order(RouteGroup::Public)
        &&& self.protected_chain@ == stage_order(RouteGroup::Protected)
    }

    /// The public routes of this pipeline.
    pub closed spec fn routes(&self) -> Seq<(Seq<char>, Seq<char>)> {
        self.table@
    }

    /// Composes the pipeline for a table of public routes.
    pub fn new(table: RouteTable) -> (pipeline: Pipeline)
        ensures
            pipeline.routes() == table@,
    {
        Pipeline {
            table,
            public_chain: compose(RouteGroup::Public),
            protected_chain: compose(RouteGroup::Protected),
            logger: RequestLogger.new_transform(),
            gate: AuthMiddleware.new_transform(),
        }
    }

    /// The chain of a route group.
    pub fn chain(&self, group: RouteGroup) -> (chain: &Vec<Stage>)
        ensures
            chain@ == stage_order(group),
    {
        proof {
            use_type_invariant(self);
        }
        match group {
            RouteGroup::Public => &self.public_chain,
            RouteGroup::Protected => &self.protected_chain,
        }
    }

    /// Entry of a request: leads it through the chain of its route group
    /// up to the handler.
    ///
    /// The logger notes the method, the path and `started_ms`, a reading
    /// of the monotonic clock in milliseconds. On a protected route the
    /// auth gate then decides on the `Authorization` header, the secret in
    /// `state` and `now`, in UTC seconds since the epoch. The request comes
    /// out being handled, with the identity the auth gate attached if it
    /// passed one, or rejected; the caller runs the handler only in the
    /// first case.
    pub fn enter(
        &self,
        state: Option<&AppState>,
        request: &Request,
        now: i64,
        started_ms: u64,
    ) -> (exchange: Exchange)
        ensures
            exchange@ == entered(
                group_under(self.routes(), request.method@, request.path@),
                gate_decision(secret_view(state), opt_text(request.authorization), now),
                ObservationView { method: request.method@, path: request.path@, started_ms },
            ),
            exchange@.phase == run(
                Phase::Received,
                entry_events(
                    group_under(self.routes(), request.method@, request.path@),
                    gate_decision(secret_view(state), opt_text(request.authorization), now),
                ),
            ),
            coherent(exchange@),
    {
        let method = request.method.as_str();
        let path = request.path.as_str();
        let header: Option<&str> = match &request.authorization {
            Some(h) => Some(h.as_str()),
            None => None,
        };
        let group = self.table.group_of(method, path);
        let chain = self.chain(group);
        let ghost decision = gate_decision(
            secret_view(state),
            opt_text(request.authorization),
            now,
        );
        let ghost noted = ObservationView {
            method: request.method@,
            path: request.path@,
            started_ms,
        };
        let mut phase = Phase::Received;
        let mut seen: Option<Observation> = None;
        let mut context: Option<AuthContext> = None;
        let mut rejection: Option<Rejection> = None;
        let mut i: usize = 0;
        while i < chain.len() && rejection.is_none()
            invariant
                chain@ == stage_order(group),
                i <= chain@.len(),
                noted.method == method@ && noted.path == path@ && noted.started_ms == started_ms,
                decision == gate_decision(secret_view(state), opt_str(header), now),
                i == 0 ==> phase == Phase::Received && seen is None && context is None
                    && rejection is None,
                i >= 1 ==> (seen matches Some(o) && o@ == noted),
                group == RouteGroup::Public && i >= 1 ==> phase == Phase::Handling
                    && context is None && rejection is None,
                group == RouteGroup::Protected && i == 1 ==> phase == Phase::Authenticating
                    && context is None && rejection is None,
                group == RouteGroup::Protected && i >= 2 ==> (match decision {
                    Ok(subject) => phase == Phase::Handling && opt_subject(context) == Some(
                        subject,
                    ) && rejection is None,
                    Err(r) => phase == Phase::Rejected && context is None && rejection == Some(r),
                }),
            decreases chain@.len() - i,
        {
            match chain[i] {
                Stage::Logger => {
                    seen = Some(self.logger.call(method, path, started_ms));
                    phase = phase.after(Event::Admitted(group));
                },
                Stage::AuthGate => match self.gate.call(state, header, now) {
                    Ok(granted) => {
                        context = Some(granted);
                        phase = phase.after(Event::TokenAccepted).after(Event::Forwarded);
                    },
                    Err(refused) => {
                        rejection = Some(refused);
                        phase = phase.after(Event::TokenRejected);
                    },
                },
                Stage::Handler => {},
            }
            i = i + 1;
        }
        proof {
            reveal_with_fuel(run, 4);
            assert(entry_events(group, decision).len() <= 3);
        }
        let completion = match rejection {
            Some(refused) => Some(Completion::Response { status_code: refused.status_code() }),
            None => None,
        };
        match seen {
            Some(seen) => Exchange { phase, seen, context, rejection, completion },
            None => vstd::pervasive::unreached(),
        }
    }
}

/// On a protected route, a request without an `Authorization` header is
/// rejected with status 401 under any configured secret, at any time, and
/// the handler never runs for it, whatever happens afterwards.
pub proof fn lemma_missing_header_is_rejected(
    secret: Seq<char>,
    now: i64,
    seen: ObservationView,
    events: Seq<Event>,
)
    requires
        secret.len() > 0,
    ensures
        gate_decision(Some(secret), None, now) == Err::<Seq<char>, Rejection>(
            Rejection::MissingOrMalformedHeader,
        ),
        Rejection::MissingOrMalformedHeader.spec_status_code() == 401,
        entered(RouteGroup::Protected, gate_decision(Some(secret), None, now), seen).phase
            == Phase::Rejected,
        entered(RouteGroup::Protected, gate_decision(Some(secret), None, now), seen).completion
            == Some(CompletionView::Response { status_code: 401 }),
        crate::machine::invocations(Phase::Rejected, events) == 0,
{
    crate::machine::lemma_rejected_skips_handler(events);
}

/// Whatever the auth gate decides under a configured secret, a rejection
/// is answered with 401.
pub proof fn lemma_rejections_are_unauthorized(
    secret: Seq<char>,
    header: Option<Seq<char>>,
    now: i64,
)
    requires
        secret.len() > 0,
    ensures
        gate_decision(Some(secret), header, now) matches Err(r) ==> r.spec_status_code() == 401,
{
}

/// The phase a request comes out of its entry with is the one the state
/// machine reaches from `Received` on the events of that entry, and the
/// handler is to run exactly when the request was not rejected.
pub proof fn lemma_entry_follows_machine(
    group: RouteGroup,
    decision: Result<Seq<char>, Rejection>,
    seen: ObservationView,
)
    ensures
        entered(group, decision, seen).phase == run(Phase::Received, entry_events(group, decision)),
        coherent(entered(group, decision, seen)),
        entered(group, decision, seen).phase == Phase::Handling <==> !(group
            == RouteGroup::Protected && decision is Err),
        crate::machine::invocations(Phase::Received, entry_events(group, decision)) == (if group
            == RouteGroup::Protected && decision is Err {
            0nat
        } else {
            1nat
        }),
{
    reveal_with_fuel(run, 4);
    reveal_with_fuel(crate::machine::invocations, 4);
    assert(entry_events(group, decision).len() <= 3);
}

/// The record of a request that passed the auth gate names the subject of that
/// request's own token, and nothing of any other request enters it: it is
/// made of what the logger noted of this request, of the way this request
/// settled and of the identity the auth gate read in this request's header.
pub proof fn lemma_record_names_own_subject(
    secret: Seq<char>,
    header: Option<Seq<char>>,
    now: i64,
    seen: ObservationView,
    completion: CompletionView,
    now_ms: u64,
    trace: Seq<char>,
)
    requires
        gate_decision(Some(secret), header, now) is Ok,
    ensures
        ({
            let x = after_handler(
                entered(RouteGroup::Protected, gate_decision(Some(secret), header, now), seen),
                completion,
            );
            let record = record_of(x.seen, x.completion->0, x.subject, now_ms, trace);
            &&& settled(x.phase)
            &&& record.outcome.subject == Some(
                crate::token::decoded_token(
                    crate::gate::bearer_token(header)->0,
                    vstd::utf8::encode_utf8(secret),
                )->Ok_0.sub->0,
            )
            &&& record.outcome.method == seen.method
            &&& record.outcome.path == seen.path
        }),
{
}

/// Requests handled side by side do not mix: for any number of requests
/// with accepted tokens, the record of each names the subject of its own
/// token.
pub proof fn lemma_records_do_not_mix(
    secret: Seq<char>,
    headers: Seq<Option<Seq<char>>>,
    now: i64,
    seen: Seq<ObservationView>,
    completions: Seq<CompletionView>,
    now_ms: Seq<u64>,
    traces: Seq<Seq<char>>,
)
    requires
        seen.len() == headers.len(),
        completions.len() == headers.len(),
        now_ms.len() == headers.len(),
        traces.len() == headers.len(),
        forall|i: int|
            0 <= i < headers.len() ==> gate_decision(Some(secret), headers[i], now) is Ok,
    ensures
        forall|i: int|
            #![trigger headers[i]]
            0 <= i < headers.len() ==> ({
                let x = after_handler(
                    entered(
                        RouteGroup::Protected,
                        gate_decision(Some(secret), headers[i], now),
                        seen[i],
                    ),
                    completions[i],
                );
                record_of(x.seen, x.completion->0, x.subject, now_ms[i], traces[i]).outcome.subject
                    == Some(gate_decision(Some(secret), headers[i], now)->Ok_0)
            }),
{
}

/// Every request that enters and is led to its end is logged exactly once:
/// a rejected request at once, any other once its handler has settled, and
/// none of them a second time.
pub proof fn lemma_every_settled_request_is_logged_once(
    group: RouteGroup,
    decision: Result<Seq<char>, Rejection>,
    seen: ObservationView,
    completion: CompletionView,
)
    ensures
        ({
            let entry = entered(group, decision, seen);
            let settled_request = after_handler(entry, completion);
            let logged = after_observation(settled_request);
            &&& entry.phase == Phase::Rejected || entry.phase == Phase::Handling
            &&& !emits(Phase::Handling, Event::Observed)
            &&& settled(settled_request.phase)
            &&& emits(settled_request.phase, Event::Observed)
            &&& logged.phase == Phase::Logged
            &&& !emits(logged.phase, Event::Observed)
            &&& after_observation(logged) == logged
            &&& after_handler(logged, completion) == logged
            &&& logged.seen == seen
            &&& logged.subject == entry.subject
        }),
{
}

} // verus!
