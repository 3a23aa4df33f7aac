//! The request logger: the outermost stage, which observes every request
//! that settles and describes it in one record.

use crate::text::{decimal, decimal_text, opt_str, opt_text};
use backtrace::Backtrace;
use vstd::prelude::*;

verus! {

/// Severity of a log record.
#[derive(Debug, Clone, Copy, PartialEq, Eq, Structural)]
pub enum Level {
    Info,
    Error,
}

/// How the wrapped stages settled.
#[derive(Debug, Clone, PartialEq, Eq)]
pub enum Completion {
    /// A response was produced, whatever its status.
    Response { status_code: u16 },
    /// An error was propagated instead of a response.
    Failure { detail: String },
}

/// Mathematical value of [`Completion`].
pub enum CompletionView {
    Response { status_code: u16 },
    Failure { detail: Seq<char> },
}

impl View for Completion {
    type V = CompletionView;

    open spec fn view(&self) -> CompletionView {
        match *self {
            Completion::Response { status_code } => CompletionView::Response { status_code },
            Completion::Failure { detail } => CompletionView::Failure { detail: detail@ },
        }
    }
}

/// What is known of a request when it has settled. A value is built once,
/// by the logger, and offers no way to change it.
#[derive(Debug, Clone, PartialEq, Eq)]
pub struct RequestOutcome {
    method: String,
    path: String,
    status_code: u16,
    duration_ms: u64,
    subject: Option<String>,
    error_detail: Option<String>,
}

/// Mathematical value of [`RequestOutcome`].
pub struct OutcomeView {
    pub method: Seq<char>,
    pub path: Seq<char>,
    pub status_code: u16,
    pub duration_ms: u64,
    pub subject: Option<Seq<char>>,
    pub error_detail: Option<Seq<char>>,
}

impl View for RequestOutcome {
    type V = OutcomeView;

    closed spec fn view(&self) -> OutcomeView {
        OutcomeView {
            method: self.method@,
            path: self.path@,
            status_code: self.status_code,
            duration_ms: self.duration_ms,
            subject: opt_text(self.subject),
            error_detail: opt_text(self.error_detail),
        }
    }
}

/// One log record: the outcome, its severity, and on failure a diagnostic
/// trace.
#[derive(Debug, Clone, PartialEq, Eq)]
pub struct LogRecord {
    outcome: RequestOutcome,
    level: Level,
    trace: Option<String>,
}

/// Mathematical value of [`LogRecord`].
pub struct RecordView {
    pub outcome: OutcomeView,
    pub level: Level,
    pub trace: Option<Seq<char>>,
}

impl View for LogRecord {
    type V = RecordView;

    closed spec fn view(&self) -> RecordView {
        RecordView { outcome: self.outcome@, level: self.level, trace: opt_text(self.trace) }
    }
}

/// What the logger keeps of a request between its entry and its exit.
#[derive(Debug, PartialEq, Eq)]
pub struct Observation {
    method: String,
    path: String,
    started_ms: u64,
}

/// Mathematical value of [`Observation`].
pub struct ObservationView {
    pub method: Seq<char>,
    pub path: Seq<char>,
    pub started_ms: u64,
}

impl View for Observation {
    type V = ObservationView;

    closed spec fn view(&self) -> ObservationView {
        ObservationView { method: self.method@, path: self.path@, started_ms: self.started_ms }
    }
}

/// The time between two readings of a monotonic clock, in milliseconds;
/// zero should the second reading lie before the first.
pub open spec fn elapsed_ms(started_ms: u64, now_ms: u64) -> u64 {
    if now_ms >= started_ms {
        (now_ms - started_ms) as u64
    } else {
        0
    }
}

/// The status a request is recorded with: that of the response, or 500
/// when an error was propagated.
pub open spec fn recorded_status(completion: CompletionView) -> u16 {
    match completion {
        CompletionView::Response { status_code } => status_code,
        CompletionView::Failure { .. } => 500,
    }
}

/// The outcome of a request, from what the logger saw at entry and at exit.
pub open spec fn outcome_of(
    seen: ObservationView,
    completion: CompletionView,
    subject: Option<Seq<char>>,
    now_ms: u64,
) -> OutcomeView {
    OutcomeView {
        method: seen.method,
        path: seen.path,
        status_code: recorded_status(completion),
        duration_ms: elapsed_ms(seen.started_ms, now_ms),
        subject,
        error_detail: match completion {
            CompletionView::Response { .. } => None,
            CompletionView::Failure { detail } => Some(detail),
        },
    }
}

/// The severity a completion is logged at.
pub open spec fn level_of(completion: CompletionView) -> Level {
    match completion {
        CompletionView::Response { .. } => Level::Info,
        CompletionView::Failure { .. } => Level::Error,
    }
}

/// The record of a request: its outcome, at `Info` for a response and at
/// `Error` for a failure, with the trace that was captured for a failure
/// and none for a response.
pub open spec fn record_of(
    seen: ObservationView,
    completion: CompletionView,
    subject: Option<Seq<char>>,
    now_ms: u64,
    trace: Seq<char>,
) -> RecordView {
    RecordView {
        outcome: outcome_of(seen, completion, subject, now_ms),
        level: level_of(completion),
        trace: match completion {
            CompletionView::Response { .. } => None,
            CompletionView::Failure { .. } => Some(trace),
        },
    }
}

/// Captures the call stack of the current thread with
/// `backtrace::Backtrace::new` and renders it with its `Debug` form.
/// Nothing is claimed of the text: it depends on the machine and the build.
#[verifier::external_body]
fn capture_trace() -> String {
    format!("{:?}", Backtrace::new())
}

fn own_text(s: Option<&str>) -> (r: Option<String>)
    ensures
        opt_text(r) == opt_str(s),
{
    match s {
        Some(t) => Some(t.to_owned()),
        None => None,
    }
}

/// Builds the logger stage.
#[derive(Debug, Clone, Copy, PartialEq, Eq, Structural)]
pub struct RequestLogger;

/// The logger stage.
#[derive(Debug, Clone, Copy, PartialEq, Eq, Structural)]
pub struct RequestLoggerService;

impl RequestLogger {
    /// The stage this factory stands for.
    pub fn new_transform(&self) -> (service: RequestLoggerService)
        ensures
            service == RequestLoggerService,
    {
        RequestLoggerService
    }
}

impl RequestLoggerService {
    /// Entry of a request: notes its method, its path and the reading of
    /// the monotonic clock, in milliseconds, at which it came in.
    pub fn call(&self, method: &str, path: &str, started_ms: u64) -> (seen: Observation)
        ensures
            seen@ == (ObservationView { method: method@, path: path@, started_ms }),
    {
        Observation { method: method.to_owned(), path: path.to_owned(), started_ms }
    }
}

impl Observation {
    /// A second note of the same entry, for a holder that hands out one
    /// record at most.
    pub(crate) fn duplicate(&self) -> (copy: Observation)
        ensures
            copy@ == self@,
    {
        Observation {
            method: self.method.clone(),
            path: self.path.clone(),
            started_ms: self.started_ms,
        }
    }

    /// Exit of a request, with the trace given by the caller: builds the
    /// one record of the request. `subject` is the identity the auth gate
    /// attached, if it did; `trace` is kept only for a failure.
    pub fn conclude(
        self,
        completion: &Completion,
        subject: Option<&str>,
        now_ms: u64,
        trace: String,
    ) -> (record: LogRecord)
        ensures
            record@ == record_of(self@, completion@, opt_str(subject), now_ms, trace@),
    {
        let duration_ms: u64 = if now_ms >= self.started_ms {
            now_ms - self.started_ms
        } else {
            0
        };
        let subject = own_text(subject);
        match completion {
            Completion::Response { status_code } => LogRecord {
                outcome: RequestOutcome {
                    method: self.method,
                    path: self.path,
                    status_code: *status_code,
                    duration_ms,
                    subject,
                    error_detail: None,
                },
                level: Level::Info,
                trace: None,
            },
            Completion::Failure { detail } => LogRecord {
                outcome: RequestOutcome {
                    method: self.method,
                    path: self.path,
                    status_code: 500,
                    duration_ms,
                    subject,
                    error_detail: Some(detail.clone()),
                },
                level: Level::Error,
                trace: Some(trace),
            },
        }
    }

    /// Exit of a request: builds its one record, capturing a diagnostic
    /// trace of the current thread when the request failed. The record is
    /// that of [`Observation::conclude`] for whatever trace was captured.
    pub fn complete(self, completion: &Completion, subject: Option<&str>, now_ms: u64) -> (record:
        LogRecord)
        ensures
            exists|trace: Seq<char>|
                record@ == record_of(self@, completion@, opt_str(subject), now_ms, trace),
    {
        let trace = match completion {
            Completion::Failure { .. } => capture_trace(),
            Completion::Response { .. } => String::new(),
        };
        let ghost seen = self@;
        let record = self.conclude(completion, subject, now_ms, trace);
        assert(record@ == record_of(seen, completion@, opt_str(subject), now_ms, trace@));
        record
    }
}

/// The text a line shows for the subject: the subject, or a dash.
pub open spec fn subject_text(subject: Option<Seq<char>>) -> Seq<char> {
    match subject {
        Some(subject) => subject,
        None => "-"@,
    }
}

/// What a line holds of a failure: the error and the trace, as far as the
/// record has them.
pub open spec fn failure_text(detail: Option<Seq<char>>, trace: Option<Seq<char>>) -> Seq<char> {
    (match detail {
        Some(detail) => ", error="@ + detail,
        None => Seq::<char>::empty(),
    }) + (match trace {
        Some(trace) => ", stack_trace="@ + trace,
        None => Seq::<char>::empty(),
    })
}

/// The line a record is logged as: method, path, status and duration,
/// the subject or a dash, and for a failure the error and the trace.
pub open spec fn line_of(record: RecordView) -> Seq<char> {
    record.outcome.method + " "@ + record.outcome.path + " "@ + decimal(
        record.outcome.status_code as nat,
    ) + " "@ + decimal(record.outcome.duration_ms as nat) + "ms subject="@ + subject_text(
        record.outcome.subject,
    ) + failure_text(record.outcome.error_detail, record.trace)
}

fn borrow_text(s: &Option<String>) -> (r: Option<&str>)
    ensures
        opt_str(r) == opt_text(*s),
{
    match s {
        Some(t) => Some(t.as_str()),
        None => None,
    }
}

impl RequestOutcome {
    /// The request method.
    pub fn method(&self) -> (r: &str)
        ensures
            r@ == self@.method,
    {
        self.method.as_str()
    }

    /// The request path.
    pub fn path(&self) -> (r: &str)
        ensures
            r@ == self@.path,
    {
        self.path.as_str()
    }

    /// The status of the response, or 500 for a failure.
    pub fn status_code(&self) -> (r: u16)
        ensures
            r == self@.status_code,
    {
        self.status_code
    }

    /// The time the request took, in milliseconds.
    pub fn duration_ms(&self) -> (r: u64)
        ensures
            r == self@.duration_ms,
    {
        self.duration_ms
    }

    /// The authenticated subject, if the request had one.
    pub fn subject(&self) -> (r: Option<&str>)
        ensures
            opt_str(r) == self@.subject,
    {
        borrow_text(&self.subject)
    }

    /// What went wrong, for a failure.
    pub fn error_detail(&self) -> (r: Option<&str>)
        ensures
            opt_str(r) == self@.error_detail,
    {
        borrow_text(&self.error_detail)
    }
}

impl LogRecord {
    /// The outcome the record describes.
    pub fn outcome(&self) -> (r: &RequestOutcome)
        ensures
            r@ == self@.outcome,
    {
        &self.outcome
    }

    /// The severity to log the record at.
    pub fn level(&self) -> (r: Level)
        ensures
            r == self@.level,
    {
        self.level
    }

    /// The diagnostic trace, for a failure.
    pub fn trace(&self) -> (r: Option<&str>)
        ensures
            opt_str(r) == self@.trace,
    {
        borrow_text(&self.trace)
    }

    /// Renders the record as one line.
    pub fn line(&self) -> (text: String)
        ensures
            text@ == line_of(self@),
    {
        let mut text = String::from_str(self.outcome.method.as_str());
        text.append(" ");
        text.append(self.outcome.path.as_str());
        text.append(" ");
        text.append(decimal_text(self.outcome.status_code as u64).as_str());
        text.append(" ");
        text.append(decimal_text(self.outcome.duration_ms).as_str());
        text.append("ms subject=");
        match &self.outcome.subject {
            Some(subject) => text.append(subject.as_str()),
            None => text.append("-"),
        }
        match &self.outcome.error_detail {
            Some(detail) => {
                text.append(", error=");
                text.append(detail.as_str());
            },
            None => {},
        }
        match &self.trace {
            Some(trace) => {
                text.append(", stack_trace=");
                text.append(trace.as_str());
            },
            None => {},
        }
        assert(text@ =~= line_of(self@));
        text
    }
}

} // verus!
