use request_pipeline::logger::{Completion, Level, RequestLogger};
use request_pipeline::text::{decimal_text, same_text};

#[test]
fn response_is_logged_at_info() {
    let logger = RequestLogger.new_transform();
    let seen = logger.call("GET", "/albums", 1_000);
    let record = seen.complete(&Completion::Response { status_code: 200 }, Some("u1"), 1_250);
    assert_eq!(record.level(), Level::Info);
    assert_eq!(record.trace(), None);
    let outcome = record.outcome();
    assert_eq!(outcome.method(), "GET");
    assert_eq!(outcome.path(), "/albums");
    assert_eq!(outcome.status_code(), 200);
    assert_eq!(outcome.duration_ms(), 250);
    assert_eq!(outcome.subject(), Some("u1"));
    assert_eq!(outcome.error_detail(), None);
    assert_eq!(record.line(), "GET /albums 200 250ms subject=u1");
}

#[test]
fn failure_is_logged_at_error_with_trace() {
    let logger = RequestLogger.new_transform();
    let seen = logger.call("POST", "/songs", 10);
    let failure = Completion::Failure { detail: "boom".to_string() };
    let record = seen.complete(&failure, None, 17);
    assert_eq!(record.level(), Level::Error);
    assert!(record.trace().is_some());
    assert_eq!(record.outcome().status_code(), 500);
    assert_eq!(record.outcome().duration_ms(), 7);
    assert_eq!(record.outcome().subject(), None);
    assert_eq!(record.outcome().error_detail(), Some("boom"));
    let line = record.line();
    assert!(line.starts_with("POST /songs 500 7ms subject=-, error=boom, stack_trace="));
    assert_eq!(
        line,
        format!("POST /songs 500 7ms subject=-, error=boom, stack_trace={}", record.trace().unwrap())
    );
}

#[test]
fn conclude_keeps_the_given_trace_only_for_a_failure() {
    let logger = RequestLogger.new_transform();
    let failure = Completion::Failure { detail: "d".to_string() };
    let record = logger.call("GET", "/x", 5).conclude(&failure, Some("s"), 9, "T".to_string());
    assert_eq!(record.trace(), Some("T"));
    assert_eq!(record.line(), "GET /x 500 4ms subject=s, error=d, stack_trace=T");
    let ok = Completion::Response { status_code: 404 };
    let record = logger.call("GET", "/x", 5).conclude(&ok, None, 9, "T".to_string());
    assert_eq!(record.trace(), None);
    assert_eq!(record.level(), Level::Info);
    assert_eq!(record.line(), "GET /x 404 4ms subject=-");
}

#[test]
fn client_and_server_error_responses_are_still_responses() {
    let logger = RequestLogger.new_transform();
    for status in [401u16, 404, 500, 503] {
        let record = logger
            .call("GET", "/x", 0)
            .complete(&Completion::Response { status_code: status }, None, 0);
        assert_eq!(record.level(), Level::Info);
        assert_eq!(record.outcome().status_code(), status);
        assert_eq!(record.outcome().duration_ms(), 0);
    }
}

#[test]
fn duration_is_never_negative() {
    let logger = RequestLogger.new_transform();
    let ok = Completion::Response { status_code: 200 };
    assert_eq!(logger.call("GET", "/", 100).complete(&ok, None, 99).outcome().duration_ms(), 0);
    assert_eq!(logger.call("GET", "/", 100).complete(&ok, None, 100).outcome().duration_ms(), 0);
    assert_eq!(
        logger.call("GET", "/", 0).complete(&ok, None, u64::MAX).outcome().duration_ms(),
        u64::MAX
    );
    assert_eq!(
        logger.call("GET", "/", u64::MAX).complete(&ok, None, 0).outcome().duration_ms(),
        0
    );
}

#[test]
fn decimal_text_values() {
    assert_eq!(decimal_text(0), "0");
    assert_eq!(decimal_text(7), "7");
    assert_eq!(decimal_text(10), "10");
    assert_eq!(decimal_text(500), "500");
    assert_eq!(decimal_text(1234567890), "1234567890");
    assert_eq!(decimal_text(u64::MAX), "18446744073709551615");
}

#[test]
fn same_text_values() {
    assert!(same_text("", ""));
    assert!(same_text("POST", "POST"));
    assert!(!same_text("POST", "post"));
    assert!(!same_text("POST", "POST "));
    assert!(same_text("ünï", "ünï"));
}
