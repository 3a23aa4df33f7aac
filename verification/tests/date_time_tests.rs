use request_pipeline::date_time::{local_to_utc, utc_to_local, Instant, LOCAL_OFFSET_SECONDS};
use request_pipeline::gate::{AppConfig, Rejection, DEFAULT_PORT};

#[test]
fn instants_are_written_eight_hours_east() {
    assert_eq!(LOCAL_OFFSET_SECONDS, 8 * 3600);
    assert_eq!(
        utc_to_local(Instant { seconds: 0, nanos: 0 }),
        Some("1970-01-01T08:00:00+08:00".to_string())
    );
    assert_eq!(
        utc_to_local(Instant { seconds: 1_700_000_000, nanos: 0 }),
        Some("2023-11-15T06:13:20+08:00".to_string())
    );
    assert_eq!(
        utc_to_local(Instant { seconds: 57_600, nanos: 500_000_000 }),
        Some("1970-01-02T00:00:00.500+08:00".to_string())
    );
    assert_eq!(
        utc_to_local(Instant { seconds: -1, nanos: 0 }),
        Some("1970-01-01T07:59:59+08:00".to_string())
    );
}

#[test]
fn instants_out_of_range_have_no_text() {
    assert_eq!(utc_to_local(Instant { seconds: i64::MAX, nanos: 0 }), None);
    assert_eq!(utc_to_local(Instant { seconds: i64::MIN, nanos: 0 }), None);
    assert_eq!(utc_to_local(Instant { seconds: 0, nanos: 2_000_000_000 }), None);
}

#[test]
fn texts_are_read_at_any_offset() {
    let epoch = Some(Instant { seconds: 0, nanos: 0 });
    assert_eq!(local_to_utc("1970-01-01T08:00:00+08:00"), epoch);
    assert_eq!(local_to_utc("1970-01-01T00:00:00Z"), epoch);
    assert_eq!(local_to_utc("1969-12-31T19:00:00-05:00"), epoch);
    assert_eq!(
        local_to_utc("2023-11-15T06:13:20.25+08:00"),
        Some(Instant { seconds: 1_700_000_000, nanos: 250_000_000 })
    );
    assert_eq!(local_to_utc("1970-01-01 08:00:00"), None);
    assert_eq!(local_to_utc("1970-01-01T08:00:00"), None);
    assert_eq!(local_to_utc(""), None);
    assert_eq!(local_to_utc("yesterday"), None);
}

#[test]
fn writing_then_reading_gives_the_instant_back() {
    for seconds in [0i64, 1, -1, 86_399, 1_700_000_000, 253_402_271_999] {
        for nanos in [0u32, 1, 999_999_999] {
            let instant = Instant { seconds, nanos };
            let text = utc_to_local(instant).expect("text");
            assert_eq!(local_to_utc(&text), Some(instant), "{}", text);
        }
    }
}

#[test]
fn config_defaults_the_port() {
    assert_eq!(DEFAULT_PORT, "8080");
    let config = AppConfig::new("s".to_string(), None);
    assert_eq!(config.port, "8080");
    assert_eq!(config.jwt_secret, "s");
    let config = AppConfig::new("s".to_string(), Some("9000".to_string()));
    assert_eq!(config.port, "9000");
}

#[test]
fn rejection_envelope() {
    let envelope = Rejection::TokenExpired.response();
    assert!(!envelope.success);
    assert_eq!(envelope.data, None);
    assert_eq!(envelope.message, Some("invalid or expired token".to_string()));
    let envelope = Rejection::MissingPipelineContext.response();
    assert_eq!(envelope.message, Some("Failed to get app state".to_string()));
}
