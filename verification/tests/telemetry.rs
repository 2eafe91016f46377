use grammar_api::api::{AppError, CheckResponse, Metrics};
use grammar_api::check::build_check_response;
use grammar_api::telemetry::{check_metric_events, error_label, health_metric_events, MetricEvent};

fn ok_response(ms: u128) -> CheckResponse {
    build_check_response("Test text.", &vec![], ms)
}

#[test]
fn served_check_records_three_events() {
    let outcome: Result<CheckResponse, AppError> = Ok(ok_response(12));
    let evs = check_metric_events(&outcome);
    assert_eq!(evs.len(), 3);
    assert!(matches!(&evs[0], MetricEvent::RequestServed { endpoint } if endpoint == "check"));
    assert!(matches!(&evs[1], MetricEvent::CheckDuration { ms } if *ms == 12));
    assert!(matches!(&evs[2], MetricEvent::MatchesFound { count } if *count == 0));
}

#[test]
fn rejected_check_records_one_error_event() {
    let outcome: Result<CheckResponse, AppError> = Err(AppError::PayloadTooLarge);
    let evs = check_metric_events(&outcome);
    assert_eq!(evs.len(), 1);
    assert!(
        matches!(&evs[0], MetricEvent::ErrorRejected { kind } if kind == "payload_too_large")
    );
}

#[test]
fn error_labels_name_each_failure_kind() {
    assert_eq!(error_label(&AppError::PayloadTooLarge), "payload_too_large");
    assert_eq!(error_label(&AppError::Unauthorized), "unauthorized");
    assert_eq!(error_label(&AppError::RateLimited), "rate_limited");
    assert_eq!(error_label(&AppError::InternalError), "internal_error");
}

#[test]
fn health_records_one_request_event() {
    let evs = health_metric_events();
    assert_eq!(evs.len(), 1);
    assert!(matches!(&evs[0], MetricEvent::RequestServed { endpoint } if endpoint == "health"));
}

#[test]
fn metrics_struct_carries_elapsed_time() {
    let m = Metrics { processing_time_ms: 250 };
    assert_eq!(m.processing_time_ms, 250);
}
