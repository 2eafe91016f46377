//! Metric recording decisions: which counters and histograms each request
//! outcome updates.  The process-wide recorder lives outside the library;
//! callers perform one update per returned event.

use vstd::prelude::*;

use crate::api::{AppError, CheckResponse};

verus! {

/// One metric update to record.
pub enum MetricEvent {
    /// A request was served; increments the request counter for `endpoint`.
    RequestServed {
        /// Endpoint label of the counter.
        endpoint: String,
    },
    /// A request was rejected; increments the error counter for `kind`.
    ErrorRejected {
        /// Failure-kind label of the counter.
        kind: String,
    },
    /// A check was served; records its duration in the histogram.
    CheckDuration {
        /// Elapsed processing time in milliseconds.
        ms: u128,
    },
    /// A check was served; increments the findings counter.
    MatchesFound {
        /// Number of findings returned.
        count: usize,
    },
}

/// The failure-kind label of an error.
pub open spec fn spec_error_label(e: AppError) -> Seq<char> {
    match e {
        AppError::PayloadTooLarge => "payload_too_large"@,
        AppError::Unauthorized => "unauthorized"@,
        AppError::RateLimited => "rate_limited"@,
        AppError::InternalError => "internal_error"@,
    }
}

/// The failure-kind label of an error, as recorded on the error counter.
pub fn error_label(e: &AppError) -> (label: String)
    ensures
        label@ == spec_error_label(*e),
{
    match e {
        AppError::PayloadTooLarge => "payload_too_large".to_owned(),
        AppError::Unauthorized => "unauthorized".to_owned(),
        AppError::RateLimited => "rate_limited".to_owned(),
        AppError::InternalError => "internal_error".to_owned(),
    }
}

/// The metric updates a finished check request records: on success, the
/// request counter for the check endpoint, the duration histogram, and the
/// findings counter; on rejection, exactly one error counter labeled with
/// the failure kind.
pub fn check_metric_events(outcome: &Result<CheckResponse, AppError>) -> (evs: Vec<MetricEvent>)
    ensures
        outcome matches Ok(resp) ==> {
            &&& evs@.len() == 3
            &&& evs@[0] matches MetricEvent::RequestServed { endpoint } && endpoint@ == "check"@
            &&& evs@[1] matches MetricEvent::CheckDuration { ms } && ms
                == resp.metrics.processing_time_ms
            &&& evs@[2] matches MetricEvent::MatchesFound { count } && count == resp.matches@.len()
        },
        outcome matches Err(e) ==> {
            &&& evs@.len() == 1
            &&& evs@[0] matches MetricEvent::ErrorRejected { kind } && kind@ == spec_error_label(*e)
        },
{
    let mut evs: Vec<MetricEvent> = Vec::new();
    match outcome {
        Ok(resp) => {
            evs.push(MetricEvent::RequestServed { endpoint: "check".to_owned() });
            evs.push(MetricEvent::CheckDuration { ms: resp.metrics.processing_time_ms });
            evs.push(MetricEvent::MatchesFound { count: resp.matches.len() });
        },
        Err(e) => {
            evs.push(MetricEvent::ErrorRejected { kind: error_label(e) });
        },
    }
    evs
}

/// The metric updates a served health request records.
pub fn health_metric_events() -> (evs: Vec<MetricEvent>)
    ensures
        evs@.len() == 1,
        evs@[0] matches MetricEvent::RequestServed { endpoint } && endpoint@ == "health"@,
{
    let mut evs: Vec<MetricEvent> = Vec::new();
    evs.push(MetricEvent::RequestServed { endpoint: "health".to_owned() });
    evs
}

} // verus!
