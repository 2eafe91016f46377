//! Data model of the checking service: request and response payloads,
//! findings, and the error taxonomy.

use vstd::prelude::*;

verus! {

/// Maximum allowed text size in bytes (100 KiB).
pub const MAX_TEXT_SIZE: usize = 100 * 1024;

/// Request payload for the check endpoint.
#[derive(Debug)]
pub struct CheckRequest {
    /// The text to check for grammar and spelling errors.
    pub text: String,
    /// Language code (default: en-US); informational only.
    pub language: String,
    /// Optional checking options; accepted but not enforced.
    pub options: CheckOptions,
}

/// Default language code of a request that names none.
pub fn default_language() -> (s: String)
    ensures
        s@ == "en-US"@,
{
    "en-US".to_owned()
}

/// Options for controlling what checks to perform.
#[derive(Debug)]
pub struct CheckOptions {
    /// Enable spelling checks (default: true).
    pub spelling: bool,
    /// Enable grammar checks (default: true).
    pub grammar: bool,
}

/// Default value of each checking option.
pub fn default_true() -> (b: bool)
    ensures
        b,
{
    true
}

impl Default for CheckOptions {
    /// Both checks are enabled unless a request switches one off.
    fn default() -> (o: Self)
        ensures
            o.spelling,
            o.grammar,
    {
        CheckOptions { spelling: true, grammar: true }
    }
}

/// Response from the check endpoint.
#[derive(Debug)]
pub struct CheckResponse {
    /// List of detected issues, in engine-reported order.
    pub matches: Vec<Match>,
    /// Processing metrics.
    pub metrics: Metrics,
}

/// A detected grammar or spelling issue.
#[derive(Debug)]
pub struct Match {
    /// Human-readable description of the issue.
    pub message: String,
    /// Code-point offset into the checked text where the issue starts.
    pub offset: usize,
    /// Length of the problematic text in code points.
    pub length: usize,
    /// Suggested replacements.
    pub replacements: Vec<String>,
    /// Rule information.
    pub rule: Rule,
    /// Context around the issue.
    pub context: Context,
}

/// Information about the rule that detected an issue.
#[derive(Debug)]
pub struct Rule {
    /// Unique identifier for the rule.
    pub id: String,
    /// Category of the rule: `"spelling"` or `"grammar"`.
    pub category: String,
}

/// Context surrounding a detected issue.
#[derive(Debug)]
pub struct Context {
    /// Text snippet around the issue.
    pub text: String,
    /// Code-point offset within the snippet where the issue starts.
    pub offset: usize,
    /// Length of the issue within the snippet, in code points.
    pub length: usize,
}

/// Processing metrics for one request.
#[derive(Debug)]
pub struct Metrics {
    /// Time taken to process the request, in milliseconds.
    pub processing_time_ms: u128,
}

/// Body of a served health request.
pub fn health_body() -> (r: &'static str)
    ensures
        r@ == "ok"@,
{
    "ok"
}

/// Error response body.
#[derive(Debug)]
pub struct ApiError {
    /// Human-readable error message.
    pub error: String,
    /// Machine-readable error code.
    pub code: String,
}

/// The service's error taxonomy.
#[derive(Debug, Clone, Copy, PartialEq, Eq, Structural)]
pub enum AppError {
    /// Request payload exceeds the maximum size.
    PayloadTooLarge,
    /// Invalid or missing credential on a protected route.
    Unauthorized,
    /// Client exceeded its request budget.
    RateLimited,
    /// Unexpected failure while invoking the analysis engine.
    InternalError,
}

impl AppError {
    /// HTTP status of this error.
    pub open spec fn spec_status(&self) -> u16 {
        match self {
            AppError::PayloadTooLarge => 413,
            AppError::Unauthorized => 401,
            AppError::RateLimited => 429,
            AppError::InternalError => 500,
        }
    }

    /// Machine-readable code of this error.
    pub open spec fn spec_code(&self) -> Seq<char> {
        match self {
            AppError::PayloadTooLarge => "PAYLOAD_TOO_LARGE"@,
            AppError::Unauthorized => "UNAUTHORIZED"@,
            AppError::RateLimited => "RATE_LIMITED"@,
            AppError::InternalError => "INTERNAL_ERROR"@,
        }
    }

    /// Human-readable message of this error.
    pub open spec fn spec_message(&self) -> Seq<char> {
        match self {
            AppError::PayloadTooLarge => "Text exceeds maximum size of 102400 bytes"@,
            AppError::Unauthorized => "Invalid or missing API key"@,
            AppError::RateLimited => "Too many requests"@,
            AppError::InternalError => "Internal error"@,
        }
    }

    /// HTTP status of this error.
    pub fn status_code(&self) -> (s: u16)
        ensures
            s == self.spec_status(),
    {
        match self {
            AppError::PayloadTooLarge => 413,
            AppError::Unauthorized => 401,
            AppError::RateLimited => 429,
            AppError::InternalError => 500,
        }
    }

    /// Machine-readable code of this error.
    pub fn code(&self) -> (c: String)
        ensures
            c@ == self.spec_code(),
    {
        match self {
            AppError::PayloadTooLarge => "PAYLOAD_TOO_LARGE".to_owned(),
            AppError::Unauthorized => "UNAUTHORIZED".to_owned(),
            AppError::RateLimited => "RATE_LIMITED".to_owned(),
            AppError::InternalError => "INTERNAL_ERROR".to_owned(),
        }
    }

    /// Human-readable message of this error.
    pub fn message(&self) -> (m: String)
        ensures
            m@ == self.spec_message(),
    {
        match self {
            AppError::PayloadTooLarge => "Text exceeds maximum size of 102400 bytes".to_owned(),
            AppError::Unauthorized => "Invalid or missing API key".to_owned(),
            AppError::RateLimited => "Too many requests".to_owned(),
            AppError::InternalError => "Internal error".to_owned(),
        }
    }

    /// The structured body sent for this error.
    pub fn api_error(&self) -> (e: ApiError)
        ensures
            e.error@ == self.spec_message(),
            e.code@ == self.spec_code(),
    {
        ApiError { error: self.message(), code: self.code() }
    }
}

} // verus!
