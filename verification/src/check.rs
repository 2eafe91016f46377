//! The check pipeline around the analysis engine: payload validation,
//! normalization of raw engine findings, and response assembly.
//!
//! The engine itself is an opaque external collaborator.  Callers validate
//! the text first, run the engine only on accepted text, and hand its raw
//! findings in as plain values; everything from there on is verified.

use vstd::prelude::*;
use vstd::string::StrSliceExecFns;
use vstd::utf8::encode_utf8;

use crate::api::{AppError, CheckResponse, Match, Metrics, Rule, MAX_TEXT_SIZE};
use crate::classify::{classify_kind, spec_category};
use crate::localize::{context_end, context_start, get_context};

verus! {

/// The text's serialized size in bytes exceeds the fixed threshold.
pub open spec fn payload_too_large(text: Seq<char>) -> bool {
    encode_utf8(text).len() > MAX_TEXT_SIZE
}

/// Rejects oversized payloads before any expensive work.
///
/// Accepts exactly the texts whose UTF-8 byte size is at most
/// [`MAX_TEXT_SIZE`]; every larger text is rejected with
/// [`AppError::PayloadTooLarge`].  The analysis engine must only be run on
/// text this function has accepted.
pub fn validate_payload(text: &str) -> (r: Result<(), AppError>)
    ensures
        !payload_too_large(text@) ==> r == Ok::<(), AppError>(()),
        payload_too_large(text@) ==> r == Err::<(), AppError>(AppError::PayloadTooLarge),
{
    if text.as_bytes().len() > MAX_TEXT_SIZE {
        Err(AppError::PayloadTooLarge)
    } else {
        Ok(())
    }
}

/// One raw finding as reported by the external analysis engine.
pub struct RawFinding {
    /// Human-readable description of the issue.
    pub message: String,
    /// Code-point offset into the checked text where the issue starts.
    pub start: usize,
    /// Code-point offset just past the issue (half-open span).
    pub end: usize,
    /// The engine's free-text rule-kind tag.
    pub kind: String,
    /// Suggested replacement texts, in engine-reported order.
    pub replacements: Vec<String>,
}

/// The reported span start, clamped to the text's code-point length.
pub open spec fn clamped_start(start: int, len: int) -> int {
    if start <= len {
        start
    } else {
        len
    }
}

/// The reported span end, clamped between the clamped start and the text's
/// code-point length.
pub open spec fn clamped_end(start: int, end: int, len: int) -> int {
    let s = clamped_start(start, len);
    if end <= s {
        s
    } else if end <= len {
        end
    } else {
        len
    }
}

/// How one assembled match relates to the checked text and the raw engine
/// finding it came from: the message, rule id and replacements are carried
/// over unchanged, the span is the raw span clamped to the text's bounds,
/// the category is the classifier's verdict on the rule kind, and the
/// context is the exact code-point window around the clamped span.
pub open spec fn match_models(m: Match, text: Seq<char>, raw: RawFinding) -> bool {
    let len = text.len() as int;
    let s = clamped_start(raw.start as int, len);
    let e = clamped_end(raw.start as int, raw.end as int, len);
    &&& m.message@ == raw.message@
    &&& m.offset == s
    &&& m.length == e - s
    &&& m.rule.id@ == raw.kind@
    &&& m.rule.category@ == spec_category(raw.kind@)
    &&& m.replacements@.len() == raw.replacements@.len()
    &&& forall|k: int|
        0 <= k < raw.replacements@.len() ==> m.replacements@[k]@ == raw.replacements@[k]@
    &&& m.context.text@ == text.subrange(context_start(s), context_end(len, e))
    &&& m.context.offset == s - context_start(s)
    &&& m.context.length == e - s
}

/// Copies a list of replacement strings.
fn clone_strings(v: &Vec<String>) -> (r: Vec<String>)
    ensures
        r@.len() == v@.len(),
        forall|k: int| 0 <= k < v@.len() ==> r@[k]@ == v@[k]@,
{
    let mut r: Vec<String> = Vec::new();
    let mut i: usize = 0;
    while i < v.len()
        invariant
            i <= v@.len(),
            r@.len() == i,
            forall|k: int| 0 <= k < i ==> r@[k]@ == v@[k]@,
        decreases v@.len() - i,
    {
        r.push(v[i].clone());
        i = i + 1;
    }
    r
}

/// Assembles one match from a raw engine finding: clamps the span to the
/// text's code-point bounds, classifies the rule kind, and computes the
/// context window.
pub fn build_match(text: &str, raw: &RawFinding) -> (m: Match)
    ensures
        match_models(m, text@, *raw),
{
    let len = text.unicode_len();
    let s = if raw.start <= len {
        raw.start
    } else {
        len
    };
    let e = if raw.end <= s {
        s
    } else if raw.end <= len {
        raw.end
    } else {
        len
    };
    let context = get_context(text, s, e);
    let category = classify_kind(raw.kind.as_str());
    Match {
        message: raw.message.clone(),
        offset: s,
        length: e - s,
        replacements: clone_strings(&raw.replacements),
        rule: Rule { id: raw.kind.clone(), category },
        context,
    }
}

/// Assembles the matches for a list of raw engine findings, preserving the
/// engine-reported order.
pub fn build_matches(text: &str, raws: &Vec<RawFinding>) -> (ms: Vec<Match>)
    ensures
        ms@.len() == raws@.len(),
        forall|k: int| 0 <= k < raws@.len() ==> match_models(#[trigger] ms@[k], text@, raws@[k]),
{
    let mut ms: Vec<Match> = Vec::new();
    let mut i: usize = 0;
    while i < raws.len()
        invariant
            i <= raws@.len(),
            ms@.len() == i,
            forall|k: int| 0 <= k < i ==> match_models(#[trigger] ms@[k], text@, raws@[k]),
        decreases raws@.len() - i,
    {
        let m = build_match(text, &raws[i]);
        ms.push(m);
        i = i + 1;
    }
    ms
}

/// Composes the wire response from the engine's raw findings and the
/// elapsed processing time: one match per finding, in engine-reported
/// order, each modelled by [`match_models`].
pub fn build_check_response(text: &str, raws: &Vec<RawFinding>, elapsed_ms: u128) -> (r:
    CheckResponse)
    ensures
        r.metrics.processing_time_ms == elapsed_ms,
        r.matches@.len() == raws@.len(),
        forall|k: int|
            0 <= k < raws@.len() ==> match_models(#[trigger] r.matches@[k], text@, raws@[k]),
{
    let matches = build_matches(text, raws);
    CheckResponse { matches, metrics: Metrics { processing_time_ms: elapsed_ms } }
}

} // verus!
