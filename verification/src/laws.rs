//! Library-wide guarantees, stated and proved over the spec functions that
//! the public contracts use.

use vstd::prelude::*;

use crate::api::Match;
use crate::auth::authorized;
use crate::check::{match_models, RawFinding};
use crate::classify::{contains_spell, spec_category};

verus! {

/// Every assembled finding lies within the checked text: its code-point
/// span satisfies `offset + length <= ` the text's code-point length.
pub proof fn lemma_finding_within_text(m: Match, text: Seq<char>, raw: RawFinding)
    requires
        match_models(m, text, raw),
    ensures
        m.offset + m.length <= text.len(),
{
}

/// Every finding's context is consistent: the span's position within the
/// snippet lies inside the snippet, and the snippet is a contiguous
/// subrange of whole code points of the checked text, so it never splits a
/// code point and never extends past the text.
pub proof fn lemma_context_within_snippet(m: Match, text: Seq<char>, raw: RawFinding)
    requires
        match_models(m, text, raw),
    ensures
        m.context.offset + m.context.length <= m.context.text@.len(),
        exists|a: int, b: int|
            0 <= a <= b <= text.len() && m.context.text@ == #[trigger] text.subrange(a, b),
{
    let len = text.len() as int;
    let s = crate::check::clamped_start(raw.start as int, len);
    let e = crate::check::clamped_end(raw.start as int, raw.end as int, len);
    let a = crate::localize::context_start(s);
    let b = crate::localize::context_end(len, e);
    assert(0 <= a <= b <= text.len() && m.context.text@ == text.subrange(a, b));
}

/// The classifier is a dichotomy: a rule kind containing "spell" in any
/// casing classifies as `spelling`, and every other rule kind classifies
/// as `grammar` -- never both, never anything else.
pub proof fn lemma_classifier_dichotomy(kind: Seq<char>)
    ensures
        spec_category(kind) == "spelling"@ <==> contains_spell(kind),
        spec_category(kind) == "grammar"@ <==> !contains_spell(kind),
{
    reveal_strlit("spelling");
    reveal_strlit("grammar");
    assert("spelling"@.len() != "grammar"@.len());
}

/// With a configured secret, a request without a credential is rejected on
/// the check route, while the same client's health request still passes.
pub proof fn lemma_auth_protected_vs_exempt(key: Seq<char>)
    ensures
        !authorized("/v1/check"@, Some(key), None),
        authorized("/health"@, Some(key), None),
{
    reveal_strlit("/v1/check");
    reveal_strlit("/health");
    reveal_strlit("/metrics");
    assert("/v1/check"@.len() != "/health"@.len());
    assert("/v1/check"@.len() != "/metrics"@.len());
}

/// Assembled findings are a function of the checked text and the raw
/// engine findings alone: two matches assembled from the same text and the
/// same raw finding agree on every observable field, so a response can
/// only reflect the request it was computed from.
pub proof fn lemma_match_determined(m1: Match, m2: Match, text: Seq<char>, raw: RawFinding)
    requires
        match_models(m1, text, raw),
        match_models(m2, text, raw),
    ensures
        m1.message@ == m2.message@,
        m1.offset == m2.offset,
        m1.length == m2.length,
        m1.rule.id@ == m2.rule.id@,
        m1.rule.category@ == m2.rule.category@,
        m1.replacements@.len() == m2.replacements@.len(),
        forall|k: int|
            0 <= k < m1.replacements@.len() ==> m1.replacements@[k]@ == m2.replacements@[k]@,
        m1.context.text@ == m2.context.text@,
        m1.context.offset == m2.context.offset,
        m1.context.length == m2.context.length,
{
}

} // verus!
