//! Span localizer: converts an absolute code-point span into a bounded,
//! Unicode-safe context window around it.

use vstd::prelude::*;
use vstd::string::StrSliceExecFns;

use crate::api::Context;

verus! {

/// Start of the context window around a span starting at `start`: twenty
/// code points of leading context, clamped at the start of the text.
pub open spec fn context_start(start: int) -> int {
    if start >= 20 {
        start - 20
    } else {
        0
    }
}

/// End of the context window around a span ending at `end`, in a text of
/// `len` code points: twenty code points of trailing context, clamped at
/// the end of the text.
pub open spec fn context_end(len: int, end: int) -> int {
    if end + 20 <= len {
        end + 20
    } else {
        len
    }
}

/// The context window of `text` around the code-point span `[start, end)`.
///
/// The snippet is the exact code-point subrange of the text between the
/// clamped window bounds, so it never splits a code point and never extends
/// past the text; the returned offset and length locate the span within it.
pub fn get_context(text: &str, start: usize, end: usize) -> (c: Context)
    requires
        start <= end <= text@.len(),
    ensures
        c.text@ == text@.subrange(context_start(start as int), context_end(text@.len() as int, end as int)),
        c.offset == start - context_start(start as int),
        c.length == end - start,
{
    let len = text.unicode_len();
    let cstart = if start >= 20 {
        start - 20
    } else {
        0
    };
    let cend = if len - end > 20 {
        end + 20
    } else {
        len
    };
    let snippet = text.substring_char(cstart, cend);
    Context { text: snippet.to_owned(), offset: start - cstart, length: end - start }
}

} // verus!
