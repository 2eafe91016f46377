//! Category classifier: tags a finding as `spelling` or `grammar` from the
//! engine's free-text rule-kind identifier.

use vstd::prelude::*;
use vstd::string::StrSliceExecFns;

verus! {

/// The five code points of `s` starting at `i` spell out "spell", each
/// letter in either ASCII case.
pub open spec fn spell_at(s: Seq<char>, i: int) -> bool {
    &&& (s[i] == 's' || s[i] == 'S')
    &&& (s[i + 1] == 'p' || s[i + 1] == 'P')
    &&& (s[i + 2] == 'e' || s[i + 2] == 'E')
    &&& (s[i + 3] == 'l' || s[i + 3] == 'L')
    &&& (s[i + 4] == 'l' || s[i + 4] == 'L')
}

/// `s` contains the substring "spell" in any ASCII casing.
pub open spec fn contains_spell(s: Seq<char>) -> bool {
    exists|i: int| 0 <= i && i + 5 <= s.len() && spell_at(s, i)
}

/// The category assigned to a rule-kind tag: `spelling` exactly when the
/// tag contains "spell" in any casing, `grammar` otherwise.
pub open spec fn spec_category(kind: Seq<char>) -> Seq<char> {
    if contains_spell(kind) {
        "spelling"@
    } else {
        "grammar"@
    }
}

/// Classifies a rule-kind tag as `"spelling"` or `"grammar"`.
pub fn classify_kind(kind: &str) -> (c: String)
    ensures
        c@ == spec_category(kind@),
{
    let len = kind.unicode_len();
    if len >= 5 {
        let mut i: usize = 0;
        while i <= len - 5
            invariant
                len == kind@.len(),
                5 <= len,
                i <= len,
                forall|j: int| 0 <= j < i ==> !spell_at(kind@, j),
            decreases len - i,
        {
            let c0 = kind.get_char(i);
            let c1 = kind.get_char(i + 1);
            let c2 = kind.get_char(i + 2);
            let c3 = kind.get_char(i + 3);
            let c4 = kind.get_char(i + 4);
            if (c0 == 's' || c0 == 'S') && (c1 == 'p' || c1 == 'P') && (c2 == 'e' || c2 == 'E')
                && (c3 == 'l' || c3 == 'L') && (c4 == 'l' || c4 == 'L') {
                proof {
                    assert(spell_at(kind@, i as int));
                }
                return "spelling".to_owned();
            }
            i = i + 1;
        }
        proof {
            assert(forall|j: int| 0 <= j && j + 5 <= kind@.len() ==> !spell_at(kind@, j));
        }
    }
    "grammar".to_owned()
}

} // verus!
