//! Case-insensitive prefix matching between a search term and a stored
//! name. Only the ASCII letters `A`..`Z` fold; every other character
//! matches itself, which mirrors the ASCII-only case folding of the
//! backing store's collation.

use vstd::prelude::*;
use vstd::string::StrSliceExecFns;

verus! {

/// The code point of `c`, with an ASCII upper-case letter folded to its
/// lower-case counterpart.
pub open spec fn fold_code(c: char) -> int {
    if 65 <= c as int && c as int <= 90 {
        c as int + 32
    } else {
        c as int
    }
}

/// `a` and `b` are the same character up to ASCII case.
pub open spec fn chars_match(a: char, b: char) -> bool {
    fold_code(a) == fold_code(b)
}

/// `term` is a prefix of `name`, compared character by character up to
/// ASCII case.
pub open spec fn prefix_matches(term: Seq<char>, name: Seq<char>) -> bool {
    &&& term.len() <= name.len()
    &&& forall|i: int| 0 <= i < term.len() ==> chars_match(term[i], #[trigger] name[i])
}

/// Case-folded code point of `c`.
pub fn fold_char(c: char) -> (code: u32)
    ensures
        code == fold_code(c),
{
    let v = c as u32;
    if 65 <= v && v <= 90 {
        v + 32
    } else {
        v
    }
}

/// Does `name` start with `term`, case-insensitively?
pub fn name_matches(term: &str, name: &str) -> (r: bool)
    ensures
        r == prefix_matches(term@, name@),
{
    let tlen = term.unicode_len();
    let nlen = name.unicode_len();
    if tlen > nlen {
        return false;
    }
    let mut i: usize = 0;
    while i < tlen
        invariant
            tlen == term@.len(),
            nlen == name@.len(),
            tlen <= nlen,
            i <= tlen,
            forall|j: int| 0 <= j < i ==> chars_match(term@[j], #[trigger] name@[j]),
        decreases tlen - i,
    {
        let tc = fold_char(term.get_char(i));
        let nc = fold_char(name.get_char(i));
        if tc != nc {
            return false;
        }
        i += 1;
    }
    true
}

} // verus!
