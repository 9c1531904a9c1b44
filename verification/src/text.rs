//! Plain-text helpers for presenting streamed output.

use vstd::prelude::*;

verus! {

/// Up to two trailing newlines of a text.
pub open spec fn spec_trailing_newlines(s: Seq<char>) -> nat {
    if s.len() >= 1 && s.last() == '\n' {
        if s.len() >= 2 && s[s.len() - 2] == '\n' {
            2
        } else {
            1
        }
    } else {
        0
    }
}

/// Count up to two trailing newlines.
pub fn count_trailing_newlines(string: String) -> (r: u8)
    ensures
        r as nat == spec_trailing_newlines(string@),
{
    let n = string.as_str().unicode_len();
    if n >= 1 && string.as_str().get_char(n - 1) == '\n' {
        if n >= 2 && string.as_str().get_char(n - 2) == '\n' {
            2
        } else {
            1
        }
    } else {
        0
    }
}

} // verus!
