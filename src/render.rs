//! Helpers of the terminal front end.

use vstd::prelude::*;

verus! {

/// A line padded for display: a blank before its line break, or a blank at
/// its end if it has none, so that a cursor after the last character shows.
pub open spec fn padded(t: Seq<char>) -> Seq<char> {
    if t.len() > 0 && t.last() == '\n' {
        t.drop_last() + seq![' ', '\n']
    } else {
        t.push(' ')
    }
}

/// Pads a line for display (see `padded`).
pub fn pad_line(text: &mut String)
    ensures
        final(text)@ == padded(old(text)@),
{
    proof {
        reveal_strlit(" \n");
        reveal_strlit(" ");
    }
    let n = text.as_str().unicode_len();
    if n > 0 && text.as_str().get_char(n - 1) == '\n' {
        let mut s = String::from_str(text.as_str().substring_char(0, n - 1));
        s.append(" \n");
        *text = s;
    } else {
        text.append(" ");
    }
    assert(text@ =~= padded(old(text)@));
}

} // verus!
