use vstd::prelude::*;
use vstd::string::StrSliceExecFns;

verus! {

/// A line as typed: without the one trailing newline that reading it kept,
/// and unchanged where there is none.
pub open spec fn without_newline(line: Seq<char>) -> Seq<char> {
    if line.len() > 0 && line.last() == '\n' {
        line.drop_last()
    } else {
        line
    }
}

/// Strips exactly one trailing newline from a line read from the user.
pub fn strip_newline(line: &str) -> (r: String)
    ensures
        r@ == without_newline(line@),
{
    let n = line.unicode_len();
    if n > 0 && line.get_char(n - 1) == '\n' {
        line.substring_char(0, n - 1).to_owned()
    } else {
        line.to_owned()
    }
}

} // verus!
