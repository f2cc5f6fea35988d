//! Asking before a removal, and reading the answer.

use vstd::prelude::*;
use vstd::std_specs::iter::IteratorSpec;
use vstd::string::StringExecFns;

verus! {

/// What `str::trim` leaves of a text: the text without the white space at
/// its two ends, white space being what Unicode calls so.
pub uninterp spec fn trimmed(text: Seq<char>) -> Seq<char>;

/// What `str::to_lowercase` makes of a text: its lowercase form by Unicode's
/// rules.
pub uninterp spec fn lowercased(text: Seq<char>) -> Seq<char>;

/// `str::trim`, whose result is what `trimmed` names.
pub assume_specification[ str::trim ](text: &str) -> (inner: &str)
    ensures
        inner@ == trimmed(text@),
;

/// `str::to_lowercase`, whose result is what `lowercased` names.
pub assume_specification[ str::to_lowercase ](text: &str) -> (lower: String)
    ensures
        lower@ == lowercased(text@),
;

/// The two answers that allow a removal.
pub open spec fn says_yes(response: Seq<char>) -> bool {
    response == "y"@ || response == "yes"@
}

/// Whether two texts hold the same characters.
pub fn same_text(left: &str, right: &str) -> (same: bool)
    ensures
        same == (left@ == right@),
{
    let mut l = left.chars();
    let mut r = right.chars();
    let ghost at: int = 0;
    assert(left@.skip(0) =~= left@ && right@.skip(0) =~= right@);
    loop
        invariant
            0 <= at <= left@.len(),
            at <= right@.len(),
            l.remaining() == left@.skip(at),
            r.remaining() == right@.skip(at),
            left@.take(at) == right@.take(at),
        decreases left@.len() - at,
    {
        let a = l.next();
        let b = r.next();
        match (a, b) {
            (None, None) => {
                assert(left@.take(at) =~= left@ && right@.take(at) =~= right@);
                return true;
            },
            (Some(x), Some(y)) => {
                if x != y {
                    assert(left@[at] != right@[at]);
                    return false;
                }
                proof {
                    assert(left@.skip(at).drop_first() =~= left@.skip(at + 1));
                    assert(right@.skip(at).drop_first() =~= right@.skip(at + 1));
                    assert(left@.take(at + 1) =~= left@.take(at).push(x));
                    assert(right@.take(at + 1) =~= right@.take(at).push(y));
                    at = at + 1;
                }
            },
            _ => {
                assert(left@.len() != right@.len());
                return false;
            },
        }
    }
}

/// Whether a response, already trimmed and in lowercase, allows the removal.
pub fn is_yes(response: &str) -> (yes: bool)
    ensures
        yes == says_yes(response@),
{
    same_text(response, "y") || same_text(response, "yes")
}

/// Whether a line read from the user allows the removal: it does when,
/// without the white space around it and in lowercase, it is `y` or `yes`.
/// An empty line, as at the end of input, does not.
pub fn is_affirmative(line: &str) -> (yes: bool)
    ensures
        yes == says_yes(lowercased(trimmed(line@))),
{
    let response = line.trim().to_lowercase();
    is_yes(response.as_str())
}

/// The question put before the file at `path` is removed.
pub open spec fn prompt_text(path: Seq<char>) -> Seq<char> {
    "remove file '"@ + path + "'? "@
}

/// The question put before a file is removed. It ends without a line break.
pub fn confirmation_prompt(path: &str) -> (prompt: String)
    ensures
        prompt@ == prompt_text(path@),
{
    String::from_str("remove file '").concat(path).concat("'? ")
}

} // verus!
