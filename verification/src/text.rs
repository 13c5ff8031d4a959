//! What the library needs of strings beyond what `vstd` specifies.

use vstd::prelude::*;

verus! {

/// `str`'s own `==`: two string slices are equal exactly when they hold the
/// same characters in the same order.
pub assume_specification[ <str as PartialEq>::eq ](a: &str, b: &str) -> (r: bool)
    ensures
        r == (a@ == b@),
;

/// A text without the white space at its two ends, as `str::trim` gives it.
pub uninterp spec fn spec_trimmed(text: Seq<char>) -> Seq<char>;

/// `str::trim`: the text without leading and trailing white space, where
/// white space is what Unicode calls `White_Space`. The result depends on the
/// text alone.
#[verifier::external_body]
fn trimmed(text: &str) -> (r: &str)
    ensures
        r@ == spec_trimmed(text@),
{
    text.trim()
}

/// What is left of a text without the white space at its ends says something
/// exactly when it is not empty.
pub open spec fn spec_says_something(trimmed: Seq<char>) -> bool {
    trimmed.len() > 0
}

/// Whether a text says anything: whether something is left of it once the
/// white space at its ends is taken away.
pub open spec fn spec_has_text(text: Seq<char>) -> bool {
    spec_says_something(spec_trimmed(text))
}

/// Whether a text that was already trimmed says anything.
pub fn says_something(trimmed: &str) -> (r: bool)
    ensures
        r == spec_says_something(trimmed@),
{
    !trimmed.is_empty()
}

/// Whether a text says anything.
pub fn has_text(text: &str) -> (r: bool)
    ensures
        r == spec_has_text(text@),
{
    says_something(trimmed(text))
}

} // verus!
