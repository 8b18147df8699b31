//! Which selectors a registry takes.
//!
//! The rewriter parses selectors itself when a pass starts. A few patterns
//! are known to be useless before that, and are turned away at
//! registration so that the mistake surfaces where it was made.

use crate::text::same_text;
use vstd::prelude::*;

verus! {

/// Why a selector was turned away.
#[derive(Debug, Clone, Copy, PartialEq, Eq, Structural)]
pub enum RejectedSelector {
    /// The selector is empty, or holds nothing but white space.
    Empty,
    /// The selector is a lone `#`, `.` or `[`.
    Degenerate,
}

/// What is left of a string once the white space at both of its ends is
/// taken away, as `str::trim` computes it.
pub uninterp spec fn trimmed(s: Seq<char>) -> Seq<char>;

/// Whether a character is white space, as `str::trim` takes it: whether
/// Unicode counts it as `White_Space`.
pub uninterp spec fn white_space(c: char) -> bool;

/// Whether a string is a run of consecutive characters of another.
pub open spec fn is_piece_of(piece: Seq<char>, whole: Seq<char>) -> bool {
    exists|i: int, j: int| 0 <= i <= j <= whole.len() && piece == #[trigger] whole.subrange(i, j)
}

/// Whether every character of a string is white space. The empty string
/// is such a string.
pub open spec fn all_white_space(s: Seq<char>) -> bool {
    forall|k: int| 0 <= k < s.len() ==> white_space(#[trigger] s[k])
}

/// Takes the white space off both ends of a string.
///
/// Trusted: this is `str::trim`. The contract gives its result the name
/// [`trimmed`], and says that the result is a piece of the string, and is
/// empty exactly when every character of the string is white space.
#[verifier::external_body]
fn trim(s: &str) -> (t: &str)
    ensures
        t@ == trimmed(s@),
        is_piece_of(t@, s@),
        t@.len() == 0 <==> (forall|k: int| 0 <= k < s@.len() ==> white_space(#[trigger] s@[k])),
{
    s.trim()
}

/// A selector with nothing in it, given what trimming leaves of it.
pub open spec fn is_blank(selector: Seq<char>, core: Seq<char>) -> bool {
    selector.len() == 0 || core.len() == 0
}

/// A selector made of a single sigil that introduces an id, a class or an
/// attribute test, with nothing after it.
pub open spec fn is_degenerate(selector: Seq<char>) -> bool {
    selector == "#"@ || selector == "."@ || selector == "["@
}

/// The verdict on a selector, given what trimming leaves of it.
pub open spec fn verdict(selector: Seq<char>, core: Seq<char>) -> Result<(), RejectedSelector> {
    if is_blank(selector, core) {
        Err(RejectedSelector::Empty)
    } else if is_degenerate(selector) {
        Err(RejectedSelector::Degenerate)
    } else {
        Ok(())
    }
}

/// Whether a registry takes the selector.
pub open spec fn acceptable(selector: Seq<char>) -> bool {
    verdict(selector, trimmed(selector)) is Ok
}

/// Judges a selector from the selector and its trimmed form.
pub fn judge(selector: &str, core: &str) -> (r: Result<(), RejectedSelector>)
    ensures
        r == verdict(selector@, core@),
{
    if selector.is_empty() || core.is_empty() {
        Err(RejectedSelector::Empty)
    } else if same_text(selector, "#") || same_text(selector, ".") || same_text(selector, "[") {
        Err(RejectedSelector::Degenerate)
    } else {
        Ok(())
    }
}

/// Judges a selector: `Ok` exactly for the acceptable ones. A selector
/// made of white space alone is turned away as empty.
pub fn check_selector(selector: &str) -> (r: Result<(), RejectedSelector>)
    ensures
        r == verdict(selector@, trimmed(selector@)),
        r is Ok <==> acceptable(selector@),
        r == Err::<(), RejectedSelector>(RejectedSelector::Empty) <==> all_white_space(
            selector@,
        ),
{
    judge(selector, trim(selector))
}

/// The empty selector and the three lone sigils are never acceptable.
pub proof fn lemma_known_bad_selectors()
    ensures
        !acceptable(""@),
        !acceptable("#"@),
        !acceptable("."@),
        !acceptable("["@),
{
    reveal_strlit("");
    reveal_strlit("#");
    reveal_strlit(".");
    reveal_strlit("[");
}

} // verus!
