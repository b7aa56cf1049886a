//! Message text: substring containment and the two diagnostic strings.
//!
//! The assertion passes when the captured failure message contains the
//! expected text. Containment is specified over the character sequences of
//! the two strings and decided by a verified scan; the diagnostics produced
//! on failure are pinned down character for character, and a mismatch
//! diagnostic provably carries both the captured message and the expected
//! text verbatim.

use vstd::prelude::*;
use vstd::string::*;

verus! {

/// `pat` occurs in `text` starting at position `i`.
pub open spec fn match_at(text: Seq<char>, pat: Seq<char>, i: int) -> bool {
    &&& 0 <= i
    &&& i + pat.len() <= text.len()
    &&& text.subrange(i, i + pat.len()) == pat
}

/// `pat` occurs somewhere in `text`.
pub open spec fn text_contains(text: Seq<char>, pat: Seq<char>) -> bool {
    exists|i: int| match_at(text, pat, i)
}

/// Compares `pat` character by character against `text` at position `i`.
fn match_at_index(text: &str, pat: &str, i: usize, n: usize) -> (r: bool)
    requires
        n == text@.len(),
        i + pat@.len() <= n,
    ensures
        r == match_at(text@, pat@, i as int),
{
    let m = pat.unicode_len();
    let ghost sub = text@.subrange(i as int, i + pat@.len());
    let mut j: usize = 0;
    while j < m
        invariant
            n == text@.len(),
            m == pat@.len(),
            i + m <= n,
            j <= m,
            sub == text@.subrange(i as int, i + pat@.len()),
            forall|l: int| 0 <= l < j ==> text@[i + l] == pat@[l],
        decreases m - j,
    {
        if text.get_char(i + j) != pat.get_char(j) {
            proof {
                assert(sub[j as int] == text@[i + j]);
            }
            return false;
        }
        j += 1;
    }
    proof {
        assert(sub =~= pat@);
    }
    true
}

/// Decides whether `text` contains `pat`, in the substring sense of
/// [`text_contains`]: some position of `text` starts an occurrence of the
/// whole of `pat`.
pub fn contains_substring(text: &str, pat: &str) -> (r: bool)
    ensures
        r == text_contains(text@, pat@),
{
    let n = text.unicode_len();
    let m = pat.unicode_len();
    if m == 0 {
        proof {
            assert(text@.subrange(0, 0) =~= pat@);
            assert(match_at(text@, pat@, 0));
        }
        return true;
    }
    if m > n {
        return false;
    }
    let mut i: usize = 0;
    while i <= n - m
        invariant
            n == text@.len(),
            m == pat@.len(),
            0 < m <= n,
            i <= n - m + 1,
            forall|k: int| 0 <= k < i ==> !match_at(text@, pat@, k),
        decreases n - m + 1 - i,
    {
        if match_at_index(text, pat, i, n) {
            return true;
        }
        i += 1;
    }
    false
}

/// Diagnostic raised when the callback completed without failing.
pub open spec fn no_failure_text() -> Seq<char> {
    "callable provided did not fail at all."@
}

/// Builds the diagnostic for a callback that never failed.
pub fn no_failure_diagnostic() -> (d: String)
    ensures
        d@ == no_failure_text(),
{
    String::from_str("callable provided did not fail at all.")
}

/// Header of a mismatch diagnostic, up to the captured message.
pub open spec fn mismatch_header() -> Seq<char> {
    "MISMATCH — expected message not contained\nMSG: "@
}

/// Separator between the captured message and the expected text.
pub open spec fn mismatch_separator() -> Seq<char> {
    "\nEXP: "@
}

/// Diagnostic raised when the captured message does not contain the expected
/// text: header, captured message, separator, expected text.
pub open spec fn mismatch_text(msg: Seq<char>, expected: Seq<char>) -> Seq<char> {
    mismatch_header() + msg + mismatch_separator() + expected
}

/// Builds the mismatch diagnostic for a captured message and the expected
/// text it failed to contain.
pub fn mismatch_diagnostic(msg: &str, expected: &str) -> (d: String)
    ensures
        d@ == mismatch_text(msg@, expected@),
{
    let mut d = String::from_str("MISMATCH — expected message not contained\nMSG: ");
    d.append(msg);
    d.append("\nEXP: ");
    d.append(expected);
    proof {
        assert(d@ =~= mismatch_text(msg@, expected@));
    }
    d
}

/// Law: a mismatch diagnostic carries both the captured message and the
/// expected text verbatim — each occurs as a substring of the diagnostic.
pub proof fn lemma_mismatch_diagnostic_contains_both(msg: Seq<char>, expected: Seq<char>)
    ensures
        text_contains(mismatch_text(msg, expected), msg),
        text_contains(mismatch_text(msg, expected), expected),
{
    let d = mismatch_text(msg, expected);
    let p = mismatch_header().len() as int;
    assert(d.subrange(p, p + msg.len()) =~= msg);
    assert(match_at(d, msg, p));
    let q = p + msg.len() + mismatch_separator().len();
    assert(d.subrange(q, q + expected.len()) =~= expected);
    assert(match_at(d, expected, q));
}

} // verus!
