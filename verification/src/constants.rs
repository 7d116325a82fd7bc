//! The set of characters treated as "non-text", and the policy that decides
//! from a non-text ratio whether an encoding guess should be trusted.

use vstd::prelude::*;

verus! {

/// A character counts as non-text when it is the null character, a C0
/// control character that does not ordinarily occur in text (the common
/// whitespace controls, escape, bell and backspace are excluded), the
/// delete character, or the Unicode replacement character.
pub open spec fn char_is_non_text(c: char) -> bool {
    let u = c as u32;
    ||| u <= 0x06
    ||| 0x0E <= u <= 0x1A
    ||| 0x1C <= u <= 0x1F
    ||| u == 0x7F
    ||| u == 0xFFFD
}

/// How many characters of `s` are non-text.
pub open spec fn non_text_count(s: Seq<char>) -> nat
    decreases s.len(),
{
    if s.len() == 0 {
        0
    } else {
        non_text_count(s.drop_last()) + if char_is_non_text(s.last()) {
            1nat
        } else {
            0nat
        }
    }
}

/// Decides whether a character is non-text as `char_is_non_text` defines it.
pub fn is_non_text(c: &char) -> (r: bool)
    ensures
        r == char_is_non_text(*c),
{
    let u = *c as u32;
    u <= 0x06 || (0x0E <= u && u <= 0x1A) || (0x1C <= u && u <= 0x1F) || u == 0x7F || u == 0xFFFD
}

/// An encoding guess is rejected when nothing was decoded at all, or when the
/// percentage of non-text characters among the decoded ones, rounded down,
/// exceeds the threshold.
pub open spec fn spec_detection_failed(non_text: nat, total: nat, threshold: u8) -> bool {
    total == 0 || (threshold as nat) < non_text * 100 / total
}

/// Threshold boundary: a guess over a decoded prefix with `non_text` of
/// `total` characters non-text is accepted exactly when something was
/// decoded and `non_text * 100 / total`, rounded down, is at most the
/// threshold — so the boundary itself is accepted, and one more non-text
/// percent is not.
pub proof fn lemma_threshold_boundary(non_text: nat, total: nat, threshold: u8)
    ensures
        !spec_detection_failed(non_text, total, threshold) <==> (total > 0 && non_text * 100
            / total <= threshold as nat),
{
}

/// Binary-data fallback, the part the policy itself settles: at threshold
/// zero a prefix that decoded to at least one non-text character per
/// hundred characters is always rejected. (That a given binary input in
/// fact decodes to such characters depends on the codec, not on this
/// policy.)
pub proof fn lemma_zero_threshold_rejects_non_text(non_text: nat, total: nat)
    requires
        non_text * 100 >= total,
        non_text > 0,
    ensures
        spec_detection_failed(non_text, total, 0),
{
    if total > 0 {
        assert(non_text * 100 / total >= 1) by (nonlinear_arith)
            requires
                non_text * 100 >= total,
                total > 0,
        ;
    }
}

/// The guess-verification policy: the guess is accepted (returns false) if
/// and only if some characters were decoded and `non_text * 100 / total`,
/// in integer arithmetic, is at most `threshold`.
pub fn detection_failed(non_text: usize, total: usize, threshold: u8) -> (r: bool)
    ensures
        r == spec_detection_failed(non_text as nat, total as nat, threshold),
{
    if total == 0 {
        return true;
    }
    let ratio: u128 = (non_text as u128) * 100 / (total as u128);
    (threshold as u128) < ratio
}

} // verus!
