//! Static check of a replacement template for ambiguous capture references.
//!
//! In a template, `$1abc` names the capture group `1abc`, not group `1`
//! followed by the text `abc`. A bare `$` with digits that runs straight into
//! other text is therefore almost always a mistake; `${1}abc` says what was
//! meant.

use vstd::prelude::*;
use vstd::string::*;

verus! {

/// An ASCII decimal digit.
pub open spec fn is_digit(c: char) -> bool {
    '0' <= c && c <= '9'
}

/// A character of the Unicode `White_Space` property.
pub open spec fn is_space(c: char) -> bool {
    ('\u{9}' <= c && c <= '\u{d}') || c == ' ' || c == '\u{85}' || c == '\u{a0}' || c
        == '\u{1680}' || ('\u{2000}' <= c && c <= '\u{200a}') || c == '\u{2028}' || c
        == '\u{2029}' || c == '\u{202f}' || c == '\u{205f}' || c == '\u{3000}'
}

/// A character that, right after `$` and digits, would be read as part of
/// the reference's name.
pub open spec fn joins_reference(c: char) -> bool {
    !is_digit(c) && c != '$' && !is_space(c)
}

/// `t[at]` is a `$`, `t[at + 1 .. upto]` are one or more digits, and
/// `t[upto]` runs on into the reference.
pub open spec fn ambiguous_at(t: Seq<char>, at: int, upto: int) -> bool {
    &&& 0 <= at
    &&& at + 1 < upto < t.len()
    &&& t[at] == '$'
    &&& forall|k: int| at < k < upto ==> is_digit(#[trigger] t[k])
    &&& joins_reference(t[upto])
}

/// The template holds a bare numeric reference followed by text that
/// would be read as part of it.
pub open spec fn is_ambiguous(t: Seq<char>) -> bool {
    exists|at: int, upto: int| ambiguous_at(t, at, upto)
}

/// Where an ambiguous reference stands in a template, in characters: the
/// `$` at `at`, the digits after it, and the first character that runs on
/// into it at `upto`.
#[derive(Clone, Copy, Debug, PartialEq, Eq)]
pub struct AmbiguousReference {
    pub at: usize,
    pub upto: usize,
}

fn char_is_digit(c: char) -> (r: bool)
    ensures
        r == is_digit(c),
{
    '0' <= c && c <= '9'
}

fn char_is_space(c: char) -> (r: bool)
    ensures
        r == is_space(c),
{
    ('\u{9}' <= c && c <= '\u{d}') || c == ' ' || c == '\u{85}' || c == '\u{a0}' || c
        == '\u{1680}' || ('\u{2000}' <= c && c <= '\u{200a}') || c == '\u{2028}' || c
        == '\u{2029}' || c == '\u{202f}' || c == '\u{205f}' || c == '\u{3000}'
}

/// Checks a replacement template for a bare numeric capture reference (`$`
/// and one or more digits) that is directly followed by a character that is
/// neither a digit, nor `$`, nor whitespace.
///
/// Reports the reference whose offending character comes first.
pub fn check_for_common_syntax_error(rep_arg: &str) -> (r: Result<(), AmbiguousReference>)
    ensures
        r is Ok <==> !is_ambiguous(rep_arg@),
        r matches Err(e) ==> ambiguous_at(rep_arg@, e.at as int, e.upto as int) && forall|
            at: int,
            upto: int,
        | upto < e.upto ==> !ambiguous_at(rep_arg@, at, upto),
{
    let ghost t = rep_arg@;
    let n = rep_arg.unicode_len();
    let mut i: usize = 0;
    // `open`: `t[dollar]` is a `$` followed by nothing but digits up to `i`.
    let mut open = false;
    let mut dollar: usize = 0;
    while i < n
        invariant
            n == t.len(),
            t == rep_arg@,
            i <= n,
            open ==> dollar < i && t[dollar as int] == '$' && forall|k: int|
                dollar < k < i ==> is_digit(#[trigger] t[k]),
            !open ==> forall|d: int|
                0 <= d < i && t[d] == '$' ==> exists|k: int| d < k < i && !is_digit(#[trigger] t[k]),
            forall|at: int, upto: int| upto < i ==> !ambiguous_at(t, at, upto),
        decreases n - i,
    {
        let c = rep_arg.get_char(i);
        if open && dollar + 1 < i && !char_is_digit(c) && c != '$' && !char_is_space(c) {
            assert(ambiguous_at(t, dollar as int, i as int));
            return Err(AmbiguousReference { at: dollar, upto: i });
        }
        proof {
            assert forall|at: int, upto: int| upto < i + 1 implies !ambiguous_at(t, at, upto) by {
                if upto == i && ambiguous_at(t, at, upto) {
                    if !open {
                        let k = choose|k: int| at < k < i && !is_digit(#[trigger] t[k]);
                        assert(is_digit(t[k]));
                    } else if at < dollar {
                        assert(is_digit(t[dollar as int]));
                    } else if dollar < at {
                        assert(is_digit(t[at]));
                    }
                }
            }
        }
        if c == '$' {
            open = true;
            dollar = i;
        } else if open && char_is_digit(c) {
        } else {
            proof {
                assert forall|d: int| 0 <= d < i + 1 && t[d] == '$' implies exists|k: int|
                    d < k < i + 1 && !is_digit(#[trigger] t[k]) by {
                    if open && d < dollar {
                        assert(!is_digit(t[dollar as int]));
                    } else if open && d > dollar {
                        assert(!is_digit(t[i as int]));
                    } else if open {
                        assert(!is_digit(t[i as int]));
                    } else if d < i {
                        let k = choose|k: int| d < k < i && !is_digit(#[trigger] t[k]);
                    }
                }
            }
            open = false;
        }
        i = i + 1;
    }
    Ok(())
}

/// An ASCII letter.
pub open spec fn is_letter(c: char) -> bool {
    ('a' <= c && c <= 'z') || ('A' <= c && c <= 'Z')
}

/// A `$`, one or more digits, and then a letter make a template ambiguous.
pub proof fn lemma_bare_reference_before_letter(t: Seq<char>, at: int, upto: int)
    requires
        0 <= at,
        at + 1 < upto < t.len(),
        t[at] == '$',
        forall|k: int| at < k < upto ==> is_digit(#[trigger] t[k]),
        is_letter(t[upto]),
    ensures
        is_ambiguous(t),
{
    assert(ambiguous_at(t, at, upto));
}

/// A template in which no `$` is directly followed by a digit, so that every
/// numeric reference is written with braces (`${1}`), is never ambiguous.
pub proof fn lemma_braced_references_pass(t: Seq<char>)
    requires
        forall|i: int| 0 <= i < t.len() - 1 && t[i] == '$' ==> !is_digit(#[trigger] t[i + 1]),
    ensures
        !is_ambiguous(t),
{
    assert forall|at: int, upto: int| !ambiguous_at(t, at, upto) by {
        if ambiguous_at(t, at, upto) {
            assert(is_digit(t[at + 1]));
        }
    }
}

} // verus!
