//! Text as sequences of characters: white space, trimming and comparison.

use vstd::prelude::*;

verus! {

/// Whether `c` has Unicode's `White_Space` property: one of the 25 characters
/// that the Unicode Character Database lists under it.
pub open spec fn is_white_space(c: char) -> bool {
    ||| '\u{9}' <= c <= '\u{d}'
    ||| c == ' '
    ||| c == '\u{85}'
    ||| c == '\u{a0}'
    ||| c == '\u{1680}'
    ||| '\u{2000}' <= c <= '\u{200a}'
    ||| c == '\u{2028}'
    ||| c == '\u{2029}'
    ||| c == '\u{202f}'
    ||| c == '\u{205f}'
    ||| c == '\u{3000}'
}

/// Whether `s` holds white space only.
pub open spec fn all_white_space(s: Seq<char>) -> bool {
    forall|i: int| 0 <= i < s.len() ==> is_white_space(#[trigger] s[i])
}

/// `s` without its leading white space.
pub open spec fn trim_start(s: Seq<char>) -> Seq<char>
    decreases s.len(),
{
    if s.len() > 0 && is_white_space(s.first()) {
        trim_start(s.drop_first())
    } else {
        s
    }
}

/// `s` without its trailing white space.
pub open spec fn trim_end(s: Seq<char>) -> Seq<char>
    decreases s.len(),
{
    if s.len() > 0 && is_white_space(s.last()) {
        trim_end(s.drop_last())
    } else {
        s
    }
}

/// `s` without its leading and trailing white space.
pub open spec fn trimmed(s: Seq<char>) -> Seq<char> {
    trim_end(trim_start(s))
}

/// `str::trim`. Trusted: that it returns the slice of `s` that is left when
/// the leading and the trailing characters with the `White_Space` property
/// are taken away.
#[verifier::external_body]
pub(crate) fn trim(s: &str) -> (r: &str)
    ensures
        r@ == trimmed(s@),
{
    s.trim()
}

/// `==` on `str`. Trusted: that two slices are equal exactly when they hold
/// the same characters in the same order.
pub assume_specification[ <str as PartialEq>::eq ](a: &str, b: &str) -> (r: bool)
    ensures
        r == (a@ == b@),
;

/// White space in front of a text does not survive `trim_start`.
pub proof fn lemma_trim_start_drops_prefix(pad: Seq<char>, s: Seq<char>)
    requires
        all_white_space(pad),
    ensures
        trim_start(pad + s) == trim_start(s),
    decreases pad.len(),
{
    if pad.len() > 0 {
        assert((pad + s).first() == pad[0]);
        assert((pad + s).drop_first() =~= pad.drop_first() + s);
        lemma_trim_start_drops_prefix(pad.drop_first(), s);
    } else {
        assert(pad + s =~= s);
    }
}

/// White space behind a text does not survive `trim_end`.
pub proof fn lemma_trim_end_drops_suffix(s: Seq<char>, pad: Seq<char>)
    requires
        all_white_space(pad),
    ensures
        trim_end(s + pad) == trim_end(s),
    decreases pad.len(),
{
    if pad.len() > 0 {
        assert((s + pad).last() == pad.last());
        assert((s + pad).drop_last() =~= s + pad.drop_last());
        lemma_trim_end_drops_suffix(s, pad.drop_last());
    } else {
        assert(s + pad =~= s);
    }
}

/// `trim_start` looks at what follows a text only when the text itself is
/// white space throughout.
pub proof fn lemma_trim_start_of_concat(s: Seq<char>, t: Seq<char>)
    ensures
        all_white_space(s) ==> trim_start(s + t) == trim_start(t),
        !all_white_space(s) ==> trim_start(s + t) == trim_start(s) + t,
    decreases s.len(),
{
    if all_white_space(s) {
        lemma_trim_start_drops_prefix(s, t);
    } else if is_white_space(s.first()) {
        let rest = s.drop_first();
        assert(!all_white_space(rest)) by {
            if all_white_space(rest) {
                assert forall|i: int| 0 <= i < s.len() implies is_white_space(#[trigger] s[i]) by {
                    if i > 0 {
                        assert(s[i] == rest[i - 1]);
                    }
                }
            }
        }
        assert((s + t).first() == s.first());
        assert((s + t).drop_first() =~= rest + t);
        lemma_trim_start_of_concat(rest, t);
    } else {
        assert((s + t).first() == s.first());
    }
}

/// White space around a text does not change what trimming leaves of it.
pub proof fn lemma_trimmed_ignores_padding(before: Seq<char>, s: Seq<char>, after: Seq<char>)
    requires
        all_white_space(before),
        all_white_space(after),
    ensures
        trimmed(before + s + after) == trimmed(s),
{
    assert(before + s + after =~= before + (s + after));
    lemma_trim_start_drops_prefix(before, s + after);
    lemma_trim_start_of_concat(s, after);
    if all_white_space(s) {
        lemma_trim_start_drops_prefix(after, Seq::empty());
        lemma_trim_start_drops_prefix(s, Seq::empty());
        assert(after + Seq::<char>::empty() =~= after);
        assert(s + Seq::<char>::empty() =~= s);
    } else {
        lemma_trim_end_drops_suffix(trim_start(s), after);
    }
}

/// Trimming leaves a text as it is when the text neither starts nor ends
/// with white space.
pub proof fn lemma_trimmed_of_bare(s: Seq<char>)
    requires
        s.len() > 0 ==> !is_white_space(s.first()) && !is_white_space(s.last()),
    ensures
        trimmed(s) == s,
{
}

} // verus!
