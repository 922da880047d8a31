//! Conversion and detection lifted from characters to text.

use crate::width::{
    is_fullwidth, is_standard, lemma_narrow_then_widen, lemma_widen_then_narrow, narrow, widen,
    CharExt,
};
use vstd::prelude::*;
use vstd::std_specs::iter::IteratorSpec;

verus! {

/// Whether some character of `s` is fullwidth.
pub open spec fn contains_fullwidth(s: Seq<char>) -> bool {
    exists|i: int| 0 <= i < s.len() && is_fullwidth(#[trigger] s[i])
}

/// Whether some character of `s` is a standard-width character that has a
/// fullwidth form.
pub open spec fn contains_standard(s: Seq<char>) -> bool {
    exists|i: int| 0 <= i < s.len() && is_standard(#[trigger] s[i])
}

/// `s` with every character replaced by its fullwidth form.
pub open spec fn to_fullwidth(s: Seq<char>) -> Seq<char> {
    s.map_values(|c: char| widen(c))
}

/// `s` with every character replaced by its standard-width form.
pub open spec fn to_standard(s: Seq<char>) -> Seq<char> {
    s.map_values(|c: char| narrow(c))
}

/// Trusted: `String::push` appends the character `c` to the end of `s` and
/// leaves what `s` held before it in place.
pub assume_specification[ String::push ](s: &mut String, c: char)
    ensures
        final(s)@ == old(s)@.push(c),
;

/// Fullwidth detection and conversion of text.
pub trait StrExt {
    /// Whether this string has any fullwidth characters.
    fn has_fw(&self) -> bool;

    /// Convert from standard to full width.
    fn to_fw(&self) -> String;

    /// Convert from full to standard width.
    fn to_sw(&self) -> String;
}

impl StrExt for str {
    fn has_fw(&self) -> (b: bool)
        ensures
            b == contains_fullwidth(self@),
    {
        broadcast use vstd::string::group_string_axioms;

        let mut it = self.chars();
        let ghost mut seen: int = 0;
        loop
            invariant
                it.obeys_prophetic_iter_laws(),
                it.decrease() is Some,
                0 <= seen <= self@.len(),
                it.remaining() == self@.skip(seen),
                forall|i: int| 0 <= i < seen ==> !is_fullwidth(#[trigger] self@[i]),
            decreases it.decrease()->0,
        {
            match it.next() {
                Some(c) => {
                    if c.is_fw() {
                        assert(is_fullwidth(self@[seen]));
                        return true;
                    }
                    proof {
                        seen = seen + 1;
                    }
                },
                None => {
                    return false;
                },
            }
        }
    }

    fn to_fw(&self) -> (out: String)
        ensures
            out@ == to_fullwidth(self@),
            out@.len() == self@.len(),
    {
        broadcast use vstd::string::group_string_axioms;

        let mut out = String::new();
        let mut it = self.chars();
        loop
            invariant
                it.obeys_prophetic_iter_laws(),
                it.decrease() is Some,
                out@.len() <= self@.len(),
                it.remaining() == self@.skip(out@.len() as int),
                out@ == to_fullwidth(self@.take(out@.len() as int)),
            decreases it.decrease()->0,
        {
            match it.next() {
                Some(c) => {
                    out.push(c.to_fw());
                },
                None => {
                    return out;
                },
            }
        }
    }

    fn to_sw(&self) -> (out: String)
        ensures
            out@ == to_standard(self@),
            out@.len() == self@.len(),
    {
        broadcast use vstd::string::group_string_axioms;

        let mut out = String::new();
        let mut it = self.chars();
        loop
            invariant
                it.obeys_prophetic_iter_laws(),
                it.decrease() is Some,
                out@.len() <= self@.len(),
                it.remaining() == self@.skip(out@.len() as int),
                out@ == to_standard(self@.take(out@.len() as int)),
            decreases it.decrease()->0,
        {
            match it.next() {
                Some(c) => {
                    out.push(c.to_sw());
                },
                None => {
                    return out;
                },
            }
        }
    }
}

/// Both conversions keep the length of the text and work place by place:
/// the character at each index of the result is the converted character at
/// that index of the input.
pub proof fn lemma_conversion_pointwise(s: Seq<char>)
    ensures
        to_fullwidth(s).len() == s.len(),
        to_standard(s).len() == s.len(),
        forall|i: int| 0 <= i < s.len() ==> #[trigger] to_fullwidth(s)[i] == widen(s[i]),
        forall|i: int| 0 <= i < s.len() ==> #[trigger] to_standard(s)[i] == narrow(s[i]),
{
}

/// Text without a standard-width character that has a fullwidth form is
/// left unchanged by widening.
pub proof fn lemma_to_fullwidth_unchanged(s: Seq<char>)
    requires
        !contains_standard(s),
    ensures
        to_fullwidth(s) == s,
{
    assert forall|i: int| 0 <= i < s.len() implies to_fullwidth(s)[i] == s[i] by {
        assert(!is_standard(s[i]));
    }
    assert(to_fullwidth(s) =~= s);
}

/// Text without a fullwidth character is left unchanged by narrowing.
pub proof fn lemma_to_standard_unchanged(s: Seq<char>)
    requires
        !contains_fullwidth(s),
    ensures
        to_standard(s) == s,
{
    assert forall|i: int| 0 <= i < s.len() implies to_standard(s)[i] == s[i] by {
        assert(!is_fullwidth(s[i]));
    }
    assert(to_standard(s) =~= s);
}

/// Widening text that holds no fullwidth character and narrowing the result
/// gives the text back.
pub proof fn lemma_to_fullwidth_then_to_standard(s: Seq<char>)
    requires
        !contains_fullwidth(s),
    ensures
        to_standard(to_fullwidth(s)) == s,
{
    assert forall|i: int| 0 <= i < s.len() implies to_standard(to_fullwidth(s))[i] == s[i] by {
        let c = s[i];
        assert(!is_fullwidth(c));
        if is_standard(c) {
            lemma_widen_then_narrow(c);
        }
        assert(to_fullwidth(s)[i] == widen(c));
    }
    assert(to_standard(to_fullwidth(s)) =~= s);
}

/// Narrowing text that holds no standard-width character with a fullwidth
/// form and widening the result gives the text back.
pub proof fn lemma_to_standard_then_to_fullwidth(s: Seq<char>)
    requires
        !contains_standard(s),
    ensures
        to_fullwidth(to_standard(s)) == s,
{
    assert forall|i: int| 0 <= i < s.len() implies to_fullwidth(to_standard(s))[i] == s[i] by {
        let c = s[i];
        assert(!is_standard(c));
        if is_fullwidth(c) {
            lemma_narrow_then_widen(c);
        }
        assert(to_standard(s)[i] == narrow(c));
    }
    assert(to_fullwidth(to_standard(s)) =~= s);
}

/// Narrowed text holds no fullwidth character, and widened text holds no
/// standard-width character that has a fullwidth form.
pub proof fn lemma_conversion_is_complete(s: Seq<char>)
    ensures
        !contains_fullwidth(to_standard(s)),
        !contains_standard(to_fullwidth(s)),
{
    assert forall|i: int| 0 <= i < s.len() implies !is_fullwidth(#[trigger] to_standard(s)[i]) by {
        assert(to_standard(s)[i] == narrow(s[i]));
    }
    assert forall|i: int| 0 <= i < s.len() implies !is_standard(#[trigger] to_fullwidth(s)[i]) by {
        assert(to_fullwidth(s)[i] == widen(s[i]));
    }
}

} // verus!
