//! The pairing between standard-width characters and their fullwidth forms.

use vstd::prelude::*;

verus! {

/// Code point of the fullwidth digit zero.
pub const FW_NUM_OFFSET: u32 = 0xFF10;

/// Code point of the fullwidth capital letter A.
pub const FW_UC_OFFSET: u32 = 0xFF21;

/// Code point of the fullwidth small letter a.
pub const FW_LC_OFFSET: u32 = 0xFF41;

/// Distance from an ASCII digit to its fullwidth form.
pub const FW_NUM_ADD: u32 = FW_NUM_OFFSET - 0x30;

/// Distance from an ASCII capital letter to its fullwidth form.
pub const FW_UC_ADD: u32 = FW_UC_OFFSET - 0x41;

/// Distance from an ASCII small letter to its fullwidth form.
pub const FW_LC_ADD: u32 = FW_LC_OFFSET - 0x61;

/// The ideographic space, fullwidth form of the ASCII space.
pub const FW_SPACE: char = '\u{3000}';

/// The fullwidth vertical bar.
pub const FW_PIPE: char = '\u{FF5C}';

/// The fullwidth solidus.
pub const FW_SOLIDUS: char = '\u{FF0F}';

/// `c` is an ASCII capital letter.
pub open spec fn is_standard_upper(c: char) -> bool {
    0x41 <= c as u32 <= 0x5A
}

/// `c` is an ASCII small letter.
pub open spec fn is_standard_lower(c: char) -> bool {
    0x61 <= c as u32 <= 0x7A
}

/// `c` is an ASCII digit.
pub open spec fn is_standard_digit(c: char) -> bool {
    0x30 <= c as u32 <= 0x39
}

/// `c` is one of the standard-width characters that have a fullwidth form:
/// an ASCII letter or digit, the space, the vertical bar or the solidus.
pub open spec fn is_standard(c: char) -> bool {
    ||| is_standard_upper(c)
    ||| is_standard_lower(c)
    ||| is_standard_digit(c)
    ||| c == ' '
    ||| c == '|'
    ||| c == '/'
}

/// `c` is a fullwidth capital letter.
pub open spec fn is_fullwidth_upper(c: char) -> bool {
    0xFF21 <= c as u32 <= 0xFF3A
}

/// `c` is a fullwidth small letter.
pub open spec fn is_fullwidth_lower(c: char) -> bool {
    0xFF41 <= c as u32 <= 0xFF5A
}

/// `c` is a fullwidth digit.
pub open spec fn is_fullwidth_digit(c: char) -> bool {
    0xFF10 <= c as u32 <= 0xFF19
}

/// `c` is a fullwidth character: a fullwidth letter or digit, the fullwidth
/// vertical bar, the fullwidth solidus or the ideographic space.
pub open spec fn is_fullwidth(c: char) -> bool {
    ||| is_fullwidth_upper(c)
    ||| is_fullwidth_lower(c)
    ||| is_fullwidth_digit(c)
    ||| c == FW_PIPE
    ||| c == FW_SOLIDUS
    ||| c == FW_SPACE
}

/// The fullwidth form of `c`; `c` itself where it has none.
pub open spec fn widen(c: char) -> char {
    if is_standard_upper(c) {
        (c as u32 + FW_UC_ADD) as char
    } else if is_standard_lower(c) {
        (c as u32 + FW_LC_ADD) as char
    } else if is_standard_digit(c) {
        (c as u32 + FW_NUM_ADD) as char
    } else if c == '|' {
        FW_PIPE
    } else if c == '/' {
        FW_SOLIDUS
    } else if c == ' ' {
        FW_SPACE
    } else {
        c
    }
}

/// The standard-width form of `c`; `c` itself where it is not fullwidth.
pub open spec fn narrow(c: char) -> char {
    if is_fullwidth_upper(c) {
        (c as u32 - FW_UC_ADD) as char
    } else if is_fullwidth_lower(c) {
        (c as u32 - FW_LC_ADD) as char
    } else if is_fullwidth_digit(c) {
        (c as u32 - FW_NUM_ADD) as char
    } else if c == FW_PIPE {
        '|'
    } else if c == FW_SOLIDUS {
        '/'
    } else if c == FW_SPACE {
        ' '
    } else {
        c
    }
}

/// Fullwidth classification and conversion of a single character.
pub trait CharExt: Sized {
    /// Is this character fullwidth?
    fn is_fw(self) -> bool;

    /// Convert from standard to full width.
    fn to_fw(self) -> Self;

    /// Convert from full to standard width.
    fn to_sw(self) -> Self;
}

impl CharExt for char {
    fn is_fw(self) -> (b: bool)
        ensures
            b == is_fullwidth(self),
    {
        let v: u32 = self as u32;
        let upper = 0xFF21 <= v && v <= 0xFF3A;
        let lower = 0xFF41 <= v && v <= 0xFF5A;
        let digit = 0xFF10 <= v && v <= 0xFF19;
        upper || lower || digit || self == FW_PIPE || self == FW_SOLIDUS || self == FW_SPACE
    }

    fn to_fw(self) -> (w: char)
        ensures
            w == widen(self),
    {
        let v: u32 = self as u32;
        if 0x41 <= v && v <= 0x5A {
            char::from_u32(v + FW_UC_ADD).unwrap()
        } else if 0x61 <= v && v <= 0x7A {
            char::from_u32(v + FW_LC_ADD).unwrap()
        } else if 0x30 <= v && v <= 0x39 {
            char::from_u32(v + FW_NUM_ADD).unwrap()
        } else if self == '|' {
            FW_PIPE
        } else if self == '/' {
            FW_SOLIDUS
        } else if self == ' ' {
            FW_SPACE
        } else {
            self
        }
    }

    fn to_sw(self) -> (n: char)
        ensures
            n == narrow(self),
    {
        let v: u32 = self as u32;
        if 0xFF21 <= v && v <= 0xFF3A {
            char::from_u32(v - FW_UC_ADD).unwrap()
        } else if 0xFF41 <= v && v <= 0xFF5A {
            char::from_u32(v - FW_LC_ADD).unwrap()
        } else if 0xFF10 <= v && v <= 0xFF19 {
            char::from_u32(v - FW_NUM_ADD).unwrap()
        } else if self == FW_PIPE {
            '|'
        } else if self == FW_SOLIDUS {
            '/'
        } else if self == FW_SPACE {
            ' '
        } else {
            self
        }
    }
}

/// Widening a standard-width character gives a fullwidth character, and
/// narrowing that gives the first character back.
pub proof fn lemma_widen_then_narrow(c: char)
    requires
        is_standard(c),
    ensures
        is_fullwidth(widen(c)),
        narrow(widen(c)) == c,
{
}

/// Narrowing a fullwidth character gives a standard-width character, and
/// widening that gives the first character back.
pub proof fn lemma_narrow_then_widen(c: char)
    requires
        is_fullwidth(c),
    ensures
        is_standard(narrow(c)),
        widen(narrow(c)) == c,
{
}

/// Widening leaves every character alone that is not a standard-width
/// character with a fullwidth form.
pub proof fn lemma_widen_identity(c: char)
    requires
        !is_standard(c),
    ensures
        widen(c) == c,
{
}

/// Narrowing leaves every character alone that is not fullwidth.
pub proof fn lemma_narrow_identity(c: char)
    requires
        !is_fullwidth(c),
    ensures
        narrow(c) == c,
{
}

/// The fullwidth characters are exactly those of the six fullwidth classes,
/// given here by their code points.
pub proof fn lemma_fullwidth_ranges(c: char)
    ensures
        is_fullwidth(c) <==> {
            ||| 0xFF21 <= c as u32 <= 0xFF3A
            ||| 0xFF41 <= c as u32 <= 0xFF5A
            ||| 0xFF10 <= c as u32 <= 0xFF19
            ||| c as u32 == 0xFF5C
            ||| c as u32 == 0xFF0F
            ||| c as u32 == 0x3000
        },
{
}

/// No standard-width character is fullwidth: the two domains are disjoint.
pub proof fn lemma_standard_not_fullwidth(c: char)
    requires
        is_standard(c),
    ensures
        !is_fullwidth(c),
{
}

/// The fullwidth characters are exactly the fullwidth forms of the
/// standard-width characters.
pub proof fn lemma_fullwidth_is_image(f: char)
    ensures
        is_fullwidth(f) <==> exists|c: char| is_standard(c) && #[trigger] widen(c) == f,
{
    if is_fullwidth(f) {
        lemma_narrow_then_widen(f);
        assert(is_standard(narrow(f)) && widen(narrow(f)) == f);
    }
}

/// Two standard-width characters with one fullwidth form are the same
/// character.
pub proof fn lemma_widen_injective(a: char, b: char)
    requires
        is_standard(a),
        is_standard(b),
        widen(a) == widen(b),
    ensures
        a == b,
{
    lemma_widen_then_narrow(a);
    lemma_widen_then_narrow(b);
}

} // verus!
