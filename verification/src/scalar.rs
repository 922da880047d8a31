//! Unicode scalar values, and the standard-library calls on them that the
//! conversions rely on.

use vstd::prelude::*;

verus! {

/// Whether `v` is a Unicode scalar value: a code point that is no surrogate.
pub open spec fn is_scalar_value(v: u32) -> bool {
    v <= 0xD7FF || 0xE000 <= v <= 0x10FFFF
}

/// Trusted: `char::from_u32` gives the character whose code point is `i` when
/// `i` is a Unicode scalar value, and `None` for surrogates and for values
/// above U+10FFFF.
pub assume_specification[ char::from_u32 ](i: u32) -> (r: Option<char>)
    ensures
        is_scalar_value(i) ==> r == Some(i as char),
        !is_scalar_value(i) ==> r is None,
;

} // verus!
