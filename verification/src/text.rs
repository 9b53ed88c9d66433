//! Contracts of the string operations of the standard library that the
//! mapping relies on.

use vstd::prelude::*;

verus! {

/// The lower-case form of a text, as `str::to_lowercase` of the standard
/// library computes it (by the Unicode `Lowercase` property).
pub uninterp spec fn lowercase(s: Seq<char>) -> Seq<char>;

/// `str::to_lowercase`: the result is the lower-case form of the argument.
/// The Unicode tables that decide it are not restated here; the result is
/// known only by the name [`lowercase`].
pub assume_specification[ str::to_lowercase ](s: &str) -> (lowered: String)
    ensures
        lowered@ == lowercase(s@),
;

/// Equality of string slices, `==` on `str`: true exactly when both hold the
/// same characters in the same order.
pub assume_specification[ <str as PartialEq>::eq ](a: &str, b: &str) -> (same: bool)
    ensures
        same == (a@ == b@),
;

/// `String::push_str`: appends the slice to the end of the string and
/// leaves what was there in place.
pub assume_specification[ String::push_str ](s: &mut String, piece: &str)
    ensures
        final(s)@ == old(s)@ + piece@,
;

} // verus!
