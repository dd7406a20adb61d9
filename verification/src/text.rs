//! What the standard library does with characters and strings where vstd
//! says nothing of it: Unicode's classes and case mapping, and appending to a
//! string.

use vstd::prelude::*;

verus! {

/// Whether `c` is a letter or a digit in the sense of `char::is_alphanumeric`.
pub uninterp spec fn alphanumeric(c: char) -> bool;

/// The lowercase form of a text, as `str::to_lowercase` gives it.
pub uninterp spec fn lowercase(text: Seq<char>) -> Seq<char>;

/// `char::is_alphanumeric` is true for the characters that Unicode classes as
/// alphabetic or numeric. The contract only names that classification.
pub assume_specification[ char::is_alphanumeric ](c: char) -> (r: bool)
    ensures
        r == alphanumeric(c),
;

/// `str::to_lowercase` returns a new string that holds the lowercase
/// equivalent of the text under Unicode's case mapping. The contract only
/// names that mapping.
pub assume_specification[ str::to_lowercase ](text: &str) -> (r: String)
    ensures
        r@ == lowercase(text@),
;

/// `String::push` appends one character to the end of the string.
pub assume_specification[ String::push ](s: &mut String, c: char)
    ensures
        final(s)@ == old(s)@.push(c),
;

} // verus!
