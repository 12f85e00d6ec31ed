//! Text operations of the standard library that the normalisation steps use.
//!
//! Verus has no specification for them; this module states what their
//! documentation promises.

use vstd::prelude::*;

verus! {

/// The lowercase form of a text as the standard library computes it: the
/// Unicode lowercase mapping, which may change the number of characters.
pub uninterp spec fn lowercase_of(text: Seq<char>) -> Seq<char>;

/// `str::to_lowercase`: returns the lowercase equivalent of the text as a
/// new `String`. The result depends on the text alone.
pub assume_specification[ str::to_lowercase ](text: &str) -> (r: String)
    ensures
        r@ == lowercase_of(text@),
;

/// `String::pop`: removes the last character and returns it, or returns
/// `None` and leaves the string as it is when the string is empty.
pub assume_specification[ String::pop ](text: &mut String) -> (r: Option<char>)
    ensures
        old(text)@.len() == 0 ==> r is None && final(text)@ == old(text)@,
        old(text)@.len() > 0 ==> r == Some(old(text)@.last()) && final(text)@ == old(
            text,
        )@.drop_last(),
;

/// `str::eq`: two texts are equal exactly if they hold the same characters
/// in the same order.
pub assume_specification[ <str as PartialEq>::eq ](a: &str, b: &str) -> (r: bool)
    ensures
        r == (a@ == b@),
;

/// A text in which every occurrence of one character is replaced by another.
pub open spec fn replaced(text: Seq<char>, from: char, to: char) -> Seq<char> {
    text.map_values(
        |c: char|
            if c == from {
                to
            } else {
                c
            },
    )
}

/// `str::replace` with a single character as the pattern and a single
/// character as the replacement: every occurrence of `from` becomes `to`,
/// and every other character stays where it is.
#[verifier::external_body]
pub(crate) fn replace_char(text: &str, from: char, to: char) -> (r: String)
    ensures
        r@ == replaced(text@, from, to),
{
    text.replace(from, to.encode_utf8(&mut [0u8; 4]))
}

} // verus!
