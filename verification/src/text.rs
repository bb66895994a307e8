//! Turning octets into text, as the standard library does it.
//!
//! Nothing here is proved: the two functions below call the standard library,
//! and their contracts only give its results a name.

use vstd::prelude::*;

verus! {

/// The text that lossy UTF-8 decoding makes of `bytes`: well-formed sequences
/// become their characters, and each malformed one becomes the replacement
/// character U+FFFD.
pub uninterp spec fn utf8_lossy_text(bytes: Seq<u8>) -> Seq<char>;

/// The lowercase form of `text` by the Unicode rules.
pub uninterp spec fn lowercase_text(text: Seq<char>) -> Seq<char>;

/// Calls `String::from_utf8_lossy` and takes ownership of what it returns.
/// The contract claims only that the text depends on the octets alone.
#[verifier::external_body]
pub(crate) fn utf8_lossy(bytes: &[u8]) -> (text: String)
    ensures
        text@ == utf8_lossy_text(bytes@),
{
    String::from_utf8_lossy(bytes).into_owned()
}

/// Calls `str::to_lowercase`. The contract claims only that the result depends
/// on the characters of `text` alone.
#[verifier::external_body]
pub(crate) fn lowercase(text: &str) -> (lower: String)
    ensures
        lower@ == lowercase_text(text@),
{
    text.to_lowercase()
}

} // verus!
