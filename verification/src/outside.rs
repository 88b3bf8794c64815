//! The calls into other crates and into the parts of the standard library that have no
//! specification of their own. What is said of them here is not proved.

use vstd::prelude::*;

verus! {

/// What `str::to_lowercase` of the standard library makes of a text.
pub uninterp spec fn lowercase_of(s: Seq<char>) -> Seq<char>;

/// What `String::from_utf8_lossy` of the standard library makes of a row of bytes.
pub uninterp spec fn lossy_text_of(bytes: Seq<u8>) -> Seq<char>;

/// Calls `rand::random::<u8>`, which gives any byte. Nothing is claimed of which one comes: it
/// rests on chance. The call does not return where the operating system has no randomness to give.
#[verifier::external_body]
pub(crate) fn random_byte() -> (r: u8) {
    rand::random::<u8>()
}

/// Calls `str::to_lowercase`. The claim is that the result depends on the text alone.
#[verifier::external_body]
pub(crate) fn to_lowercase(s: &str) -> (r: String)
    ensures
        r@ == lowercase_of(s@),
{
    s.to_lowercase()
}

/// Calls `String::from_utf8_lossy`. The claim is that the result depends on the bytes alone, and
/// that bytes that are valid UTF-8 are decoded as they stand. What replaces the bytes that are not
/// is left unsaid.
#[verifier::external_body]
pub(crate) fn from_utf8_lossy(bytes: &[u8]) -> (r: String)
    ensures
        r@ == lossy_text_of(bytes@),
        vstd::utf8::valid_utf8(bytes@) ==> r@ == vstd::utf8::decode_utf8(bytes@),
{
    String::from_utf8_lossy(bytes).to_string()
}

} // verus!
