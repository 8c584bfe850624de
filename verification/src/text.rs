//! The functions of the standard library that the service calls on text,
//! each with what its documentation promises.

use vstd::prelude::*;
use vstd::utf8::{decode_utf8, valid_utf8};

verus! {

/// `str::starts_with` of std with a text pattern: the contract claims that it
/// tells whether `prefix` begins `text`.
#[verifier::external_body]
pub(crate) fn starts_with(text: &str, prefix: &str) -> (r: bool)
    ensures
        r == prefix@.is_prefix_of(text@),
{
    text.starts_with(prefix)
}

/// `String::push` of std: the contract claims that it appends one character.
#[verifier::external_body]
pub(crate) fn push_char(s: &mut String, c: char)
    ensures
        final(s)@ == old(s)@.push(c),
{
    s.push(c)
}

/// `std::str::from_utf8`: the contract claims that it succeeds exactly on
/// valid UTF-8, and then gives the text that the bytes encode.
#[verifier::external_body]
pub(crate) fn utf8_text(bytes: &[u8]) -> (r: Option<&str>)
    ensures
        r is Some <==> valid_utf8(bytes@),
        r matches Some(text) ==> text@ == decode_utf8(bytes@),
{
    std::str::from_utf8(bytes).ok()
}

} // verus!
