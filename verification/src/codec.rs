//! Conversions between bytes and text that the flow needs and does not
//! implement itself.

use vstd::prelude::*;
use vstd::utf8::{decode_utf8, valid_utf8};

verus! {

/// `std::string::FromUtf8Error`, as a value that is only handed on.
#[verifier::external_type_specification]
#[verifier::external_body]
pub struct ExFromUtf8Error(std::string::FromUtf8Error);

/// The standard base64 text, with padding, that `base64::encode` writes for
/// the bytes of a string.
pub uninterp spec fn base64_text(input: Seq<char>) -> Seq<char>;

/// Calls `String::from_utf8`, which succeeds exactly on valid UTF-8 and
/// then holds the characters that the bytes encode.
#[verifier::external_body]
pub(crate) fn string_from_utf8(bytes: Vec<u8>) -> (text: Result<
    String,
    std::string::FromUtf8Error,
>)
    ensures
        text is Ok <==> valid_utf8(bytes@),
        text matches Ok(s) ==> s@ == decode_utf8(bytes@),
{
    String::from_utf8(bytes)
}

/// Calls `base64::encode` on the bytes of `input`. Claims only that the
/// result depends on the input alone.
#[verifier::external_body]
pub(crate) fn base64_encode(input: &str) -> (encoded: String)
    ensures
        encoded@ == base64_text(input@),
{
    base64::encode(input)
}

} // verus!
