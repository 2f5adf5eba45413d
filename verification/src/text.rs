//! Text fields: strings carried on the wire as their UTF-8 bytes.
use vstd::prelude::*;

verus! {

/// The text with which `String::from_utf8` reports bytes that are not UTF-8
/// (the `Display` form of its error), for the given bytes.
pub uninterp spec fn utf8_error_text(bytes: Seq<u8>) -> Seq<char>;

/// `String::from_utf8`: the string whose UTF-8 encoding the bytes are, when
/// they are valid UTF-8; otherwise the text of the error, as `Display` writes it.
#[verifier::external_body]
pub(crate) fn utf8_to_string(bytes: Vec<u8>) -> (res: Result<String, String>)
    ensures
        res is Ok <==> vstd::utf8::valid_utf8(bytes@),
        res matches Ok(s) ==> s@ == vstd::utf8::decode_utf8(bytes@),
        res matches Err(m) ==> m@ == utf8_error_text(bytes@),
{
    match String::from_utf8(bytes) {
        Ok(s) => Ok(s),
        Err(e) => Err(e.to_string()),
    }
}

/// `String::as_bytes`: the UTF-8 encoding of the string.
#[verifier::external_body]
pub(crate) fn string_as_bytes(s: &String) -> (res: &[u8])
    ensures
        res@ == vstd::utf8::encode_utf8(s@),
{
    s.as_bytes()
}

/// `String::as_str`: the same characters as a string slice.
#[verifier::external_body]
pub(crate) fn string_as_str(s: &String) -> (res: &str)
    ensures
        res@ == s@,
{
    s.as_str()
}

} // verus!
