//! The content transformation: fetched bytes, read as UTF-8 text, in upper
//! case.

use vstd::prelude::*;
use vstd::utf8::{decode_utf8, encode_utf8, valid_utf8};
use vstd::string::StrSliceExecFns;
use crate::error::HandlerError;

verus! {

/// The upper-case form of a text as `str::to_uppercase` gives it: each
/// character replaced by its upper-case mapping of the Unicode tables, with no
/// regard to a locale.
pub uninterp spec fn uppercase_of(text: Seq<char>) -> Seq<char>;

/// `str::to_uppercase`. The result depends on the text alone and is known
/// here only by its name.
#[verifier::external_body]
fn upper(text: &str) -> (shout: String)
    ensures
        shout@ == uppercase_of(text@),
{
    text.to_uppercase()
}

/// `String::from_utf8`. It accepts exactly the well-formed UTF-8 byte
/// sequences, and the string it gives then holds the characters that the
/// bytes encode.
#[verifier::external_body]
fn text_of(bytes: Vec<u8>) -> (text: Option<String>)
    ensures
        text is Some <==> valid_utf8(bytes@),
        text matches Some(s) ==> s@ == decode_utf8(bytes@),
{
    match String::from_utf8(bytes) {
        Ok(s) => Some(s),
        Err(_) => None,
    }
}

/// What the transformation makes of a body: nothing where the body is not
/// UTF-8, else its text in upper case.
pub open spec fn transformed_text(body: Seq<u8>) -> Option<Seq<char>> {
    if valid_utf8(body) {
        Some(uppercase_of(decode_utf8(body)))
    } else {
        None
    }
}

/// The bytes that go back for a body: the UTF-8 encoding of its transformed
/// text.
pub open spec fn transformed_bytes(body: Seq<u8>) -> Option<Seq<u8>> {
    match transformed_text(body) {
        Some(text) => Some(encode_utf8(text)),
        None => None,
    }
}

/// Reads `body` as UTF-8 and puts it in upper case. A body that is not UTF-8
/// is an encoding failure; nothing of it is decoded.
pub fn transform(body: Vec<u8>) -> (out: Result<String, HandlerError>)
    ensures
        match out {
            Ok(text) => transformed_text(body@) == Some(text@),
            Err(error) => transformed_text(body@) is None && error == HandlerError::Encoding,
        },
{
    match text_of(body) {
        Some(text) => Ok(upper(text.as_str())),
        None => Err(HandlerError::Encoding),
    }
}

/// The text after the transformation has been applied to it `rounds` times.
pub open spec fn uppercase_times(text: Seq<char>, rounds: nat) -> Seq<char>
    decreases rounds,
{
    if rounds == 0 {
        text
    } else {
        uppercase_of(uppercase_times(text, (rounds - 1) as nat))
    }
}

/// A text that the transformation leaves as it is stays as it is however
/// often the transformation is applied. Which texts these are is a matter of
/// the Unicode tables and is not stated here.
pub proof fn law_settled_text_stays(text: Seq<char>, rounds: nat)
    requires
        uppercase_of(text) == text,
    ensures
        uppercase_times(text, rounds) == text,
    decreases rounds,
{
    if rounds > 0 {
        law_settled_text_stays(text, (rounds - 1) as nat);
    }
}

/// The bytes of a text, as they are sent.
pub fn encode(text: &String) -> (bytes: Vec<u8>)
    ensures
        bytes@ == encode_utf8(text@),
{
    text.as_str().as_bytes_vec()
}

} // verus!
