//! Decoding the bytes of a loaded file.

use vstd::prelude::*;
use vstd::utf8::{decode_utf8, valid_utf8};
use crate::error::ReaderError;

verus! {

/// What the bytes of a file decode to: the characters that they encode in
/// UTF-8, or a decoding failure where they are not well-formed.
pub open spec fn decoded(data: Seq<u8>) -> Result<Seq<char>, ReaderError> {
    if valid_utf8(data) {
        Ok(decode_utf8(data))
    } else {
        Err(ReaderError::DecodeError)
    }
}

/// The characters inside the result of parsing.
pub open spec fn parsed_text(parsed: Result<String, ReaderError>) -> Result<
    Seq<char>,
    ReaderError,
> {
    match parsed {
        Ok(text) => Ok(text@),
        Err(e) => Err(e),
    }
}

/// Decodes the bytes of the file named `id` as UTF-8 text. The name plays
/// no part in it.
pub fn parse_text(id: &str, data: Vec<u8>) -> (parsed: Result<String, ReaderError>)
    ensures
        parsed_text(parsed) == decoded(data@),
{
    match String::from_utf8(data) {
        Ok(text) => Ok(text),
        Err(_) => Err(ReaderError::DecodeError),
    }
}

} // verus!
