//! What can go wrong, none of it fatal.

use vstd::prelude::*;

verus! {

/// The conditions under which the reader leaves its document as it was.
#[derive(Clone, Copy, PartialEq, Eq, Debug, Structural)]
pub enum ReaderError {
    /// The dropped file does not declare itself as plain text.
    UnsupportedMime,
    /// The bytes of an accepted file are not well-formed UTF-8.
    DecodeError,
    /// The loaded document holds no word.
    EmptyDocument,
}

} // verus!
