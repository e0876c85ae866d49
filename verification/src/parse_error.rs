//! What can go wrong while a text is read.

use vstd::prelude::*;

verus! {

/// An error of the tokenizer or of the parser. `L` is a place in the text,
/// `T` a token, `E` an error of the user's own.
#[derive(Debug, PartialEq, Eq)]
#[allow(inconsistent_fields)]
pub enum ParseError<L, T, E> {
    /// The text at `location` is no token.
    InvalidToken { location: L },
    /// The token was not expected where it stands; `None` stands for the
    /// end of the text.
    UnrecognizedToken { token: Option<(L, T, L)>, expected: Vec<String> },
    /// The text goes on behind what was to be read.
    ExtraToken { token: (L, T, L) },
    /// An error of the user's own.
    User { error: E },
}

} // verus!
