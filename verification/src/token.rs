//! The lexical unit handed in by the host reader.

use vstd::prelude::*;

verus! {

/// One lexical unit produced by the host's reader: a bare slice of text.
/// A token is immutable once produced; every variant parser reads it and
/// nothing in this crate writes it.
pub struct Token {
    pub text: String,
}

impl View for Token {
    type V = Seq<char>;

    open spec fn view(&self) -> Seq<char> {
        self.text@
    }
}

impl Token {
    /// Wrap raw text from the reader as a token.
    pub fn new(text: String) -> (t: Token)
        ensures
            t@ == text@,
    {
        Token { text }
    }
}

} // verus!
