//! The symbol value kind: the catch-all fallback of token dispatch.

use crate::atom::Atom;
use crate::token::Token;
use vstd::prelude::*;

verus! {

/// A bare symbol.  Its parser recognizes every token, so declaring it last
/// in the dispatch order makes the overall parse entry point total.
#[derive(Clone, Debug, PartialEq, Eq)]
pub struct Symbol(pub String);

impl View for Symbol {
    type V = Seq<char>;

    open spec fn view(&self) -> Seq<char> {
        self.0@
    }
}

impl Atom for Symbol {
    open spec fn kind_name() -> Seq<char> {
        "symbol"@
    }

    open spec fn name_spec(&self) -> Seq<char> {
        Self::kind_name()
    }

    /// Every token text is a symbol: the guaranteed match that backs
    /// dispatch totality.
    open spec fn parse_spec(text: Seq<char>) -> Option<Seq<char>> {
        Some(text)
    }

    open spec fn render_spec(m: Seq<char>) -> Seq<char> {
        m
    }

    fn sized_name() -> (r: &'static str) {
        "symbol"
    }

    fn name(&self) -> (r: &'static str) {
        "symbol"
    }

    fn parse_from_token(token: &Token) -> (r: Option<Self>) {
        Some(Symbol(token.text.clone()))
    }

    /// A symbol renders as its own text, with no decoration.
    fn render(&self) -> (r: String) {
        self.0.clone()
    }
}

} // verus!
