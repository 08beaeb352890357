//! The string value kind contributed by this extension layer.

use crate::atom::Atom;
use crate::model::parse_string_model;
use crate::model::render_string_model;
use crate::token::Token;
use vstd::prelude::*;
use vstd::string::StrSliceExecFns;
use vstd::string::StringExecFns;

verus! {

/// A text string in the value universe.
#[derive(Clone, Debug, PartialEq, Eq)]
pub struct LispString(pub String);

impl View for LispString {
    type V = Seq<char>;

    open spec fn view(&self) -> Seq<char> {
        self.0@
    }
}

impl Atom for LispString {
    open spec fn kind_name() -> Seq<char> {
        "string"@
    }

    open spec fn name_spec(&self) -> Seq<char> {
        Self::kind_name()
    }

    open spec fn parse_spec(text: Seq<char>) -> Option<Seq<char>> {
        parse_string_model(text)
    }

    open spec fn render_spec(m: Seq<char>) -> Seq<char> {
        render_string_model(m)
    }

    fn sized_name() -> (r: &'static str) {
        "string"
    }

    fn name(&self) -> (r: &'static str) {
        "string"
    }

    /// A token is a string exactly when it is wrapped in one double quote
    /// on each side; the match keeps the contents between them.
    fn parse_from_token(token: &Token) -> (r: Option<Self>) {
        let s: &str = token.text.as_str();
        let n: usize = s.unicode_len();
        if n >= 2 && s.get_char(0) == '"' && s.get_char(n - 1) == '"' {
            let contents: &str = s.substring_char(1, n - 1);
            Some(LispString(String::from_str(contents)))
        } else {
            None
        }
    }

    /// Contents in double quotes, wrapped in the terminal escape for
    /// italic red.
    fn render(&self) -> (r: String) {
        let mut out: String = String::from_str("\x1b[3;31m\"");
        out.append(self.0.as_str());
        out.append("\"\x1b[0m");
        out
    }
}

} // verus!
