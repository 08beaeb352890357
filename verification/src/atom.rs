//! The capability contract every value kind satisfies.

use crate::token::Token;
use vstd::prelude::*;

verus! {

/// The capability contract of a value kind: a type-level display name, an
/// instance-level display name, a parsing trial against one token, and a
/// human-readable rendering.
///
/// Parsing is a trial, not an assertion: it is total (it always returns a
/// definite match or no-match and never panics, which is why
/// `parse_from_token` carries no precondition) and deterministic (the
/// outcome is fixed by [`Atom::parse_spec`], a function of the token text
/// alone).  Rendering is purely cosmetic: nothing in equality or conversion
/// depends on it.
pub trait Atom: View + Sized {
    /// The display name of the kind itself, independent of any instance.
    spec fn kind_name() -> Seq<char>;

    /// The display name of one instance.  Normally the kind's own name,
    /// but an implementation may let it differ.
    spec fn name_spec(&self) -> Seq<char>;

    /// Which token texts this kind recognizes, and the model of the
    /// instance each recognized text constructs.
    spec fn parse_spec(text: Seq<char>) -> Option<Self::V>;

    /// What an instance with the given model renders as.
    spec fn render_spec(m: Self::V) -> Seq<char>;

    /// The type-level display name, for error messages and introspection.
    fn sized_name() -> (r: &'static str)
        ensures
            r@ == Self::kind_name(),
    ;

    /// The instance-level display name.
    fn name(&self) -> (r: &'static str)
        ensures
            r@ == self.name_spec(),
    ;

    /// Try to construct an instance from one token.
    fn parse_from_token(token: &Token) -> (r: Option<Self>)
        ensures
            match r {
                Some(a) => Self::parse_spec(token@) == Some(a@),
                None => Self::parse_spec(token@) is None,
            },
    ;

    /// The human-readable rendering, for REPL echo and error messages.
    fn render(&self) -> (r: String)
        ensures
            r@ == Self::render_spec(self@),
    ;
}

} // verus!
