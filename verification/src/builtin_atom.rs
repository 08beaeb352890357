//! The value kind that carries a builtin function.

use crate::atom::Atom;
use crate::token::Token;
use vstd::prelude::*;

verus! {

/// Which native entry point a builtin function record carries.  The set of
/// native functions is fixed when the layer is composed, so the entry point
/// is one case of a closed enumeration and the uniform-convention adapter
/// dispatches on it.
#[derive(Clone, Copy, Debug, PartialEq, Eq)]
pub enum NativeOp {
    /// Splits a string value on runs of whitespace; takes the raw argument
    /// sequence and the environment handle directly.
    Split,
    /// Uppercases a string value; a strictly typed native function wrapped
    /// by the adapter.
    Upper,
}

/// A builtin function record: the name it is registered and displayed
/// under, paired with its native entry point.  Immutable after
/// construction.
#[derive(Clone, Debug, PartialEq, Eq)]
pub struct BuiltinFunction {
    pub name: String,
    pub op: NativeOp,
}

impl View for BuiltinFunction {
    type V = (Seq<char>, NativeOp);

    open spec fn view(&self) -> (Seq<char>, NativeOp) {
        (self.name@, self.op)
    }
}

impl BuiltinFunction {
    /// Pair a display name with a native entry point.
    pub fn new(name: String, op: NativeOp) -> (b: BuiltinFunction)
        ensures
            b@ == (name@, op),
    {
        BuiltinFunction { name, op }
    }
}

impl Atom for BuiltinFunction {
    open spec fn kind_name() -> Seq<char> {
        "builtin"@
    }

    open spec fn name_spec(&self) -> Seq<char> {
        Self::kind_name()
    }

    open spec fn parse_spec(text: Seq<char>) -> Option<(Seq<char>, NativeOp)> {
        None
    }

    open spec fn render_spec(m: (Seq<char>, NativeOp)) -> Seq<char> {
        m.0
    }

    fn sized_name() -> (r: &'static str) {
        "builtin"
    }

    fn name(&self) -> (r: &'static str) {
        "builtin"
    }

    /// No token denotes a builtin function: the trial always reports no
    /// match, as the parse contract allows.
    fn parse_from_token(token: &Token) -> (r: Option<Self>) {
        None
    }

    /// A builtin renders as the name it was registered under.
    fn render(&self) -> (r: String) {
        self.name.clone()
    }
}

} // verus!
