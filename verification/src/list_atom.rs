//! The composite list value kind.

use crate::atom::Atom;
use crate::model::render_items_model;
use crate::model::ValueModel;
use crate::token::Token;
use crate::value::render_list;
use crate::value::vec_models;
use crate::value::Value;
use vstd::prelude::*;

verus! {

/// An ordered sequence of values.  Lists are built by evaluation, never by
/// parsing a single token: the reader assembles them from parentheses
/// before any variant parser runs.
#[derive(Debug, PartialEq, Eq)]
pub struct List(pub Vec<Value>);

impl View for List {
    type V = Seq<ValueModel>;

    open spec fn view(&self) -> Seq<ValueModel> {
        vec_models(self.0@)
    }
}

impl Atom for List {
    open spec fn kind_name() -> Seq<char> {
        "list"@
    }

    open spec fn name_spec(&self) -> Seq<char> {
        Self::kind_name()
    }

    open spec fn parse_spec(text: Seq<char>) -> Option<Seq<ValueModel>> {
        None
    }

    open spec fn render_spec(m: Seq<ValueModel>) -> Seq<char> {
        "("@ + render_items_model(m) + ")"@
    }

    fn sized_name() -> (r: &'static str) {
        "list"
    }

    fn name(&self) -> (r: &'static str) {
        "list"
    }

    /// No single token denotes a list: the trial always reports no match.
    fn parse_from_token(token: &Token) -> (r: Option<Self>) {
        None
    }

    /// The elements in parentheses, separated by single spaces.
    fn render(&self) -> (r: String) {
        render_list(self)
    }
}

} // verus!
