//! The closed sum type over all value kinds, its token dispatch and its
//! rendering.

use crate::atom::Atom;
use crate::builtin_atom::BuiltinFunction;
use crate::list_atom::List;
use crate::model::kind_name_of;
use crate::model::kind_of;
use crate::model::parse_number_model;
use crate::model::parse_string_model;
use crate::model::render_items_from;
use crate::model::render_items_model;
use crate::model::render_model;
use crate::model::ValueModel;
use crate::number_atom::Number;
use crate::string_atom::LispString;
use crate::symbol_atom::Symbol;
use crate::token::Token;
use vstd::pervasive::unreached;
use vstd::prelude::*;
use vstd::string::StringExecFns;

verus! {

/// The closed, exhaustive tagged union of the value universe: one tag per
/// variant type, fixed when the layer is composed.  Exactly one tag is
/// active per instance and the tag determines the wrapped concrete type.
/// Values are immutable after construction; equality is structural.
///
/// The declaration order of the tags is also the dispatch order of
/// [`parse_token`]: the specific parsers (string, number) come before the
/// catch-all symbol, so specificity wins over genericity, and the kinds
/// that no token denotes (list, builtin) come last.
#[derive(Debug, PartialEq, Eq)]
pub enum Value {
    Str(LispString),
    Number(Number),
    Symbol(Symbol),
    List(List),
    Builtin(BuiltinFunction),
}

/// The model of a value: the active tag with the model of its payload.
pub open spec fn value_model(v: Value) -> ValueModel
    decreases v,
{
    match v {
        Value::Str(a) => ValueModel::Str(a@),
        Value::Number(a) => ValueModel::Number(a@),
        Value::Symbol(a) => ValueModel::Symbol(a@),
        Value::List(l) => ValueModel::List(vec_models(l.0@)),
        Value::Builtin(b) => ValueModel::Builtin(b.name@, b.op),
    }
}

/// The models of a sequence of values, in order.
pub open spec fn vec_models(s: Seq<Value>) -> Seq<ValueModel>
    decreases s,
{
    if s.len() == 0 {
        Seq::empty()
    } else {
        vec_models(s.drop_last()).push(value_model(s.last()))
    }
}

/// [`vec_models`] maps [`value_model`] over the sequence, element by
/// element.
pub proof fn lemma_vec_models(s: Seq<Value>)
    ensures
        vec_models(s).len() == s.len(),
        forall|i: int| 0 <= i < s.len() ==> vec_models(s)[i] == value_model(#[trigger] s[i]),
    decreases s.len(),
{
    if s.len() > 0 {
        lemma_vec_models(s.drop_last());
        assert(forall|i: int|
            0 <= i < s.len() - 1 ==> #[trigger] s[i] == s.drop_last()[i]);
    }
}

impl View for Value {
    type V = ValueModel;

    open spec fn view(&self) -> ValueModel {
        value_model(*self)
    }
}

impl Value {
    /// The display name of the active variant's kind, forwarded through
    /// the capability contract without a tag switch anywhere else.
    pub fn name(&self) -> (r: &'static str)
        ensures
            r@ == kind_name_of(kind_of(value_model(*self))),
    {
        match self {
            Value::Str(a) => a.name(),
            Value::Number(a) => a.name(),
            Value::Symbol(a) => a.name(),
            Value::List(l) => l.name(),
            Value::Builtin(b) => b.name(),
        }
    }

    /// The REPL rendering of the value, forwarded to the active variant.
    pub fn render(&self) -> (r: String)
        ensures
            r@ == render_model(value_model(*self)),
    {
        render_value(self)
    }
}

/// What token dispatch yields for a given token text: the first variant
/// parser in declaration order that matches, the symbol kind as the
/// guaranteed fallback.  This is a total function: dispatch never yields
/// "no value".
pub open spec fn dispatch_model(text: Seq<char>) -> ValueModel {
    match parse_string_model(text) {
        Some(s) => ValueModel::Str(s),
        None => match parse_number_model(text) {
            Some(v) => ValueModel::Number(v),
            None => ValueModel::Symbol(text),
        },
    }
}

/// Try each variant's parser against the token, in the declared order;
/// the first success wins.  Total: the symbol kind matches every token, so
/// some value always comes back.
pub fn parse_token(token: &Token) -> (v: Value)
    ensures
        value_model(v) == dispatch_model(token@),
{
    if let Some(a) = LispString::parse_from_token(token) {
        return Value::Str(a);
    }
    if let Some(a) = Number::parse_from_token(token) {
        return Value::Number(a);
    }
    match Symbol::parse_from_token(token) {
        Some(a) => Value::Symbol(a),
        None => unreached(),
    }
}

/// Render one value: each atom kind by its own rendering, a list by
/// [`render_list`].
pub fn render_value(v: &Value) -> (r: String)
    ensures
        r@ == render_model(value_model(*v)),
    decreases v,
{
    match v {
        Value::Str(a) => a.render(),
        Value::Number(a) => a.render(),
        Value::Symbol(a) => a.render(),
        Value::List(l) => render_list(l),
        Value::Builtin(b) => b.render(),
    }
}

/// Render a list: the renderings of its elements in parentheses with a
/// single space between neighbours.
pub fn render_list(l: &List) -> (r: String)
    ensures
        r@ == render_model(ValueModel::List(vec_models(l.0@))),
    decreases l,
{
    proof {
        lemma_vec_models(l.0@);
    }
    let ghost items = vec_models(l.0@);
    let mut out: String = String::from_str("(");
    let k: usize = l.0.len();
    if k > 0 {
        let first: String = render_value(&l.0[0]);
        out.append(first.as_str());
        let mut i: usize = 1;
        while i < k
            invariant
                1 <= i <= k,
                k == l.0@.len(),
                items == vec_models(l.0@),
                items.len() == k,
                forall|j: int| 0 <= j < k ==> items[j] == value_model(#[trigger] l.0@[j]),
                out@ + render_items_from(items, i as int) == "("@ + render_items_model(items),
            decreases k - i,
        {
            let w: String = render_value(&l.0[i]);
            proof {
                reveal_strlit(" ");
                assert(" "@ =~= seq![' ']);
                assert(render_items_from(items, i as int) == seq![' '] + render_model(items[i as int])
                    + render_items_from(items, i + 1 as int));
                assert(out@ + " "@ + w@ + render_items_from(items, i + 1 as int) =~= out@
                    + render_items_from(items, i as int));
            }
            out.append(" ");
            out.append(w.as_str());
            i = i + 1;
        }
        proof {
            assert(render_items_from(items, k as int) =~= Seq::<char>::empty());
            assert(out@ =~= out@ + render_items_from(items, k as int));
        }
    } else {
        proof {
            assert(render_items_model(items) =~= Seq::<char>::empty());
            assert(out@ =~= "("@ + render_items_model(items));
        }
    }
    out.append(")");
    proof {
        assert(render_model(ValueModel::List(items)) == "("@ + render_items_model(items) + ")"@);
    }
    out
}

} // verus!
