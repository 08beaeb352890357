//! The laws of the conversion layer and of token dispatch.
//!
//! Each law is stated once, over the models that the executable
//! contracts speak of, so it covers every variant type and every token
//! at once.

use crate::atom::Atom;
use crate::convert::VariantOf;
use crate::model::kind_of;
use crate::model::parse_number_model;
use crate::model::parse_string_model;
use crate::model::ValueModel;
use crate::symbol_atom::Symbol;
use crate::value::dispatch_model;
use vstd::prelude::*;

verus! {

/// Round-trip law: for every variant type and every instance of it,
/// narrowing the widened instance succeeds and yields the instance
/// again.  Widening therefore loses no information.
pub proof fn lemma_narrow_widen<T: VariantOf>(m: T::V)
    ensures
        T::narrow_model(T::widen_model(m)) == Some(m),
{
    T::lemma_widen_round_trip(m);
}

/// Widening is injective: two instances that widen to the same value
/// are the same instance, so no information is lost in the sum type.
pub proof fn lemma_widen_injective<T: VariantOf>(a: T::V, b: T::V)
    requires
        T::widen_model(a) == T::widen_model(b),
    ensures
        a == b,
{
    T::lemma_widen_round_trip(a);
    T::lemma_widen_round_trip(b);
}

/// Non-matching law: narrowing a value whose active tag is not the
/// variant's own deterministically yields nothing.
pub proof fn lemma_narrow_other_kind<T: VariantOf>(m: ValueModel)
    requires
        kind_of(m) != T::kind(),
    ensures
        T::narrow_model(m) is None,
{
    T::lemma_narrow_exactly_kind(m);
}

/// Dispatch totality: a token that no specific-purpose parser
/// recognizes still becomes a value, through the symbol fallback, whose
/// own trial recognizes every token.  Dispatch never yields "no value".
pub proof fn lemma_dispatch_total(text: Seq<char>)
    requires
        parse_string_model(text) is None,
        parse_number_model(text) is None,
    ensures
        dispatch_model(text) == ValueModel::Symbol(text),
        <Symbol as Atom>::parse_spec(text) == Some(text),
{
}

/// Dispatch precedence: a token the string parser recognizes becomes a
/// string value, although the fallback recognizes it as well - the
/// earlier-declared parser wins.
pub proof fn lemma_dispatch_prefers_string(text: Seq<char>, s: Seq<char>)
    requires
        parse_string_model(text) == Some(s),
    ensures
        dispatch_model(text) == ValueModel::Str(s),
        <Symbol as Atom>::parse_spec(text) == Some(text),
{
}

/// Dispatch precedence for the number parser: when the string parser
/// passes and the number parser matches, the token becomes a number
/// value, not the symbol the fallback would have made of it.
pub proof fn lemma_dispatch_prefers_number(text: Seq<char>, v: int)
    requires
        parse_string_model(text) is None,
        parse_number_model(text) == Some(v),
    ensures
        dispatch_model(text) == ValueModel::Number(v),
        <Symbol as Atom>::parse_spec(text) == Some(text),
{
}

} // verus!
