//! The typed conversion layer between concrete variant types and the sum
//! type.
//!
//! For every variant type there are exactly two operations: a total,
//! injective `widen` into [`Value`] and a fallible `narrow` back out, which
//! succeeds precisely when the active tag is the variant's own.  This layer
//! is the single sanctioned way the rest of the crate extracts a concrete
//! type out of a value; no tag inspection happens outside it and token
//! dispatch.

use crate::atom::Atom;
use crate::builtin_atom::BuiltinFunction;
use crate::builtin_atom::NativeOp;
use crate::list_atom::List;
use crate::model::kind_of;
use crate::model::Kind;
use crate::model::ValueModel;
use crate::number_atom::Number;
use crate::string_atom::LispString;
use crate::symbol_atom::Symbol;
use crate::value::value_model;
use crate::value::Value;
use vstd::prelude::*;

verus! {

/// One variant of the closed sum type: the conversions between the
/// concrete type and [`Value`], together with the laws every
/// implementation must prove about them.
pub trait VariantOf: Atom {
    /// The tag of this variant.
    spec fn kind() -> Kind;

    /// The model of the value that widening an instance produces.
    spec fn widen_model(m: Self::V) -> ValueModel;

    /// What narrowing yields on a value model: the payload's model when
    /// the tag is this variant's own, and nothing otherwise.
    spec fn narrow_model(m: ValueModel) -> Option<Self::V>;

    /// Round-trip law: narrowing a widened instance gives the instance
    /// back.  With [`VariantOf::lemma_narrow_exactly_kind`] this makes
    /// widening injective.
    proof fn lemma_widen_round_trip(m: Self::V)
        ensures
            Self::narrow_model(Self::widen_model(m)) == Some(m),
    ;

    /// Narrowing succeeds exactly on this variant's own tag: on a value
    /// of any other tag it deterministically reports no match.
    proof fn lemma_narrow_exactly_kind(m: ValueModel)
        ensures
            Self::narrow_model(m) is Some <==> kind_of(m) == Self::kind(),
    ;

    /// Widening always produces this variant's own tag.
    proof fn lemma_widen_kind(m: Self::V)
        ensures
            kind_of(Self::widen_model(m)) == Self::kind(),
    ;

    /// Total conversion of an instance into the sum type.
    fn widen(self) -> (v: Value)
        ensures
            value_model(v) == Self::widen_model(self@),
    ;

    /// Fallible conversion back out of the sum type.  No copy is made:
    /// the reference lives as long as the inspected value.
    fn narrow(v: &Value) -> (r: Option<&Self>)
        ensures
            match r {
                Some(a) => Self::narrow_model(value_model(*v)) == Some(a@),
                None => Self::narrow_model(value_model(*v)) is None,
            },
    ;
}

impl VariantOf for LispString {
    open spec fn kind() -> Kind {
        Kind::Str
    }

    open spec fn widen_model(m: Seq<char>) -> ValueModel {
        ValueModel::Str(m)
    }

    open spec fn narrow_model(m: ValueModel) -> Option<Seq<char>> {
        match m {
            ValueModel::Str(s) => Some(s),
            _ => None,
        }
    }

    proof fn lemma_widen_round_trip(m: Seq<char>) {
    }

    proof fn lemma_narrow_exactly_kind(m: ValueModel) {
    }

    proof fn lemma_widen_kind(m: Seq<char>) {
    }

    fn widen(self) -> (v: Value) {
        Value::Str(self)
    }

    fn narrow(v: &Value) -> (r: Option<&Self>) {
        match v {
            Value::Str(a) => Some(a),
            _ => None,
        }
    }
}

impl VariantOf for Number {
    open spec fn kind() -> Kind {
        Kind::Number
    }

    open spec fn widen_model(m: int) -> ValueModel {
        ValueModel::Number(m)
    }

    open spec fn narrow_model(m: ValueModel) -> Option<int> {
        match m {
            ValueModel::Number(n) => Some(n),
            _ => None,
        }
    }

    proof fn lemma_widen_round_trip(m: int) {
    }

    proof fn lemma_narrow_exactly_kind(m: ValueModel) {
    }

    proof fn lemma_widen_kind(m: int) {
    }

    fn widen(self) -> (v: Value) {
        Value::Number(self)
    }

    fn narrow(v: &Value) -> (r: Option<&Self>) {
        match v {
            Value::Number(a) => Some(a),
            _ => None,
        }
    }
}

impl VariantOf for Symbol {
    open spec fn kind() -> Kind {
        Kind::Symbol
    }

    open spec fn widen_model(m: Seq<char>) -> ValueModel {
        ValueModel::Symbol(m)
    }

    open spec fn narrow_model(m: ValueModel) -> Option<Seq<char>> {
        match m {
            ValueModel::Symbol(s) => Some(s),
            _ => None,
        }
    }

    proof fn lemma_widen_round_trip(m: Seq<char>) {
    }

    proof fn lemma_narrow_exactly_kind(m: ValueModel) {
    }

    proof fn lemma_widen_kind(m: Seq<char>) {
    }

    fn widen(self) -> (v: Value) {
        Value::Symbol(self)
    }

    fn narrow(v: &Value) -> (r: Option<&Self>) {
        match v {
            Value::Symbol(a) => Some(a),
            _ => None,
        }
    }
}

impl VariantOf for List {
    open spec fn kind() -> Kind {
        Kind::List
    }

    open spec fn widen_model(m: Seq<ValueModel>) -> ValueModel {
        ValueModel::List(m)
    }

    open spec fn narrow_model(m: ValueModel) -> Option<Seq<ValueModel>> {
        match m {
            ValueModel::List(items) => Some(items),
            _ => None,
        }
    }

    proof fn lemma_widen_round_trip(m: Seq<ValueModel>) {
    }

    proof fn lemma_narrow_exactly_kind(m: ValueModel) {
    }

    proof fn lemma_widen_kind(m: Seq<ValueModel>) {
    }

    fn widen(self) -> (v: Value) {
        Value::List(self)
    }

    fn narrow(v: &Value) -> (r: Option<&Self>) {
        match v {
            Value::List(a) => Some(a),
            _ => None,
        }
    }
}

impl VariantOf for BuiltinFunction {
    open spec fn kind() -> Kind {
        Kind::Builtin
    }

    open spec fn widen_model(m: (Seq<char>, NativeOp)) -> ValueModel {
        ValueModel::Builtin(m.0, m.1)
    }

    open spec fn narrow_model(m: ValueModel) -> Option<(Seq<char>, NativeOp)> {
        match m {
            ValueModel::Builtin(name, op) => Some((name, op)),
            _ => None,
        }
    }

    proof fn lemma_widen_round_trip(m: (Seq<char>, NativeOp)) {
        assert((m.0, m.1) =~= m);
    }

    proof fn lemma_narrow_exactly_kind(m: ValueModel) {
    }

    proof fn lemma_widen_kind(m: (Seq<char>, NativeOp)) {
    }

    fn widen(self) -> (v: Value) {
        Value::Builtin(self)
    }

    fn narrow(v: &Value) -> (r: Option<&Self>) {
        match v {
            Value::Builtin(a) => Some(a),
            _ => None,
        }
    }
}

} // verus!
