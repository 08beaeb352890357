//! The builtin adapter: native functions exposed under the evaluator's
//! uniform calling convention.
//!
//! Two wrapping shapes exist, as the host convention asks: a native
//! function may take the raw argument sequence and the environment handle
//! directly ([`split`]), or it may be strictly typed ([`upper`]) with the
//! adapter narrowing its argument and widening its result.  Both shapes
//! run the same arity and narrowing steps, so a given mismatch produces
//! the same error value - and so the same message - no matter how the
//! builtin was wrapped; [`apply_builtin`] is the one model both are held
//! to.

use crate::atom::Atom;
use crate::builtin_atom::BuiltinFunction;
use crate::builtin_atom::NativeOp;
use crate::convert::VariantOf;
use crate::environment::Environment;
use crate::list_atom::List;
use crate::model::ValueModel;
use crate::string_atom::LispString;
use crate::text::split_whitespace_of;
use crate::text::split_ws;
use crate::text::to_uppercase_str;
use crate::text::upper_of;
use crate::value::lemma_vec_models;
use crate::value::value_model;
use crate::value::vec_models;
use crate::value::Value;
use vstd::prelude::*;
use vstd::string::StringExecFns;

verus! {

/// The model of one failed builtin invocation.
pub ghost enum ErrorModel {
    /// The argument count differed from what the native function expects.
    Arity { op: NativeOp },
    /// An argument's active tag was not the expected kind.
    Mismatch { op: NativeOp, expected: Seq<char> },
}

/// A descriptive failure returned to the evaluator: never a panic, never
/// an abort.  It names the operation and, for a type mismatch, the
/// expected kind, so it stays debuggable at the REPL.
#[derive(Debug, PartialEq, Eq)]
pub enum EvalError {
    ArityMismatch { op: NativeOp },
    TypeMismatch { op: NativeOp, expected: String },
}

impl View for EvalError {
    type V = ErrorModel;

    open spec fn view(&self) -> ErrorModel {
        match self {
            EvalError::ArityMismatch { op } => ErrorModel::Arity { op: *op },
            EvalError::TypeMismatch { op, expected } => ErrorModel::Mismatch {
                op: *op,
                expected: expected@,
            },
        }
    }
}

/// The capitalized operation name used in arity messages.
pub open spec fn op_display_name(op: NativeOp) -> Seq<char> {
    match op {
        NativeOp::Split => "Split"@,
        NativeOp::Upper => "Upper"@,
    }
}

/// The plain operation name used in type-mismatch messages, the same one
/// the builtin is registered under.
pub open spec fn op_lower_name(op: NativeOp) -> Seq<char> {
    match op {
        NativeOp::Split => "split"@,
        NativeOp::Upper => "upper"@,
    }
}

/// The message text of a failure.
pub open spec fn message_model(e: ErrorModel) -> Seq<char> {
    match e {
        ErrorModel::Arity { op } => op_display_name(op) + " needs a single argument"@,
        ErrorModel::Mismatch { op, expected } => "Argument to "@ + op_lower_name(op)
            + " must be a "@ + expected,
    }
}

fn op_display_str(op: NativeOp) -> (r: &'static str)
    ensures
        r@ == op_display_name(op),
{
    match op {
        NativeOp::Split => "Split",
        NativeOp::Upper => "Upper",
    }
}

fn op_lower_str(op: NativeOp) -> (r: &'static str)
    ensures
        r@ == op_lower_name(op),
{
    match op {
        NativeOp::Split => "split",
        NativeOp::Upper => "upper",
    }
}

impl EvalError {
    /// The human-readable message of the failure.
    pub fn message(&self) -> (r: String)
        ensures
            r@ == message_model(self@),
    {
        match self {
            EvalError::ArityMismatch { op } => {
                let mut out: String = String::from_str(op_display_str(*op));
                out.append(" needs a single argument");
                out
            },
            EvalError::TypeMismatch { op, expected } => {
                let mut out: String = String::from_str("Argument to ");
                out.append(op_lower_str(*op));
                out.append(" must be a ");
                out.append(expected.as_str());
                out
            },
        }
    }
}

/// Each word as a string-kind value, in order.
pub open spec fn str_models(words: Seq<Seq<char>>) -> Seq<ValueModel> {
    words.map_values(|w: Seq<char>| ValueModel::Str(w))
}

/// What a native entry point computes from the contents of its single
/// string argument.
pub open spec fn apply_native(op: NativeOp, s: Seq<char>) -> ValueModel {
    match op {
        NativeOp::Split => ValueModel::List(str_models(split_ws(s))),
        NativeOp::Upper => ValueModel::Str(upper_of(s)),
    }
}

/// What one builtin invocation returns for every argument sequence: the
/// arity error when the count is not one, the type-mismatch error when
/// the single argument is not string-kind, and the native result
/// otherwise.
pub open spec fn apply_builtin(op: NativeOp, args: Seq<ValueModel>) -> Result<
    ValueModel,
    ErrorModel,
> {
    if args.len() != 1 {
        Err(ErrorModel::Arity { op })
    } else {
        match args[0] {
            ValueModel::Str(s) => Ok(apply_native(op, s)),
            _ => Err(ErrorModel::Mismatch { op, expected: "string"@ }),
        }
    }
}

/// The model of an invocation's outcome.
pub open spec fn result_model(r: Result<Value, EvalError>) -> Result<ValueModel, ErrorModel> {
    match r {
        Ok(v) => Ok(value_model(v)),
        Err(e) => Err(e@),
    }
}

/// The arity step shared by both wrapping shapes: these builtins take
/// exactly one argument.
fn check_single(op: NativeOp, arguments: &[Value]) -> (r: Result<(), EvalError>)
    ensures
        r is Ok <==> arguments@.len() == 1,
        r matches Err(e) ==> e@ == (ErrorModel::Arity { op }),
{
    if arguments.len() == 1 {
        Ok(())
    } else {
        Err(EvalError::ArityMismatch { op })
    }
}

/// The narrowing step shared by both wrapping shapes: the argument must
/// be string-kind, and the failure names the position's expected kind.
fn narrow_string_argument<'a>(op: NativeOp, v: &'a Value) -> (r: Result<&'a LispString, EvalError>)
    ensures
        match r {
            Ok(a) => value_model(*v) == ValueModel::Str(a@),
            Err(e) => !(value_model(*v) is Str) && e@ == (ErrorModel::Mismatch {
                op,
                expected: "string"@,
            }),
        },
{
    match LispString::narrow(v) {
        Some(a) => Ok(a),
        None => Err(
            EvalError::TypeMismatch { op, expected: String::from_str(LispString::sized_name()) },
        ),
    }
}

/// The native function behind the `split` builtin, in the raw shape: it
/// takes the uniform argument sequence and the environment handle
/// itself.  It needs a single string argument; on success it returns the
/// list of that string's whitespace-separated words, each a string-kind
/// value, and it leaves the environment untouched.
pub fn split(arguments: &[Value], env: &mut Environment) -> (r: Result<Value, EvalError>)
    ensures
        *final(env) == *old(env),
        result_model(r) == apply_builtin(NativeOp::Split, vec_models(arguments@)),
{
    proof {
        lemma_vec_models(arguments@);
    }
    match check_single(NativeOp::Split, arguments) {
        Err(e) => {
            return Err(e);
        },
        Ok(_) => {},
    }
    let argument: &LispString = match narrow_string_argument(NativeOp::Split, &arguments[0]) {
        Ok(a) => a,
        Err(e) => {
            return Err(e);
        },
    };
    let ghost contents = argument@;
    let words: Vec<String> = split_whitespace_of(argument.0.as_str());
    let mut elems: Vec<Value> = Vec::new();
    let k: usize = words.len();
    let mut idx: usize = 0;
    while idx < k
        invariant
            idx <= k,
            k == words@.len(),
            words.deep_view() == split_ws(contents),
            elems@.len() == idx,
            forall|j: int|
                0 <= j < idx ==> value_model(#[trigger] elems@[j]) == ValueModel::Str(
                    words.deep_view()[j],
                ),
        decreases k - idx,
    {
        let w: LispString = LispString(words[idx].clone());
        elems.push(w.widen());
        idx = idx + 1;
    }
    let result: Value = List(elems).widen();
    proof {
        lemma_vec_models(elems@);
        assert forall|j: int| 0 <= j < vec_models(elems@).len() implies vec_models(elems@)[j]
            == str_models(split_ws(contents))[j] by {
            assert(vec_models(elems@)[j] == value_model(elems@[j]));
            assert(words.deep_view()[j] == split_ws(contents)[j]);
        }
        assert(vec_models(elems@) =~= str_models(split_ws(contents)));
    }
    Ok(result)
}

/// The native function behind the `upper` builtin, in the strictly typed
/// shape: one string in, its Unicode uppercase transform out.  Its own
/// logic never fails; arity and kind checking are the adapter's steps.
pub fn upper(argument: &LispString) -> (r: Result<LispString, EvalError>)
    ensures
        r matches Ok(out) && out@ == upper_of(argument@),
{
    Ok(LispString(to_uppercase_str(argument.0.as_str())))
}

impl BuiltinFunction {
    /// Invoke the builtin under the uniform convention: arity check, then
    /// per-argument narrowing, then the native body, then widening of its
    /// result - with the native function's own failure, had it one,
    /// passed through unchanged.
    pub fn call(&self, arguments: &[Value], env: &mut Environment) -> (r: Result<Value, EvalError>)
        ensures
            *final(env) == *old(env),
            result_model(r) == apply_builtin(self.op, vec_models(arguments@)),
    {
        proof {
            lemma_vec_models(arguments@);
        }
        match self.op {
            NativeOp::Split => split(arguments, env),
            NativeOp::Upper => {
                match check_single(NativeOp::Upper, arguments) {
                    Err(e) => {
                        return Err(e);
                    },
                    Ok(_) => {},
                }
                let argument: &LispString = match narrow_string_argument(
                    NativeOp::Upper,
                    &arguments[0],
                ) {
                    Ok(a) => a,
                    Err(e) => {
                        return Err(e);
                    },
                };
                match upper(argument) {
                    Ok(out) => Ok(out.widen()),
                    Err(e) => Err(e),
                }
            },
        }
    }
}

} // verus!
