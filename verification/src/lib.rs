//! A value-kind extension layer for a small lisp host.
//!
//! The host runtime supplies the reader, the evaluator, the scope chain and
//! the REPL; this crate supplies the closed value universe they operate on:
//! the capability contract every value kind satisfies ([`atom::Atom`]), the
//! closed sum type over all kinds, the typed conversion layer between a
//! concrete kind and the sum type, the ordered token dispatch, and the
//! adapter that exposes native functions under the evaluator's uniform
//! calling convention.

pub mod atom;
pub mod builtin_atom;
pub mod builtins;
pub mod convert;
pub mod environment;
pub mod laws;
pub mod list_atom;
pub mod model;
pub mod number_atom;
pub mod string_atom;
pub mod symbol_atom;
pub mod text;
pub mod token;
pub mod value;

pub use atom::Atom;
pub use builtin_atom::BuiltinFunction;
pub use builtin_atom::NativeOp;
pub use builtins::split;
pub use builtins::upper;
pub use builtins::EvalError;
pub use convert::VariantOf;
pub use environment::set_environment;
pub use environment::Environment;
pub use list_atom::List;
pub use number_atom::Number;
pub use string_atom::LispString;
pub use symbol_atom::Symbol;
pub use token::Token;
pub use value::parse_token;
pub use value::Value;
