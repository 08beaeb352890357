//! A minimal name-to-value mapping and the registration of this layer's
//! builtins.
//!
//! The host evaluator owns scoping; this crate only writes builtin
//! entries into a mapping it is handed and reads values back out.  The
//! mapping here is the flat shape that suffices for that: later entries
//! shadow earlier ones, and nothing nests.

use crate::builtin_atom::BuiltinFunction;
use crate::builtin_atom::NativeOp;
use crate::convert::VariantOf;
use crate::model::ValueModel;
use crate::value::value_model;
use crate::value::Value;
use vstd::prelude::*;
use vstd::string::StringExecFns;

verus! {

/// A mutable name-to-value mapping.
pub struct Environment {
    pub entries: Vec<(String, Value)>,
}

impl View for Environment {
    type V = Seq<(Seq<char>, ValueModel)>;

    open spec fn view(&self) -> Seq<(Seq<char>, ValueModel)> {
        Seq::new(
            self.entries@.len(),
            |i: int| (self.entries@[i].0@, value_model(self.entries@[i].1)),
        )
    }
}

/// The value bound to a name: the latest binding wins, and an unbound
/// name has none.
pub open spec fn lookup_model(
    entries: Seq<(Seq<char>, ValueModel)>,
    name: Seq<char>,
) -> Option<ValueModel>
    decreases entries.len(),
{
    if entries.len() == 0 {
        None
    } else if entries.last().0 == name {
        Some(entries.last().1)
    } else {
        lookup_model(entries.drop_last(), name)
    }
}

impl Environment {
    /// An empty mapping.
    pub fn new() -> (e: Environment)
        ensures
            e@ == Seq::<(Seq<char>, ValueModel)>::empty(),
    {
        let e = Environment { entries: Vec::new() };
        proof {
            assert(e@ =~= Seq::<(Seq<char>, ValueModel)>::empty());
        }
        e
    }

    /// Bind a name to a value; an existing binding of the same name is
    /// shadowed, not removed.
    pub fn define(&mut self, name: String, value: Value)
        ensures
            final(self)@ == old(self)@.push((name@, value_model(value))),
    {
        let ghost n = name@;
        let ghost vm = value_model(value);
        self.entries.push((name, value));
        proof {
            assert(self@ =~= old(self)@.push((n, vm)));
        }
    }

    /// Read the value bound to a name, if any.
    pub fn lookup(&self, name: &String) -> (r: Option<&Value>)
        ensures
            match r {
                Some(v) => lookup_model(self@, name@) == Some(value_model(*v)),
                None => lookup_model(self@, name@) is None,
            },
    {
        let mut i: usize = self.entries.len();
        proof {
            assert(self@.take(i as int) =~= self@);
        }
        while i > 0
            invariant
                i <= self.entries@.len(),
                lookup_model(self@, name@) == lookup_model(self@.take(i as int), name@),
            decreases i,
    {
            i = i - 1;
            proof {
                assert(self@.take(i + 1 as int).last() == self@[i as int]);
                assert(self@.take(i + 1 as int).drop_last() =~= self@.take(i as int));
            }
            if self.entries[i].0 == *name {
                return Some(&self.entries[i].1);
            }
        }
        proof {
            assert(self@.take(0) =~= Seq::<(Seq<char>, ValueModel)>::empty());
        }
        None
    }
}

/// Register this layer's builtins in the host's environment, under their
/// two fixed names: `split` in the raw shape, `upper` in the strictly
/// typed shape.
pub fn set_environment(env: &mut Environment)
    ensures
        final(env)@ == old(env)@.push(
            ("split"@, ValueModel::Builtin("split"@, NativeOp::Split)),
        ).push(("upper"@, ValueModel::Builtin("upper"@, NativeOp::Upper))),
{
    let split_name: String = String::from_str("split");
    let split_fn = BuiltinFunction::new(String::from_str("split"), NativeOp::Split);
    env.define(split_name, split_fn.widen());
    let upper_name: String = String::from_str("upper");
    let upper_fn = BuiltinFunction::new(String::from_str("upper"), NativeOp::Upper);
    env.define(upper_name, upper_fn.widen());
}

} // verus!
