//! The mathematical model of the value universe.
//!
//! Every executable type of the crate has a view into the types of this
//! module, and every contract is stated over them: a runtime value is
//! modelled by [`ValueModel`], its tag by [`Kind`].  The spec functions here
//! pin down what each variant's parser accepts and what each variant's
//! rendering produces.

use crate::builtin_atom::NativeOp;
use vstd::prelude::*;

verus! {

/// The model of one runtime value: one case per variant tag of the closed
/// sum type, each carrying the model of the wrapped concrete type.
#[verifier::ext_equal]
pub ghost enum ValueModel {
    /// A machine integer.
    Number(int),
    /// A text string contributed by this extension layer.
    Str(Seq<char>),
    /// A bare symbol: the catch-all kind every token can fall back to.
    Symbol(Seq<char>),
    /// A composite list of values.
    List(Seq<ValueModel>),
    /// A named builtin function together with its native entry point.
    Builtin(Seq<char>, NativeOp),
}

/// The bare tag of a value, with the payload forgotten.
pub ghost enum Kind {
    Number,
    Str,
    Symbol,
    List,
    Builtin,
}

/// The tag that is active in a value model.  Exactly one tag is active per
/// instance, so this is a total function.
pub open spec fn kind_of(m: ValueModel) -> Kind {
    match m {
        ValueModel::Number(_) => Kind::Number,
        ValueModel::Str(_) => Kind::Str,
        ValueModel::Symbol(_) => Kind::Symbol,
        ValueModel::List(_) => Kind::List,
        ValueModel::Builtin(_, _) => Kind::Builtin,
    }
}

/// The display name of each kind, as the capability contract of the
/// variant behind the tag reports it.
pub open spec fn kind_name_of(k: Kind) -> Seq<char> {
    match k {
        Kind::Number => "number"@,
        Kind::Str => "string"@,
        Kind::Symbol => "symbol"@,
        Kind::List => "list"@,
        Kind::Builtin => "builtin"@,
    }
}

// ---------------------------------------------------------------------------
// What each variant's parser accepts.
// ---------------------------------------------------------------------------
/// A string token is the contents surrounded by one double quote on each
/// side; the match strips exactly the two outer quotes.
pub open spec fn parse_string_model(text: Seq<char>) -> Option<Seq<char>> {
    if text.len() >= 2 && text[0] == '"' && text[text.len() - 1] == '"' {
        Some(text.subrange(1, text.len() - 1))
    } else {
        None
    }
}

/// A decimal digit.
pub open spec fn is_digit(c: char) -> bool {
    '0' as u32 <= c as u32 && c as u32 <= '9' as u32
}

/// The numeric value of one decimal digit.
pub open spec fn digit_val(c: char) -> int {
    c as u32 - '0' as u32
}

/// Every character of the text is a decimal digit.
pub open spec fn all_digits(s: Seq<char>) -> bool {
    forall|i: int| 0 <= i < s.len() ==> is_digit(#[trigger] s[i])
}

/// The value of a string of decimal digits, most significant first.
pub open spec fn digits_value(s: Seq<char>) -> int
    decreases s.len(),
{
    if s.len() == 0 {
        0
    } else {
        digits_value(s.drop_last()) * 10 + digit_val(s.last())
    }
}

/// The value denoted by a number token: one or more digits, optionally
/// preceded by a single minus sign.  `None` when the text is not of that
/// shape; the magnitude is unbounded here, the machine range is imposed by
/// [`parse_number_model`].
pub open spec fn number_text_value(text: Seq<char>) -> Option<int> {
    if text.len() >= 1 && text[0] == '-' {
        if text.len() >= 2 && all_digits(text.subrange(1, text.len() as int)) {
            Some(-digits_value(text.subrange(1, text.len() as int)))
        } else {
            None
        }
    } else if text.len() >= 1 && all_digits(text) {
        Some(digits_value(text))
    } else {
        None
    }
}

/// A number token matches only when its value also fits the machine
/// integer that the number kind wraps; a larger literal is no match and
/// falls through to the next parser in declaration order.
pub open spec fn parse_number_model(text: Seq<char>) -> Option<int> {
    match number_text_value(text) {
        Some(v) => if i64::MIN <= v <= i64::MAX {
            Some(v)
        } else {
            None
        },
        None => None,
    }
}

// ---------------------------------------------------------------------------
// What each variant renders as.  Rendering is cosmetic: it never feeds back
// into parsing, equality or conversion.
// ---------------------------------------------------------------------------
/// The character for one decimal digit value.
pub open spec fn digit_char(d: int) -> char {
    if d == 0 {
        '0'
    } else if d == 1 {
        '1'
    } else if d == 2 {
        '2'
    } else if d == 3 {
        '3'
    } else if d == 4 {
        '4'
    } else if d == 5 {
        '5'
    } else if d == 6 {
        '6'
    } else if d == 7 {
        '7'
    } else if d == 8 {
        '8'
    } else {
        '9'
    }
}

/// The decimal digits of a non-negative integer, most significant first.
pub open spec fn dec_digits(n: int) -> Seq<char>
    decreases n,
{
    if n < 10 {
        seq![digit_char(n)]
    } else {
        dec_digits(n / 10).push(digit_char(n % 10))
    }
}

/// The decimal rendering of an integer, a leading minus for negatives.
pub open spec fn dec_str(n: int) -> Seq<char> {
    if n < 0 {
        seq!['-'] + dec_digits(-n)
    } else {
        dec_digits(n)
    }
}

/// A string value renders as its contents in double quotes, wrapped in the
/// terminal escape for italic red.
pub open spec fn render_string_model(s: Seq<char>) -> Seq<char> {
    "\x1b[3;31m\""@ + s + "\"\x1b[0m"@
}

/// How one whole value renders for the REPL: each variant's own rendering,
/// a list as its elements in parentheses separated by single spaces.
pub open spec fn render_model(m: ValueModel) -> Seq<char>
    decreases m, 0int,
{
    match m {
        ValueModel::Number(n) => dec_str(n),
        ValueModel::Str(s) => render_string_model(s),
        ValueModel::Symbol(s) => s,
        ValueModel::List(items) => "("@ + render_items_model(items) + ")"@,
        ValueModel::Builtin(name, _) => name,
    }
}

/// The body of a rendered list: the renderings of the elements with a
/// single space between neighbours.
pub open spec fn render_items_model(items: Seq<ValueModel>) -> Seq<char>
    decreases items, items.len() + 1,
{
    if items.len() == 0 {
        Seq::empty()
    } else {
        render_model(items[0]) + render_items_from(items, 1)
    }
}

/// The renderings of the elements from position `i` on, each preceded by
/// one space.
pub open spec fn render_items_from(items: Seq<ValueModel>, i: int) -> Seq<char>
    decreases items, items.len() - i,
{
    if i < 0 || i >= items.len() {
        Seq::empty()
    } else {
        seq![' '] + render_model(items[i]) + render_items_from(items, i + 1)
    }
}

} // verus!
