//! The machine-integer value kind.

use crate::atom::Atom;
use crate::model::all_digits;
use crate::model::dec_digits;
use crate::model::dec_str;
use crate::model::digit_char;
use crate::model::digit_val;
use crate::model::digits_value;
use crate::model::is_digit;
use crate::model::number_text_value;
use crate::model::parse_number_model;
use crate::token::Token;
use vstd::prelude::*;
use vstd::string::StrSliceExecFns;
use vstd::string::StringExecFns;

verus! {

/// A signed machine integer in the value universe.
#[derive(Clone, Copy, Debug, PartialEq, Eq)]
pub struct Number(pub i64);

impl View for Number {
    type V = int;

    open spec fn view(&self) -> int {
        self.0 as int
    }
}

/// A string of digits has a non-negative value.
proof fn lemma_digits_nonneg(s: Seq<char>)
    requires
        all_digits(s),
    ensures
        digits_value(s) >= 0,
    decreases s.len(),
{
    if s.len() > 0 {
        assert(all_digits(s.drop_last())) by {
            assert(forall|i: int|
                0 <= i < s.drop_last().len() ==> #[trigger] s.drop_last()[i] == s[i]);
        }
        lemma_digits_nonneg(s.drop_last());
    }
}

/// Extending a digit string by one digit multiplies its value by ten and
/// adds the digit.
proof fn lemma_digits_snoc(s: Seq<char>, c: char)
    ensures
        digits_value(s.push(c)) == digits_value(s) * 10 + digit_val(c),
{
    assert(s.push(c).drop_last() =~= s);
    assert(s.push(c).last() == c);
}

/// The value of a digit string is at least the value of any of its
/// prefixes.
proof fn lemma_digits_prefix_le(s: Seq<char>, i: int)
    requires
        all_digits(s),
        0 <= i <= s.len(),
    ensures
        digits_value(s.subrange(0, i)) <= digits_value(s),
    decreases s.len() - i,
{
    if i == s.len() {
        assert(s.subrange(0, i) =~= s);
    } else {
        lemma_digits_prefix_le(s, i + 1);
        let shorter = s.subrange(0, i);
        let longer = s.subrange(0, i + 1);
        assert(longer.drop_last() =~= shorter);
        assert(longer.last() == s[i]);
        assert(all_digits(shorter)) by {
            assert(forall|j: int| 0 <= j < shorter.len() ==> #[trigger] shorter[j] == s[j]);
        }
        lemma_digits_nonneg(shorter);
        assert(digits_value(longer) == digits_value(shorter) * 10 + digit_val(s[i]));
    }
}

impl Atom for Number {
    open spec fn kind_name() -> Seq<char> {
        "number"@
    }

    open spec fn name_spec(&self) -> Seq<char> {
        Self::kind_name()
    }

    open spec fn parse_spec(text: Seq<char>) -> Option<int> {
        parse_number_model(text)
    }

    open spec fn render_spec(m: int) -> Seq<char> {
        dec_str(m)
    }

    fn sized_name() -> (r: &'static str) {
        "number"
    }

    fn name(&self) -> (r: &'static str) {
        "number"
    }

    /// A token is a number when it is one or more decimal digits, with at
    /// most one leading minus sign, and the value fits the machine
    /// integer; anything else, an overlarge literal included, is no match.
    fn parse_from_token(token: &Token) -> (r: Option<Self>) {
        let s: &str = token.text.as_str();
        let n: usize = s.unicode_len();
        let neg: bool = n >= 1 && s.get_char(0) == '-';
        let start: usize = if neg {
            1
        } else {
            0
        };
        if n <= start {
            // the empty token and the bare minus sign denote no number
            return None;
        }
        let mut i: usize = start;
        let mut mag: u64 = 0;
        while i < n
            invariant
                s@ == token@,
                n == token@.len(),
                start <= i <= n,
                start < n,
                neg ==> start == 1 && token@[0] == '-',
                !neg ==> start == 0 && !(n >= 1 && token@[0] == '-'),
                forall|j: int| start <= j < i ==> is_digit(#[trigger] token@[j]),
                mag == digits_value(token@.subrange(start as int, i as int)),
                mag <= 9223372036854775808u64,
            decreases n - i,
        {
            let c: char = s.get_char(i);
            let u: u32 = c as u32;
            if u < 48 || u > 57 {
                proof {
                    let text = token@;
                    assert(!is_digit(text[i as int]));
                    if neg {
                        let digits = text.subrange(1, text.len() as int);
                        assert(digits[i - 1] == text[i as int]);
                        assert(!all_digits(digits));
                    } else {
                        assert(!all_digits(text));
                    }
                }
                return None;
            }
            let d: u64 = (u - 48) as u64;
            let wide: u128 = (mag as u128) * 10 + (d as u128);
            proof {
                let text = token@;
                let upto = text.subrange(start as int, i as int);
                let next = text.subrange(start as int, i + 1 as int);
                assert(next.drop_last() =~= upto);
                assert(next.last() == text[i as int]);
                assert(is_digit(text[i as int]));
                assert(digit_val(text[i as int]) == d);
                assert(digits_value(next) == digits_value(upto) * 10 + digit_val(text[i as int]));
            }
            if wide > 9223372036854775808u128 {
                proof {
                    let text = token@;
                    let digits = text.subrange(start as int, text.len() as int);
                    let scanned = text.subrange(start as int, i + 1 as int);
                    if number_text_value(text) is Some {
                        assert(all_digits(digits));
                        assert(scanned =~= digits.subrange(0, i + 1 - start));
                        lemma_digits_prefix_le(digits, i + 1 - start);
                        if !neg {
                            assert(digits =~= text);
                        }
                    }
                }
                return None;
            }
            mag = wide as u64;
            i = i + 1;
        }
        proof {
            let text = token@;
            let digits = text.subrange(start as int, text.len() as int);
            assert(all_digits(digits)) by {
                assert(forall|j: int|
                    0 <= j < digits.len() ==> #[trigger] digits[j] == text[j + start]);
            }
            if !neg {
                assert(digits =~= text);
            }
            assert(mag == digits_value(digits));
        }
        if neg {
            if mag == 9223372036854775808u64 {
                Some(Number(i64::MIN))
            } else {
                Some(Number(-(mag as i64)))
            }
        } else {
            if mag > 9223372036854775807u64 {
                return None;
            }
            Some(Number(mag as i64))
        }
    }

    /// Decimal digits, a leading minus for negative values.
    fn render(&self) -> (r: String) {
        let n: i64 = self.0;
        if n >= 0 {
            dec_digits_exec(n as u64)
        } else {
            let mag: u64 = if n == i64::MIN {
                9223372036854775808u64
            } else {
                (-n) as u64
            };
            let mut out: String = String::from_str("-");
            let digits: String = dec_digits_exec(mag);
            out.append(digits.as_str());
            proof {
                reveal_strlit("-");
                assert("-"@ =~= seq!['-']);
            }
            out
        }
    }
}

/// The decimal digits of an unsigned machine integer, most significant
/// first.
fn dec_digits_exec(n: u64) -> (r: String)
    ensures
        r@ == dec_digits(n as int),
    decreases n,
{
    if n < 10 {
        String::from_str(digit_str(n))
    } else {
        let mut out: String = dec_digits_exec(n / 10);
        out.append(digit_str(n % 10));
        proof {
            assert(dec_digits(n as int / 10).push(digit_char(n as int % 10)) =~= dec_digits(
                n as int / 10,
            ) + seq![digit_char(n as int % 10)]);
        }
        out
    }
}

/// The one-character text of a digit value.
fn digit_str(d: u64) -> (r: &'static str)
    requires
        d < 10,
    ensures
        r@ == seq![digit_char(d as int)],
{
    proof {
        reveal_strlit("0");
        reveal_strlit("1");
        reveal_strlit("2");
        reveal_strlit("3");
        reveal_strlit("4");
        reveal_strlit("5");
        reveal_strlit("6");
        reveal_strlit("7");
        reveal_strlit("8");
        reveal_strlit("9");
    }
    if d == 0 {
        assert("0"@ =~= seq![digit_char(0int)]);
        "0"
    } else if d == 1 {
        assert("1"@ =~= seq![digit_char(1int)]);
        "1"
    } else if d == 2 {
        assert("2"@ =~= seq![digit_char(2int)]);
        "2"
    } else if d == 3 {
        assert("3"@ =~= seq![digit_char(3int)]);
        "3"
    } else if d == 4 {
        assert("4"@ =~= seq![digit_char(4int)]);
        "4"
    } else if d == 5 {
        assert("5"@ =~= seq![digit_char(5int)]);
        "5"
    } else if d == 6 {
        assert("6"@ =~= seq![digit_char(6int)]);
        "6"
    } else if d == 7 {
        assert("7"@ =~= seq![digit_char(7int)]);
        "7"
    } else if d == 8 {
        assert("8"@ =~= seq![digit_char(8int)]);
        "8"
    } else {
        assert("9"@ =~= seq![digit_char(9int)]);
        "9"
    }
}

} // verus!
