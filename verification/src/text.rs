//! Text helpers behind the two builtins: whitespace splitting and
//! uppercasing.
//!
//! The Unicode character classes live in std; this module names their
//! outcomes ([`is_space`], [`upper_of`]) and wraps the two std calls, and
//! everything built on top of them is verified against those names.

use vstd::prelude::*;
use vstd::string::StrSliceExecFns;
use vstd::string::StringExecFns;

verus! {

/// Whether a character counts as whitespace, exactly as std's Unicode
/// `White_Space` test reports it.
pub uninterp spec fn is_space(c: char) -> bool;

/// The Unicode uppercase transform of a text, exactly as std computes it.
/// It depends on the characters alone: no locale, no environment.
pub uninterp spec fn upper_of(s: Seq<char>) -> Seq<char>;

/// Relies on char::is_whitespace: true exactly for characters with the
/// Unicode `White_Space` property, a function of the character alone.
#[verifier::external_body]
pub(crate) fn char_is_space(c: char) -> (r: bool)
    ensures
        r == is_space(c),
{
    c.is_whitespace()
}

/// Relies on str::to_uppercase: the Unicode uppercase equivalent of the
/// text, a function of its characters alone; the empty text stays empty.
#[verifier::external_body]
pub(crate) fn to_uppercase_str(s: &str) -> (r: String)
    ensures
        r@ == upper_of(s@),
        s@.len() == 0 ==> r@.len() == 0,
{
    s.to_uppercase()
}

/// The end of the whitespace-free run that starts at `i`: the first
/// position at or after `i` that is past the end or holds whitespace.
pub open spec fn word_end(s: Seq<char>, i: int) -> int
    decreases s.len() - i,
{
    if i < 0 || i >= s.len() || is_space(s[i]) {
        i
    } else {
        word_end(s, i + 1)
    }
}

/// The run end stays within the text, and moves ahead when it starts on a
/// non-whitespace character.
pub proof fn lemma_word_end_bounds(s: Seq<char>, i: int)
    requires
        0 <= i <= s.len(),
    ensures
        i <= word_end(s, i) <= s.len(),
        i < s.len() && !is_space(s[i]) ==> i + 1 <= word_end(s, i),
    decreases s.len() - i,
{
    if i < s.len() && !is_space(s[i]) {
        lemma_word_end_bounds(s, i + 1);
    }
}

/// The words of a text from position `i` on: maximal runs of
/// non-whitespace characters, in order, with all whitespace dropped.
pub open spec fn split_ws_from(s: Seq<char>, i: int) -> Seq<Seq<char>>
    decreases s.len() - i,
    via split_ws_from_decreases
{
    if i < 0 || i >= s.len() {
        Seq::empty()
    } else if is_space(s[i]) {
        split_ws_from(s, i + 1)
    } else {
        seq![s.subrange(i, word_end(s, i))] + split_ws_from(s, word_end(s, i))
    }
}

#[via_fn]
proof fn split_ws_from_decreases(s: Seq<char>, i: int) {
    if 0 <= i < s.len() && !is_space(s[i]) {
        lemma_word_end_bounds(s, i);
    }
}

/// The words of a whole text: what splitting it on runs of whitespace
/// leaves.  Empty and all-whitespace texts have no words.
pub open spec fn split_ws(s: Seq<char>) -> Seq<Seq<char>> {
    split_ws_from(s, 0)
}

/// The first position at or after `i` that ends the current
/// whitespace-free run.
fn word_end_exec(s: &str, i: usize) -> (e: usize)
    requires
        i <= s@.len(),
    ensures
        e as int == word_end(s@, i as int),
        i <= e <= s@.len(),
    decreases s@.len() - i,
{
    proof {
        lemma_word_end_bounds(s@, i as int);
    }
    let n: usize = s.unicode_len();
    if i >= n {
        return i;
    }
    let c: char = s.get_char(i);
    if char_is_space(c) {
        i
    } else {
        word_end_exec(s, i + 1)
    }
}

/// Split a text on runs of whitespace, keeping the words in order.
pub(crate) fn split_whitespace_of(s: &str) -> (r: Vec<String>)
    ensures
        r.deep_view() == split_ws(s@),
{
    let n: usize = s.unicode_len();
    let mut out: Vec<String> = Vec::new();
    let mut i: usize = 0;
    proof {
        assert(out.deep_view() =~= Seq::<Seq<char>>::empty());
    }
    while i < n
        invariant
            i <= n,
            n == s@.len(),
            out.deep_view() + split_ws_from(s@, i as int) == split_ws(s@),
        decreases n - i,
    {
        let c: char = s.get_char(i);
        if char_is_space(c) {
            proof {
                assert(split_ws_from(s@, i as int) == split_ws_from(s@, i + 1 as int));
            }
            i = i + 1;
        } else {
            let e: usize = word_end_exec(s, i);
            proof {
                lemma_word_end_bounds(s@, i as int);
            }
            let word: &str = s.substring_char(i, e);
            let owned: String = String::from_str(word);
            let ghost prev = out.deep_view();
            out.push(owned);
            proof {
                assert(out.deep_view() =~= prev.push(word@));
                assert(split_ws_from(s@, i as int) == seq![s@.subrange(i as int, e as int)]
                    + split_ws_from(s@, e as int));
                assert(prev.push(word@) + split_ws_from(s@, e as int) =~= prev + split_ws_from(
                    s@,
                    i as int,
                ));
            }
            i = e;
        }
    }
    proof {
        assert(split_ws_from(s@, n as int) =~= Seq::<Seq<char>>::empty());
        assert(out.deep_view() =~= out.deep_view() + split_ws_from(s@, n as int));
    }
    out
}

} // verus!
