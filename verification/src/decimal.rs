//! Decimal text of version identifiers.
//!
//! Version identifiers are written as plain decimal numbers in marker files
//! and in patch file names. This module defines that notation as a
//! mathematical function on sequences of characters, with an executable
//! printer and parser proved against it.

use vstd::prelude::*;
use vstd::std_specs::iter::IteratorSpec;
use vstd::string::StringExecFns;

verus! {

/// The decimal digit characters, indexed by their value.
pub open spec fn digit_chars() -> Seq<char> {
    seq!['0', '1', '2', '3', '4', '5', '6', '7', '8', '9']
}

/// Whether `c` is one of the ten ASCII decimal digits.
pub open spec fn is_digit(c: char) -> bool {
    digit_chars().contains(c)
}

/// The value of a decimal digit character; 0 for any other character.
pub open spec fn digit_value(c: char) -> nat {
    if is_digit(c) {
        digit_chars().index_of(c) as nat
    } else {
        0
    }
}

/// The decimal notation of `n`, without sign or leading zeros.
pub open spec fn decimal(n: nat) -> Seq<char>
    decreases n,
{
    if n < 10 {
        seq![digit_chars()[n as int]]
    } else {
        decimal(n / 10).push(digit_chars()[(n % 10) as int])
    }
}

/// The number that a sequence of digits denotes, most significant first.
pub open spec fn digits_value(s: Seq<char>) -> nat
    decreases s.len(),
{
    if s.len() == 0 {
        0
    } else {
        digits_value(s.drop_last()) * 10 + digit_value(s.last())
    }
}

/// Whether every character of `s` is a decimal digit.
pub open spec fn all_digits(s: Seq<char>) -> bool {
    forall|i: int| 0 <= i < s.len() ==> is_digit(#[trigger] s[i])
}

/// The digits of a number text once an optional leading `+` is taken off.
pub open spec fn unsigned_body(s: Seq<char>) -> Seq<char> {
    if s.len() > 0 && s[0] == '+' {
        s.drop_first()
    } else {
        s
    }
}

/// The identifier that a text denotes: an optional `+`, then one or more
/// decimal digits, with a value that fits the machine word. Leading zeros
/// are accepted; surrounding white space is not.
pub open spec fn parse_decimal(s: Seq<char>) -> Option<usize> {
    let body = unsigned_body(s);
    if body.len() > 0 && all_digits(body) && digits_value(body) <= usize::MAX {
        Some(digits_value(body) as usize)
    } else {
        None
    }
}

/// The one-character text of the digit `d`.
fn digit_text(d: usize) -> (text: &'static str)
    requires
        d < 10,
    ensures
        text@ == seq![digit_chars()[d as int]],
{
    proof {
        reveal_strlit("0");
        reveal_strlit("1");
        reveal_strlit("2");
        reveal_strlit("3");
        reveal_strlit("4");
        reveal_strlit("5");
        reveal_strlit("6");
        reveal_strlit("7");
        reveal_strlit("8");
        reveal_strlit("9");
    }
    let text = match d {
        0 => "0",
        1 => "1",
        2 => "2",
        3 => "3",
        4 => "4",
        5 => "5",
        6 => "6",
        7 => "7",
        8 => "8",
        _ => "9",
    };
    assert(text@ =~= seq![digit_chars()[d as int]]);
    text
}

/// The value of the digit `c`, or `None` where `c` is no decimal digit.
fn digit_of(c: char) -> (d: Option<usize>)
    ensures
        is_digit(c) <==> d is Some,
        d matches Some(v) ==> v == digit_value(c) && v < 10,
{
    let d = match c {
        '0' => Some(0usize),
        '1' => Some(1usize),
        '2' => Some(2usize),
        '3' => Some(3usize),
        '4' => Some(4usize),
        '5' => Some(5usize),
        '6' => Some(6usize),
        '7' => Some(7usize),
        '8' => Some(8usize),
        '9' => Some(9usize),
        _ => None,
    };
    proof {
        let digits = digit_chars();
        if d is Some {
            let v = d->0;
            assert(digits[v as int] == c);
            assert(digits.no_duplicates());
            assert(digits.index_of(c) == v as int);
        } else {
            assert forall|i: int| 0 <= i < digits.len() implies digits[i] != c by {}
        }
    }
    d
}

/// Writes `n` in decimal notation.
pub fn to_decimal(n: usize) -> (text: String)
    ensures
        text@ == decimal(n as nat),
    decreases n,
{
    if n < 10 {
        digit_text(n).to_owned()
    } else {
        let mut text = to_decimal(n / 10);
        text.append(digit_text(n % 10));
        text
    }
}

/// A sequence of digits denotes at least what any prefix of it denotes.
proof fn lemma_digits_value_prefix(s: Seq<char>, k: int)
    requires
        0 <= k <= s.len(),
    ensures
        digits_value(s.take(k)) <= digits_value(s),
    decreases s.len(),
{
    if k < s.len() {
        lemma_digits_value_prefix(s.drop_last(), k);
        assert(s.drop_last().take(k) =~= s.take(k));
    } else {
        assert(s.take(k) =~= s);
    }
}

/// The decimal notation of a number consists of digits alone and denotes
/// that number.
pub proof fn lemma_decimal_denotes(n: nat)
    ensures
        decimal(n).len() > 0,
        all_digits(decimal(n)),
        digits_value(decimal(n)) == n,
    decreases n,
{
    let digits = digit_chars();
    let last = digits[(n % 10) as int];
    assert(digits.no_duplicates());
    assert(is_digit(last));
    assert(digits.index_of(last) == (n % 10) as int);
    if n < 10 {
        assert(decimal(n).drop_last() =~= Seq::<char>::empty());
        assert(digits_value(decimal(n).drop_last()) == 0);
    } else {
        lemma_decimal_denotes(n / 10);
        assert(decimal(n).drop_last() =~= decimal(n / 10));
    }
}

/// Different numbers have different decimal notations.
pub proof fn lemma_decimal_is_injective(m: nat, n: nat)
    requires
        decimal(m) == decimal(n),
    ensures
        m == n,
{
    lemma_decimal_denotes(m);
    lemma_decimal_denotes(n);
}

/// Reading back the decimal notation of an identifier yields the identifier.
pub proof fn lemma_parse_decimal_round_trip(n: usize)
    ensures
        parse_decimal(decimal(n as nat)) == Some(n),
{
    lemma_decimal_denotes(n as nat);
    assert(is_digit(decimal(n as nat)[0]));
}

/// Reads a version identifier from its text.
pub fn parse_version(text: &str) -> (id: Option<usize>)
    ensures
        id == parse_decimal(text@),
{
    let mut chars = text.chars();
    let ghost body = unsigned_body(text@);
    let mut pending = chars.next();
    if pending == Some('+') {
        pending = chars.next();
    }
    if pending.is_none() {
        return None;
    }
    let mut value: usize = 0;
    let ghost mut seen: int = 0;
    while pending.is_some()
        invariant
            body == unsigned_body(text@),
            0 <= seen <= body.len(),
            chars.obeys_prophetic_iter_laws(),
            pending is None ==> seen == body.len(),
            pending matches Some(c) ==> seen < body.len() && c == body[seen]
                && chars.remaining() == body.skip(seen + 1),
            all_digits(body.take(seen)),
            value == digits_value(body.take(seen)),
        decreases body.len() - seen,
    {
        let c = pending.unwrap();
        proof {
            assert(body.take(seen + 1).drop_last() =~= body.take(seen));
            assert(body.take(seen + 1).last() == c);
            assert(digits_value(body.take(seen + 1)) == value * 10 + digit_value(c));
            lemma_digits_value_prefix(body, seen + 1);
        }
        let digit = match digit_of(c) {
            Some(digit) => digit,
            None => {
                assert(!is_digit(body[seen]));
                return None;
            },
        };
        let shifted = match value.checked_mul(10) {
            Some(shifted) => shifted,
            None => {
                return None;
            },
        };
        value = match shifted.checked_add(digit) {
            Some(sum) => sum,
            None => {
                return None;
            },
        };
        pending = chars.next();
        proof {
            seen = seen + 1;
        }
    }
    proof {
        assert(body.take(seen) =~= body);
    }
    Some(value)
}

} // verus!
