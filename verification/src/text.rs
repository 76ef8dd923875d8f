//! Token shapes and the text of integers.

use vstd::prelude::*;
use vstd::string::*;

verus! {

/// The texts of a list of strings.
pub open spec fn texts(v: Seq<String>) -> Seq<Seq<char>> {
    Seq::new(v.len(), |i: int| v[i]@)
}

/// The token `--key=value`.
pub open spec fn key_value_token(key: Seq<char>, value: Seq<char>) -> Seq<char> {
    "--"@ + key + "="@ + value
}

/// The bare flag `--key`.
pub open spec fn flag_token(key: Seq<char>) -> Seq<char> {
    "--"@ + key
}

/// The decimal digit that stands for `d`, for `d` below ten.
pub open spec fn digit_char(d: int) -> char {
    (('0' as u8) + d) as u8 as char
}

/// The decimal digits of a natural number, most significant first, without
/// leading zeros.
pub open spec fn digits(n: nat) -> Seq<char>
    decreases n,
{
    if n < 10 {
        seq![digit_char(n as int)]
    } else {
        digits(n / 10).push(digit_char((n % 10) as int))
    }
}

/// The decimal text of an integer: a minus sign for a negative one, then the
/// digits of its magnitude.
pub open spec fn decimal(n: int) -> Seq<char> {
    if n < 0 {
        seq!['-'] + digits((-n) as nat)
    } else {
        digits(n as nat)
    }
}

/// The value that a decimal digit stands for.
pub open spec fn digit_value(c: char) -> int {
    c as u8 - '0' as u8
}

/// The natural number that a sequence of decimal digits stands for.
pub open spec fn digits_value(s: Seq<char>) -> nat
    decreases s.len(),
{
    if s.len() == 0 {
        0
    } else {
        (digits_value(s.drop_last()) * 10 + digit_value(s.last())) as nat
    }
}

/// The integer that a decimal text stands for, as a parser of decimal
/// integers reads it.
pub open spec fn decimal_value(s: Seq<char>) -> int {
    if s.len() > 0 && s[0] == '-' {
        -(digits_value(s.drop_first()) as int)
    } else {
        digits_value(s) as int
    }
}

/// What a parser that knows the key takes for the value of the token
/// `--key=value`; `None` where the token has no such form.
pub open spec fn token_value(key: Seq<char>, token: Seq<char>) -> Option<Seq<char>> {
    let prefix = "--"@ + key + "="@;
    if prefix.is_prefix_of(token) {
        Some(token.skip(prefix.len() as int))
    } else {
        None
    }
}

/// The value of `--key=value`, read with the same key, is `value` again.
pub proof fn token_value_of_key_value_token(key: Seq<char>, value: Seq<char>)
    ensures
        token_value(key, key_value_token(key, value)) == Some(value),
{
}

/// The digits of a number are decimal digits, and they stand for the number.
pub proof fn digits_value_of_digits(n: nat)
    ensures
        digits(n).len() > 0,
        forall|i: int| 0 <= i < digits(n).len() ==> '0' <= #[trigger] digits(n)[i] <= '9',
        digits_value(digits(n)) == n,
    decreases n,
{
    if n < 10 {
        let s = digits(n);
        assert(digits_value(s.drop_last()) == 0);
    } else {
        digits_value_of_digits(n / 10);
        let s = digits(n);
        assert(s.drop_last() =~= digits(n / 10));
    }
}

/// The decimal text of an integer reads back as the integer.
pub proof fn decimal_value_of_decimal(n: int)
    ensures
        decimal_value(decimal(n)) == n,
{
    if n < 0 {
        let s = decimal(n);
        digits_value_of_digits((-n) as nat);
        assert(s.drop_first() =~= digits((-n) as nat));
    } else {
        digits_value_of_digits(n as nat);
    }
}

fn digit_str(d: u64) -> (r: &'static str)
    requires
        d < 10,
    ensures
        r@ == seq![digit_char(d as int)],
{
    proof {
        reveal_strlit("0");
        reveal_strlit("1");
        reveal_strlit("2");
        reveal_strlit("3");
        reveal_strlit("4");
        reveal_strlit("5");
        reveal_strlit("6");
        reveal_strlit("7");
        reveal_strlit("8");
        reveal_strlit("9");
    }
    match d {
        0 => "0",
        1 => "1",
        2 => "2",
        3 => "3",
        4 => "4",
        5 => "5",
        6 => "6",
        7 => "7",
        8 => "8",
        _ => "9",
    }
}

fn digits_text(n: u64) -> (r: String)
    ensures
        r@ == digits(n as nat),
    decreases n,
{
    if n < 10 {
        String::from_str(digit_str(n))
    } else {
        let mut r = digits_text(n / 10);
        r.append(digit_str(n % 10));
        r
    }
}

/// Writes an integer in decimal.
pub fn integer_text(v: i64) -> (r: String)
    ensures
        r@ == decimal(v as int),
{
    if v < 0 {
        let magnitude: u64 = (-(v + 1)) as u64 + 1;
        let mut r = String::from_str("-");
        proof {
            reveal_strlit("-");
        }
        let tail = digits_text(magnitude);
        r.append(tail.as_str());
        r
    } else {
        digits_text(v as u64)
    }
}

} // verus!
