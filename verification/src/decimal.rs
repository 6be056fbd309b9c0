//! Decimal notation for unsigned integers: the digits that denote a number,
//! the number that a string of digits denotes, and verified conversions in
//! both directions.

use vstd::prelude::*;
use vstd::string::*;

verus! {

/// The character that stands for the single digit `d`.
pub open spec fn digit_char(d: nat) -> char
    recommends
        d < 10,
{
    ((48 + d) as u8) as char
}

/// Whether `c` is one of the ASCII digits `'0'` to `'9'`.
pub open spec fn is_digit(c: char) -> bool {
    '0' <= c <= '9'
}

/// The number that the digit `c` stands for.
pub open spec fn digit_value(c: char) -> nat
    recommends
        is_digit(c),
{
    (c as nat - 48) as nat
}

/// Whether every character of `s` is an ASCII digit.
pub open spec fn all_digits(s: Seq<char>) -> bool {
    forall|i: int| 0 <= i < s.len() ==> is_digit(#[trigger] s[i])
}

/// The digits of `n`, most significant first, with no leading zero; zero is
/// the single digit `0`.
pub open spec fn decimal_digits(n: nat) -> Seq<char>
    decreases n,
{
    if n < 10 {
        seq![digit_char(n)]
    } else {
        decimal_digits(n / 10).push(digit_char(n % 10))
    }
}

/// The number denoted by the digit string `s`, most significant digit first.
/// The empty string denotes zero.
pub open spec fn decimal_value(s: Seq<char>) -> nat
    decreases s.len(),
{
    if s.len() == 0 {
        0
    } else {
        decimal_value(s.drop_last()) * 10 + digit_value(s.last())
    }
}

/// `s` without its leading plus sign, if it has one.
pub open spec fn without_plus(s: Seq<char>) -> Seq<char> {
    if s.len() > 0 && s[0] == '+' {
        s.subrange(1, s.len() as int)
    } else {
        s
    }
}

/// What reading `s` as a `usize` yields: an optional `+`, then at least one
/// ASCII digit and nothing else, denoting a value that fits the type.
pub open spec fn parsed_usize(s: Seq<char>) -> Option<usize> {
    let digits = without_plus(s);
    if digits.len() > 0 && all_digits(digits) && decimal_value(digits) <= usize::MAX {
        Some(decimal_value(digits) as usize)
    } else {
        None
    }
}

/// A digit string denotes at least as much as any of its prefixes.
pub proof fn lemma_value_of_prefix(s: Seq<char>, k: int)
    requires
        0 <= k <= s.len(),
    ensures
        decimal_value(s.subrange(0, k)) <= decimal_value(s),
    decreases s.len(),
{
    if k == s.len() {
        assert(s.subrange(0, k) =~= s);
    } else {
        assert(s.drop_last().subrange(0, k) =~= s.subrange(0, k));
        lemma_value_of_prefix(s.drop_last(), k);
    }
}

/// The digits of a number are digits, and there is at least one of them.
pub proof fn lemma_digits_are_digits(n: nat)
    ensures
        decimal_digits(n).len() >= 1,
        all_digits(decimal_digits(n)),
    decreases n,
{
    if n >= 10 {
        lemma_digits_are_digits(n / 10);
    }
}

/// Only zero is written with a leading `0`.
pub proof fn lemma_no_leading_zero(n: nat)
    ensures
        decimal_digits(n)[0] == '0' <==> n == 0,
    decreases n,
{
    if n >= 10 {
        lemma_digits_are_digits(n / 10);
        lemma_no_leading_zero(n / 10);
    }
}

/// Writing a number down and reading it back gives the number.
pub proof fn lemma_value_of_digits(n: nat)
    ensures
        decimal_value(decimal_digits(n)) == n,
    decreases n,
{
    if n < 10 {
        let s = decimal_digits(n);
        assert(decimal_value(s.drop_last()) == 0);
    } else {
        let head = decimal_digits(n / 10);
        let s = head.push(digit_char(n % 10));
        assert(s.drop_last() =~= head);
        lemma_value_of_digits(n / 10);
    }
}

/// The decimal form of any `usize` reads back as that same `usize`.
pub proof fn lemma_parse_of_digits(n: usize)
    ensures
        parsed_usize(decimal_digits(n as nat)) == Some(n),
{
    lemma_digits_are_digits(n as nat);
    lemma_value_of_digits(n as nat);
}

/// Reads `text` as a `usize`, accepting exactly what `str::parse::<usize>`
/// accepts: an optional `+` followed by one or more ASCII digits whose value
/// fits.
pub fn parse_usize(text: &str) -> (parsed: Option<usize>)
    ensures
        parsed == parsed_usize(text@),
{
    let ghost s = text@;
    if !text.is_ascii() {
        proof {
            // A character beyond ASCII is no digit, and it is still there
            // once a leading plus sign is taken away.
            let i = choose|i: int| 0 <= i < s.len() && !('\0' <= #[trigger] s[i] <= '\u{7f}');
            if without_plus(s) != s {
                assert(!is_digit(without_plus(s)[i - 1]));
            }
        }
        return None;
    }
    let n: usize = text.unicode_len();
    if n == 0 {
        return None;
    }
    let start: usize = if text.get_ascii(0) == 43u8 {
        1
    } else {
        0
    };
    let ghost digits = without_plus(s);
    assert(digits =~= s.subrange(start as int, n as int));
    if start == n {
        return None;
    }
    let mut value: usize = 0;
    let mut i: usize = start;
    while i < n
        invariant
            text.is_ascii(),
            s == text@,
            n == s.len(),
            start <= i <= n,
            start < n,
            digits == without_plus(s),
            digits == s.subrange(start as int, n as int),
            all_digits(digits.subrange(0, i - start)),
            value == decimal_value(digits.subrange(0, i - start)),
        decreases n - i,
    {
        let byte: u8 = text.get_ascii(i);
        let ghost prefix = digits.subrange(0, i - start);
        let ghost longer = digits.subrange(0, i - start + 1);
        proof {
            assert(longer.drop_last() =~= prefix);
            lemma_value_of_prefix(digits, i - start + 1);
        }
        if byte < 48u8 || byte > 57u8 {
            return None;
        }
        let digit: usize = (byte - 48u8) as usize;
        let scaled: usize = match value.checked_mul(10) {
            Some(scaled) => scaled,
            None => {
                return None;
            },
        };
        value = match scaled.checked_add(digit) {
            Some(sum) => sum,
            None => {
                return None;
            },
        };
        i += 1;
        assert forall|j: int| 0 <= j < longer.len() implies is_digit(#[trigger] longer[j]) by {
            if j < prefix.len() {
                assert(longer[j] == prefix[j]);
            }
        }
    }
    assert(digits.subrange(0, n - start) =~= digits);
    Some(value)
}

/// The text of a single digit.
fn digit_text(d: usize) -> (text: &'static str)
    requires
        d < 10,
    ensures
        text@ == seq![digit_char(d as nat)],
{
    proof {
        reveal_strlit("0");
        reveal_strlit("1");
        reveal_strlit("2");
        reveal_strlit("3");
        reveal_strlit("4");
        reveal_strlit("5");
        reveal_strlit("6");
        reveal_strlit("7");
        reveal_strlit("8");
        reveal_strlit("9");
    }
    match d {
        0 => "0",
        1 => "1",
        2 => "2",
        3 => "3",
        4 => "4",
        5 => "5",
        6 => "6",
        7 => "7",
        8 => "8",
        _ => "9",
    }
}

/// Counts the decimal digits of `n`.
pub fn decimal_width(n: usize) -> (width: usize)
    ensures
        width == decimal_digits(n as nat).len(),
        width >= 1,
{
    let mut rest: usize = n;
    let mut width: usize = 1;
    while rest >= 10
        invariant
            width >= 1,
            width + rest <= n + 1,
            decimal_digits(n as nat).len() == decimal_digits(rest as nat).len() + width - 1,
        decreases rest,
    {
        rest = rest / 10;
        width += 1;
    }
    width
}

/// Appends the decimal digits of `n` to `out`.
pub fn append_decimal(out: &mut String, n: usize)
    ensures
        final(out)@ == old(out)@ + decimal_digits(n as nat),
    decreases n,
{
    if n >= 10 {
        append_decimal(out, n / 10);
    }
    out.append(digit_text(n % 10));
}

/// The decimal digits of `n` as a string.
pub fn to_decimal(n: usize) -> (text: String)
    ensures
        text@ == decimal_digits(n as nat),
{
    let mut text = String::new();
    append_decimal(&mut text, n);
    text
}

} // verus!
