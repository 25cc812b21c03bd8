//! The wording of the figures and times that a message shows.

use vstd::prelude::*;
use vstd::string::StringExecFns;

verus! {

/// The text shown for an optional figure: the figure itself, or `N/A`
/// where the source gave none.
pub fn format_option(value: &Option<String>) -> (text: String)
    ensures
        text@ == match *value {
            Some(s) => s@,
            None => "N/A"@,
        },
{
    match value {
        Some(s) => s.clone(),
        None => String::from_str("N/A"),
    }
}

/// The character of one decimal digit.
pub open spec fn digit(d: int) -> char {
    if d == 0 {
        '0'
    } else if d == 1 {
        '1'
    } else if d == 2 {
        '2'
    } else if d == 3 {
        '3'
    } else if d == 4 {
        '4'
    } else if d == 5 {
        '5'
    } else if d == 6 {
        '6'
    } else if d == 7 {
        '7'
    } else if d == 8 {
        '8'
    } else {
        '9'
    }
}

/// A number in decimal digits, without leading zeros.
pub open spec fn decimal(n: nat) -> Seq<char>
    decreases n,
{
    if n < 10 {
        seq![digit(n as int)]
    } else {
        decimal(n / 10).push(digit((n % 10) as int))
    }
}

/// A number in decimal digits, with a minus sign before them where it is
/// below zero.
pub open spec fn signed_decimal(n: int) -> Seq<char> {
    if n < 0 {
        seq!['-'] + decimal((-n) as nat)
    } else {
        decimal(n as nat)
    }
}

/// What is left of `a` after division by `m` that rounds toward zero: it
/// has the sign of `a`.
pub open spec fn rest(a: int, m: int) -> int {
    if a >= 0 {
        a % m
    } else {
        -((-a) % m)
    }
}

/// How long ago a status was recorded, in words. `days`, `hours` and
/// `minutes` each give the whole age in that unit. The two largest units
/// that are above zero are named, the hours within their day and the
/// minutes within their hour; an age of less than an hour is given in
/// minutes.
pub open spec fn age_in_words(days: int, hours: int, minutes: int) -> Seq<char> {
    let h = rest(hours, 24);
    let m = rest(minutes, 60);
    "Last status is from "@ + (if days > 0 {
        signed_decimal(days) + " days and "@ + signed_decimal(h) + " hr ago"@
    } else if h > 0 {
        signed_decimal(h) + " hr and "@ + signed_decimal(m) + " min ago"@
    } else {
        signed_decimal(m) + " min ago"@
    })
}

/// One decimal digit as a text.
fn digit_text(d: u64) -> (text: &'static str)
    requires
        d < 10,
    ensures
        text@ == seq![digit(d as int)],
{
    proof {
        reveal_strlit("0");
        reveal_strlit("1");
        reveal_strlit("2");
        reveal_strlit("3");
        reveal_strlit("4");
        reveal_strlit("5");
        reveal_strlit("6");
        reveal_strlit("7");
        reveal_strlit("8");
        reveal_strlit("9");
    }
    let text = if d == 0 {
        "0"
    } else if d == 1 {
        "1"
    } else if d == 2 {
        "2"
    } else if d == 3 {
        "3"
    } else if d == 4 {
        "4"
    } else if d == 5 {
        "5"
    } else if d == 6 {
        "6"
    } else if d == 7 {
        "7"
    } else if d == 8 {
        "8"
    } else {
        "9"
    };
    assert(text@ =~= seq![digit(d as int)]);
    text
}

/// A number in decimal digits.
pub fn decimal_text(n: u64) -> (text: String)
    ensures
        text@ == decimal(n as nat),
    decreases n,
{
    if n < 10 {
        String::from_str(digit_text(n))
    } else {
        let mut text = decimal_text(n / 10);
        text.append(digit_text(n % 10));
        assert(text@ =~= decimal((n / 10) as nat).push(digit((n % 10) as int)));
        text
    }
}

/// A number in decimal digits, with its sign where it is below zero.
pub fn signed_text(n: i64) -> (text: String)
    ensures
        text@ == signed_decimal(n as int),
{
    if n < 0 {
        let size: u64 = (-(n + 1)) as u64 + 1;
        let mut text = String::from_str("-");
        let digits = decimal_text(size);
        text.append(digits.as_str());
        proof {
            reveal_strlit("-");
            assert("-"@ =~= seq!['-']);
        }
        text
    } else {
        decimal_text(n as u64)
    }
}

/// What is left of `a` after division by `m` that rounds toward zero.
fn rest_of(a: i64, m: u64) -> (left: i64)
    requires
        0 < m <= 60,
    ensures
        left == rest(a as int, m as int),
{
    if a >= 0 {
        ((a as u64) % m) as i64
    } else {
        let size: u64 = (-(a + 1)) as u64 + 1;
        -((size % m) as i64)
    }
}

/// Words how long ago a status was recorded, from its whole age in days,
/// in hours and in minutes.
pub fn describe_age(days: i64, hours: i64, minutes: i64) -> (text: String)
    ensures
        text@ == age_in_words(days as int, hours as int, minutes as int),
{
    let h = rest_of(hours, 24);
    let m = rest_of(minutes, 60);
    let mut text = String::from_str("Last status is from ");
    if days > 0 {
        text.append(signed_text(days).as_str());
        text.append(" days and ");
        text.append(signed_text(h).as_str());
        text.append(" hr ago");
        assert(text@ =~= age_in_words(days as int, hours as int, minutes as int));
    } else if h > 0 {
        text.append(signed_text(h).as_str());
        text.append(" hr and ");
        text.append(signed_text(m).as_str());
        text.append(" min ago");
        assert(text@ =~= age_in_words(days as int, hours as int, minutes as int));
    } else {
        text.append(signed_text(m).as_str());
        text.append(" min ago");
        assert(text@ =~= age_in_words(days as int, hours as int, minutes as int));
    }
    text
}

} // verus!
