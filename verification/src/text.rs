//! Decimal text for the clock displays: digits, two-digit fields and
//! `HH:MM:SS` / `MM:SS` layouts, each with a spec-level description of
//! the exact character sequence produced.

use vstd::prelude::*;

verus! {

/// The character of a decimal digit `d < 10`.
pub open spec fn digit_char(d: u64) -> char {
    if d == 0 {
        '0'
    } else if d == 1 {
        '1'
    } else if d == 2 {
        '2'
    } else if d == 3 {
        '3'
    } else if d == 4 {
        '4'
    } else if d == 5 {
        '5'
    } else if d == 6 {
        '6'
    } else if d == 7 {
        '7'
    } else if d == 8 {
        '8'
    } else {
        '9'
    }
}

/// The decimal text of `n`, most significant digit first, no leading
/// zeroes (a single `'0'` for zero).
pub open spec fn dec_chars(n: u64) -> Seq<char>
    decreases n,
{
    if n < 10 {
        seq![digit_char(n)]
    } else {
        dec_chars((n / 10) as u64) + seq![digit_char((n % 10) as u64)]
    }
}

/// The decimal text of `n` padded with one leading zero to at least two
/// characters: numbers above ninety-nine keep all their digits.
pub open spec fn two_digit_chars(n: u64) -> Seq<char> {
    if n < 10 {
        seq!['0'] + dec_chars(n)
    } else {
        dec_chars(n)
    }
}

/// `HH:MM:SS`, each field two digits or more.
pub open spec fn clock_chars(h: u64, m: u64, s: u64) -> Seq<char> {
    two_digit_chars(h) + seq![':'] + two_digit_chars(m) + seq![':'] + two_digit_chars(s)
}

/// `MM:SS`, each field two digits or more.
pub open spec fn minutes_chars(m: u64, s: u64) -> Seq<char> {
    two_digit_chars(m) + seq![':'] + two_digit_chars(s)
}

/// The display text adapted to how much time is left: full `HH:MM:SS`
/// while at least an hour remains; `MM:SS` rounded down to the nearest
/// thirty seconds while at least a minute remains; `MM:SS` rounded down
/// to the nearest ten seconds while at least ten seconds remain; the
/// exact `MM:SS` in the final ten seconds.
pub open spec fn adapted_chars(h: u64, m: u64, s: u64) -> Seq<char> {
    if h >= 1 {
        clock_chars(h, m, s)
    } else if m >= 1 {
        minutes_chars(m, (s - s % 30) as u64)
    } else if s >= 10 {
        minutes_chars(m, (s - s % 10) as u64)
    } else {
        minutes_chars(0, s)
    }
}

/// The one-character text of a decimal digit.
fn digit_str(d: u64) -> (r: &'static str)
    requires
        d < 10,
    ensures
        r@ == seq![digit_char(d)],
{
    proof {
        reveal_strlit("0");
        reveal_strlit("1");
        reveal_strlit("2");
        reveal_strlit("3");
        reveal_strlit("4");
        reveal_strlit("5");
        reveal_strlit("6");
        reveal_strlit("7");
        reveal_strlit("8");
        reveal_strlit("9");
    }
    let r: &'static str = match d {
        0 => "0",
        1 => "1",
        2 => "2",
        3 => "3",
        4 => "4",
        5 => "5",
        6 => "6",
        7 => "7",
        8 => "8",
        _ => "9",
    };
    assert(r@ =~= seq![digit_char(d)]);
    r
}

/// The decimal text of `n`.
pub fn u64_to_dec(n: u64) -> (r: String)
    ensures
        r@ == dec_chars(n),
    decreases n,
{
    if n < 10 {
        String::from_str(digit_str(n))
    } else {
        let mut s = u64_to_dec(n / 10);
        s.append(digit_str(n % 10));
        assert(s@ =~= dec_chars(n));
        s
    }
}

/// The decimal text of `n`, padded to at least two characters.
pub fn u64_to_two_digits(n: u64) -> (r: String)
    ensures
        r@ == two_digit_chars(n),
{
    if n < 10 {
        proof {
            reveal_strlit("0");
        }
        let mut s = String::from_str("0");
        s.append(digit_str(n));
        assert(s@ =~= two_digit_chars(n));
        s
    } else {
        u64_to_dec(n)
    }
}

/// `HH:MM:SS`.
pub fn format_clock(h: u64, m: u64, s: u64) -> (r: String)
    ensures
        r@ == clock_chars(h, m, s),
{
    proof {
        reveal_strlit(":");
    }
    let mut out = u64_to_two_digits(h);
    out.append(":");
    out.append(u64_to_two_digits(m).as_str());
    out.append(":");
    out.append(u64_to_two_digits(s).as_str());
    assert(out@ =~= clock_chars(h, m, s));
    out
}

/// `MM:SS`.
pub fn format_minutes(m: u64, s: u64) -> (r: String)
    ensures
        r@ == minutes_chars(m, s),
{
    proof {
        reveal_strlit(":");
    }
    let mut out = u64_to_two_digits(m);
    out.append(":");
    out.append(u64_to_two_digits(s).as_str());
    assert(out@ =~= minutes_chars(m, s));
    out
}

} // verus!
