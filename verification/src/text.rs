//! Decimal rendering of integers, used to build the human-readable texts of errors.

use vstd::prelude::*;

verus! {

/// The character of a decimal digit.
pub open spec fn digit_char(d: nat) -> char {
    if d == 0 { '0' }
    else if d == 1 { '1' }
    else if d == 2 { '2' }
    else if d == 3 { '3' }
    else if d == 4 { '4' }
    else if d == 5 { '5' }
    else if d == 6 { '6' }
    else if d == 7 { '7' }
    else if d == 8 { '8' }
    else { '9' }
}

/// The decimal notation of a natural number, without leading zeros.
pub open spec fn decimal(n: nat) -> Seq<char>
    decreases n,
{
    if n < 10 {
        seq![digit_char(n)]
    } else {
        decimal(n / 10).push(digit_char(n % 10))
    }
}

fn digit_str(d: u64) -> (s: &'static str)
    requires
        d < 10,
    ensures
        s@ == seq![digit_char(d as nat)],
{
    proof {
        reveal_strlit("0");
        reveal_strlit("1");
        reveal_strlit("2");
        reveal_strlit("3");
        reveal_strlit("4");
        reveal_strlit("5");
        reveal_strlit("6");
        reveal_strlit("7");
        reveal_strlit("8");
        reveal_strlit("9");
    }
    if d == 0 { "0" }
    else if d == 1 { "1" }
    else if d == 2 { "2" }
    else if d == 3 { "3" }
    else if d == 4 { "4" }
    else if d == 5 { "5" }
    else if d == 6 { "6" }
    else if d == 7 { "7" }
    else if d == 8 { "8" }
    else { "9" }
}

/// Writes `n` in decimal notation.
pub fn u64_to_decimal(n: u64) -> (s: String)
    ensures
        s@ == decimal(n as nat),
    decreases n,
{
    if n < 10 {
        String::from_str(digit_str(n))
    } else {
        let mut s = u64_to_decimal(n / 10);
        s.append(digit_str(n % 10));
        s
    }
}

/// The fractional part of a number of seconds, given in milliseconds `r`
/// (`r < 1000`): a point and up to three digits, trailing zeros left out; nothing
/// where `r` is zero.
pub open spec fn millis_fraction(r: nat) -> Seq<char> {
    let d1 = r / 100;
    let d2 = (r / 10) % 10;
    let d3 = r % 10;
    if r == 0 {
        Seq::empty()
    } else if d3 != 0 {
        seq!['.', digit_char(d1), digit_char(d2), digit_char(d3)]
    } else if d2 != 0 {
        seq!['.', digit_char(d1), digit_char(d2)]
    } else {
        seq!['.', digit_char(d1)]
    }
}

/// A duration of `ms` milliseconds written as the standard library's `Duration`
/// debug notation writes it: `0ns`, `250ms`, `1.5s`, `60s`.
pub open spec fn duration_text(ms: nat) -> Seq<char> {
    if ms == 0 {
        "0ns"@
    } else if ms < 1000 {
        decimal(ms) + "ms"@
    } else {
        decimal(ms / 1000) + millis_fraction(ms % 1000) + "s"@
    }
}

/// Writes a duration of `ms` milliseconds in `Duration` debug notation.
pub fn duration_millis_text(ms: u64) -> (s: String)
    ensures
        s@ == duration_text(ms as nat),
{
    if ms == 0 {
        return String::from_str("0ns");
    }
    if ms < 1000 {
        let mut s = u64_to_decimal(ms);
        s.append("ms");
        return s;
    }
    let mut s = u64_to_decimal(ms / 1000);
    let r = ms % 1000;
    if r != 0 {
        let d1 = r / 100;
        let d2 = (r / 10) % 10;
        let d3 = r % 10;
        s.append(".");
        s.append(digit_str(d1));
        if d3 != 0 {
            s.append(digit_str(d2));
            s.append(digit_str(d3));
        } else if d2 != 0 {
            s.append(digit_str(d2));
        }
        proof {
            reveal_strlit(".");
            let f = millis_fraction(r as nat);
            assert(s@ =~= decimal((ms / 1000) as nat) + f);
        }
    } else {
        proof {
            assert(millis_fraction(0) =~= Seq::<char>::empty());
            assert(s@ =~= decimal((ms / 1000) as nat) + millis_fraction(0));
        }
    }
    s.append("s");
    s
}

} // verus!
