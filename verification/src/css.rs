//! The application stylesheet.
//!
//! The clock's labels animate between their shown and hidden sizes; the
//! animation's duration is taken from the toolkit at startup and written
//! into the stylesheet text. This module renders that text exactly; the
//! style provider that attaches it to the display belongs to the front end.

use vstd::prelude::*;

verus! {

/// The decimal digit character for `d`.
pub open spec fn spec_digit(d: nat) -> char
    recommends
        d < 10,
{
    if d == 0 {
        '0'
    } else if d == 1 {
        '1'
    } else if d == 2 {
        '2'
    } else if d == 3 {
        '3'
    } else if d == 4 {
        '4'
    } else if d == 5 {
        '5'
    } else if d == 6 {
        '6'
    } else if d == 7 {
        '7'
    } else if d == 8 {
        '8'
    } else {
        '9'
    }
}

/// The decimal numeral of `n`, most significant digit first, without
/// leading zeroes (`0` itself is the single digit `0`).
pub open spec fn spec_decimal(n: nat) -> Seq<char>
    decreases n,
{
    if n < 10 {
        seq![spec_digit(n)]
    } else {
        spec_decimal(n / 10).push(spec_digit(n % 10))
    }
}

fn digit_str(d: u64) -> (r: &'static str)
    requires
        d < 10,
    ensures
        r@ == seq![spec_digit(d as nat)],
{
    proof {
        reveal_strlit("0");
        reveal_strlit("1");
        reveal_strlit("2");
        reveal_strlit("3");
        reveal_strlit("4");
        reveal_strlit("5");
        reveal_strlit("6");
        reveal_strlit("7");
        reveal_strlit("8");
        reveal_strlit("9");
    }
    let r = if d == 0 {
        "0"
    } else if d == 1 {
        "1"
    } else if d == 2 {
        "2"
    } else if d == 3 {
        "3"
    } else if d == 4 {
        "4"
    } else if d == 5 {
        "5"
    } else if d == 6 {
        "6"
    } else if d == 7 {
        "7"
    } else if d == 8 {
        "8"
    } else {
        "9"
    };
    proof {
        assert(r@ =~= seq![spec_digit(d as nat)]);
    }
    r
}

/// Render `n` in decimal, most significant digit first.
pub fn decimal_string(n: u64) -> (s: String)
    ensures
        s@ == spec_decimal(n as nat),
    decreases n,
{
    if n < 10 {
        String::from_str(digit_str(n))
    } else {
        let mut s = decimal_string(n / 10);
        s.append(digit_str(n % 10));
        proof {
            assert(spec_decimal((n / 10) as nat).push(spec_digit((n % 10) as nat))
                =~= spec_decimal((n / 10) as nat) + seq![spec_digit((n % 10) as nat)]);
        }
        s
    }
}

/// The stylesheet up to the first animation duration.
pub open spec fn spec_style_head() -> Seq<char> {
    "\n.time {\n    transition: "@
}

/// The stylesheet between the two animation durations.
pub open spec fn spec_style_mid() -> Seq<char> {
    "ms ease-in-out;\n    font-size: 48pt;\n    font-family: monospace;\n}\nwindow:not(.hidden) .time {\n    font-size: 40pt;\n}\n.date {\n    transition: "@
}

/// The stylesheet after the second animation duration.
pub open spec fn spec_style_tail() -> Seq<char> {
    "ms ease-in-out;\n    font-size: 24pt;\n    font-family: monospace;\n}\nwindow:not(.hidden) .date {\n    font-size: 20pt;\n}\n\n.error-label {\n    color: red;\n}\n"@
}

/// The whole application stylesheet for a given animation duration: the
/// time and date rules each name the duration in milliseconds, in decimal.
pub open spec fn spec_stylesheet(duration_ms: u64) -> Seq<char> {
    spec_style_head() + spec_decimal(duration_ms as nat) + spec_style_mid() + spec_decimal(
        duration_ms as nat,
    ) + spec_style_tail()
}

/// Render the application stylesheet with the given animation duration in
/// milliseconds formatted into it. Attaching the result to the display is
/// the front end's part.
pub fn attach_style_fmt(duration_ms: u64) -> (s: String)
    ensures
        s@ == spec_stylesheet(duration_ms),
{
    let d = decimal_string(duration_ms);
    let mut s = String::from_str("\n.time {\n    transition: ");
    s.append(d.as_str());
    s.append(
        "ms ease-in-out;\n    font-size: 48pt;\n    font-family: monospace;\n}\nwindow:not(.hidden) .time {\n    font-size: 40pt;\n}\n.date {\n    transition: ",
    );
    s.append(d.as_str());
    s.append(
        "ms ease-in-out;\n    font-size: 24pt;\n    font-family: monospace;\n}\nwindow:not(.hidden) .date {\n    font-size: 20pt;\n}\n\n.error-label {\n    color: red;\n}\n",
    );
    s
}

} // verus!
