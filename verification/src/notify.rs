//! Text for the status surface.
//!
//! Every stage reports through one human-readable `title: message` line;
//! rendering it onto the tray is the application's business. The helpers
//! here build that line, and render the one number that appears in it (an
//! HTTP status) in decimal.

use vstd::prelude::*;
use vstd::string::StringExecFns;

verus! {

/// The view of one decimal digit.
pub open spec fn spec_digit(d: nat) -> Seq<char> {
    if d == 0 {
        "0"@
    } else if d == 1 {
        "1"@
    } else if d == 2 {
        "2"@
    } else if d == 3 {
        "3"@
    } else if d == 4 {
        "4"@
    } else if d == 5 {
        "5"@
    } else if d == 6 {
        "6"@
    } else if d == 7 {
        "7"@
    } else if d == 8 {
        "8"@
    } else {
        "9"@
    }
}

/// The decimal numeral of `n`, most significant digit first, no sign and no
/// leading zero (except for `n == 0` itself).
pub open spec fn spec_decimal(n: nat) -> Seq<char>
    decreases n,
{
    if n < 10 {
        spec_digit(n)
    } else {
        spec_decimal(n / 10) + spec_digit(n % 10)
    }
}

fn digit_str(d: u16) -> (s: &'static str)
    requires
        d < 10,
    ensures
        s@ == spec_digit(d as nat),
{
    match d {
        0 => "0",
        1 => "1",
        2 => "2",
        3 => "3",
        4 => "4",
        5 => "5",
        6 => "6",
        7 => "7",
        8 => "8",
        _ => "9",
    }
}

/// Render `n` in decimal.
pub fn decimal_string(n: u16) -> (s: String)
    ensures
        s@ == spec_decimal(n as nat),
    decreases n,
{
    if n < 10 {
        String::from_str(digit_str(n))
    } else {
        let mut s = decimal_string(n / 10);
        s.append(digit_str(n % 10));
        s
    }
}

/// The view of the one line the status surface shows.
pub open spec fn spec_notification(title: Seq<char>, message: Seq<char>) -> Seq<char> {
    title + ": "@ + message
}

/// Build the `title: message` line.
pub fn format_notification(title: &str, message: &str) -> (line: String)
    ensures
        line@ == spec_notification(title@, message@),
{
    String::from_str(title).concat(": ").concat(message)
}

} // verus!
