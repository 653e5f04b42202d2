//! Rendering the aggregate into the plain-text metrics exposition format.
//!
//! The whole surface is one gauge: a `# TYPE` line followed by the metric
//! name and the decimal total.  When the server directory could not be
//! fetched the response body is empty instead.

use vstd::prelude::*;
use vstd::string::*;

use crate::aggregate::aggregate_players;
use crate::aggregate::clamped_sum;

verus! {

/// The decimal digit character for `d`.
pub open spec fn dec_digit(d: nat) -> char {
    if d == 0 {
        '0'
    } else if d == 1 {
        '1'
    } else if d == 2 {
        '2'
    } else if d == 3 {
        '3'
    } else if d == 4 {
        '4'
    } else if d == 5 {
        '5'
    } else if d == 6 {
        '6'
    } else if d == 7 {
        '7'
    } else if d == 8 {
        '8'
    } else {
        '9'
    }
}

/// The decimal rendering of `n`: no sign, no leading zeros, no separators.
pub open spec fn dec_str(n: nat) -> Seq<char>
    decreases n,
{
    if n < 10 {
        seq![dec_digit(n)]
    } else {
        dec_str(n / 10).push(dec_digit(n % 10))
    }
}

/// A one-character string slice for the digit `d`.
fn digit_literal(d: u64) -> (s: &'static str)
    requires
        d < 10,
    ensures
        s@ == seq![dec_digit(d as nat)],
{
    proof {
        reveal_strlit("0");
        reveal_strlit("1");
        reveal_strlit("2");
        reveal_strlit("3");
        reveal_strlit("4");
        reveal_strlit("5");
        reveal_strlit("6");
        reveal_strlit("7");
        reveal_strlit("8");
        reveal_strlit("9");
    }
    if d == 0 {
        "0"
    } else if d == 1 {
        "1"
    } else if d == 2 {
        "2"
    } else if d == 3 {
        "3"
    } else if d == 4 {
        "4"
    } else if d == 5 {
        "5"
    } else if d == 6 {
        "6"
    } else if d == 7 {
        "7"
    } else if d == 8 {
        "8"
    } else {
        "9"
    }
}

/// Render `n` in decimal.
pub fn u64_to_decimal(n: u64) -> (s: String)
    ensures
        s@ == dec_str(n as nat),
    decreases n,
{
    if n < 10 {
        String::from_str(digit_literal(n))
    } else {
        let mut s = u64_to_decimal(n / 10);
        s.append(digit_literal(n % 10));
        s
    }
}

/// Everything of the exposition body that precedes the decimal total.
pub open spec fn exposition_header() -> Seq<char> {
    "# TYPE ss14_total_player_count gauge\nss14_total_player_count "@
}

/// The full exposition body for the total `n`.
pub open spec fn exposition_of(n: nat) -> Seq<char> {
    exposition_header() + dec_str(n)
}

/// Render the aggregate total as the metrics exposition body.
pub fn render_metrics(total: u64) -> (s: String)
    ensures
        s@ == exposition_of(total as nat),
{
    let mut s = String::from_str("# TYPE ss14_total_player_count gauge\nss14_total_player_count ");
    let digits = u64_to_decimal(total);
    s.append(digits.as_str());
    s
}

/// The body served for one scrape request.  `counts` is `Some` with the
/// contribution of every polled server when the directory was fetched, and
/// `None` when the directory client failed; a failed directory yields the
/// empty body.
pub fn scrape_body(counts: &Option<Vec<u64>>) -> (s: String)
    ensures
        match counts {
            Some(c) => s@ == exposition_of(clamped_sum(c@) as nat),
            None => s@ == Seq::<char>::empty(),
        },
{
    match counts {
        Some(c) => {
            let total = aggregate_players(c);
            render_metrics(total)
        },
        None => String::new(),
    }
}

} // verus!
