//! The database overview: how it renders counts.

use vstd::prelude::*;
use vstd::string::StringExecFns;
use crate::text::{i64_to_decimal, push_char, signed_decimal};

verus! {

/// `s` with a `,` before each group of three characters, counted from the right.
pub open spec fn group_thousands(s: Seq<char>) -> Seq<char>
    decreases s.len(),
{
    if s.len() <= 3 {
        s
    } else {
        group_thousands(s.take(s.len() - 3)) + seq![','] + s.skip(s.len() - 3)
    }
}

/// `s` with a `,` before each group of three characters, counted from the right.
fn group_thousands_str(s: &str) -> (r: String)
    ensures
        r@ == group_thousands(s@),
    decreases s@.len(),
{
    let n = s.unicode_len();
    if n <= 3 {
        return String::from_str(s);
    }
    let head = s.substring_char(0, n - 3);
    let tail = s.substring_char(n - 3, n);
    let mut r = group_thousands_str(head);
    push_char(&mut r, ',');
    r.append(tail);
    r
}

/// The decimal rendering of `n` with thousands separated by `,`, such as `1,234,567`.
/// The sign counts as a character, so `-123` gives `-,123`.
pub fn format_number(n: i64) -> (r: String)
    ensures
        r@ == group_thousands(signed_decimal(n as int)),
{
    let s = i64_to_decimal(n);
    group_thousands_str(s.as_str())
}

} // verus!
