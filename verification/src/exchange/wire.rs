//! Values read from stored and received trade records.

use vstd::prelude::*;

verus! {

/// Reads a flag stored as an integer: `0` is `false`, `1` is `true`, and anything else,
/// including a value that is not an integer (`None`), is refused.
pub fn flag_from_int(value: Option<i64>) -> (r: Result<bool, &'static str>)
    ensures
        value == Some(0i64) ==> r == Ok::<bool, &'static str>(false),
        value == Some(1i64) ==> r == Ok::<bool, &'static str>(true),
        value != Some(0i64) && value != Some(1i64) ==> (r matches Err(m) && m@ == "expected 0 or 1"@),
{
    match value {
        Some(0) => Ok(false),
        Some(1) => Ok(true),
        _ => Err("expected 0 or 1"),
    }
}

} // verus!
