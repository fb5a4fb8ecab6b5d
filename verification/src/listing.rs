//! Positions in displayed lists.
//!
//! The list commands number their entries from one when rendering, and the
//! edit and delete commands take such a number back from the user. This
//! module resolves that argument against the current list.

use vstd::prelude::*;
use crate::text::{spec_is_digits, spec_digits_value, parse_decimal};

verus! {

/// Resolves a user-supplied position argument against a list of `count`
/// entries, numbered from one as the list commands display them. Returns
/// the zero-based index exactly when the argument is a decimal numeral
/// naming an existing entry.
pub fn resolve_position(count: usize, arg: &str) -> (r: Option<usize>)
    ensures
        r is Some <==> spec_is_digits(arg@) && 1 <= spec_digits_value(arg@) <= count,
        r matches Some(i) ==> i < count && i as int + 1 == spec_digits_value(arg@),
{
    match parse_decimal(arg) {
        Some(v) => if 1 <= v && v <= count as u64 {
            Some((v - 1) as usize)
        } else {
            None
        },
        None => None,
    }
}

} // verus!
