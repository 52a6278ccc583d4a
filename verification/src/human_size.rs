//! Byte counts for people: `512b`, `1.5kb`, `64.0gb`.
//!
//! A count of at least one kilobyte is shown in the largest unit that it reaches, with one digit
//! after the point. The count is taken to double precision first, which leaves every count below
//! 2^53 as it is, and the digit is rounded to nearest, a tie going to the even one.

use vstd::prelude::*;

use crate::double::{nearest_double, round_div, rounded_quotient, to_nearest_double};
use crate::text::{decimal, decimal_text};

verus! {

/// Bytes in a kilobyte.
pub const KB: usize = 1024;

/// Bytes in a megabyte.
pub const MB: usize = 1048576;

/// Bytes in a gigabyte.
pub const GB: usize = 1073741824;

/// `bytes` in units of `unit` bytes, with one digit after the point.
pub open spec fn tenths_text(bytes: nat, unit: nat) -> Seq<char> {
    let tenths = round_div(nearest_double(bytes) * 10, unit);
    decimal_text(tenths / 10) + seq!['.'] + decimal_text(tenths % 10)
}

/// The text that shows `bytes` to people.
pub open spec fn human_text(bytes: nat) -> Seq<char> {
    if bytes >= GB {
        tenths_text(bytes, GB as nat) + "gb"@
    } else if bytes >= MB {
        tenths_text(bytes, MB as nat) + "mb"@
    } else if bytes >= KB {
        tenths_text(bytes, KB as nat) + "kb"@
    } else {
        decimal_text(bytes) + "b"@
    }
}

fn tenths(bytes: u128, unit: u128) -> (r: String)
    requires
        bytes <= 2 * usize::MAX,
        0 < unit <= GB,
    ensures
        r@ == tenths_text(bytes as nat, unit as nat),
{
    let tenths: u128 = rounded_quotient(to_nearest_double(bytes) * 10, unit);
    proof {
        reveal_strlit(".");
    }
    decimal(tenths / 10).concat(".").concat(decimal(tenths % 10).as_str())
}

/// Shows the sum of two byte counts to people.
pub(crate) fn human_bytes_wide(bytes: u128) -> (r: String)
    requires
        bytes <= 2 * usize::MAX,
    ensures
        r@ == human_text(bytes as nat),
{
    if bytes >= GB as u128 {
        tenths(bytes, GB as u128).concat("gb")
    } else if bytes >= MB as u128 {
        tenths(bytes, MB as u128).concat("mb")
    } else if bytes >= KB as u128 {
        tenths(bytes, KB as u128).concat("kb")
    } else {
        decimal(bytes).concat("b")
    }
}

/// Shows a byte count to people.
pub fn human_bytes(bytes: usize) -> (r: String)
    ensures
        r@ == human_text(bytes as nat),
{
    human_bytes_wide(bytes as u128)
}

} // verus!
