//! Settings of the buffers of a statement.

use crate::stmt::cols::DEFAULT_UTF8_CONV_FACTOR;
use vstd::prelude::*;

verus! {

/// The number that the standard library reads from `text` as a `u32`, if it
/// reads one: decimal digits, with or without a plus sign before them, that
/// give a number within the type.
pub uninterp spec fn parsed_u32(text: Seq<char>) -> Option<u32>;

/// Calls `str::parse::<u32>`. The result is the number that the standard
/// library reads from the text, and nothing where it reads none.
#[verifier::external_body]
fn parse_u32(text: &str) -> (r: Option<u32>)
    ensures
        r == parsed_u32(text@),
{
    text.parse::<u32>().ok()
}

/// The factor that a setting gives: the number that was read from it, and
/// the default where none was.
pub open spec fn factor_of(parsed: Option<u32>) -> u32 {
    match parsed {
        Some(factor) => factor,
        None => DEFAULT_UTF8_CONV_FACTOR,
    }
}

/// Returns the factor that a setting gives.
pub fn factor(parsed: Option<u32>) -> (f: u32)
    ensures
        f == factor_of(parsed),
{
    match parsed {
        Some(factor) => factor,
        None => DEFAULT_UTF8_CONV_FACTOR,
    }
}

/// Returns the factor by which the reported size of a column is multiplied:
/// the number that the setting holds, and the default where there is no
/// setting or it holds no number.
pub fn conv_factor(setting: Option<&str>) -> (f: u32)
    ensures
        f == factor_of(
            match setting {
                Some(text) => parsed_u32(text@),
                None => None,
            },
        ),
        setting is None ==> f == DEFAULT_UTF8_CONV_FACTOR,
{
    match setting {
        Some(text) => factor(parse_u32(text)),
        None => factor(None),
    }
}

} // verus!
