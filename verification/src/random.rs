//! Random picks for the chart: a fill character and a colour.

use vstd::prelude::*;

verus! {

/// A colour of the terminal's palette, by its index.
#[derive(Clone, Copy, Debug, PartialEq, Eq, Structural)]
pub struct PaletteColor {
    pub index: u8,
}

/// An ASCII letter or digit.
pub open spec fn is_alphanumeric(c: char) -> bool {
    ('0' <= c && c <= '9') || ('a' <= c && c <= 'z') || ('A' <= c && c <= 'Z')
}

/// Samples `rand::distributions::Alphanumeric` once from `rand::thread_rng`. Which byte comes
/// is chance; every one of them is an ASCII letter or digit.
#[verifier::external_body]
fn sample_alphanumeric() -> (b: u8)
    ensures
        is_alphanumeric(b as char),
{
    rand::Rng::sample(&mut rand::thread_rng(), rand::distributions::Alphanumeric)
}

/// Calls `rand::Rng::gen_range` on `rand::thread_rng` with the range from 0 up to, and without,
/// `bound`. Which number comes is chance; every one of them is in the range. An empty range
/// panics and is left out.
#[verifier::external_body]
fn sample_below(bound: u8) -> (n: u8)
    requires
        bound > 0,
    ensures
        n < bound,
{
    rand::Rng::gen_range(&mut rand::thread_rng(), 0..bound)
}

/// A random ASCII letter or digit.
pub fn get_char() -> (c: char)
    ensures
        is_alphanumeric(c),
{
    sample_alphanumeric() as char
}

/// A random colour from the terminal's palette, at an index below 255. Which index comes is
/// chance: the colour is `PaletteColor::at` of what was drawn.
pub fn get_color() -> (color: PaletteColor)
    ensures
        color.index < 255,
{
    PaletteColor::at(sample_below(255))
}

impl PaletteColor {
    /// The colour at an index of the terminal's palette.
    pub fn at(index: u8) -> (color: PaletteColor)
        ensures
            color.index == index,
    {
        PaletteColor { index }
    }
}

} // verus!
