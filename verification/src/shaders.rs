//! Shader stage builders.

use vstd::prelude::*;

pub mod gradient;

verus! {

/// Tiling policy for parametric shader values outside the unit range.
#[derive(Clone, Copy, PartialEq, Eq, Structural, Debug)]
pub enum SpreadMode {
    /// Hold the edge value.
    Pad,
    /// Repeat the unit range.
    Repeat,
    /// Mirror the unit range back and forth.
    Reflect,
}

} // verus!
