//! Grid bounds: a validated height/width pair.
//!
//! Height must lie in `1..=20` and width in `50..=80`; an out-of-range value
//! is silently replaced by the default (10 and 60 respectively), never
//! rejected.

use vstd::prelude::*;

verus! {

/// A candidate measurement for one axis of the grid, before validation.
#[derive(Clone, Copy, PartialEq, Eq, Structural, Debug)]
pub enum Proportions {
    Height(u8),
    Width(u8),
}

/// The validated grid bounds. Positions range over
/// `0..height` rows and `0..width` columns.
#[derive(Clone, Copy, PartialEq, Eq, Structural, Debug)]
pub struct Field {
    pub height: u8,
    pub width: u8,
}

impl Field {
    /// The bounds invariant: both axes inside their closed ranges.
    pub open spec fn wf(self) -> bool {
        &&& 1 <= self.height <= 20
        &&& 50 <= self.width <= 80
    }

    /// What validation yields: the value itself when in range,
    /// the axis default otherwise.
    pub open spec fn spec_check_range(proportions: Proportions) -> u8 {
        match proportions {
            Proportions::Height(x) => if 1 <= x && x <= 20 { x } else { 10 },
            Proportions::Width(x) => if 50 <= x && x <= 80 { x } else { 60 },
        }
    }

    fn check_range(proportions: Proportions) -> (r: u8)
        ensures
            r == Self::spec_check_range(proportions),
    {
        match proportions {
            Proportions::Height(x) => {
                if !(1 <= x && x <= 20) {
                    10
                } else {
                    x
                }
            }
            Proportions::Width(x) => {
                if !(50 <= x && x <= 80) {
                    60
                } else {
                    x
                }
            }
        }
    }

    /// Build the bounds from two candidate measurements, clamping each to
    /// its axis range. Passing the height candidate first and the width
    /// candidate second yields well-formed bounds.
    pub fn new(x: Proportions, y: Proportions) -> (r: Field)
        ensures
            r.height == Self::spec_check_range(x),
            r.width == Self::spec_check_range(y),
            (x is Height && y is Width) ==> r.wf(),
    {
        Field {
            height: Self::check_range(x),
            width: Self::check_range(y),
        }
    }
}

} // verus!
