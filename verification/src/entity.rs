//! Shared position/bounds record embedded by every movable token.

use vstd::prelude::*;

verus! {

/// A token's position on the grid together with the exclusive bounds it
/// must stay inside. Every entity embeds one of these by composition.
#[derive(Clone, Copy, PartialEq, Eq, Structural, Debug)]
pub struct Entity {
    pub row: u8,
    pub col: u8,
    pub max_row: u8,
    pub max_col: u8,
}

impl Entity {
    /// The position invariant: never outside the grid.
    pub open spec fn wf(self) -> bool {
        &&& self.row < self.max_row
        &&& self.col < self.max_col
    }

    /// Whether this entity's bounds are those of the given field.
    pub open spec fn bounded_by(self, field: crate::field::Field) -> bool {
        &&& self.max_row == field.height
        &&& self.max_col == field.width
    }
}

} // verus!
