//! The controllable player token: four bounded directional moves.

use vstd::prelude::*;
use crate::entity::Entity;
use crate::field::Field;

verus! {

/// The player. Created alive at the grid origin, holding the boomerang.
/// Once not alive it stays so — there is no resurrection.
#[derive(Clone, Copy, PartialEq, Eq, Structural, Debug)]
pub struct Player {
    pub is_alive: bool,
    pub has_boomerang: bool,
    pub entity: Entity,
}

impl Player {
    /// The player invariant: its position stays on the grid.
    pub open spec fn wf(self) -> bool {
        self.entity.wf()
    }

    /// A move south: one row down unless already on the last row.
    pub open spec fn spec_move_down(p: Player) -> Player {
        if p.entity.row != p.entity.max_row - 1 {
            Player { entity: Entity { row: (p.entity.row + 1) as u8, ..p.entity }, ..p }
        } else {
            p
        }
    }

    /// A move north: one row up unless already on the first row.
    pub open spec fn spec_move_up(p: Player) -> Player {
        if p.entity.row > 0 {
            Player { entity: Entity { row: (p.entity.row - 1) as u8, ..p.entity }, ..p }
        } else {
            p
        }
    }

    /// A move west: one column left unless already on the first column.
    pub open spec fn spec_move_left(p: Player) -> Player {
        if p.entity.col > 0 {
            Player { entity: Entity { col: (p.entity.col - 1) as u8, ..p.entity }, ..p }
        } else {
            p
        }
    }

    /// A move east: one column right unless already on the last column.
    pub open spec fn spec_move_right(p: Player) -> Player {
        if p.entity.col != p.entity.max_col - 1 {
            Player { entity: Entity { col: (p.entity.col + 1) as u8, ..p.entity }, ..p }
        } else {
            p
        }
    }

    /// The initial state for the given field: alive, holding the
    /// boomerang, at the grid origin.
    pub open spec fn spec_new(field: Field) -> Player {
        Player {
            is_alive: true,
            has_boomerang: true,
            entity: Entity { row: 0, col: 0, max_row: field.height, max_col: field.width },
        }
    }

    /// A fresh player: alive, holding the boomerang, at the grid origin.
    pub fn new(field: &Field) -> (r: Player)
        requires
            field.wf(),
        ensures
            r == Self::spec_new(*field),
            r.wf(),
            r.entity.bounded_by(*field),
    {
        let entity = Entity {
            row: 0,
            col: 0,
            max_row: field.height,
            max_col: field.width,
        };
        Player {
            is_alive: true,
            has_boomerang: true,
            entity,
        }
    }

    /// Move one row down; a no-op on the last row.
    pub fn move_down(&mut self)
        requires
            old(self).wf(),
        ensures
            *final(self) == Self::spec_move_down(*old(self)),
            final(self).wf(),
    {
        if self.entity.max_row - 1 != self.entity.row {
            self.entity.row = self.entity.row + 1;
        }
    }

    /// Move one row up; a no-op on the first row.
    pub fn move_up(&mut self)
        requires
            old(self).wf(),
        ensures
            *final(self) == Self::spec_move_up(*old(self)),
            final(self).wf(),
    {
        if self.entity.row > 0 {
            self.entity.row = self.entity.row - 1;
        }
    }

    /// Move one column left; a no-op on the first column.
    pub fn move_left(&mut self)
        requires
            old(self).wf(),
        ensures
            *final(self) == Self::spec_move_left(*old(self)),
            final(self).wf(),
    {
        if self.entity.col > 0 {
            self.entity.col = self.entity.col - 1;
        }
    }

    /// Move one column right; a no-op on the last column.
    pub fn move_right(&mut self)
        requires
            old(self).wf(),
        ensures
            *final(self) == Self::spec_move_right(*old(self)),
            final(self).wf(),
    {
        if self.entity.max_col - 1 != self.entity.col {
            self.entity.col = self.entity.col + 1;
        }
    }
}

} // verus!
