//! A patrolling enemy token with a binary alive/respawn state.
//!
//! One enemy is spawned per grid row at game start, at the eastern edge of
//! its own row. An enemy is never destroyed: a kill only clears `is_alive`
//! for one tick, and its next step respawns it unconditionally at its
//! original spawn cell.

use vstd::prelude::*;
use crate::entity::Entity;
use crate::field::Field;

verus! {

/// An enemy. The immutable `id` is both its index in the world and its
/// spawn row.
#[derive(Clone, Copy, PartialEq, Eq, Structural, Debug)]
pub struct Enemy {
    pub id: u8,
    pub is_alive: bool,
    pub entity: Entity,
}

impl Enemy {
    /// The enemy invariant: its position stays on the grid and its spawn
    /// row exists on the grid.
    pub open spec fn wf(self) -> bool {
        &&& self.entity.wf()
        &&& self.id < self.entity.max_row
    }

    /// The spawn state for the given field and identity: alive at
    /// `(id, width - 1)`.
    pub open spec fn spec_new(field: Field, id: u8) -> Enemy {
        Enemy {
            id,
            is_alive: true,
            entity: Entity {
                row: id,
                col: (field.width - 1) as u8,
                max_row: field.height,
                max_col: field.width,
            },
        }
    }

    /// One patrol step as a mathematical function. Alive: one column west,
    /// wrapping from column zero to the eastern edge. Not alive: respawn
    /// unconditionally at the spawn cell, alive again.
    pub open spec fn spec_enemy_move(e: Enemy) -> Enemy {
        if e.is_alive {
            if e.entity.col == 0 {
                Enemy { entity: Entity { col: (e.entity.max_col - 1) as u8, ..e.entity }, ..e }
            } else {
                Enemy { entity: Entity { col: (e.entity.col - 1) as u8, ..e.entity }, ..e }
            }
        } else {
            Enemy {
                is_alive: true,
                entity: Entity { row: e.id, col: (e.entity.max_col - 1) as u8, ..e.entity },
                ..e
            }
        }
    }

    /// A fresh enemy in its spawn state; see [`Enemy::spec_new`].
    pub fn new(field: &Field, id: u8) -> (r: Enemy)
        requires
            field.wf(),
            id < field.height,
        ensures
            r == Self::spec_new(*field, id),
            r.wf(),
            r.entity.bounded_by(*field),
    {
        let entity = Entity {
            row: id,
            col: field.width - 1,
            max_row: field.height,
            max_col: field.width,
        };
        Enemy {
            id,
            is_alive: true,
            entity,
        }
    }

    /// Take one patrol step, or respawn when not alive; see
    /// [`Enemy::spec_enemy_move`].
    pub fn enemy_move(&mut self)
        requires
            old(self).wf(),
        ensures
            *final(self) == Self::spec_enemy_move(*old(self)),
            final(self).wf(),
    {
        if self.is_alive {
            if self.entity.col == 0 {
                self.entity.col = self.entity.max_col - 1;
            } else {
                self.entity.col = self.entity.col - 1;
            }
        } else {
            self.is_alive = true;
            self.entity.row = self.id;
            self.entity.col = self.entity.max_col - 1;
        }
    }
}

} // verus!
