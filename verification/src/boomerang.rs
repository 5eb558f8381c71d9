//! The boomerang projectile and its three-phase flight state machine.
//!
//! Lifecycle: hidden (held by the player) → launched (outbound, the danger
//! phase in which it kills) → returning → stopped (frozen in place, still
//! visible) → caught by the player, back to hidden. Only a launch starts a
//! flight; only the world's catch check hides a stopped boomerang again.

use vstd::prelude::*;
use crate::entity::Entity;
use crate::field::Field;

verus! {

/// The number of ticks a fresh launch flies for.
pub const FLIGHT_TICKS: u8 = 38;

/// The boomerang. `iterators` is the flight countdown: it starts at
/// [`FLIGHT_TICKS`] on launch, falls by one per flight step, and the flight
/// freezes once it has reached zero. `is_danger` marks the outbound phase,
/// the only phase in which the boomerang kills.
#[derive(Clone, Copy, PartialEq, Eq, Structural, Debug)]
pub struct Boomerang {
    pub is_hide: bool,
    pub is_danger: bool,
    pub is_fly: bool,
    pub entity: Entity,
    pub max_range: u8,
    pub iterators: u8,
}

impl Boomerang {
    /// The flight invariant, preserved by every operation:
    /// the position stays on the grid, the countdown never exceeds a full
    /// flight, the danger phase lasts exactly while the countdown is at
    /// least `max_range - 2`, and on the return leg the column always
    /// exceeds the countdown — so the westward return never leaves the grid.
    pub open spec fn wf(self) -> bool {
        &&& self.entity.wf()
        &&& self.entity.max_row <= 20
        &&& 50 <= self.entity.max_col <= 80
        &&& self.max_range == 20
        &&& self.iterators <= FLIGHT_TICKS
        &&& self.is_danger ==> self.is_fly
        &&& self.is_fly ==> !self.is_hide
        &&& !self.is_fly ==> self.iterators == 0
        &&& self.is_fly ==> (self.is_danger <==> self.iterators >= 18)
        &&& self.is_danger ==> self.entity.col >= FLIGHT_TICKS - self.iterators
        &&& (self.is_fly && !self.is_danger) ==> self.entity.col >= self.iterators
    }

    /// One flight step as a mathematical function. A countdown of zero
    /// freezes the flight without moving; otherwise the boomerang moves one
    /// column east (clamped at the wall) while outbound or one column west
    /// while returning, the countdown falls by one, and once it has fallen
    /// below `max_range - 2` the danger phase ends for good.
    pub open spec fn spec_fly(b: Boomerang) -> Boomerang {
        if b.iterators == 0 {
            Boomerang { is_fly: false, ..b }
        } else {
            let moved = if b.is_danger {
                if b.entity.col != b.entity.max_col - 1 {
                    Boomerang { entity: Entity { col: (b.entity.col + 1) as u8, ..b.entity }, ..b }
                } else {
                    b
                }
            } else {
                Boomerang { entity: Entity { col: (b.entity.col - 1) as u8, ..b.entity }, ..b }
            };
            let stepped = Boomerang { iterators: (b.iterators - 1) as u8, ..moved };
            if stepped.iterators < b.max_range - 2 {
                Boomerang { is_danger: false, ..stepped }
            } else {
                stepped
            }
        }
    }

    /// What a launch from the given origin yields: visible, flying,
    /// outbound, a full countdown, the origin's row, and a column two east
    /// of the origin, clamped at the eastern wall — the minimum of
    /// `origin_col + 2` and `max_col - 1`.
    pub open spec fn spec_launch(b: Boomerang, origin_row: u8, origin_col: u8) -> Boomerang {
        Boomerang {
            is_hide: false,
            is_danger: true,
            is_fly: true,
            iterators: FLIGHT_TICKS,
            entity: Entity {
                row: origin_row,
                col: if origin_col + 2 < b.entity.max_col {
                    (origin_col + 2) as u8
                } else {
                    (b.entity.max_col - 1) as u8
                },
                ..b.entity
            },
            ..b
        }
    }

    /// The initial state for the given field: hidden at the grid origin,
    /// not flying.
    pub open spec fn spec_new(field: Field) -> Boomerang {
        Boomerang {
            is_hide: true,
            is_danger: false,
            is_fly: false,
            max_range: 20,
            iterators: 0,
            entity: Entity { row: 0, col: 0, max_row: field.height, max_col: field.width },
        }
    }

    /// A fresh boomerang: hidden at the grid origin, not flying.
    pub fn new(field: &Field) -> (r: Boomerang)
        requires
            field.wf(),
        ensures
            r == Self::spec_new(*field),
            r.wf(),
            r.entity.bounded_by(*field),
    {
        let entity = Entity {
            row: 0,
            col: 0,
            max_row: field.height,
            max_col: field.width,
        };
        Boomerang {
            is_hide: true,
            is_danger: false,
            is_fly: false,
            max_range: 20,
            iterators: 0,
            entity,
        }
    }

    /// Advance the flight by one step; see [`Boomerang::spec_fly`].
    pub fn fly(&mut self)
        requires
            old(self).wf(),
        ensures
            *final(self) == Self::spec_fly(*old(self)),
            final(self).wf(),
    {
        if self.iterators == 0 {
            self.is_fly = false;
            return;
        }

        if self.is_danger {
            if self.entity.col != self.entity.max_col - 1 {
                self.entity.col = self.entity.col + 1;
            }
            self.iterators = self.iterators - 1;
        } else {
            self.entity.col = self.entity.col - 1;
            self.iterators = self.iterators - 1;
        }

        if self.iterators < self.max_range - 2 {
            self.is_danger = false;
        }
    }

    /// Launch the boomerang from the player's position; see
    /// [`Boomerang::spec_launch`]. The world clears the player's holding
    /// flag at the same moment.
    pub fn launch(&mut self, origin_row: u8, origin_col: u8)
        requires
            old(self).wf(),
            origin_row < old(self).entity.max_row,
            origin_col < old(self).entity.max_col,
        ensures
            *final(self) == Self::spec_launch(*old(self), origin_row, origin_col),
            final(self).wf(),
    {
        self.is_hide = false;
        self.is_danger = true;
        self.is_fly = true;
        self.iterators = FLIGHT_TICKS;
        self.entity.row = origin_row;
        if origin_col + 2 < self.entity.max_col {
            self.entity.col = origin_col + 2;
        } else {
            self.entity.col = self.entity.max_col - 1;
        }
    }
}

} // verus!
