//! The library's global laws, each proved from the specifications the
//! operations carry.

use vstd::prelude::*;
use crate::boomerang::Boomerang;
use crate::world::World;

verus! {

/// Bounds law: in every well-formed world the player, the boomerang and
/// every enemy sit inside the grid — rows below the height, columns below
/// the width. Every operation of the library preserves well-formedness, so
/// this holds along every sequence of moves and ticks.
pub proof fn lemma_positions_in_bounds(w: World)
    requires
        w.wf(),
    ensures
        w.player.entity.row < w.field.height,
        w.player.entity.col < w.field.width,
        w.boomerang.entity.row < w.field.height,
        w.boomerang.entity.col < w.field.width,
        forall|i: int| 0 <= i < w.enemies@.len() ==> {
            &&& (#[trigger] w.enemies@[i]).entity.row < w.field.height
            &&& w.enemies@[i].entity.col < w.field.width
        },
{
}

/// Countdown law: across one flight step the countdown never grows; while
/// the boomerang flies with a positive countdown it falls by exactly one,
/// so it reaches exactly zero; at zero the flight freezes without moving;
/// and a boomerang that no longer flies stays frozen — only a launch sets
/// `is_fly` again.
pub proof fn lemma_countdown_monotone(b: Boomerang)
    requires
        b.wf(),
    ensures
        Boomerang::spec_fly(b).iterators <= b.iterators,
        b.is_fly && b.iterators > 0 ==> Boomerang::spec_fly(b).iterators == b.iterators - 1,
        b.iterators == 0 ==> !Boomerang::spec_fly(b).is_fly
            && Boomerang::spec_fly(b).entity == b.entity,
        !b.is_fly ==> b.iterators == 0 && !Boomerang::spec_fly(b).is_fly,
{
}

/// Danger-window law: while the boomerang flies it is outbound exactly
/// while the countdown is at least 18 (a launch starts it at 38, so the
/// danger phase lasts the first 21 flight steps); and the transition is
/// one-way — a flight step never re-enables the danger phase.
pub proof fn lemma_danger_window(b: Boomerang)
    requires
        b.wf(),
    ensures
        b.is_fly ==> (b.is_danger <==> b.iterators >= 18),
        !b.is_danger ==> !Boomerang::spec_fly(b).is_danger,
{
}

/// Kill-zone law: an enemy sharing the advanced boomerang's row with a
/// column in the five-cell span from the boomerang's column eastward,
/// while the boomerang is outbound, is killed that tick — in place, and
/// regardless of its prior alive state.
pub proof fn lemma_kill_zone(w: World, i: int)
    requires
        w.wf(),
        0 <= i < w.enemies@.len(),
        World::in_kill_zone(World::spec_advance(w.boomerang), w.enemies@[i]),
    ensures
        !World::spec_tick_enemy(w, i).is_alive,
        World::spec_tick_enemy(w, i).entity == w.enemies@[i].entity,
{
}

/// Respawn law: an enemy that is not alive and escapes the kill zone is
/// restored by the tick's resolution to its spawn cell — its own row at
/// the eastern edge — alive again, with no delay.
pub proof fn lemma_respawn(w: World, i: int)
    requires
        w.wf(),
        0 <= i < w.enemies@.len(),
        !w.enemies@[i].is_alive,
        !World::in_kill_zone(World::spec_advance(w.boomerang), w.enemies@[i]),
    ensures
        World::spec_tick_enemy(w, i).is_alive,
        World::spec_tick_enemy(w, i).entity.row == w.enemies@[i].id,
        World::spec_tick_enemy(w, i).entity.col == w.field.width - 1,
{
}

/// Collision-order law: a freshly killed enemy is checked against the
/// player at its unmoved pre-kill position — it still occupies that cell
/// the tick it dies. A player standing there dies the same tick, even
/// though the enemy's alive flag is already cleared.
pub proof fn lemma_collision_order(w: World, i: int)
    requires
        w.wf(),
        0 <= i < w.enemies@.len(),
        World::in_kill_zone(World::spec_advance(w.boomerang), w.enemies@[i]),
        w.enemies@[i].entity.row == w.player.entity.row,
        w.enemies@[i].entity.col == w.player.entity.col,
    ensures
        !World::spec_tick_enemy(w, i).is_alive,
        !World::spec_tick_player(w).is_alive,
{
    assert(World::hits_player(World::spec_tick_enemy(w, i), w.player));
}

/// Catch law: when the player stands on a stopped, visible boomerang it
/// does not hold, the very next tick's catch check hides the boomerang,
/// resets it to the grid origin, and hands it back to the player.
pub proof fn lemma_catch_round_trip(w: World)
    requires
        w.wf(),
        !w.boomerang.is_hide,
        !w.player.has_boomerang,
        !w.boomerang.is_fly,
        w.boomerang.entity.row == w.player.entity.row,
        w.boomerang.entity.col == w.player.entity.col,
    ensures
        World::spec_tick_boomerang(w).is_hide,
        World::spec_tick_boomerang(w).entity.row == 0,
        World::spec_tick_boomerang(w).entity.col == 0,
        World::spec_tick_player(w).has_boomerang,
{
}

} // verus!
