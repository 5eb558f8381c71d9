//! The world: bounds, player, boomerang and enemies, advanced one
//! simulation tick at a time.
//!
//! All cross-entity logic lives here: the per-tick collision resolution in
//! its exact order (boomerang advance, then per enemy kill-or-step followed
//! immediately by the player-death check, then the catch check), the
//! application of one input command per tick, and the render-compose step.

use vstd::prelude::*;
use crate::boomerang::Boomerang;
use crate::enemy::Enemy;
use crate::entity::Entity;
use crate::field::Field;
use crate::player::Player;

verus! {

/// One discrete input command, at most one applied per tick. `Idle` stands
/// for an unrecognized key: it moves nothing, but like every command it is
/// followed by the catch re-check.
#[derive(Clone, Copy, PartialEq, Eq, Structural, Debug)]
pub enum Command {
    Quit,
    MoveUp,
    MoveDown,
    MoveLeft,
    MoveRight,
    Throw,
    Idle,
}

/// What one cell of the composed render grid shows. Paint order is
/// boomerang, then player, then enemies, later over earlier — so an enemy
/// occludes the player, who occludes the boomerang.
#[derive(Clone, Copy, PartialEq, Eq, Structural, Debug)]
pub enum Tile {
    Empty,
    Boomerang,
    Player,
    Enemy,
}

/// The whole game state. `ticks` counts elapsed tenths of a second;
/// `is_end` is set only by an explicit quit command.
pub struct World {
    pub is_end: bool,
    pub field: Field,
    pub player: Player,
    pub boomerang: Boomerang,
    pub enemies: Vec<Enemy>,
    pub ticks: u64,
}

impl World {
    /// The world invariant: valid bounds shared by every entity, every
    /// position on the grid, one enemy per row indexed by its spawn row,
    /// and the boomerang hidden exactly while the player holds it.
    pub open spec fn wf(self) -> bool {
        &&& self.field.wf()
        &&& self.player.wf()
        &&& self.player.entity.bounded_by(self.field)
        &&& self.boomerang.wf()
        &&& self.boomerang.entity.bounded_by(self.field)
        &&& self.enemies@.len() == self.field.height as int
        &&& forall|i: int| 0 <= i < self.enemies@.len() ==> {
            &&& (#[trigger] self.enemies@[i]).wf()
            &&& self.enemies@[i].entity.bounded_by(self.field)
            &&& self.enemies@[i].id == i
        }
        &&& self.player.has_boomerang <==> self.boomerang.is_hide
    }

    /// The boomerang after the tick's first phase: advanced one flight step
    /// when flying, untouched otherwise.
    pub open spec fn spec_advance(b: Boomerang) -> Boomerang {
        if b.is_fly {
            Boomerang::spec_fly(b)
        } else {
            b
        }
    }

    /// The kill zone: the enemy shares the boomerang's row with a column in
    /// the five-cell span from the boomerang's column eastward, while the
    /// boomerang is in its outbound danger phase.
    pub open spec fn in_kill_zone(b: Boomerang, e: Enemy) -> bool {
        &&& b.is_danger
        &&& e.entity.row == b.entity.row
        &&& b.entity.col <= e.entity.col <= b.entity.col + 4
    }

    /// One enemy's resolution against the advanced boomerang: killed in
    /// place (it does not step that tick) when inside the kill zone,
    /// regardless of its prior alive state; otherwise one patrol step,
    /// which also respawns a dead enemy.
    pub open spec fn spec_resolve_enemy(b: Boomerang, e: Enemy) -> Enemy {
        if Self::in_kill_zone(b, e) {
            Enemy { is_alive: false, ..e }
        } else {
            Enemy::spec_enemy_move(e)
        }
    }

    /// Whether the given enemy occupies the player's cell.
    pub open spec fn hits_player(e: Enemy, p: Player) -> bool {
        &&& e.entity.row == p.entity.row
        &&& e.entity.col == p.entity.col
    }

    /// The catch condition: a visible, no-longer-flying boomerang that the
    /// player does not hold, on the player's own cell.
    pub open spec fn catch_ready(b: Boomerang, p: Player) -> bool {
        &&& !b.is_hide
        &&& !p.has_boomerang
        &&& !b.is_fly
        &&& b.entity.col == p.entity.col
        &&& b.entity.row == p.entity.row
    }

    /// The boomerang after the catch check: reset to hidden at the grid
    /// origin when caught, untouched otherwise.
    pub open spec fn spec_catch_boomerang(b: Boomerang, p: Player) -> Boomerang {
        if Self::catch_ready(b, p) {
            Boomerang { is_hide: true, entity: Entity { row: 0, col: 0, ..b.entity }, ..b }
        } else {
            b
        }
    }

    /// The player after the catch check: holding again when the boomerang
    /// was caught, untouched otherwise.
    pub open spec fn spec_catch_player(b: Boomerang, p: Player) -> Player {
        if Self::catch_ready(b, p) {
            Player { has_boomerang: true, ..p }
        } else {
            p
        }
    }

    /// Enemy `i` after the tick: resolved against the advanced boomerang.
    pub open spec fn spec_tick_enemy(w: World, i: int) -> Enemy {
        Self::spec_resolve_enemy(Self::spec_advance(w.boomerang), w.enemies@[i])
    }

    /// Whether the player survives the tick: alive before, and no enemy —
    /// at its post-resolution position, a freshly killed one at its unmoved
    /// pre-kill position — occupies the player's cell.
    pub open spec fn spec_tick_player_alive(w: World) -> bool {
        &&& w.player.is_alive
        &&& forall|i: int| 0 <= i < w.enemies@.len()
            ==> !Self::hits_player(#[trigger] Self::spec_tick_enemy(w, i), w.player)
    }

    /// The boomerang after the whole tick: advanced, then the catch check.
    pub open spec fn spec_tick_boomerang(w: World) -> Boomerang {
        Self::spec_catch_boomerang(Self::spec_advance(w.boomerang), w.player)
    }

    /// The player after the whole tick: the survival verdict, then the
    /// catch check.
    pub open spec fn spec_tick_player(w: World) -> Player {
        Self::spec_catch_player(
            Self::spec_advance(w.boomerang),
            Player { is_alive: Self::spec_tick_player_alive(w), ..w.player },
        )
    }

    /// The elapsed-time counter after one tick: one more tenth of a
    /// second, saturating at the counter's ceiling.
    pub open spec fn spec_next_ticks(t: u64) -> u64 {
        if t < u64::MAX { (t + 1) as u64 } else { t }
    }

    /// A fresh world over the given bounds: player and hidden boomerang at
    /// the origin, one enemy per row at the eastern edge, no time elapsed.
    pub fn new(field: Field) -> (w: World)
        requires
            field.wf(),
        ensures
            w.wf(),
            !w.is_end,
            w.ticks == 0,
            w.field == field,
            w.player == Player::spec_new(field),
            w.boomerang == Boomerang::spec_new(field),
            w.enemies@.len() == field.height as int,
            forall|i: int| 0 <= i < w.enemies@.len()
                ==> #[trigger] w.enemies@[i] == Enemy::spec_new(field, i as u8),
    {
        let player = Player::new(&field);
        let boomerang = Boomerang::new(&field);
        let mut enemies: Vec<Enemy> = Vec::new();
        let mut i: u8 = 0;
        while i < field.height
            invariant
                field.wf(),
                i <= field.height,
                enemies@.len() == i as int,
                forall|k: int| 0 <= k < i as int
                    ==> #[trigger] enemies@[k] == Enemy::spec_new(field, k as u8),
            decreases field.height - i,
        {
            enemies.push(Enemy::new(&field, i));
            i = i + 1;
        }
        World {
            is_end: false,
            field,
            player,
            boomerang,
            enemies,
            ticks: 0,
        }
    }

    /// Advance the world one simulation tick, in the load-bearing order:
    /// the flying boomerang advances first; then each enemy in index order
    /// is either killed in place by the kill zone or takes a patrol step,
    /// and immediately afterwards its current position — a freshly killed
    /// enemy's unmoved one — is checked against the player; then the catch
    /// check runs; then a tenth of a second elapses.
    pub fn tick(&mut self)
        requires
            old(self).wf(),
        ensures
            final(self).wf(),
            final(self).is_end == old(self).is_end,
            final(self).field == old(self).field,
            final(self).ticks == Self::spec_next_ticks(old(self).ticks),
            final(self).boomerang == Self::spec_tick_boomerang(*old(self)),
            final(self).player == Self::spec_tick_player(*old(self)),
            final(self).enemies@.len() == old(self).enemies@.len(),
            forall|i: int| 0 <= i < old(self).enemies@.len()
                ==> final(self).enemies@[i] == #[trigger] Self::spec_tick_enemy(*old(self), i),
    {
        if self.boomerang.is_fly {
            self.boomerang.fly();
        }

        let mut i: usize = 0;
        let n = self.enemies.len();
        while i < n
            invariant
                old(self).wf(),
                i <= n,
                n == old(self).enemies@.len(),
                self.is_end == old(self).is_end,
                self.field == old(self).field,
                self.ticks == old(self).ticks,
                self.boomerang == Self::spec_advance(old(self).boomerang),
                self.boomerang.wf(),
                self.boomerang.entity.bounded_by(self.field),
                self.player.entity == old(self).player.entity,
                self.player.has_boomerang == old(self).player.has_boomerang,
                self.enemies@.len() == n as int,
                forall|k: int| i as int <= k < n as int
                    ==> self.enemies@[k] == old(self).enemies@[k],
                forall|k: int| 0 <= k < i as int
                    ==> self.enemies@[k] == #[trigger] Self::spec_tick_enemy(*old(self), k),
                self.player.is_alive == (old(self).player.is_alive && forall|k: int|
                    0 <= k < i as int
                        ==> !Self::hits_player(
                            #[trigger] Self::spec_tick_enemy(*old(self), k),
                            old(self).player,
                        )),
            decreases n - i,
        {
            let e = self.enemies[i];
            let b_col = self.boomerang.entity.col;
            let new_e = if self.boomerang.is_danger
                && e.entity.row == self.boomerang.entity.row
                && b_col <= e.entity.col && e.entity.col <= b_col + 4 {
                Enemy { is_alive: false, ..e }
            } else {
                let mut stepped = e;
                stepped.enemy_move();
                stepped
            };
            self.enemies.set(i, new_e);
            if self.player.entity.row == new_e.entity.row
                && self.player.entity.col == new_e.entity.col {
                self.player.is_alive = false;
            }
            proof {
                let iw = i as int;
                assert(Self::spec_tick_enemy(*old(self), iw) == new_e);
                assert(self.player.is_alive == (old(self).player.is_alive && forall|k: int|
                    0 <= k < iw + 1
                        ==> !Self::hits_player(
                            #[trigger] Self::spec_tick_enemy(*old(self), k),
                            old(self).player,
                        )));
            }
            i = i + 1;
        }

        proof {
            let w0 = *old(self);
            assert forall|k: int| 0 <= k < self.enemies@.len() implies {
                &&& (#[trigger] self.enemies@[k]).wf()
                &&& self.enemies@[k].entity.bounded_by(self.field)
                &&& self.enemies@[k].id == k
            } by {
                assert(self.enemies@[k] == Self::spec_tick_enemy(w0, k));
                assert(w0.enemies@[k].wf() && w0.enemies@[k].entity.bounded_by(w0.field)
                    && w0.enemies@[k].id == k);
            }
        }

        if !self.boomerang.is_hide && !self.player.has_boomerang && !self.boomerang.is_fly
            && self.boomerang.entity.col == self.player.entity.col
            && self.boomerang.entity.row == self.player.entity.row {
            self.boomerang.is_hide = true;
            self.player.has_boomerang = true;
            self.boomerang.entity.col = 0;
            self.boomerang.entity.row = 0;
        }

        if self.ticks < u64::MAX {
            self.ticks = self.ticks + 1;
        }
    }

    /// The player right after the key half of a command: moved one bounded
    /// step, or no longer holding after a throw; a quit, an idle key or a
    /// throw without the boomerang leaves it untouched.
    pub open spec fn spec_apply_player(w: World, cmd: Command) -> Player {
        match cmd {
            Command::MoveUp => Player::spec_move_up(w.player),
            Command::MoveDown => Player::spec_move_down(w.player),
            Command::MoveLeft => Player::spec_move_left(w.player),
            Command::MoveRight => Player::spec_move_right(w.player),
            Command::Throw => if w.player.has_boomerang {
                Player { has_boomerang: false, ..w.player }
            } else {
                w.player
            },
            Command::Quit => w.player,
            Command::Idle => w.player,
        }
    }

    /// The boomerang right after the key half of a command: launched from
    /// the player's cell by an effective throw, untouched by anything else.
    pub open spec fn spec_apply_boomerang(w: World, cmd: Command) -> Boomerang {
        if cmd is Throw && w.player.has_boomerang {
            Boomerang::spec_launch(w.boomerang, w.player.entity.row, w.player.entity.col)
        } else {
            w.boomerang
        }
    }

    /// The player after a whole command: the key half, then the catch
    /// re-check.
    pub open spec fn spec_command_player(w: World, cmd: Command) -> Player {
        Self::spec_catch_player(Self::spec_apply_boomerang(w, cmd), Self::spec_apply_player(w, cmd))
    }

    /// The boomerang after a whole command: the key half, then the catch
    /// re-check.
    pub open spec fn spec_command_boomerang(w: World, cmd: Command) -> Boomerang {
        Self::spec_catch_boomerang(
            Self::spec_apply_boomerang(w, cmd),
            Self::spec_apply_player(w, cmd),
        )
    }

    /// Apply one discrete input command: a quit raises the end flag, the
    /// four moves shift the player one bounded step, a throw launches the
    /// boomerang when the player holds it and is a no-op otherwise, and an
    /// unrecognized key does nothing — then, whatever the command was, the
    /// catch condition is re-checked at once.
    pub fn apply_command(&mut self, cmd: Command)
        requires
            old(self).wf(),
        ensures
            final(self).wf(),
            final(self).field == old(self).field,
            final(self).ticks == old(self).ticks,
            final(self).enemies@ == old(self).enemies@,
            final(self).is_end == (old(self).is_end || cmd is Quit),
            final(self).player == Self::spec_command_player(*old(self), cmd),
            final(self).boomerang == Self::spec_command_boomerang(*old(self), cmd),
    {
        match cmd {
            Command::Quit => {
                self.is_end = true;
            }
            Command::MoveUp => {
                self.player.move_up();
            }
            Command::MoveDown => {
                self.player.move_down();
            }
            Command::MoveLeft => {
                self.player.move_left();
            }
            Command::MoveRight => {
                self.player.move_right();
            }
            Command::Throw => {
                if self.player.has_boomerang {
                    self.player.has_boomerang = false;
                    let row = self.player.entity.row;
                    let col = self.player.entity.col;
                    self.boomerang.launch(row, col);
                }
            }
            Command::Idle => {}
        }

        if !self.boomerang.is_hide && !self.player.has_boomerang && !self.boomerang.is_fly
            && self.boomerang.entity.col == self.player.entity.col
            && self.boomerang.entity.row == self.player.entity.row {
            self.boomerang.is_hide = true;
            self.player.has_boomerang = true;
            self.boomerang.entity.col = 0;
            self.boomerang.entity.row = 0;
        }
    }

    /// The command a pressed character key stands for: `q` quits, `w`/`s`/
    /// `a`/`d` move, the space bar throws, and every other key is idle.
    pub open spec fn spec_decode_key(c: char) -> Command {
        if c == 'q' {
            Command::Quit
        } else if c == 'w' {
            Command::MoveUp
        } else if c == 's' {
            Command::MoveDown
        } else if c == 'a' {
            Command::MoveLeft
        } else if c == 'd' {
            Command::MoveRight
        } else if c == ' ' {
            Command::Throw
        } else {
            Command::Idle
        }
    }

    /// Decode one pressed character key; see [`World::spec_decode_key`].
    pub fn decode_key(c: char) -> (r: Command)
        ensures
            r == Self::spec_decode_key(c),
    {
        if c == 'q' {
            Command::Quit
        } else if c == 'w' {
            Command::MoveUp
        } else if c == 's' {
            Command::MoveDown
        } else if c == 'a' {
            Command::MoveLeft
        } else if c == 'd' {
            Command::MoveRight
        } else if c == ' ' {
            Command::Throw
        } else {
            Command::Idle
        }
    }

    /// What the render grid shows at one cell, painting the boomerang
    /// (when visible) below the player below the enemies.
    pub open spec fn spec_cell(w: World, r: int, c: int) -> Tile {
        if exists|k: int| 0 <= k < w.enemies@.len()
            && (#[trigger] w.enemies@[k]).entity.row == r && w.enemies@[k].entity.col == c {
            Tile::Enemy
        } else if w.player.entity.row == r && w.player.entity.col == c {
            Tile::Player
        } else if !w.boomerang.is_hide && w.boomerang.entity.row == r
            && w.boomerang.entity.col == c {
            Tile::Boomerang
        } else {
            Tile::Empty
        }
    }

    /// The tile shown at one cell; see [`World::spec_cell`].
    pub fn cell_at(&self, r: u8, c: u8) -> (t: Tile)
        ensures
            t == Self::spec_cell(*self, r as int, c as int),
    {
        let mut k: usize = 0;
        let n = self.enemies.len();
        while k < n
            invariant
                n == self.enemies@.len(),
                k <= n,
                forall|j: int| 0 <= j < k as int
                    ==> !((#[trigger] self.enemies@[j]).entity.row == r as int
                        && self.enemies@[j].entity.col == c as int),
            decreases n - k,
        {
            let e = self.enemies[k];
            if e.entity.row == r && e.entity.col == c {
                return Tile::Enemy;
            }
            k = k + 1;
        }
        if self.player.entity.row == r && self.player.entity.col == c {
            Tile::Player
        } else if !self.boomerang.is_hide && self.boomerang.entity.row == r
            && self.boomerang.entity.col == c {
            Tile::Boomerang
        } else {
            Tile::Empty
        }
    }

    /// Compose the render grid: `height` rows of `width` tiles, each cell
    /// as [`World::spec_cell`] gives it.
    pub fn compose(&self) -> (g: Vec<Vec<Tile>>)
        ensures
            g@.len() == self.field.height as int,
            forall|r: int| 0 <= r < g@.len() ==> (#[trigger] g@[r])@.len() == self.field.width as int,
            forall|r: int, c: int|
                0 <= r < g@.len() && 0 <= c < self.field.width as int
                    ==> #[trigger] g@[r]@[c] == Self::spec_cell(*self, r, c),
    {
        let mut g: Vec<Vec<Tile>> = Vec::new();
        let mut r: u8 = 0;
        while r < self.field.height
            invariant
                r <= self.field.height,
                g@.len() == r as int,
                forall|i: int| 0 <= i < r as int
                    ==> (#[trigger] g@[i])@.len() == self.field.width as int,
                forall|i: int, c: int|
                    0 <= i < r as int && 0 <= c < self.field.width as int
                        ==> #[trigger] g@[i]@[c] == Self::spec_cell(*self, i, c),
            decreases self.field.height - r,
        {
            let mut row: Vec<Tile> = Vec::new();
            let mut c: u8 = 0;
            while c < self.field.width
                invariant
                    c <= self.field.width,
                    row@.len() == c as int,
                    forall|j: int| 0 <= j < c as int
                        ==> #[trigger] row@[j] == Self::spec_cell(*self, r as int, j),
                decreases self.field.width - c,
            {
                row.push(self.cell_at(r, c));
                c = c + 1;
            }
            g.push(row);
            r = r + 1;
        }
        g
    }

    /// Whether the tick loop must stop: an explicit quit, or the player no
    /// longer alive.
    pub fn is_over(&self) -> (r: bool)
        ensures
            r == (self.is_end || !self.player.is_alive),
    {
        self.is_end || !self.player.is_alive
    }
}

} // verus!
