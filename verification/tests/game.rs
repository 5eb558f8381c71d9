use bumerang::boomerang::Boomerang;
use bumerang::entity::Entity;
use bumerang::field::{Field, Proportions};
use bumerang::player::Player;
use bumerang::world::{Command, Tile, World};

fn default_field() -> Field {
    Field::new(Proportions::Height(10), Proportions::Width(60))
}

#[test]
fn setup_height_out_of_range_defaults() {
    let f = Field::new(Proportions::Height(99), Proportions::Width(60));
    assert_eq!(f.height, 10);
    assert_eq!(f.width, 60);
}

#[test]
fn setup_in_range_kept() {
    let f = Field::new(Proportions::Height(1), Proportions::Width(50));
    assert_eq!(f.height, 1);
    assert_eq!(f.width, 50);
    let f = Field::new(Proportions::Height(20), Proportions::Width(80));
    assert_eq!(f.height, 20);
    assert_eq!(f.width, 80);
}

#[test]
fn setup_out_of_range_defaults() {
    let f = Field::new(Proportions::Height(0), Proportions::Width(49));
    assert_eq!(f.height, 10);
    assert_eq!(f.width, 60);
    let f = Field::new(Proportions::Height(21), Proportions::Width(81));
    assert_eq!(f.height, 10);
    assert_eq!(f.width, 60);
}

#[test]
fn new_world_spawns() {
    let w = World::new(default_field());
    assert!(!w.is_end);
    assert_eq!(w.ticks, 0);
    assert!(w.player.is_alive);
    assert!(w.player.has_boomerang);
    assert_eq!((w.player.entity.row, w.player.entity.col), (0, 0));
    assert!(w.boomerang.is_hide);
    assert!(!w.boomerang.is_fly);
    assert_eq!(w.enemies.len(), 10);
    for (i, e) in w.enemies.iter().enumerate() {
        assert_eq!(e.id as usize, i);
        assert!(e.is_alive);
        assert_eq!((e.entity.row as usize, e.entity.col), (i, 59));
    }
}

#[test]
fn moves_at_borders_are_noops() {
    let f = default_field();
    let mut p = Player::new(&f);
    p.move_up();
    assert_eq!((p.entity.row, p.entity.col), (0, 0));
    p.move_left();
    assert_eq!((p.entity.row, p.entity.col), (0, 0));
    for _ in 0..9 {
        p.move_down();
    }
    assert_eq!(p.entity.row, 9);
    p.move_down();
    assert_eq!(p.entity.row, 9);
    for _ in 0..59 {
        p.move_right();
    }
    assert_eq!(p.entity.col, 59);
    p.move_right();
    assert_eq!(p.entity.col, 59);
}

#[test]
fn moves_in_the_interior() {
    let f = default_field();
    let mut p = Player::new(&f);
    p.move_down();
    p.move_right();
    assert_eq!((p.entity.row, p.entity.col), (1, 1));
    p.move_up();
    assert_eq!((p.entity.row, p.entity.col), (0, 1));
    p.move_left();
    assert_eq!((p.entity.row, p.entity.col), (0, 0));
}

#[test]
fn throw_flight_and_freeze() {
    let mut w = World::new(default_field());
    w.apply_command(Command::Throw);
    assert!(!w.player.has_boomerang);
    assert!(!w.boomerang.is_hide);
    assert!(w.boomerang.is_fly);
    assert!(w.boomerang.is_danger);
    assert_eq!((w.boomerang.entity.row, w.boomerang.entity.col), (0, 2));
    assert_eq!(w.boomerang.iterators, 38);

    for _ in 0..21 {
        w.boomerang.fly();
    }
    assert_eq!(w.boomerang.iterators, 17);
    assert!(!w.boomerang.is_danger);
    assert_eq!(w.boomerang.entity.col, 23);

    for _ in 0..17 {
        w.boomerang.fly();
    }
    assert_eq!(w.boomerang.iterators, 0);
    let frozen_col = w.boomerang.entity.col;
    assert_eq!(frozen_col, 6);

    w.boomerang.fly();
    assert!(!w.boomerang.is_fly);
    assert!(!w.boomerang.is_hide);
    assert_eq!(w.boomerang.entity.col, frozen_col);

    w.boomerang.fly();
    assert!(!w.boomerang.is_fly);
    assert_eq!(w.boomerang.entity.col, frozen_col);
}

#[test]
fn countdown_is_non_increasing() {
    let f = default_field();
    let mut b = Boomerang::new(&f);
    b.launch(3, 10);
    let mut prev = b.iterators;
    for _ in 0..45 {
        b.fly();
        assert!(b.iterators <= prev);
        prev = b.iterators;
    }
    assert_eq!(b.iterators, 0);
}

#[test]
fn launch_near_east_wall_clamps_to_edge() {
    let f = default_field();
    let mut b = Boomerang::new(&f);
    b.launch(0, 58);
    assert_eq!(b.entity.col, 59);
    b.fly();
    assert_eq!(b.entity.col, 59);
    assert_eq!(b.iterators, 37);
    b.fly();
    assert_eq!(b.entity.col, 59);
    assert_eq!(b.iterators, 36);
}

#[test]
fn kill_zone_kills_in_place() {
    let mut w = World::new(default_field());
    w.player.has_boomerang = false;
    w.boomerang = Boomerang {
        is_hide: false,
        is_danger: true,
        is_fly: true,
        max_range: 20,
        iterators: 20,
        entity: Entity { row: 0, col: 20, max_row: 10, max_col: 60 },
    };
    w.enemies[0].entity.col = 23;
    w.player.entity.row = 9;
    w.tick();
    // the boomerang advanced to column 21; its zone spans columns 21..=25
    assert_eq!(w.boomerang.entity.col, 21);
    assert!(!w.enemies[0].is_alive);
    assert_eq!((w.enemies[0].entity.row, w.enemies[0].entity.col), (0, 23));
    assert!(w.player.is_alive);
}

#[test]
fn kill_zone_kills_a_dead_enemy_again() {
    let mut w = World::new(default_field());
    w.player.has_boomerang = false;
    w.boomerang = Boomerang {
        is_hide: false,
        is_danger: true,
        is_fly: true,
        max_range: 20,
        iterators: 20,
        entity: Entity { row: 0, col: 20, max_row: 10, max_col: 60 },
    };
    w.enemies[0].is_alive = false;
    w.enemies[0].entity.col = 22;
    w.player.entity.row = 9;
    w.tick();
    // killed again in place: no respawn this tick
    assert!(!w.enemies[0].is_alive);
    assert_eq!((w.enemies[0].entity.row, w.enemies[0].entity.col), (0, 22));
}

#[test]
fn dead_enemy_respawns_at_its_row_edge() {
    let mut w = World::new(default_field());
    w.enemies[3].is_alive = false;
    w.enemies[3].entity.col = 30;
    w.player.entity.row = 9;
    w.player.entity.col = 9;
    w.tick();
    assert!(w.enemies[3].is_alive);
    assert_eq!((w.enemies[3].entity.row, w.enemies[3].entity.col), (3, 59));
}

#[test]
fn patrol_wraps_westward() {
    let mut w = World::new(default_field());
    w.enemies[2].entity.col = 0;
    w.player.entity.col = 30;
    w.tick();
    assert_eq!(w.enemies[2].entity.col, 59);
    assert_eq!(w.enemies[0].entity.col, 58);
}

#[test]
fn catch_round_trip() {
    let mut w = World::new(default_field());
    w.apply_command(Command::Throw);
    for _ in 0..39 {
        w.tick();
    }
    assert!(!w.boomerang.is_fly);
    assert!(!w.boomerang.is_hide);
    assert_eq!((w.boomerang.entity.row, w.boomerang.entity.col), (0, 6));
    assert!(w.player.is_alive);

    for _ in 0..6 {
        w.apply_command(Command::MoveRight);
    }
    assert!(w.boomerang.is_hide);
    assert_eq!((w.boomerang.entity.row, w.boomerang.entity.col), (0, 0));
    assert!(w.player.has_boomerang);
}

#[test]
fn enemy_killed_on_player_cell_still_kills_player() {
    let mut w = World::new(default_field());
    w.player.has_boomerang = false;
    w.player.entity.row = 0;
    w.player.entity.col = 23;
    w.boomerang = Boomerang {
        is_hide: false,
        is_danger: true,
        is_fly: true,
        max_range: 20,
        iterators: 20,
        entity: Entity { row: 0, col: 20, max_row: 10, max_col: 60 },
    };
    w.enemies[0].entity.col = 23;
    w.tick();
    // the enemy died this very tick, at the player's cell — both fall
    assert!(!w.enemies[0].is_alive);
    assert!(!w.player.is_alive);
}

#[test]
fn stepping_enemy_kills_player() {
    let mut w = World::new(default_field());
    w.player.entity.row = 4;
    w.player.entity.col = 40;
    w.enemies[4].entity.col = 41;
    w.tick();
    assert!(!w.player.is_alive);
    let mut w2 = World::new(default_field());
    w2.player.entity.row = 4;
    w2.player.entity.col = 40;
    w2.enemies[4].entity.col = 40;
    w2.tick();
    // the enemy stepped off the cell before the check
    assert!(w2.player.is_alive);
}

#[test]
fn quit_ends_the_game() {
    let mut w = World::new(default_field());
    assert!(!w.is_over());
    w.apply_command(Command::Quit);
    assert!(w.is_end);
    assert!(w.is_over());
}

#[test]
fn player_death_ends_the_game() {
    let mut w = World::new(default_field());
    w.player.is_alive = false;
    assert!(w.is_over());
}

#[test]
fn throw_without_holding_is_a_noop() {
    let mut w = World::new(default_field());
    w.apply_command(Command::Throw);
    let b = w.boomerang;
    w.apply_command(Command::Throw);
    assert_eq!(w.boomerang, b);
    assert!(!w.player.has_boomerang);
}

#[test]
fn idle_command_changes_nothing_but_checks_catch() {
    let mut w = World::new(default_field());
    w.apply_command(Command::Idle);
    assert_eq!((w.player.entity.row, w.player.entity.col), (0, 0));
    assert!(w.player.has_boomerang);
    // a stopped boomerang under the player is caught even on an idle key
    let mut w2 = World::new(default_field());
    w2.player.has_boomerang = false;
    w2.boomerang.is_hide = false;
    w2.apply_command(Command::Idle);
    assert!(w2.boomerang.is_hide);
    assert!(w2.player.has_boomerang);
}

#[test]
fn ticks_count_tenths() {
    let mut w = World::new(default_field());
    w.player.entity.row = 9;
    w.player.entity.col = 9;
    w.tick();
    w.tick();
    w.tick();
    assert_eq!(w.ticks, 3);
}

#[test]
fn minimal_bounds_world() {
    let f = Field::new(Proportions::Height(1), Proportions::Width(50));
    let mut w = World::new(f);
    assert_eq!(w.enemies.len(), 1);
    assert_eq!((w.enemies[0].entity.row, w.enemies[0].entity.col), (0, 49));
    w.tick();
    assert_eq!(w.enemies[0].entity.col, 48);
    assert!(w.player.is_alive);
}

#[test]
fn tick_counter_saturates() {
    let mut w = World::new(default_field());
    w.player.entity.row = 9;
    w.player.entity.col = 9;
    w.ticks = u64::MAX;
    w.tick();
    assert_eq!(w.ticks, u64::MAX);
}

#[test]
fn decode_keys() {
    assert_eq!(World::decode_key('q'), Command::Quit);
    assert_eq!(World::decode_key('w'), Command::MoveUp);
    assert_eq!(World::decode_key('s'), Command::MoveDown);
    assert_eq!(World::decode_key('a'), Command::MoveLeft);
    assert_eq!(World::decode_key('d'), Command::MoveRight);
    assert_eq!(World::decode_key(' '), Command::Throw);
    assert_eq!(World::decode_key('x'), Command::Idle);
}

#[test]
fn compose_fresh_world() {
    let w = World::new(default_field());
    let g = w.compose();
    assert_eq!(g.len(), 10);
    for row in &g {
        assert_eq!(row.len(), 60);
    }
    assert_eq!(g[0][0], Tile::Player);
    for r in 0..10 {
        assert_eq!(g[r][59], Tile::Enemy);
    }
    assert_eq!(g[5][5], Tile::Empty);
    // the boomerang is hidden at start: its cell shows nothing
    assert_eq!(g[0][1], Tile::Empty);
}

#[test]
fn compose_paint_order() {
    let mut w = World::new(default_field());
    w.player.has_boomerang = false;
    w.boomerang.is_hide = false;
    w.boomerang.entity.row = 2;
    w.boomerang.entity.col = 10;
    w.player.entity.row = 2;
    w.player.entity.col = 11;
    w.enemies[2].entity.col = 11;
    let g = w.compose();
    assert_eq!(g[2][10], Tile::Boomerang);
    // the enemy paints last and occludes the player on a shared cell
    assert_eq!(g[2][11], Tile::Enemy);
    // the player occludes a visible boomerang on a shared cell
    let mut w2 = World::new(default_field());
    w2.player.has_boomerang = false;
    w2.boomerang.is_hide = false;
    w2.boomerang.entity.row = 0;
    w2.boomerang.entity.col = 0;
    let g2 = w2.compose();
    assert_eq!(g2[0][0], Tile::Player);
}
