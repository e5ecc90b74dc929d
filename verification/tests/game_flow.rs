//! End-to-end tests of the orchestrator: waves, placement, combat over
//! many ticks, escapes and the loss condition.

use waterguns_vs_paperplanes::game::{Game, ACID_COST, WATERGUN_COST};
use waterguns_vs_paperplanes::geom::Rect;
use waterguns_vs_paperplanes::hp::HitPoints;
use waterguns_vs_paperplanes::path::PlanePath;
use waterguns_vs_paperplanes::plane::{PaperPlane, PlaneKind};
use waterguns_vs_paperplanes::tower::Tower;
use waterguns_vs_paperplanes::towerstatus::TowerStatus;
use waterguns_vs_paperplanes::towertype::{TowerType, WaterGun};

#[test]
fn new_game_starts_with_stock_state() {
    let g = Game::new(13660, 7680);
    assert_eq!(g.cash, WATERGUN_COST);
    assert_eq!(g.hp.curr_hp(), 100);
    assert_eq!(g.round, 1);
    assert_eq!(g.tic, 1);
    assert_eq!(g.planes.len(), 0);
    assert_eq!(g.towers.len(), 0);
    assert_eq!(g.buttons.len(), 3);
    assert_eq!(g.tower_size, 614);
    assert_eq!(g.plane_size, 384);
    assert_eq!(g.path.turns().len(), 8);
    assert!(!g.is_defeated());
}

#[test]
fn first_round_spawns_twenty_basics_after_a_hundred_ticks() {
    let mut g = Game::new(13660, 7680);
    g.tic = 100;
    g.make_planes();
    assert_eq!(g.planes.len(), 20);
    assert_eq!(g.round, 2);
    assert_eq!(g.tic, 0);
    assert_eq!(g.round_start_tic, 0);
    // Staggered starts: x = -(plane_size * index * 3.0), y at the path entry.
    assert_eq!(g.planes[0].x(), -(384 * 30 / 10));
    assert_eq!(g.planes[1].x(), -(384 * 2 * 30 / 10));
    assert_eq!(g.planes[0].y(), 7680 * 26 / 100);
    assert_eq!(g.planes[0].hp().curr_hp(), 40);
}

#[test]
fn rounds_before_their_threshold_spawn_nothing() {
    let mut g = Game::new(13660, 7680);
    g.tic = 99;
    g.make_planes();
    assert_eq!(g.planes.len(), 0);
    assert_eq!(g.round, 1);
    g.round = 2;
    g.tic = 1999;
    g.make_planes();
    assert_eq!(g.planes.len(), 0);
    assert_eq!(g.round, 2);
}

#[test]
fn third_round_spawns_bullets_and_gliders() {
    let mut g = Game::new(13660, 7680);
    g.round = 3;
    g.tic = 3000;
    g.make_planes();
    assert_eq!(g.planes.len(), 50);
    assert_eq!(g.planes[0].kind, PlaneKind::Bullet);
    assert_eq!(g.planes[25].kind, PlaneKind::Glider);
    assert_eq!(g.round, 4);
}

#[test]
fn selecting_a_toolbar_button_on_release_inside_the_bar() {
    let mut g = Game::new(13660, 7680);
    // buttons[0] spans x 12996..13610, y 30..644; release inside it.
    g.tick(13300, 300, false, true, 0);
    assert!(g.buttons[0].selected());
    assert!(!g.buttons[1].selected());
    assert!(!g.buttons[2].selected());
    // No placement: the release was inside the toolbar band.
    assert_eq!(g.towers.len(), 0);
    assert_eq!(g.cash, WATERGUN_COST);
}

#[test]
fn placement_below_the_toolbar_debits_cash() {
    let mut g = Game::new(13660, 7680);
    g.buttons[0].select();
    g.tick(5000, 5000, false, true, 0);
    assert_eq!(g.towers.len(), 1);
    assert_eq!(g.cash, 0);
    let t = &g.towers[0];
    assert!(matches!(t.variant, TowerType::WaterGun(WaterGun::Basic)));
    // Centered on the pointer: tower_size 614, so the corner sits at 5000-307.
    assert_eq!(t.rect.x, 4693);
    assert_eq!(t.rect.y, 4693);
    assert_eq!(t.range, 614 * 25 / 10);
    // The release also lands on the fresh tower, which selects it.
    assert!(matches!(t.status, TowerStatus::Selected));
    // All toolbar buttons end deselected.
    assert!(!g.buttons[0].selected());
}

#[test]
fn unaffordable_placement_leaves_cash_and_towers_unchanged() {
    let mut g = Game::new(13660, 7680);
    g.cash = 15;
    // The acid tower costs 30.
    assert!(ACID_COST > 15);
    g.buttons[1].select();
    g.tick(5000, 5000, false, true, 0);
    assert_eq!(g.towers.len(), 0);
    assert_eq!(g.cash, 15);
}

#[test]
fn a_deleted_tower_is_removed_next_lifecycle_pass() {
    let mut g = Game::new(13660, 7680);
    g.towers.push(Tower::new_water_gun(Rect::new(3000, 3000, 614, 614)));
    let cash_before = g.cash;
    // The delete button of that tower spans y 3798..4105, x 3000..3614.
    g.tick(3300, 3950, false, true, 0);
    assert_eq!(g.towers.len(), 0);
    assert_eq!(g.cash, cash_before + 10);
}

#[test]
fn water_gun_wears_a_plane_down_and_earns_its_bounty() {
    let mut g = Game::new(50000, 8000);
    g.round = 9;
    g.path = PlanePath::new(Vec::new());
    g.towers.push(Tower::new_water_gun(Rect::new(3000, 0, 800, 800)));
    // Range 200 units, damage 10, cooldown 700 ms; one 40-HP unit flying
    // head-on at 1.7 units per tick.
    g.planes.push(PaperPlane {
        rect: Rect::new(0, 0, 400, 400),
        kind: PlaneKind::Glider,
        rotation: 0,
        speed: 17,
        dx: 17,
        dy: 0,
        hp: HitPoints::new(40),
        damage: 1,
        bounty: 5,
    });
    let mut now: u64 = 100_000;
    let mut steps = 0;
    while !g.planes.is_empty() && steps < 1000 {
        g.tick(0, 0, false, false, now);
        now += 16;
        steps += 1;
    }
    // Cumulative in-range time well past four cooldown windows: the unit
    // died inside the range and paid its bounty; nothing escaped.
    assert!(g.planes.is_empty());
    assert_eq!(g.cash, WATERGUN_COST + 5);
    assert_eq!(g.hp.curr_hp(), 100);
    assert_eq!(g.towers.len(), 1);
}

#[test]
fn escape_debits_player_hp() {
    let mut g = Game::new(13660, 7680);
    g.planes.push(PaperPlane::new_blimp(Rect::new(20000, 1000, 384, 384)));
    g.tick(0, 0, false, false, 0);
    assert_eq!(g.planes.len(), 0);
    assert_eq!(g.hp.curr_hp(), 95);
    assert!(!g.is_defeated());
}

#[test]
fn escape_at_zero_player_hp_stays_at_zero() {
    let mut g = Game::new(13660, 7680);
    g.hp = HitPoints::new(0);
    g.planes.push(PaperPlane::new_basic(Rect::new(20000, 1000, 384, 384)));
    g.tick(0, 0, false, false, 0);
    assert_eq!(g.planes.len(), 0);
    assert_eq!(g.hp.curr_hp(), 0);
    assert!(g.is_defeated());
}

#[test]
fn dead_planes_pay_before_escape_is_checked() {
    let mut g = Game::new(13660, 7680);
    // A plane past the edge with zero HP counts as a kill, not an escape.
    let mut p = PaperPlane::new_basic(Rect::new(20000, 1000, 384, 384));
    p.hp.take_damage(40);
    g.planes.push(p);
    let cash_before = g.cash;
    g.tick(0, 0, false, false, 0);
    assert_eq!(g.planes.len(), 0);
    assert_eq!(g.cash, cash_before + 5);
    assert_eq!(g.hp.curr_hp(), 100);
}

#[test]
fn ticks_advance_the_counter() {
    let mut g = Game::new(13660, 7680);
    g.tick(0, 0, false, false, 0);
    assert_eq!(g.tic, 2);
    g.tick(0, 0, false, false, 16);
    assert_eq!(g.tic, 3);
}

#[test]
fn a_round_transition_resets_the_tick_counters() {
    let mut g = Game::new(13660, 7680);
    g.tic = 100;
    g.tick(0, 0, false, false, 0);
    // The scheduler fired: counters reset, then the tick itself counts.
    assert_eq!(g.round, 2);
    assert_eq!(g.round_start_tic, 0);
    assert_eq!(g.tic, 1);
    assert_eq!(g.planes.len(), 20);
}

#[test]
fn second_round_spawns_twentyfive_basics() {
    let mut g = Game::new(13660, 7680);
    g.round = 2;
    g.tic = 2000;
    g.make_planes();
    assert_eq!(g.planes.len(), 25);
    assert_eq!(g.round, 3);
    assert_eq!(g.planes[0].kind, PlaneKind::Basic);
    // Spacing 2.5 plane sizes: x = -(384 * 25 / 10) for the first plane.
    assert_eq!(g.planes[0].x(), -(384 * 25 / 10));
}

#[test]
fn fourth_round_spawns_the_mixed_wave() {
    let mut g = Game::new(13660, 7680);
    g.round = 4;
    g.tic = 3000;
    g.make_planes();
    assert_eq!(g.planes.len(), 100);
    assert_eq!(g.planes[0].kind, PlaneKind::BulletRedux);
    assert_eq!(g.planes[25].kind, PlaneKind::GliderRedux);
    assert_eq!(g.planes[50].kind, PlaneKind::Blimp);
    assert_eq!(g.planes[75].kind, PlaneKind::WaterBomb);
    assert_eq!(g.round, 5);
    // Past the table nothing more spawns.
    g.tic = 100_000;
    g.make_planes();
    assert_eq!(g.planes.len(), 100);
    assert_eq!(g.round, 5);
}

#[test]
fn sprite_keys_name_the_stock_art() {
    let g_plane = waterguns_vs_paperplanes::plane::PaperPlane::new_basic(Rect::new(0, 0, 10, 10));
    assert_eq!(g_plane.sprite_key(), "Plane");
    let blimp = waterguns_vs_paperplanes::plane::PaperPlane::new_blimp(Rect::new(0, 0, 10, 10));
    assert_eq!(blimp.sprite_key(), "Blimp");
    let t = Tower::new_water_gun(Rect::new(0, 0, 800, 800));
    assert_eq!(t.base_img(), "WaterGunBase");
    assert_eq!(t.top_img(), "WaterGunTop");
    assert_eq!(t.blast_img(), "WaterGunBlast");
}
