//! Tests of tower combat, cooldowns, upgrades and pointer interaction.

use waterguns_vs_paperplanes::geom::Rect;
use waterguns_vs_paperplanes::mouse::Mouse;
use waterguns_vs_paperplanes::plane::PaperPlane;
use waterguns_vs_paperplanes::tower::Tower;
use waterguns_vs_paperplanes::towerstatus::TowerStatus;
use waterguns_vs_paperplanes::towertype::{AcidTower, SodaMaker, TowerType, WaterGun};

fn water_gun() -> Tower {
    // 80x80-unit tower at the origin: range 2.5 times its height.
    Tower::new_water_gun(Rect::new(0, 0, 800, 800))
}

#[test]
fn constructors_set_family_stats() {
    let w = water_gun();
    assert!(matches!(w.variant, TowerType::WaterGun(WaterGun::Basic)));
    assert_eq!(w.range, 2000);
    assert_eq!(w.dmg, 10);
    assert_eq!(w.dmg_interval, 700);
    assert_eq!(w.upgrade_cost, 10);
    assert_eq!(w.last_dmg_time, 0);
    assert!(matches!(w.status, TowerStatus::Normal));

    let a = Tower::new_acid_tower(Rect::new(0, 0, 800, 800));
    assert!(matches!(a.variant, TowerType::AcidTower(AcidTower::Basic)));
    assert_eq!(a.range, 1200);
    assert_eq!(a.dmg, 1);
    assert_eq!(a.dmg_interval, 100);

    let s = Tower::new_soda_maker(Rect::new(0, 0, 800, 800));
    assert!(matches!(s.variant, TowerType::SodaMaker(SodaMaker::Basic)));
    assert_eq!(s.range, 2400);
    assert_eq!(s.dmg, 20);
    assert_eq!(s.dmg_interval, 1000);
}

#[test]
fn damage_applies_in_range_when_cooldown_open() {
    let mut t = water_gun();
    // Plane center (1200, 600): squared distance 680000 < 2000^2.
    let mut p = PaperPlane::new_basic(Rect::new(1000, 400, 400, 400));
    t.damage(&mut p, 1000);
    assert_eq!(p.hp().curr_hp(), 30);
    assert_eq!(t.last_dmg_time, 1000);
}

#[test]
fn cooldown_blocks_a_second_shot_within_the_window() {
    let mut t = water_gun();
    let mut p = PaperPlane::new_basic(Rect::new(1000, 400, 400, 400));
    t.damage(&mut p, 1000);
    assert_eq!(p.hp().curr_hp(), 30);
    // 500 ms and even exactly 700 ms later the window is still shut.
    t.damage(&mut p, 1500);
    assert_eq!(p.hp().curr_hp(), 30);
    t.damage(&mut p, 1700);
    assert_eq!(p.hp().curr_hp(), 30);
    assert_eq!(t.last_dmg_time, 1000);
    // Strictly more than the cooldown later it opens again.
    t.damage(&mut p, 1701);
    assert_eq!(p.hp().curr_hp(), 20);
    assert_eq!(t.last_dmg_time, 1701);
}

#[test]
fn one_shot_per_window_goes_to_the_first_plane_in_order() {
    let mut t = water_gun();
    let mut first = PaperPlane::new_basic(Rect::new(1000, 400, 400, 400));
    let mut second = PaperPlane::new_basic(Rect::new(400, 1000, 400, 400));
    // Both are in range; the tower fires at the first and the window shuts.
    t.damage(&mut first, 1000);
    t.damage(&mut second, 1000);
    assert_eq!(first.hp().curr_hp(), 30);
    assert_eq!(second.hp().curr_hp(), 40);
}

#[test]
fn out_of_range_and_range_boundary_do_not_fire() {
    let mut t = water_gun();
    // Center distance exactly the range: 2000 on the x axis.
    let mut boundary = PaperPlane::new_basic(Rect::new(2200, 200, 400, 400));
    t.damage(&mut boundary, 1000);
    assert_eq!(boundary.hp().curr_hp(), 40);
    assert_eq!(t.last_dmg_time, 0);
    let mut far = PaperPlane::new_basic(Rect::new(90000, 90000, 400, 400));
    t.damage(&mut far, 1000);
    assert_eq!(far.hp().curr_hp(), 40);
}

#[test]
fn water_gun_upgrades_follow_the_table() {
    let mut t = water_gun();
    let mut cash: u32 = 25;
    t.upgrade_water2(&mut cash);
    assert!(matches!(t.variant, TowerType::WaterGun(WaterGun::SuperSoaker)));
    assert_eq!(cash, 15);
    assert_eq!(t.range, 2400);
    assert_eq!(t.dmg, 15);
    assert_eq!(t.dmg_interval, 350);
    assert_eq!(t.upgrade_cost, 20);
    // The second upgrade costs 20, which 15 does not cover: nothing moves.
    t.upgrade_water3(&mut cash);
    assert!(matches!(t.variant, TowerType::WaterGun(WaterGun::SuperSoaker)));
    assert_eq!(cash, 15);
    assert_eq!(t.dmg, 15);
}

#[test]
fn water_gun_second_upgrade() {
    let mut t = water_gun();
    let mut cash: u32 = 30;
    t.upgrade_water2(&mut cash);
    assert_eq!(cash, 20);
    t.upgrade_water3(&mut cash);
    assert!(matches!(t.variant, TowerType::WaterGun(WaterGun::ExtremeSoaker)));
    assert_eq!(cash, 0);
    assert_eq!(t.range, 2880);
    assert_eq!(t.dmg, 20);
    assert_eq!(t.dmg_interval, 231);
    assert_eq!(t.upgrade_cost, 30);
}

#[test]
fn unaffordable_upgrade_changes_nothing() {
    let mut t = water_gun();
    let mut cash: u32 = 9;
    t.upgrade_water2(&mut cash);
    assert!(matches!(t.variant, TowerType::WaterGun(WaterGun::Basic)));
    assert_eq!(cash, 9);
    assert_eq!(t.range, 2000);
    assert_eq!(t.dmg, 10);
    assert_eq!(t.dmg_interval, 700);
    assert_eq!(t.upgrade_cost, 10);
}

#[test]
fn acid_upgrade_doubles_damage_and_halves_cooldown() {
    let mut t = Tower::new_acid_tower(Rect::new(0, 0, 800, 800));
    let mut cash: u32 = 10;
    t.upgrade_acid2(&mut cash);
    assert!(matches!(t.variant, TowerType::AcidTower(AcidTower::Radioactive)));
    assert_eq!(cash, 0);
    assert_eq!(t.range, 1320);
    assert_eq!(t.dmg, 2);
    assert_eq!(t.dmg_interval, 50);
    assert_eq!(t.upgrade_cost, 20);
}

#[test]
fn soda_maker_climbs_to_root_beer() {
    let mut t = Tower::new_soda_maker(Rect::new(0, 0, 800, 800));
    let mut cash: u32 = 30;
    t.upgrade_soda2(&mut cash);
    assert!(matches!(t.variant, TowerType::SodaMaker(SodaMaker::SparklingWater)));
    assert_eq!(cash, 20);
    assert_eq!(t.range, 2880);
    assert_eq!(t.dmg, 30);
    t.upgrade_soda3(&mut cash);
    assert!(matches!(t.variant, TowerType::SodaMaker(SodaMaker::RootBeer)));
    assert_eq!(cash, 0);
    assert_eq!(t.range, 3456);
    assert_eq!(t.dmg, 50);
    assert_eq!(t.dmg_interval, 1000);
    assert_eq!(t.upgrade_cost, 30);
}

#[test]
fn upgrade_at_top_tier_is_a_no_op() {
    let mut t = Tower::new_soda_maker(Rect::new(0, 0, 800, 800));
    let mut cash: u32 = 100;
    t.upgrade_soda2(&mut cash);
    t.upgrade_soda3(&mut cash);
    assert!(matches!(t.variant, TowerType::SodaMaker(SodaMaker::RootBeer)));
    let range = t.range;
    let dmg = t.dmg;
    let interval = t.dmg_interval;
    let cost = t.upgrade_cost;
    let cash_before = cash;
    // A pointer release over the upgrade button of a top-tier tower:
    // the upgrade button spans (0, -480) to (800, -80).
    let mut m = Mouse::new();
    m.update(400, -200, false, true);
    t.events(&m, &mut cash);
    assert_eq!(t.range, range);
    assert_eq!(t.dmg, dmg);
    assert_eq!(t.dmg_interval, interval);
    assert_eq!(t.upgrade_cost, cost);
    assert_eq!(cash, cash_before);
    assert!(matches!(t.variant, TowerType::SodaMaker(SodaMaker::RootBeer)));
}

#[test]
fn pointer_release_toggles_selection() {
    let mut t = water_gun();
    let mut cash: u32 = 0;
    let mut m = Mouse::new();
    m.update(400, 400, false, true);
    t.events(&m, &mut cash);
    assert!(matches!(t.status, TowerStatus::Selected));
    t.events(&m, &mut cash);
    assert!(matches!(t.status, TowerStatus::Normal));
    // A release away from the tower clears the selection.
    t.events(&m, &mut cash);
    assert!(matches!(t.status, TowerStatus::Selected));
    m.update(5000, 5000, false, true);
    t.events(&m, &mut cash);
    assert!(matches!(t.status, TowerStatus::Normal));
}

#[test]
fn delete_button_marks_deleted_and_refunds() {
    let mut t = water_gun();
    let mut cash: u32 = 5;
    // The delete button spans (0, 1040) to (800, 1440).
    let mut m = Mouse::new();
    m.update(400, 1200, false, true);
    t.events(&m, &mut cash);
    assert!(matches!(t.status, TowerStatus::Deleted));
    assert_eq!(cash, 15);
}

#[test]
fn upgrade_through_events_costs_cash_once() {
    let mut t = water_gun();
    let mut cash: u32 = 25;
    // The upgrade button spans (0, -480) to (800, -80).
    let mut m = Mouse::new();
    m.update(400, -200, false, true);
    t.events(&m, &mut cash);
    assert!(matches!(t.variant, TowerType::WaterGun(WaterGun::SuperSoaker)));
    assert_eq!(cash, 15);
    assert_eq!(t.dmg, 15);
}
