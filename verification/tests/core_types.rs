//! Tests of the basic value types: rectangles, hit points, cash, the
//! pointer snapshot, waypoints and plane movement.

use waterguns_vs_paperplanes::econ::add_cash;
use waterguns_vs_paperplanes::geom::Rect;
use waterguns_vs_paperplanes::hp::HitPoints;
use waterguns_vs_paperplanes::mouse::Mouse;
use waterguns_vs_paperplanes::path::{Direction, PlanePath, Turn};
use waterguns_vs_paperplanes::plane::{PaperPlane, PlaneKind};

#[test]
fn rect_centers_follow_position() {
    let mut r = Rect::new(100, 200, 40, 60);
    assert_eq!(r.center_x(), 120);
    assert_eq!(r.center_y(), 230);
    r.set_pos(1000, 2000);
    assert_eq!(r.x(), 1000);
    assert_eq!(r.y(), 2000);
    assert_eq!(r.w(), 40);
    assert_eq!(r.h(), 60);
    assert_eq!(r.center_x(), 1020);
    assert_eq!(r.center_y(), 2030);
}

#[test]
fn hitpoints_start_full_and_saturate_at_zero() {
    let mut hp = HitPoints::new(40);
    assert_eq!(hp.curr_hp(), 40);
    assert!(!hp.is_dead());
    hp.take_damage(10);
    assert_eq!(hp.curr_hp(), 30);
    hp.take_damage(50);
    assert_eq!(hp.curr_hp(), 0);
    assert!(hp.is_dead());
    hp.take_damage(5);
    assert_eq!(hp.curr_hp(), 0);
}

#[test]
fn cash_credit_saturates_at_ceiling() {
    assert_eq!(add_cash(5, 10), 15);
    assert_eq!(add_cash(u32::MAX - 5, 10), u32::MAX);
    assert_eq!(add_cash(u32::MAX, 1), u32::MAX);
}

#[test]
fn mouse_inside_is_strict() {
    let mut m = Mouse::new();
    let r = Rect::new(0, 0, 100, 100);
    m.update(50, 50, false, false);
    assert!(m.inside(&r));
    m.update(0, 50, false, false);
    assert!(!m.inside(&r));
    m.update(100, 50, false, false);
    assert!(!m.inside(&r));
    m.update(50, 100, false, false);
    assert!(!m.inside(&r));
}

#[test]
fn turn_touching_uses_ten_unit_tolerance() {
    let t = Turn::new((1000, 1000), Direction::Down);
    assert!(t.touching(&Rect::new(1099, 1001, 10, 10)));
    assert!(t.touching(&Rect::new(901, 999, 10, 10)));
    assert!(!t.touching(&Rect::new(1100, 1000, 10, 10)));
    assert!(!t.touching(&Rect::new(900, 1000, 10, 10)));
    assert!(!t.touching(&Rect::new(1000, 1100, 10, 10)));
}

#[test]
fn main_path_has_eight_turns_at_field_fractions() {
    let p = PlanePath::new_main_path(13660, 7680);
    let turns = p.turns();
    assert_eq!(turns.len(), 8);
    assert_eq!(turns[0].x, 13660 * 22 / 100);
    assert_eq!(turns[0].y, 7680 * 26 / 100);
    assert!(matches!(turns[0].direction(), Direction::Down));
    assert!(matches!(turns[7].direction(), Direction::Right));
    assert_eq!(turns[7].x, 13660 * 85 / 100);
}

#[test]
fn plane_kinds_have_their_base_stats() {
    let rect = Rect::new(0, 0, 400, 400);
    let basic = PaperPlane::new_basic(rect);
    assert_eq!(basic.hp().curr_hp(), 40);
    assert_eq!(basic.damage(), 1);
    assert_eq!(basic.bounty(), 5);
    assert_eq!(basic.speed, 20);
    assert_eq!(basic.dx, 20);
    assert_eq!(basic.dy, 0);

    let blimp = PaperPlane::new_blimp(rect);
    assert_eq!(blimp.hp().curr_hp(), 200);
    assert_eq!(blimp.damage(), 5);
    assert_eq!(blimp.bounty(), 10);
    assert_eq!(blimp.speed, 10);

    let redux = PaperPlane::new_bullet_redux(rect);
    assert_eq!(redux.speed, 30);
    assert_eq!(redux.dx, 40);

    let glider = PaperPlane::new_glider(rect);
    assert_eq!(glider.hp().curr_hp(), 50);
    assert_eq!(glider.speed, 17);
}

#[test]
fn plane_flies_straight_off_path() {
    let mut p = PaperPlane::new_basic(Rect::new(1000, 1000, 400, 400));
    let path = PlanePath::new(Vec::new());
    p.fly(&path);
    assert_eq!(p.x(), 1020);
    assert_eq!(p.y(), 1000);
    p.fly(&path);
    assert_eq!(p.x(), 1040);
}

#[test]
fn plane_adopts_direction_of_touching_turn() {
    let mut p = PaperPlane::new_basic(Rect::new(995, 1005, 400, 400));
    let path = PlanePath::new(vec![Turn::new((1000, 1000), Direction::Down)]);
    p.fly(&path);
    assert_eq!(p.dx, 0);
    assert_eq!(p.dy, 20);
    assert_eq!(p.rotation, 90);
    assert_eq!(p.x(), 995);
    assert_eq!(p.y(), 1025);
}

#[test]
fn last_matching_turn_wins() {
    let mut p = PaperPlane::new_basic(Rect::new(1000, 1000, 400, 400));
    let path = PlanePath::new(vec![
        Turn::new((1000, 1000), Direction::Right),
        Turn::new((1010, 1010), Direction::Up),
    ]);
    p.fly(&path);
    assert_eq!(p.dx, 0);
    assert_eq!(p.dy, -20);
    assert_eq!(p.rotation, 270);
    assert_eq!(p.y(), 980);
}

#[test]
fn repeated_ticks_give_the_same_trajectory() {
    let path = PlanePath::new(vec![
        Turn::new((1050, 1000), Direction::Down),
        Turn::new((1050, 1400), Direction::Right),
    ]);
    let mut a = PaperPlane::new_glider(Rect::new(1000, 1000, 40, 40));
    let mut b = PaperPlane::new_glider(Rect::new(1000, 1000, 40, 40));
    for _ in 0..100 {
        a.fly(&path);
        b.fly(&path);
        assert_eq!(a.x(), b.x());
        assert_eq!(a.y(), b.y());
        assert_eq!(a.dx, b.dx);
        assert_eq!(a.dy, b.dy);
        assert_eq!(a.rotation, b.rotation);
    }
    assert_eq!(PlaneKind::Glider, a.kind);
}
