//! The stationary defenders: towers that damage planes in range.
//!
//! A tower fires at most once per cooldown window: when a plane's center
//! is strictly inside its range and the supplied clock has moved more
//! than the cooldown past the last shot, it records the shot time and
//! applies its damage. Upgrades climb the family's ladder, strictly
//! raising range or damage per a fixed table, and are gated by cash.

use vstd::prelude::*;
use crate::button::{Button, ButtonType};
use crate::econ::credit;
use crate::geom::{Rect, DERIVED_LIMIT};
use crate::hp::{HitPoints, sub_damage};
use crate::mouse::Mouse;
use crate::plane::PaperPlane;
use crate::towerstatus::TowerStatus;
use crate::towertype::{AcidTower, SodaMaker, TowerType, WaterGun, is_top_tier, tier_index};

verus! {

/// The rectangle of a tower's upgrade button: just above the tower.
pub open spec fn upgrade_button_rect(r: Rect) -> Rect {
    Rect { x: r.x, y: (r.y - r.h * 6 / 10) as i64, w: r.w, h: (r.h * 5 / 10) as i64 }
}

/// The rectangle of a tower's delete button: just below the tower.
pub open spec fn delete_button_rect(r: Rect) -> Rect {
    Rect { x: r.x, y: (r.y + r.h * 13 / 10) as i64, w: r.w, h: (r.h * 5 / 10) as i64 }
}

/// Damage per shot of each variant.
pub open spec fn tower_dmg(v: TowerType) -> u32 {
    match v {
        TowerType::WaterGun(WaterGun::Basic) => 10,
        TowerType::WaterGun(WaterGun::SuperSoaker) => 15,
        TowerType::WaterGun(WaterGun::ExtremeSoaker) => 20,
        TowerType::AcidTower(AcidTower::Basic) => 1,
        TowerType::AcidTower(AcidTower::Radioactive) => 2,
        TowerType::SodaMaker(SodaMaker::Basic) => 20,
        TowerType::SodaMaker(SodaMaker::SparklingWater) => 30,
        TowerType::SodaMaker(SodaMaker::RootBeer) => 50,
    }
}

/// Cooldown between shots of each variant, in milliseconds.
pub open spec fn tower_interval(v: TowerType) -> u64 {
    match v {
        TowerType::WaterGun(WaterGun::Basic) => 700,
        TowerType::WaterGun(WaterGun::SuperSoaker) => 350,
        TowerType::WaterGun(WaterGun::ExtremeSoaker) => 231,
        TowerType::AcidTower(AcidTower::Basic) => 100,
        TowerType::AcidTower(AcidTower::Radioactive) => 50,
        TowerType::SodaMaker(_) => 1000,
    }
}

/// Cost of the next upgrade: flat ten more after every upgrade taken.
pub open spec fn tower_upgrade_cost(v: TowerType) -> u32 {
    (10 + 10 * tier_index(v)) as u32
}

/// Range stays under this bound at each tier: the largest base range is
/// three times the size limit, and each of the at most two upgrades
/// multiplies range by at most six fifths.
pub open spec fn range_cap(v: TowerType) -> int {
    if tier_index(v) == 0 {
        3_000_000_000
    } else if tier_index(v) == 1 {
        3_600_000_000
    } else {
        4_320_000_000
    }
}

/// The base range a family's basic tower gets from its rectangle.
pub open spec fn base_range(v: TowerType, rect: Rect) -> int {
    match v {
        TowerType::WaterGun(_) => rect.h * 25 / 10,
        TowerType::AcidTower(_) => rect.h * 15 / 10,
        TowerType::SodaMaker(_) => rect.h * 3,
    }
}

/// An entity the user spends cash to create in order to destroy Planes.
#[derive(Clone, Debug)]
pub struct Tower {
    pub variant: TowerType,
    pub rect: Rect,
    /// Cost of the next upgrade, and the refund paid on deletion.
    pub upgrade_cost: u32,
    pub upgrade_button: Button,
    pub delete_button: Button,
    /// Damage per shot.
    pub dmg: u32,
    /// Cooldown between shots, in milliseconds.
    pub dmg_interval: u64,
    /// Range radius in subunits; a plane strictly closer is targetable.
    pub range: i64,
    /// Clock value of the last shot, in milliseconds.
    pub last_dmg_time: u64,
    pub status: TowerStatus,
    pub mouse_over: bool,
}

/// The square of a bounded value is bounded by the square of the bound.
proof fn lemma_square_bound(v: i128, m: i128)
    by (nonlinear_arith)
    requires
        0 <= m,
        -m <= v <= m,
    ensures
        0 <= v * v <= m * m,
{
}

/// The plane's center is strictly within the tower's range radius of the
/// tower's center, by squared Euclidean distance.
pub open spec fn spec_in_range(t: Tower, p: PaperPlane) -> bool {
    let dx = t.rect.spec_center_x() - p.rect.spec_center_x();
    let dy = t.rect.spec_center_y() - p.rect.spec_center_y();
    dx * dx + dy * dy < t.range * t.range
}

/// The clock has moved strictly more than the cooldown past the last
/// shot. (With a clock at or before the last shot this is false.)
pub open spec fn spec_cooldown_open(t: Tower, now: u64) -> bool {
    now - t.last_dmg_time > t.dmg_interval
}

/// The tower fires at this plane at this instant.
pub open spec fn spec_fires(t: Tower, p: PaperPlane, now: u64) -> bool {
    spec_in_range(t, p) && spec_cooldown_open(t, now)
}

/// The stat changes of one upgrade, per the family table; identity at the
/// top of a ladder.
pub open spec fn spec_upgraded(t: Tower) -> Tower {
    match t.variant {
        TowerType::WaterGun(WaterGun::Basic) => (Tower {
            variant: TowerType::WaterGun(WaterGun::SuperSoaker),
            range: (t.range * 12 / 10) as i64,
            dmg: ((t.dmg + 5) as u32),
            dmg_interval: ((t.dmg_interval / 2) as u64),
            upgrade_cost: ((t.upgrade_cost + 10) as u32),
            ..t
        }),
        TowerType::WaterGun(WaterGun::SuperSoaker) => (Tower {
            variant: TowerType::WaterGun(WaterGun::ExtremeSoaker),
            range: (t.range * 12 / 10) as i64,
            dmg: ((t.dmg + 5) as u32),
            dmg_interval: ((t.dmg_interval * 66 / 100) as u64),
            upgrade_cost: ((t.upgrade_cost + 10) as u32),
            ..t
        }),
        TowerType::AcidTower(AcidTower::Basic) => (Tower {
            variant: TowerType::AcidTower(AcidTower::Radioactive),
            range: (t.range * 11 / 10) as i64,
            dmg: ((t.dmg * 2) as u32),
            dmg_interval: ((t.dmg_interval / 2) as u64),
            upgrade_cost: ((t.upgrade_cost + 10) as u32),
            ..t
        }),
        TowerType::SodaMaker(SodaMaker::Basic) => (Tower {
            variant: TowerType::SodaMaker(SodaMaker::SparklingWater),
            range: (t.range * 12 / 10) as i64,
            dmg: ((t.dmg + 10) as u32),
            upgrade_cost: ((t.upgrade_cost + 10) as u32),
            ..t
        }),
        TowerType::SodaMaker(SodaMaker::SparklingWater) => (Tower {
            variant: TowerType::SodaMaker(SodaMaker::RootBeer),
            range: (t.range * 12 / 10) as i64,
            dmg: ((t.dmg + 20) as u32),
            upgrade_cost: ((t.upgrade_cost + 10) as u32),
            ..t
        }),
        _ => t,
    }
}

/// One upgrade attempt: at the top of the ladder nothing happens and no
/// cash moves; otherwise the upgrade is taken exactly when the cost is
/// covered, debiting the cost.
pub open spec fn spec_upgrade_step(t: Tower, cash: u32) -> (Tower, u32) {
    if is_top_tier(t.variant) {
        (t, cash)
    } else if cash >= t.upgrade_cost {
        (spec_upgraded(t), (cash - t.upgrade_cost) as u32)
    } else {
        (t, cash)
    }
}

/// The whole effect of one pointer interaction on a tower and the cash:
/// the hover flag follows the pointer; on a release over the tower the
/// selection toggles (elsewhere it clears), then a release over the
/// upgrade button attempts an upgrade and one over the delete button
/// marks the tower deleted and refunds its current upgrade cost.
pub open spec fn spec_events(t: Tower, m: Mouse, cash: u32) -> (Tower, u32) {
    let t1 = Tower { mouse_over: m.spec_inside(t.rect), ..t };
    if !m.up {
        (t1, cash)
    } else {
        let toggled = if m.spec_inside(t.rect) {
            if t.status is Selected {
                TowerStatus::Normal
            } else {
                TowerStatus::Selected
            }
        } else {
            TowerStatus::Normal
        };
        let t2 = Tower { status: toggled, ..t1 };
        if m.spec_inside(t.upgrade_button.rect) {
            spec_upgrade_step(t2, cash)
        } else if m.spec_inside(t.delete_button.rect) {
            (Tower { status: TowerStatus::Deleted, ..t2 }, credit(cash, t.upgrade_cost))
        } else {
            (t2, cash)
        }
    }
}

/// A tower as a constructor leaves it: well-formed, at the basic tier of
/// its family on the given rectangle, with its base range, an unfired
/// cooldown and a quiet UI state.
pub open spec fn is_fresh_tower(t: Tower, v: TowerType, rect: Rect) -> bool {
    &&& t.wf()
    &&& t.variant == v
    &&& t.rect == rect
    &&& t.range == base_range(v, rect)
    &&& t.last_dmg_time == 0
    &&& t.status == TowerStatus::Normal
    &&& t.mouse_over == false
    &&& !t.upgrade_button.selected
    &&& !t.delete_button.selected
}

impl Tower {
    /// Stats follow the variant's table, range respects the tier's cap,
    /// and the two buttons sit where the tower's rectangle puts them.
    pub open spec fn wf(self) -> bool {
        &&& self.rect.wf()
        &&& 0 <= self.range <= range_cap(self.variant)
        &&& self.dmg == tower_dmg(self.variant)
        &&& self.dmg_interval == tower_interval(self.variant)
        &&& self.upgrade_cost == tower_upgrade_cost(self.variant)
        &&& self.upgrade_button.rect == upgrade_button_rect(self.rect)
        &&& self.upgrade_button.variant == ButtonType::Upgrade
        &&& self.delete_button.rect == delete_button_rect(self.rect)
        &&& self.delete_button.variant == ButtonType::Delete
    }

    /// Assemble a tower of the given variant on the given rectangle.
    fn assemble(variant: TowerType, rect: Rect, range: i64, dmg: u32, dmg_interval: u64) -> (r: Tower)
        requires
            rect.wf(),
            0 <= range <= range_cap(variant),
            dmg == tower_dmg(variant),
            dmg_interval == tower_interval(variant),
            tier_index(variant) == 0,
        ensures
            r.wf(),
            r.variant == variant,
            r.rect == rect,
            r.range == range,
            r.last_dmg_time == 0,
            r.status == TowerStatus::Normal,
            r.mouse_over == false,
            r.upgrade_cost == 10,
            !r.upgrade_button.selected,
            !r.delete_button.selected,
    {
        let upgrade_button = Button::new_upgrade(Rect::new(
            rect.x,
            rect.y - rect.h * 6 / 10,
            rect.w,
            rect.h * 5 / 10,
        ));
        let delete_button = Button::new_delete(Rect::new(
            rect.x,
            rect.y + rect.h * 13 / 10,
            rect.w,
            rect.h * 5 / 10,
        ));
        Tower {
            variant,
            rect,
            upgrade_cost: 10,
            upgrade_button,
            delete_button,
            dmg,
            dmg_interval,
            range,
            last_dmg_time: 0,
            status: TowerStatus::Normal,
            mouse_over: false,
        }
    }

    /// Construct a new Water Gun: long range, solid damage, slow cooldown.
    pub fn new_water_gun(rect: Rect) -> (r: Tower)
        requires
            rect.wf(),
        ensures
            r.wf(),
            is_fresh_tower(r, TowerType::WaterGun(WaterGun::Basic), rect),
            r.variant == TowerType::WaterGun(WaterGun::Basic),
            r.rect == rect,
            r.range == rect.h * 25 / 10,
            r.last_dmg_time == 0,
            r.status == TowerStatus::Normal,
            r.mouse_over == false,
            !r.upgrade_button.selected,
            !r.delete_button.selected,
    {
        Tower::assemble(
            TowerType::WaterGun(WaterGun::Basic),
            rect,
            rect.h * 25 / 10,
            10,
            700,
        )
    }

    /// Construct a new Acid Tower: short range, rapid small hits.
    pub fn new_acid_tower(rect: Rect) -> (r: Tower)
        requires
            rect.wf(),
        ensures
            r.wf(),
            is_fresh_tower(r, TowerType::AcidTower(AcidTower::Basic), rect),
            r.variant == TowerType::AcidTower(AcidTower::Basic),
            r.rect == rect,
            r.range == rect.h * 15 / 10,
            r.last_dmg_time == 0,
            r.status == TowerStatus::Normal,
            r.mouse_over == false,
            !r.upgrade_button.selected,
            !r.delete_button.selected,
    {
        Tower::assemble(
            TowerType::AcidTower(AcidTower::Basic),
            rect,
            rect.h * 15 / 10,
            1,
            100,
        )
    }

    /// Construct a new Soda Maker: the longest range, heavy slow hits.
    pub fn new_soda_maker(rect: Rect) -> (r: Tower)
        requires
            rect.wf(),
        ensures
            r.wf(),
            is_fresh_tower(r, TowerType::SodaMaker(SodaMaker::Basic), rect),
            r.variant == TowerType::SodaMaker(SodaMaker::Basic),
            r.rect == rect,
            r.range == rect.h * 3,
            r.last_dmg_time == 0,
            r.status == TowerStatus::Normal,
            r.mouse_over == false,
            !r.upgrade_button.selected,
            !r.delete_button.selected,
    {
        Tower::assemble(
            TowerType::SodaMaker(SodaMaker::Basic),
            rect,
            rect.h * 3,
            20,
            1000,
        )
    }

    /// Return the x-coordinate of the center of the tower.
    pub fn center_x(&self) -> (r: i64)
        requires
            self.rect.bounded(DERIVED_LIMIT as int),
        ensures
            r == self.rect.spec_center_x(),
    {
        self.rect.center_x()
    }

    /// Return the y-coordinate of the center of the tower.
    pub fn center_y(&self) -> (r: i64)
        requires
            self.rect.bounded(DERIVED_LIMIT as int),
        ensures
            r == self.rect.spec_center_y(),
    {
        self.rect.center_y()
    }

    /// Returns the Tower's TowerStatus.
    pub fn status(&self) -> (r: TowerStatus)
        ensures
            r == self.status,
    {
        self.status
    }

    /// The sprite key of the tower's base, for the renderer.
    pub fn base_img(&self) -> &'static str {
        "WaterGunBase"
    }

    /// The sprite key of the tower's rotating top, for the renderer.
    pub fn top_img(&self) -> &'static str {
        match self.variant {
            TowerType::WaterGun(WaterGun::Basic) => "WaterGunTop",
            TowerType::WaterGun(WaterGun::SuperSoaker) => "SuperSoakerTop",
            TowerType::WaterGun(WaterGun::ExtremeSoaker) => "ExtremeSoakerTop",
            TowerType::AcidTower(AcidTower::Basic) => "AcidTowerTop",
            TowerType::AcidTower(AcidTower::Radioactive) => "RadioactiveTowerTop",
            TowerType::SodaMaker(SodaMaker::Basic) => "SodaMakerTop",
            TowerType::SodaMaker(SodaMaker::SparklingWater) => "SparklingWaterTop",
            TowerType::SodaMaker(SodaMaker::RootBeer) => "RootBeerTop",
        }
    }

    /// The sprite key of the tower's muzzle blast, for the renderer.
    pub fn blast_img(&self) -> &'static str {
        match self.variant {
            TowerType::WaterGun(WaterGun::Basic) => "WaterGunBlast",
            TowerType::WaterGun(WaterGun::SuperSoaker) => "SuperSoakerBlast",
            TowerType::WaterGun(WaterGun::ExtremeSoaker) => "ExtremeSoakerBlast",
            TowerType::AcidTower(AcidTower::Basic) => "AcidTowerBlast",
            TowerType::AcidTower(AcidTower::Radioactive) => "RadioactiveTowerBlast",
            TowerType::SodaMaker(SodaMaker::Basic) => "SodaMakerBlast",
            TowerType::SodaMaker(SodaMaker::SparklingWater) => "SparklingWaterBlast",
            TowerType::SodaMaker(SodaMaker::RootBeer) => "RootBeerBlast",
        }
    }

    /// Takes a reference to a Plane and applies damage if conditions are
    /// met: the plane in range and the cooldown open. Firing records the
    /// shot time, so within one cooldown window a tower damages at most
    /// one plane.
    pub fn damage(&mut self, plane: &mut PaperPlane, now: u64)
        requires
            old(self).rect.bounded(DERIVED_LIMIT as int),
            old(plane).rect.bounded(DERIVED_LIMIT as int),
        ensures
            *final(self) == if spec_fires(*old(self), *old(plane), now) {
                (Tower { last_dmg_time: now, ..*old(self) })
            } else {
                *old(self)
            },
            *final(plane) == if spec_fires(*old(self), *old(plane), now) {
                (PaperPlane {
                    hp: HitPoints { hp: sub_damage(old(plane).hp.hp, old(self).dmg), ..old(plane).hp },
                    ..*old(plane)
                })
            } else {
                *old(plane)
            },
            final(plane).hp.hp <= old(plane).hp.hp,
    {
        let dx = self.center_x() - plane.center_x();
        let dy = self.center_y() - plane.center_y();
        proof {
            lemma_square_bound(dx as i128, 3_000_000_000_000_000);
            lemma_square_bound(dy as i128, 3_000_000_000_000_000);
            lemma_square_bound(self.range as i128, 9_223_372_036_854_775_808);
        }
        let dist2 = (dx as i128) * (dx as i128) + (dy as i128) * (dy as i128);
        let range2 = (self.range as i128) * (self.range as i128);

        if dist2 < range2 && now > self.last_dmg_time && now - self.last_dmg_time > self.dmg_interval {
            self.last_dmg_time = now;
            plane.take_damage(self.dmg);
        }
    }

    /// Upgrade the tower to a Super Soaker.
    pub fn upgrade_water2(&mut self, cash: &mut u32)
        requires
            old(self).wf(),
            old(self).variant == TowerType::WaterGun(WaterGun::Basic),
        ensures
            ((*final(self), *final(cash)) == spec_upgrade_step(*old(self), *old(cash))),
            final(self).wf(),
    {
        if *cash >= self.upgrade_cost {
            self.variant = TowerType::WaterGun(WaterGun::SuperSoaker);
            self.range = self.range * 12 / 10;
            self.dmg = self.dmg + 5;
            self.dmg_interval = self.dmg_interval / 2;
            *cash = *cash - self.upgrade_cost;
            self.upgrade_cost = self.upgrade_cost + 10;
        }
    }

    /// Upgrade the tower to an Extreme Soaker.
    pub fn upgrade_water3(&mut self, cash: &mut u32)
        requires
            old(self).wf(),
            old(self).variant == TowerType::WaterGun(WaterGun::SuperSoaker),
        ensures
            ((*final(self), *final(cash)) == spec_upgrade_step(*old(self), *old(cash))),
            final(self).wf(),
    {
        if *cash >= self.upgrade_cost {
            self.variant = TowerType::WaterGun(WaterGun::ExtremeSoaker);
            self.range = self.range * 12 / 10;
            self.dmg = self.dmg + 5;
            self.dmg_interval = self.dmg_interval * 66 / 100;
            *cash = *cash - self.upgrade_cost;
            self.upgrade_cost = self.upgrade_cost + 10;
        }
    }

    /// Upgrade the tower to a Radioactive Tower.
    pub fn upgrade_acid2(&mut self, cash: &mut u32)
        requires
            old(self).wf(),
            old(self).variant == TowerType::AcidTower(AcidTower::Basic),
        ensures
            ((*final(self), *final(cash)) == spec_upgrade_step(*old(self), *old(cash))),
            final(self).wf(),
    {
        if *cash >= self.upgrade_cost {
            self.variant = TowerType::AcidTower(AcidTower::Radioactive);
            self.range = self.range * 11 / 10;
            self.dmg = self.dmg * 2;
            self.dmg_interval = self.dmg_interval / 2;
            *cash = *cash - self.upgrade_cost;
            self.upgrade_cost = self.upgrade_cost + 10;
        }
    }

    /// Upgrade the tower to a Sparkling Water Tower.
    pub fn upgrade_soda2(&mut self, cash: &mut u32)
        requires
            old(self).wf(),
            old(self).variant == TowerType::SodaMaker(SodaMaker::Basic),
        ensures
            ((*final(self), *final(cash)) == spec_upgrade_step(*old(self), *old(cash))),
            final(self).wf(),
    {
        if *cash >= self.upgrade_cost {
            self.variant = TowerType::SodaMaker(SodaMaker::SparklingWater);
            self.range = self.range * 12 / 10;
            self.dmg = self.dmg + 10;
            *cash = *cash - self.upgrade_cost;
            self.upgrade_cost = self.upgrade_cost + 10;
        }
    }

    /// Upgrade the tower to a Root Beer Blaster.
    pub fn upgrade_soda3(&mut self, cash: &mut u32)
        requires
            old(self).wf(),
            old(self).variant == TowerType::SodaMaker(SodaMaker::SparklingWater),
        ensures
            ((*final(self), *final(cash)) == spec_upgrade_step(*old(self), *old(cash))),
            final(self).wf(),
    {
        if *cash >= self.upgrade_cost {
            self.variant = TowerType::SodaMaker(SodaMaker::RootBeer);
            self.range = self.range * 12 / 10;
            self.dmg = self.dmg + 20;
            *cash = *cash - self.upgrade_cost;
            self.upgrade_cost = self.upgrade_cost + 10;
        }
    }

    /// Handle one pointer interaction with the Tower: hover tracking,
    /// selection toggling, and the upgrade and delete buttons.
    pub fn events(&mut self, mouse: &Mouse, cash: &mut u32)
        requires
            old(self).wf(),
        ensures
            ((*final(self), *final(cash)) == spec_events(*old(self), *mouse, *old(cash))),
            final(self).wf(),
    {
        let over = mouse.inside(&self.rect);
        self.mouse_over = over;

        if mouse.up() {
            if over {
                if let TowerStatus::Selected = self.status {
                    self.status = TowerStatus::Normal;
                } else {
                    self.status = TowerStatus::Selected;
                }
            } else {
                self.status = TowerStatus::Normal;
            }
            if mouse.inside(self.upgrade_button.rect()) {
                match self.variant {
                    TowerType::WaterGun(WaterGun::Basic) => self.upgrade_water2(cash),
                    TowerType::WaterGun(WaterGun::SuperSoaker) => self.upgrade_water3(cash),
                    TowerType::AcidTower(AcidTower::Basic) => self.upgrade_acid2(cash),
                    TowerType::SodaMaker(SodaMaker::Basic) => self.upgrade_soda2(cash),
                    TowerType::SodaMaker(SodaMaker::SparklingWater) => self.upgrade_soda3(cash),
                    _ => (),
                }
            } else if mouse.inside(self.delete_button.rect()) {
                self.status = TowerStatus::Deleted;
                *cash = crate::econ::add_cash(*cash, self.upgrade_cost);
            }
        }
    }
}

/// Cooldown exclusivity: once a tower has fired at time `t1`, it cannot
/// fire again at any `t2` within the cooldown window `[t1, t1 + interval]`
/// — not even at the same instant — whatever plane is in range. So at
/// most one damage application per tower falls in any one window.
pub proof fn lemma_cooldown_exclusive(t: Tower, fired: Tower, p: PaperPlane, t1: u64, t2: u64)
    requires
        fired == (Tower { last_dmg_time: t1, ..t }),
        t1 <= t2,
        t2 - t1 <= t.dmg_interval,
    ensures
        !spec_fires(fired, p, t2),
{
}

/// Upgrade idempotence at the cap: an upgrade attempt on a tower at the
/// top of its family's ladder changes neither the tower's stats nor the
/// cash.
pub proof fn lemma_upgrade_idempotent_at_cap(t: Tower, cash: u32)
    requires
        is_top_tier(t.variant),
    ensures
        spec_upgrade_step(t, cash) == (t, cash),
{
}

} // verus!
