//! The hostile units: paper planes that traverse the path.
//!
//! A plane carries its rectangle, heading, hit points, the damage it does
//! to the player if it escapes and the bounty it pays when destroyed.
//! Each tick it scans every turn of the path in order — the last turn it
//! touches decides its heading — and then moves by its per-axis deltas.

use vstd::prelude::*;
use crate::geom::{Rect, step_coord, step_coord_spec, DERIVED_LIMIT, SPEED_LIMIT};
use crate::hp::{HitPoints, sub_damage};
use crate::path::{Direction, PlanePath, Turn};

verus! {

/// The stock plane types, each with fixed base stats.
#[derive(Clone, Copy, PartialEq, Eq, Structural, Debug)]
pub enum PlaneKind {
    Basic,
    Bullet,
    BulletRedux,
    Glider,
    GliderRedux,
    WaterBomb,
    Blimp,
}

/// An entity spawned by the game to get to the end of the map and reduce
/// the player's HP.
#[derive(Clone, PartialEq, Eq, Structural, Debug)]
pub struct PaperPlane {
    pub rect: Rect,
    pub kind: PlaneKind,
    /// Facing, in degrees, for the renderer.
    pub rotation: u16,
    /// Subunits moved per tick once a turn sets the heading.
    pub speed: i64,
    pub dx: i64,
    pub dy: i64,
    pub hp: HitPoints,
    /// Player HP lost if this plane escapes the field.
    pub damage: u32,
    /// Cash earned when this plane is destroyed.
    pub bounty: u32,
}

/// The heading a turn direction imposes: per-axis deltas and a facing.
pub open spec fn heading_of(dir: Direction, speed: i64) -> (i64, i64, u16) {
    match dir {
        Direction::Up => (0i64, (-(speed as int)) as i64, 270u16),
        Direction::Down => (0i64, speed, 90u16),
        Direction::Left => ((-(speed as int)) as i64, 0i64, 180u16),
        Direction::Right => (speed, 0i64, 0u16),
    }
}

/// The heading after scanning a whole sequence of turns in order, starting
/// from the given heading: the last touching turn wins.
pub open spec fn scan_turns(
    turns: Seq<Turn>,
    rect: Rect,
    dx: i64,
    dy: i64,
    rotation: u16,
    speed: i64,
) -> (i64, i64, u16)
    decreases turns.len(),
{
    if turns.len() == 0 {
        (dx, dy, rotation)
    } else {
        let prev = scan_turns(turns.drop_last(), rect, dx, dy, rotation, speed);
        if turns.last().spec_touching(rect) {
            heading_of(turns.last().direction, speed)
        } else {
            prev
        }
    }
}

/// The whole effect of one movement tick on a plane: adopt the heading of
/// the last touching turn, then move by it, saturating at the field band.
pub open spec fn spec_fly(p: PaperPlane, turns: Seq<Turn>) -> PaperPlane {
    let (dx, dy, rotation) = scan_turns(turns, p.rect, p.dx, p.dy, p.rotation, p.speed);
    PaperPlane {
        rect: Rect {
            x: step_coord_spec(p.rect.x as int, dx as int) as i64,
            y: step_coord_spec(p.rect.y as int, dy as int) as i64,
            ..p.rect
        },
        dx,
        dy,
        rotation,
        ..p
    }
}

/// The base stats of each plane kind, placed on the given rectangle.
pub open spec fn plane_model(kind: PlaneKind, rect: Rect) -> PaperPlane {
    let (speed, dx, hp, damage, bounty) = match kind {
        PlaneKind::Basic => (20i64, 20i64, 40u32, 1u32, 5u32),
        PlaneKind::Bullet => (30i64, 30i64, 25u32, 2u32, 5u32),
        PlaneKind::BulletRedux => (30i64, 40i64, 30u32, 2u32, 5u32),
        PlaneKind::Glider => (17i64, 17i64, 50u32, 2u32, 10u32),
        PlaneKind::GliderRedux => (17i64, 17i64, 60u32, 2u32, 10u32),
        PlaneKind::WaterBomb => (10i64, 10i64, 100u32, 3u32, 10u32),
        PlaneKind::Blimp => (10i64, 10i64, 200u32, 5u32, 10u32),
    };
    PaperPlane {
        rect,
        kind,
        rotation: 0u16,
        speed,
        dx,
        dy: 0i64,
        hp: HitPoints { hp, max_hp: hp },
        damage,
        bounty,
    }
}

impl PaperPlane {
    /// A plane stays in the position band and never outruns the speed cap.
    pub open spec fn wf(self) -> bool {
        &&& self.rect.wf()
        &&& 0 <= self.speed <= SPEED_LIMIT
        &&& -SPEED_LIMIT <= self.dx <= SPEED_LIMIT
        &&& -SPEED_LIMIT <= self.dy <= SPEED_LIMIT
        &&& self.hp.wf()
    }

    /// Build a plane of the given kind on the given rectangle.
    pub fn new(kind: PlaneKind, rect: Rect) -> (r: PaperPlane)
        ensures
            r == plane_model(kind, rect),
            rect.wf() ==> r.wf(),
    {
        let (speed, dx, hp, damage, bounty): (i64, i64, u32, u32, u32) = match kind {
            PlaneKind::Basic => (20, 20, 40, 1, 5),
            PlaneKind::Bullet => (30, 30, 25, 2, 5),
            PlaneKind::BulletRedux => (30, 40, 30, 2, 5),
            PlaneKind::Glider => (17, 17, 50, 2, 10),
            PlaneKind::GliderRedux => (17, 17, 60, 2, 10),
            PlaneKind::WaterBomb => (10, 10, 100, 3, 10),
            PlaneKind::Blimp => (10, 10, 200, 5, 10),
        };
        PaperPlane {
            rect,
            kind,
            rotation: 0,
            speed,
            dx,
            dy: 0,
            hp: HitPoints::new(hp),
            damage,
            bounty,
        }
    }

    /// Constructs a new basic Plane.
    pub fn new_basic(rect: Rect) -> (r: PaperPlane)
        ensures
            r == plane_model(PlaneKind::Basic, rect),
    {
        PaperPlane::new(PlaneKind::Basic, rect)
    }

    /// Constructs a new Bullet.
    pub fn new_bullet(rect: Rect) -> (r: PaperPlane)
        ensures
            r == plane_model(PlaneKind::Bullet, rect),
    {
        PaperPlane::new(PlaneKind::Bullet, rect)
    }

    /// Constructs a new Bullet Redux.
    pub fn new_bullet_redux(rect: Rect) -> (r: PaperPlane)
        ensures
            r == plane_model(PlaneKind::BulletRedux, rect),
    {
        PaperPlane::new(PlaneKind::BulletRedux, rect)
    }

    /// Constructs a new Glider.
    pub fn new_glider(rect: Rect) -> (r: PaperPlane)
        ensures
            r == plane_model(PlaneKind::Glider, rect),
    {
        PaperPlane::new(PlaneKind::Glider, rect)
    }

    /// Constructs a new Glider Redux.
    pub fn new_glider_redux(rect: Rect) -> (r: PaperPlane)
        ensures
            r == plane_model(PlaneKind::GliderRedux, rect),
    {
        PaperPlane::new(PlaneKind::GliderRedux, rect)
    }

    /// Constructs a new Water Bomb.
    pub fn new_waterbomb(rect: Rect) -> (r: PaperPlane)
        ensures
            r == plane_model(PlaneKind::WaterBomb, rect),
    {
        PaperPlane::new(PlaneKind::WaterBomb, rect)
    }

    /// Constructs a new Blimp.
    pub fn new_blimp(rect: Rect) -> (r: PaperPlane)
        ensures
            r == plane_model(PlaneKind::Blimp, rect),
    {
        PaperPlane::new(PlaneKind::Blimp, rect)
    }

    /// Return the x-coordinate of the Plane.
    pub fn x(&self) -> (r: i64)
        ensures
            r == self.rect.x,
    {
        self.rect.x
    }

    /// Return the y-coordinate of the Plane.
    pub fn y(&self) -> (r: i64)
        ensures
            r == self.rect.y,
    {
        self.rect.y
    }

    /// Return the width of the Plane.
    pub fn w(&self) -> (r: i64)
        ensures
            r == self.rect.w,
    {
        self.rect.w
    }

    /// Return the height of the Plane.
    pub fn h(&self) -> (r: i64)
        ensures
            r == self.rect.h,
    {
        self.rect.h
    }

    /// Return the x-coordinate of the center of the Plane.
    pub fn center_x(&self) -> (r: i64)
        requires
            self.rect.bounded(DERIVED_LIMIT as int),
        ensures
            r == self.rect.spec_center_x(),
    {
        self.rect.center_x()
    }

    /// Return the y-coordinate of the center of the Plane.
    pub fn center_y(&self) -> (r: i64)
        requires
            self.rect.bounded(DERIVED_LIMIT as int),
        ensures
            r == self.rect.spec_center_y(),
    {
        self.rect.center_y()
    }

    /// Returns the amount of damage the Plane does upon course completion.
    pub fn damage(&self) -> (r: u32)
        ensures
            r == self.damage,
    {
        self.damage
    }

    /// Returns the amount of cash the Plane yields when destroyed.
    pub fn bounty(&self) -> (r: u32)
        ensures
            r == self.bounty,
    {
        self.bounty
    }

    /// Returns a reference to the Plane's HP.
    pub fn hp(&self) -> (r: &HitPoints)
        ensures
            r == &self.hp,
    {
        &self.hp
    }

    /// The sprite the renderer should draw for this plane.
    pub fn sprite_key(&self) -> &'static str {
        match self.kind {
            PlaneKind::Basic => "Plane",
            PlaneKind::Bullet => "Bullet",
            PlaneKind::BulletRedux => "BulletRedux",
            PlaneKind::Glider => "Glider",
            PlaneKind::GliderRedux => "GliderRedux",
            PlaneKind::WaterBomb => "WaterBomb",
            PlaneKind::Blimp => "Blimp",
        }
    }

    /// Reduce the Plane's HP, stopping at zero; nothing else changes.
    pub fn take_damage(&mut self, dmg: u32)
        ensures
            *final(self) == (PaperPlane {
                hp: HitPoints { hp: sub_damage(old(self).hp.hp, dmg), ..old(self).hp },
                ..*old(self)
            }),
            final(self).hp.hp <= old(self).hp.hp,
    {
        self.hp.take_damage(dmg);
    }

    /// Advance the location of the Plane by one increment: scan every turn
    /// of the path in order, let the last touching turn set the heading,
    /// then move by the per-axis deltas.
    pub fn fly(&mut self, path: &PlanePath)
        requires
            old(self).wf(),
            path.wf(),
        ensures
            *final(self) == spec_fly(*old(self), path.turns@),
            final(self).wf(),
    {
        let ghost turns = path.turns@;
        let n = path.turns.len();
        let mut i: usize = 0;
        while i < n
            invariant
                0 <= i <= n,
                n == turns.len(),
                path.turns@ == turns,
                path.wf(),
                old(self).wf(),
                self.rect == old(self).rect,
                self.speed == old(self).speed,
                self.kind == old(self).kind,
                self.hp == old(self).hp,
                self.damage == old(self).damage,
                self.bounty == old(self).bounty,
                -SPEED_LIMIT <= self.dx <= SPEED_LIMIT,
                -SPEED_LIMIT <= self.dy <= SPEED_LIMIT,
                (self.dx, self.dy, self.rotation) == scan_turns(
                    turns.take(i as int),
                    old(self).rect,
                    old(self).dx,
                    old(self).dy,
                    old(self).rotation,
                    old(self).speed,
                ),
            decreases n - i,
        {
            let turn = &path.turns[i];
            assert(turns[i as int].wf());
            if turn.touching(&self.rect) {
                match turn.direction() {
                    Direction::Up => {
                        self.dx = 0;
                        self.dy = -self.speed;
                        self.rotation = 270;
                    }
                    Direction::Down => {
                        self.dx = 0;
                        self.dy = self.speed;
                        self.rotation = 90;
                    }
                    Direction::Left => {
                        self.dx = -self.speed;
                        self.dy = 0;
                        self.rotation = 180;
                    }
                    Direction::Right => {
                        self.dx = self.speed;
                        self.dy = 0;
                        self.rotation = 0;
                    }
                }
            }
            proof {
                assert(turns.take(i + 1).drop_last() =~= turns.take(i as int));
                assert(turns.take(i + 1).last() == turns[i as int]);
            }
            i = i + 1;
        }
        proof {
            assert(turns.take(n as int) =~= turns);
        }
        let x = step_coord(self.rect.x, self.dx);
        let y = step_coord(self.rect.y, self.dy);
        self.rect.set_pos(x, y);
    }
}

/// A plane's state after any number of whole movement ticks.
pub open spec fn fly_trajectory(p: PaperPlane, turns: Seq<Turn>, n: nat) -> PaperPlane
    decreases n,
{
    if n == 0 {
        p
    } else {
        spec_fly(fly_trajectory(p, turns, (n - 1) as nat), turns)
    }
}

/// Path following is deterministic: two planes that start in the same
/// state on the same path are in the same state after any number of
/// movement ticks — the heading scan has no hidden inputs.
pub proof fn lemma_path_deterministic(
    p1: PaperPlane,
    p2: PaperPlane,
    turns1: Seq<Turn>,
    turns2: Seq<Turn>,
    n: nat,
)
    requires
        p1 == p2,
        turns1 == turns2,
    ensures
        fly_trajectory(p1, turns1, n) == fly_trajectory(p2, turns2, n),
    decreases n,
{
    if n > 0 {
        lemma_path_deterministic(p1, p2, turns1, turns2, (n - 1) as nat);
    }
}

} // verus!
