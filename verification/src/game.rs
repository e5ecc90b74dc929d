//! The simulation orchestrator: one tick runs the wave scheduler, the
//! placement state machine, combat, movement and lifecycle reaping, in
//! that fixed order.
//!
//! The orchestrator exclusively owns the plane list, the tower list and
//! the economy. It consumes only a per-frame pointer snapshot and a
//! monotonic millisecond clock supplied by the caller, and exposes its
//! state for an external renderer to read; it never draws.

use vstd::prelude::*;
use crate::button::{Button, ButtonType};
use crate::econ::credit;
use crate::geom::{Rect, FIELD_LIMIT, SIZE_LIMIT};
use crate::hp::{HitPoints, sub_damage};
use crate::mouse::Mouse;
use crate::path::PlanePath;
use crate::plane::{PaperPlane, PlaneKind, plane_model, spec_fly};
use crate::tower::{Tower, is_fresh_tower, spec_cooldown_open, spec_events, spec_fires};
use crate::towerstatus::TowerStatus;
use crate::towertype::{AcidTower, SodaMaker, TowerType, WaterGun};

verus! {

/// Cash price of placing a basic Water Gun.
pub const WATERGUN_COST: u32 = 10;

/// Cash price of placing a basic Acid Tower.
pub const ACID_COST: u32 = 30;

/// Cash price of placing a basic Soda Maker.
pub const SODA_COST: u32 = 50;

/// A struct that handles the workings of the game.
pub struct Game {
    /// Side length of a freshly spawned plane, in subunits.
    pub plane_size: i64,
    /// Side length of a tower and of the toolbar buttons, in subunits.
    pub tower_size: i64,
    pub width: i64,
    pub height: i64,
    pub mouse: Mouse,
    pub planes: Vec<PaperPlane>,
    pub towers: Vec<Tower>,
    pub buttons: Vec<Button>,
    pub path: PlanePath,
    pub round: u32,
    pub round_start_tic: u64,
    pub tic: u64,
    pub hp: HitPoints,
    pub cash: u32,
}

/// The rectangle a spawned plane starts on: off the field to the left,
/// staggered by its index times the spacing (given in tenths).
pub open spec fn spawn_rect(plane_size: i64, height: i64, k: int, spacing_tenths: int) -> Rect {
    Rect {
        x: (-(plane_size * k * spacing_tenths / 10)) as i64,
        y: (height * 26 / 100) as i64,
        w: plane_size,
        h: plane_size,
    }
}

/// The batch of `n` planes of one kind spawned by a round transition.
pub open spec fn spawn_seq(
    kind: PlaneKind,
    n: int,
    spacing_tenths: int,
    plane_size: i64,
    height: i64,
) -> Seq<PaperPlane> {
    Seq::new(n as nat, |k: int| plane_model(kind, spawn_rect(plane_size, height, k + 1, spacing_tenths)))
}

/// The rectangle of the toolbar button at the given slot, right-aligned.
pub open spec fn toolbar_rect(width: int, tower_size: int, slot: int) -> Rect {
    Rect {
        x: (width - 50 * (slot + 1) - tower_size * (slot + 1)) as i64,
        y: (tower_size * 5 / 100) as i64,
        w: tower_size as i64,
        h: tower_size as i64,
    }
}

impl Game {
    /// Field dimensions and entity sizes are sane, every owned entity is
    /// well-formed, and the round's tick counter never runs ahead of the
    /// global one.
    pub open spec fn wf(self) -> bool {
        &&& 0 <= self.width <= SIZE_LIMIT
        &&& 0 <= self.height <= SIZE_LIMIT
        &&& 0 <= self.plane_size <= SIZE_LIMIT
        &&& 0 <= self.tower_size <= SIZE_LIMIT
        &&& self.mouse.wf()
        &&& self.path.wf()
        &&& forall|i: int| 0 <= i < self.planes@.len() ==> (#[trigger] self.planes@[i]).wf()
        &&& forall|i: int| 0 <= i < self.towers@.len() ==> (#[trigger] self.towers@[i]).wf()
        &&& forall|i: int| 0 <= i < self.buttons@.len() ==> (#[trigger] self.buttons@[i]).wf()
        &&& self.round_start_tic <= self.tic
    }

    /// Setup a new game on a field of the given dimensions (in subunits):
    /// an empty field, the stock path, the three toolbar buttons, full
    /// player health and just enough cash for one Water Gun.
    pub fn new(width: i64, height: i64) -> (r: Game)
        requires
            0 <= width <= SIZE_LIMIT,
            0 <= height <= SIZE_LIMIT,
        ensures
            r.wf(),
            r.width == width,
            r.height == height,
            r.tower_size == height * 8 / 100,
            r.plane_size == height * 5 / 100,
            r.mouse == (Mouse { x: 0i64, y: 0i64, down: false, up: false }),
            r.planes@.len() == 0,
            r.towers@.len() == 0,
            r.path.turns@ == PlanePath::main_path_turns(width, height),
            r.round == 1,
            r.round_start_tic == 0,
            r.tic == 1,
            r.hp == (HitPoints { hp: 100u32, max_hp: 100u32 }),
            r.cash == WATERGUN_COST,
            r.buttons@.len() == 3,
            forall|i: int| 0 <= i < 3 ==> (#[trigger] r.buttons@[i]).rect
                == toolbar_rect(width as int, height * 8 / 100, i),
            forall|i: int| 0 <= i < 3 ==> !(#[trigger] r.buttons@[i]).selected,
            r.buttons@[0].variant == ButtonType::WaterGun,
            r.buttons@[1].variant == ButtonType::AcidTower,
            r.buttons@[2].variant == ButtonType::SodaMaker,
    {
        let tower_size = height * 8 / 100;
        let water_rect = Rect::new(width - 50 - tower_size, tower_size * 5 / 100, tower_size, tower_size);
        let acid_rect = Rect::new(width - 100 - tower_size * 2, tower_size * 5 / 100, tower_size, tower_size);
        let soda_rect = Rect::new(width - 150 - tower_size * 3, tower_size * 5 / 100, tower_size, tower_size);
        let buttons = vec![
            Button::new(water_rect, ButtonType::WaterGun, "WaterGunTop"),
            Button::new(acid_rect, ButtonType::AcidTower, "AcidTowerTop"),
            Button::new(soda_rect, ButtonType::SodaMaker, "SodaMakerTop"),
        ];
        let r = Game {
            path: PlanePath::new_main_path(width, height),
            plane_size: height * 5 / 100,
            tower_size,
            width,
            height,
            mouse: Mouse::new(),
            planes: Vec::new(),
            towers: Vec::new(),
            buttons,
            round: 1,
            round_start_tic: 0,
            tic: 1,
            hp: HitPoints::new(100),
            cash: WATERGUN_COST,
        };
        proof {
            assert(r.buttons@[0].rect == toolbar_rect(width as int, tower_size as int, 0));
            assert(r.buttons@[1].rect == toolbar_rect(width as int, tower_size as int, 1));
            assert(r.buttons@[2].rect == toolbar_rect(width as int, tower_size as int, 2));
        }
        r
    }

    /// Where the `x`-th plane of a batch starts.
    pub fn plane_start(&self, x: i64, spacing_tenths: i64) -> (r: Rect)
        requires
            0 <= self.plane_size <= SIZE_LIMIT,
            0 <= self.height <= SIZE_LIMIT,
            1 <= x <= 100,
            0 <= spacing_tenths <= 100,
        ensures
            r == spawn_rect(self.plane_size, self.height, x as int, spacing_tenths as int),
            r.wf(),
    {
        proof {
            crate::geom::lemma_mul_bounds(self.plane_size as int, x as int, SIZE_LIMIT as int, 100);
            crate::geom::lemma_mul_bounds(
                self.plane_size * x,
                spacing_tenths as int,
                SIZE_LIMIT * 100,
                100,
            );
        }
        Rect::new(
            -(self.plane_size * x * spacing_tenths / 10),
            self.height * 26 / 100,
            self.plane_size,
            self.plane_size,
        )
    }

    /// Spawn a batch of `n` planes of one kind at staggered offsets.
    fn spawn_batch(&mut self, kind: PlaneKind, n: u32, spacing_tenths: i64)
        requires
            old(self).wf(),
            n <= 100,
            0 <= spacing_tenths <= 100,
        ensures
            final(self).wf(),
            *final(self) == (Game { planes: final(self).planes, ..*old(self) }),
            final(self).planes@ == old(self).planes@
                + spawn_seq(kind, n as int, spacing_tenths as int, old(self).plane_size, old(self).height),
    {
        let ghost base = self.planes@;
        let ghost ps = old(self).plane_size;
        let ghost fh = old(self).height;
        let mut x: u32 = 1;
        while x <= n
            invariant
                1 <= x <= n + 1,
                n <= 100,
                0 <= spacing_tenths <= 100,
                self.wf(),
                *self == (Game { planes: self.planes, ..*old(self) }),
                ps == old(self).plane_size,
                fh == old(self).height,
                base == old(self).planes@,
                self.planes@.len() == base.len() + (x - 1),
                forall|i: int| 0 <= i < self.planes@.len() ==> #[trigger] self.planes@[i] == (
                    if i < base.len() {
                        base[i]
                    } else {
                        plane_model(kind, spawn_rect(ps, fh, i - base.len() + 1, spacing_tenths as int))
                    }
                ),
            decreases n + 1 - x,
        {
            let start = self.plane_start(x as i64, spacing_tenths);
            self.planes.push(PaperPlane::new(kind, start));
            x = x + 1;
        }
        proof {
            assert(self.planes@ =~= base
                + spawn_seq(kind, n as int, spacing_tenths as int, old(self).plane_size, old(self).height));
        }
    }

    /// Spawn basic planes.
    fn spawn_basics(&mut self, n: u32, spacing_tenths: i64)
        requires
            old(self).wf(),
            n <= 100,
            0 <= spacing_tenths <= 100,
        ensures
            final(self).wf(),
            *final(self) == (Game { planes: final(self).planes, ..*old(self) }),
            final(self).planes@ == old(self).planes@
                + spawn_seq(PlaneKind::Basic, n as int, spacing_tenths as int, old(self).plane_size, old(self).height),
    {
        self.spawn_batch(PlaneKind::Basic, n, spacing_tenths);
    }

    /// Spawn bullets.
    fn spawn_bullets(&mut self, n: u32, spacing_tenths: i64)
        requires
            old(self).wf(),
            n <= 100,
            0 <= spacing_tenths <= 100,
        ensures
            final(self).wf(),
            *final(self) == (Game { planes: final(self).planes, ..*old(self) }),
            final(self).planes@ == old(self).planes@
                + spawn_seq(PlaneKind::Bullet, n as int, spacing_tenths as int, old(self).plane_size, old(self).height),
    {
        self.spawn_batch(PlaneKind::Bullet, n, spacing_tenths);
    }

    /// Spawn bullet reduxes.
    fn spawn_bullet_reduxes(&mut self, n: u32, spacing_tenths: i64)
        requires
            old(self).wf(),
            n <= 100,
            0 <= spacing_tenths <= 100,
        ensures
            final(self).wf(),
            *final(self) == (Game { planes: final(self).planes, ..*old(self) }),
            final(self).planes@ == old(self).planes@
                + spawn_seq(PlaneKind::BulletRedux, n as int, spacing_tenths as int, old(self).plane_size, old(self).height),
    {
        self.spawn_batch(PlaneKind::BulletRedux, n, spacing_tenths);
    }

    /// Spawn gliders.
    fn spawn_gliders(&mut self, n: u32, spacing_tenths: i64)
        requires
            old(self).wf(),
            n <= 100,
            0 <= spacing_tenths <= 100,
        ensures
            final(self).wf(),
            *final(self) == (Game { planes: final(self).planes, ..*old(self) }),
            final(self).planes@ == old(self).planes@
                + spawn_seq(PlaneKind::Glider, n as int, spacing_tenths as int, old(self).plane_size, old(self).height),
    {
        self.spawn_batch(PlaneKind::Glider, n, spacing_tenths);
    }

    /// Spawn glider reduxes.
    fn spawn_glider_reduxes(&mut self, n: u32, spacing_tenths: i64)
        requires
            old(self).wf(),
            n <= 100,
            0 <= spacing_tenths <= 100,
        ensures
            final(self).wf(),
            *final(self) == (Game { planes: final(self).planes, ..*old(self) }),
            final(self).planes@ == old(self).planes@
                + spawn_seq(PlaneKind::GliderRedux, n as int, spacing_tenths as int, old(self).plane_size, old(self).height),
    {
        self.spawn_batch(PlaneKind::GliderRedux, n, spacing_tenths);
    }

    /// Spawn water bombs.
    fn spawn_waterbombs(&mut self, n: u32, spacing_tenths: i64)
        requires
            old(self).wf(),
            n <= 100,
            0 <= spacing_tenths <= 100,
        ensures
            final(self).wf(),
            *final(self) == (Game { planes: final(self).planes, ..*old(self) }),
            final(self).planes@ == old(self).planes@
                + spawn_seq(PlaneKind::WaterBomb, n as int, spacing_tenths as int, old(self).plane_size, old(self).height),
    {
        self.spawn_batch(PlaneKind::WaterBomb, n, spacing_tenths);
    }

    /// Spawn blimps.
    fn spawn_blimps(&mut self, n: u32, spacing_tenths: i64)
        requires
            old(self).wf(),
            n <= 100,
            0 <= spacing_tenths <= 100,
        ensures
            final(self).wf(),
            *final(self) == (Game { planes: final(self).planes, ..*old(self) }),
            final(self).planes@ == old(self).planes@
                + spawn_seq(PlaneKind::Blimp, n as int, spacing_tenths as int, old(self).plane_size, old(self).height),
    {
        self.spawn_batch(PlaneKind::Blimp, n, spacing_tenths);
    }
}

/// The batch of planes a round transition spawns.
pub open spec fn round_batch(round: u32, plane_size: i64, height: i64) -> Seq<PaperPlane> {
    if round == 1 {
        spawn_seq(PlaneKind::Basic, 20, 30, plane_size, height)
    } else if round == 2 {
        spawn_seq(PlaneKind::Basic, 25, 25, plane_size, height)
    } else if round == 3 {
        spawn_seq(PlaneKind::Bullet, 25, 20, plane_size, height)
            + spawn_seq(PlaneKind::Glider, 25, 20, plane_size, height)
    } else {
        spawn_seq(PlaneKind::BulletRedux, 25, 30, plane_size, height)
            + spawn_seq(PlaneKind::GliderRedux, 25, 20, plane_size, height)
            + spawn_seq(PlaneKind::Blimp, 25, 30, plane_size, height)
            + spawn_seq(PlaneKind::WaterBomb, 25, 20, plane_size, height)
    }
}

/// How many ticks a round waits before spawning its batch; rounds past
/// the table never spawn.
pub open spec fn round_threshold(round: u32) -> int {
    if round == 1 {
        100
    } else if round == 2 {
        2000
    } else {
        3000
    }
}

/// A round transition happens this tick: the round is in the table and
/// enough ticks have elapsed since the round started.
pub open spec fn round_fires(g: Game) -> bool {
    1 <= g.round <= 4 && g.tic - g.round_start_tic >= round_threshold(g.round)
}

impl Game {
    /// Advance the wave scheduler one tick: on a round transition, reset
    /// the tick counters, spawn the round's batch and advance the round;
    /// otherwise change nothing. Rounds are strictly sequential.
    pub fn make_planes(&mut self)
        requires
            old(self).wf(),
        ensures
            final(self).wf(),
            round_fires(*old(self)) ==> *final(self) == (Game {
                planes: final(self).planes,
                round: (old(self).round + 1) as u32,
                round_start_tic: 0u64,
                tic: 0u64,
                ..*old(self)
            }),
            round_fires(*old(self)) ==> final(self).planes@ == old(self).planes@
                + round_batch(old(self).round, old(self).plane_size, old(self).height),
            !round_fires(*old(self)) ==> *final(self) == *old(self),
    {
        let elapsed = self.tic - self.round_start_tic;

        match self.round {
            1 => {
                if elapsed >= 100 {
                    self.round_start_tic = 0;
                    self.tic = 0;
                    self.spawn_basics(20, 30);
                    self.round = self.round + 1;
                }
            }
            2 => {
                if elapsed >= 2000 {
                    self.round_start_tic = 0;
                    self.tic = 0;
                    self.spawn_basics(25, 25);
                    self.round = self.round + 1;
                }
            }
            3 => {
                if elapsed >= 3000 {
                    self.round_start_tic = 0;
                    self.tic = 0;
                    self.spawn_bullets(25, 20);
                    self.spawn_gliders(25, 20);
                    self.round = self.round + 1;
                }
            }
            4 => {
                if elapsed >= 3000 {
                    self.round_start_tic = 0;
                    self.tic = 0;
                    self.spawn_bullet_reduxes(25, 30);
                    self.spawn_glider_reduxes(25, 20);
                    self.spawn_blimps(25, 30);
                    self.spawn_waterbombs(25, 20);
                    self.round = self.round + 1;
                }
            }
            _ => {}
        }
    }
}

/// Cash price of placing a basic tower of the button's family; buttons
/// that place nothing cost nothing.
pub open spec fn placement_cost(bt: ButtonType) -> u32 {
    match bt {
        ButtonType::WaterGun => WATERGUN_COST,
        ButtonType::AcidTower => ACID_COST,
        ButtonType::SodaMaker => SODA_COST,
        _ => 0,
    }
}

/// The button places a tower when activated.
pub open spec fn is_tower_button(bt: ButtonType) -> bool {
    bt is WaterGun || bt is AcidTower || bt is SodaMaker
}

/// The basic variant a toolbar button places.
pub open spec fn base_variant(bt: ButtonType) -> TowerType {
    match bt {
        ButtonType::AcidTower => TowerType::AcidTower(AcidTower::Basic),
        ButtonType::SodaMaker => TowerType::SodaMaker(SodaMaker::Basic),
        _ => TowerType::WaterGun(WaterGun::Basic),
    }
}

/// The rectangle of a tower placed at the pointer: centered on it.
pub open spec fn placement_rect(m: Mouse, tower_size: i64) -> Rect {
    Rect {
        x: (m.x - tower_size / 2) as i64,
        y: (m.y - tower_size / 2) as i64,
        w: tower_size,
        h: tower_size,
    }
}

/// The pointer is below the toolbar band (one and a half button heights).
pub open spec fn below_toolbar(m: Mouse, tower_size: i64) -> bool {
    m.y * 2 > tower_size * 3
}

/// What one activated toolbar button does to the tower list and cash:
/// when it places and the cost is covered, exactly one fresh basic tower
/// of its family appears at the pointer and the cost is debited;
/// otherwise both are untouched.
pub open spec fn spec_placement(
    old_t: Seq<Tower>,
    new_t: Seq<Tower>,
    old_cash: u32,
    new_cash: u32,
    m: Mouse,
    tower_size: i64,
    bt: ButtonType,
) -> bool {
    if is_tower_button(bt) && old_cash >= placement_cost(bt) {
        &&& new_t.len() == old_t.len() + 1
        &&& forall|i: int| 0 <= i < old_t.len() ==> new_t[i] == old_t[i]
        &&& is_fresh_tower(new_t.last(), base_variant(bt), placement_rect(m, tower_size))
        &&& new_cash == old_cash - placement_cost(bt)
    } else {
        &&& new_t == old_t
        &&& new_cash == old_cash
    }
}

/// What one activated toolbar button does once the toolbar-band test is
/// in: above the band nothing happens at all.
pub open spec fn spec_toolbar_attempt(
    old_t: Seq<Tower>,
    new_t: Seq<Tower>,
    old_cash: u32,
    new_cash: u32,
    m: Mouse,
    tower_size: i64,
    bt: ButtonType,
) -> bool {
    if below_toolbar(m, tower_size) {
        spec_placement(old_t, new_t, old_cash, new_cash, m, tower_size, bt)
    } else {
        new_t == old_t && new_cash == old_cash
    }
}

/// A tower that a pointer release below the toolbar just placed: a fresh
/// basic tower of one of the three families, centered on the pointer.
pub open spec fn is_placed_tower(t: Tower, m: Mouse, tower_size: i64) -> bool {
    &&& below_toolbar(m, tower_size)
    &&& {
        ||| is_fresh_tower(t, TowerType::WaterGun(WaterGun::Basic), placement_rect(m, tower_size))
        ||| is_fresh_tower(t, TowerType::AcidTower(AcidTower::Basic), placement_rect(m, tower_size))
        ||| is_fresh_tower(t, TowerType::SodaMaker(SodaMaker::Basic), placement_rect(m, tower_size))
    }
}

/// Button `i` is the only selected button.
pub open spec fn only_selected(bs: Seq<Button>, i: int) -> bool {
    &&& 0 <= i < bs.len()
    &&& bs[i].selected
    &&& forall|j: int| 0 <= j < bs.len() && j != i ==> !(#[trigger] bs[j]).selected
}

impl Game {
    /// Try to place a basic tower of the button's family at the pointer,
    /// if the button places one at all and its cost is covered.
    fn try_place(&mut self, bt: ButtonType)
        requires
            old(self).wf(),
        ensures
            final(self).wf(),
            *final(self) == (Game {
                towers: final(self).towers,
                cash: final(self).cash,
                ..*old(self)
            }),
            spec_placement(
                old(self).towers@,
                final(self).towers@,
                old(self).cash,
                final(self).cash,
                old(self).mouse,
                old(self).tower_size,
                bt,
            ),
    {
        let ts = self.tower_size;
        match bt {
            ButtonType::WaterGun => {
                if self.cash >= WATERGUN_COST {
                    let rect = Rect::new(self.mouse.x - ts / 2, self.mouse.y - ts / 2, ts, ts);
                    self.towers.push(Tower::new_water_gun(rect));
                    self.cash = self.cash - WATERGUN_COST;
                }
            }
            ButtonType::AcidTower => {
                if self.cash >= ACID_COST {
                    let rect = Rect::new(self.mouse.x - ts / 2, self.mouse.y - ts / 2, ts, ts);
                    self.towers.push(Tower::new_acid_tower(rect));
                    self.cash = self.cash - ACID_COST;
                }
            }
            ButtonType::SodaMaker => {
                if self.cash >= SODA_COST {
                    let rect = Rect::new(self.mouse.x - ts / 2, self.mouse.y - ts / 2, ts, ts);
                    self.towers.push(Tower::new_soda_maker(rect));
                    self.cash = self.cash - SODA_COST;
                }
            }
            _ => {}
        }
    }

    /// Handle the toolbar on a pointer release: every selected button
    /// whose pointer release lands below the toolbar attempts to place
    /// its tower, then all buttons are deselected and the one under a
    /// pointer inside the toolbar band is selected again. Without a
    /// release event nothing changes.
    pub fn events(&mut self)
        requires
            old(self).wf(),
        ensures
            final(self).wf(),
            *final(self) == (Game {
                buttons: final(self).buttons,
                towers: final(self).towers,
                cash: final(self).cash,
                ..*old(self)
            }),
            !old(self).mouse.up ==> *final(self) == *old(self),
            final(self).buttons@.len() == old(self).buttons@.len(),
            old(self).mouse.up ==> forall|i: int| 0 <= i < old(self).buttons@.len()
                ==> #[trigger] final(self).buttons@[i] == (Button {
                    selected: old(self).mouse.y < old(self).tower_size
                        && old(self).mouse.spec_inside(old(self).buttons@[i].rect),
                    ..old(self).buttons@[i]
                }),
            final(self).towers@.len() >= old(self).towers@.len(),
            forall|i: int| 0 <= i < old(self).towers@.len()
                ==> #[trigger] final(self).towers@[i] == old(self).towers@[i],
            forall|i: int| old(self).towers@.len() <= i < final(self).towers@.len()
                ==> is_placed_tower(
                    #[trigger] final(self).towers@[i],
                    old(self).mouse,
                    old(self).tower_size,
                ),
            final(self).cash <= old(self).cash,
            (forall|j: int| 0 <= j < old(self).buttons@.len()
                ==> !(#[trigger] old(self).buttons@[j]).selected)
                ==> final(self).towers@ == old(self).towers@ && final(self).cash == old(self).cash,
            old(self).mouse.up ==> forall|i: int| only_selected(old(self).buttons@, i)
                ==> spec_toolbar_attempt(
                    old(self).towers@,
                    final(self).towers@,
                    old(self).cash,
                    final(self).cash,
                    old(self).mouse,
                    old(self).tower_size,
                    (#[trigger] old(self).buttons@[i]).variant,
                ),
    {
        if self.mouse.up() {
            let m = self.mouse;
            let ts = self.tower_size;
            let n = self.buttons.len();
            let ghost obuttons = old(self).buttons@;
            let ghost otowers = old(self).towers@;
            let ghost ocash = old(self).cash;
            let mut i: usize = 0;
            while i < n
                invariant
                    0 <= i <= n,
                    self.wf(),
                    n == self.buttons@.len(),
                    n == obuttons.len(),
                    m == old(self).mouse,
                    ts == old(self).tower_size,
                    obuttons == old(self).buttons@,
                    otowers == old(self).towers@,
                    ocash == old(self).cash,
                    m.up,
                    *self == (Game {
                        buttons: self.buttons,
                        towers: self.towers,
                        cash: self.cash,
                        ..*old(self)
                    }),
                    forall|j: int| 0 <= j < i ==> #[trigger] self.buttons@[j] == (Button {
                        selected: m.y < ts && m.spec_inside(obuttons[j].rect),
                        ..obuttons[j]
                    }),
                    forall|j: int| i <= j < n ==> #[trigger] self.buttons@[j] == obuttons[j],
                    self.towers@.len() >= otowers.len(),
                    forall|j: int| 0 <= j < otowers.len()
                        ==> #[trigger] self.towers@[j] == otowers[j],
                    forall|j: int| otowers.len() <= j < self.towers@.len()
                        ==> is_placed_tower(#[trigger] self.towers@[j], m, ts),
                    self.cash <= ocash,
                    (forall|j: int| 0 <= j < n ==> !(#[trigger] obuttons[j]).selected)
                        ==> self.towers@ == otowers && self.cash == ocash,
                    forall|k: int| only_selected(obuttons, k) && k < i
                        ==> spec_toolbar_attempt(
                            otowers, self.towers@, ocash, self.cash, m, ts,
                            (#[trigger] obuttons[k]).variant,
                        ),
                    forall|k: int| only_selected(obuttons, k) && k >= i
                        ==> self.towers@ == otowers && self.cash == ocash,
                decreases n - i,
            {
                let sel = self.buttons[i].selected;
                let bt = self.buttons[i].variant;
                if m.y * 2 > ts * 3 && sel {
                    self.try_place(bt);
                }
                let hit = m.y < ts && m.inside(&self.buttons[i].rect);
                let b = &mut self.buttons[i];
                b.deselect();
                if hit {
                    b.select();
                }
                i = i + 1;
            }
        }
    }
}

/// What one cooldown-gated shot attempt does to a tower and a plane: on a
/// hit the tower records the shot time and the plane loses the tower's
/// damage; otherwise both are untouched.
pub open spec fn damage_step(t: Tower, p: PaperPlane, now: u64) -> (Tower, PaperPlane) {
    if spec_fires(t, p, now) {
        (
            Tower { last_dmg_time: now, ..t },
            PaperPlane { hp: crate::hp::HitPoints { hp: sub_damage(p.hp.hp, t.dmg), ..p.hp }, ..p },
        )
    } else {
        (t, p)
    }
}

/// One tower's shot attempts against every plane in list order, threading
/// the tower's cooldown state through: once it fires, the window is shut
/// for the rest of the pass.
pub open spec fn spec_damage_pass(t: Tower, ps: Seq<PaperPlane>, now: u64) -> (Tower, Seq<PaperPlane>)
    decreases ps.len(),
{
    if ps.len() == 0 {
        (t, ps)
    } else {
        let tp = damage_step(t, ps[0], now);
        let rest = spec_damage_pass(tp.0, ps.drop_first(), now);
        (rest.0, seq![tp.1] + rest.1)
    }
}

/// The whole combat phase: each tower in list order first handles the
/// pointer (selection, upgrade, deletion — moving cash), then attempts
/// its shot against every plane in list order.
pub open spec fn spec_towers_pass(
    ts: Seq<Tower>,
    ps: Seq<PaperPlane>,
    cash: u32,
    m: Mouse,
    now: u64,
) -> (Seq<Tower>, Seq<PaperPlane>, u32)
    decreases ts.len(),
{
    if ts.len() == 0 {
        (ts, ps, cash)
    } else {
        let ec = spec_events(ts[0], m, cash);
        let dp = spec_damage_pass(ec.0, ps, now);
        let rest = spec_towers_pass(ts.drop_first(), dp.1, ec.1, m, now);
        (seq![dp.0] + rest.0, rest.1, rest.2)
    }
}

/// A damage pass only lowers plane HP and touches nothing else of any
/// plane; a unit's HP never increases through combat.
pub proof fn lemma_damage_pass_hp_monotone(t: Tower, ps: Seq<PaperPlane>, now: u64)
    ensures
        spec_damage_pass(t, ps, now).1.len() == ps.len(),
        forall|i: int| 0 <= i < ps.len() ==> #[trigger] spec_damage_pass(t, ps, now).1[i]
            == (PaperPlane {
                hp: crate::hp::HitPoints {
                    hp: spec_damage_pass(t, ps, now).1[i].hp.hp,
                    ..ps[i].hp
                },
                ..ps[i]
            }),
        forall|i: int| 0 <= i < ps.len()
            ==> (#[trigger] spec_damage_pass(t, ps, now).1[i]).hp.hp <= ps[i].hp.hp,
    decreases ps.len(),
{
    if ps.len() > 0 {
        let tp = damage_step(t, ps[0], now);
        lemma_damage_pass_hp_monotone(tp.0, ps.drop_first(), now);
        let r = spec_damage_pass(t, ps, now);
        assert forall|i: int| 0 <= i < ps.len() implies #[trigger] r.1[i] == (PaperPlane {
            hp: crate::hp::HitPoints { hp: r.1[i].hp.hp, ..ps[i].hp },
            ..ps[i]
        }) && r.1[i].hp.hp <= ps[i].hp.hp by {
            if i > 0 {
                assert(r.1[i] == spec_damage_pass(tp.0, ps.drop_first(), now).1[i - 1]);
                assert(ps.drop_first()[i - 1] == ps[i]);
            }
        }
    }
}

/// A tower whose cooldown window is shut touches nothing in a pass.
pub proof fn lemma_shut_window_damages_nothing(t: Tower, ps: Seq<PaperPlane>, now: u64)
    requires
        !spec_cooldown_open(t, now),
    ensures
        spec_damage_pass(t, ps, now) == (t, ps),
    decreases ps.len(),
{
    if ps.len() > 0 {
        lemma_shut_window_damages_nothing(t, ps.drop_first(), now);
        assert(seq![ps[0]] + ps.drop_first() =~= ps);
    }
}

/// Cooldown exclusivity within one pass: a tower damages at most one
/// plane per pass, because firing records the shot time and shuts the
/// window for every later plane in the same pass.
pub proof fn lemma_one_shot_per_pass(t: Tower, ps: Seq<PaperPlane>, now: u64)
    ensures
        forall|i: int, j: int| 0 <= i < j < spec_damage_pass(t, ps, now).1.len()
            ==> #[trigger] spec_damage_pass(t, ps, now).1[i] == ps[i]
                || #[trigger] spec_damage_pass(t, ps, now).1[j] == ps[j],
    decreases ps.len(),
{
    lemma_damage_pass_hp_monotone(t, ps, now);
    if ps.len() > 0 {
        let r = spec_damage_pass(t, ps, now);
        let step = damage_step(t, ps[0], now);
        let rest = spec_damage_pass(step.0, ps.drop_first(), now);
        if spec_fires(t, ps[0], now) {
            lemma_shut_window_damages_nothing(step.0, ps.drop_first(), now);
        } else {
            lemma_one_shot_per_pass(t, ps.drop_first(), now);
        }
        assert forall|i: int, j: int| 0 <= i < j < r.1.len()
            implies #[trigger] r.1[i] == ps[i] || #[trigger] r.1[j] == ps[j] by {
            assert(r.1[j] == rest.1[j - 1]);
            if spec_fires(t, ps[0], now) {
                assert(rest.1 == ps.drop_first());
                assert(ps.drop_first()[j - 1] == ps[j]);
            } else {
                if i == 0 {
                    assert(r.1[0] == ps[0]);
                } else {
                    assert(r.1[i] == rest.1[i - 1]);
                    assert(ps.drop_first()[i - 1] == ps[i]);
                    assert(ps.drop_first()[j - 1] == ps[j]);
                }
            }
        }
    }
}

/// The whole combat phase only lowers plane HP: HP monotonicity across a
/// tick's combat, whatever the towers and the pointer do.
pub proof fn lemma_towers_pass_hp_monotone(
    ts: Seq<Tower>,
    ps: Seq<PaperPlane>,
    cash: u32,
    m: Mouse,
    now: u64,
)
    ensures
        spec_towers_pass(ts, ps, cash, m, now).1.len() == ps.len(),
        forall|i: int| 0 <= i < ps.len() ==> #[trigger] spec_towers_pass(ts, ps, cash, m, now).1[i]
            == (PaperPlane {
                hp: crate::hp::HitPoints {
                    hp: spec_towers_pass(ts, ps, cash, m, now).1[i].hp.hp,
                    ..ps[i].hp
                },
                ..ps[i]
            }),
        forall|i: int| 0 <= i < ps.len()
            ==> (#[trigger] spec_towers_pass(ts, ps, cash, m, now).1[i]).hp.hp <= ps[i].hp.hp,
    decreases ts.len(),
{
    if ts.len() > 0 {
        let ec = spec_events(ts[0], m, cash);
        let dp = spec_damage_pass(ec.0, ps, now);
        lemma_damage_pass_hp_monotone(ec.0, ps, now);
        lemma_towers_pass_hp_monotone(ts.drop_first(), dp.1, ec.1, m, now);
    }
}

impl Game {
    /// One tower's shot attempts against every plane, in plane-list order.
    fn damage_pass(&mut self, ti: usize, now: u64)
        requires
            old(self).wf(),
            ti < old(self).towers@.len(),
        ensures
            final(self).wf(),
            *final(self) == (Game {
                towers: final(self).towers,
                planes: final(self).planes,
                ..*old(self)
            }),
            final(self).towers@.len() == old(self).towers@.len(),
            forall|j: int| 0 <= j < old(self).towers@.len() && j != ti
                ==> #[trigger] final(self).towers@[j] == old(self).towers@[j],
            (final(self).towers@[ti as int], final(self).planes@)
                == spec_damage_pass(old(self).towers@[ti as int], old(self).planes@, now),
    {
        let ghost t0 = self.towers@[ti as int];
        let ghost ps0 = self.planes@;
        let n = self.planes.len();
        proof {
            assert(ps0.skip(0) =~= ps0);
            assert(self.planes@.take(0) + spec_damage_pass(t0, ps0, now).1
                =~= spec_damage_pass(t0, ps0, now).1);
        }
        let mut pi: usize = 0;
        while pi < n
            invariant
                0 <= pi <= n,
                ti < self.towers@.len(),
                self.wf(),
                n == self.planes@.len(),
                n == ps0.len(),
                t0 == old(self).towers@[ti as int],
                ps0 == old(self).planes@,
                *self == (Game { towers: self.towers, planes: self.planes, ..*old(self) }),
                self.towers@.len() == old(self).towers@.len(),
                forall|j: int| 0 <= j < old(self).towers@.len() && j != ti
                    ==> #[trigger] self.towers@[j] == old(self).towers@[j],
                forall|j: int| pi <= j < n ==> #[trigger] self.planes@[j] == ps0[j],
                spec_damage_pass(t0, ps0, now).0
                    == spec_damage_pass(self.towers@[ti as int], ps0.skip(pi as int), now).0,
                spec_damage_pass(t0, ps0, now).1 == self.planes@.take(pi as int)
                    + spec_damage_pass(self.towers@[ti as int], ps0.skip(pi as int), now).1,
            decreases n - pi,
        {
            let ghost t_cur = self.towers@[ti as int];
            let ghost ps_cur = self.planes@;
            self.towers[ti].damage(&mut self.planes[pi], now);
            proof {
                let step = damage_step(t_cur, ps0[pi as int], now);
                assert(ps0.skip(pi as int)[0] == ps0[pi as int]);
                assert(ps0.skip(pi as int).drop_first() =~= ps0.skip(pi as int + 1));
                assert(self.towers@[ti as int] == step.0);
                assert(self.planes@[pi as int] == step.1);
                assert(self.planes@.take(pi as int + 1)
                    =~= ps_cur.take(pi as int) + seq![step.1]);
                assert(spec_damage_pass(t0, ps0, now).1 == self.planes@.take(pi as int + 1)
                    + spec_damage_pass(self.towers@[ti as int], ps0.skip(pi as int + 1), now).1);
                assert(self.planes@[pi as int].hp.wf());
            }
            pi = pi + 1;
        }
        proof {
            assert(ps0.skip(n as int) =~= Seq::<PaperPlane>::empty());
            assert(spec_damage_pass(self.towers@[ti as int], ps0.skip(n as int), now).1
                =~= Seq::<PaperPlane>::empty());
            assert(self.planes@.take(n as int) =~= self.planes@);
            assert(spec_damage_pass(t0, ps0, now).1 == self.planes@);
        }
    }

    /// The combat phase: each tower in list order handles the pointer and
    /// then attempts its cooldown-gated shot against every plane in list
    /// order. Plane HP never increases; whichever in-range plane comes
    /// first in list order takes the one shot of an open window.
    pub fn update_towers(&mut self, now: u64)
        requires
            old(self).wf(),
        ensures
            final(self).wf(),
            *final(self) == (Game {
                towers: final(self).towers,
                planes: final(self).planes,
                cash: final(self).cash,
                ..*old(self)
            }),
            (final(self).towers@, final(self).planes@, final(self).cash) == spec_towers_pass(
                old(self).towers@,
                old(self).planes@,
                old(self).cash,
                old(self).mouse,
                now,
            ),
            final(self).planes@.len() == old(self).planes@.len(),
            forall|i: int| 0 <= i < old(self).planes@.len()
                ==> (#[trigger] final(self).planes@[i]).hp.hp <= old(self).planes@[i].hp.hp,
    {
        let m = self.mouse;
        let n = self.towers.len();
        let ghost ts0 = self.towers@;
        let ghost ps0 = self.planes@;
        let ghost cash0 = self.cash;
        proof {
            assert(ts0.skip(0) =~= ts0);
            assert(self.towers@.take(0) + spec_towers_pass(ts0, ps0, cash0, m, now).0
                =~= spec_towers_pass(ts0, ps0, cash0, m, now).0);
        }
        let mut ti: usize = 0;
        while ti < n
            invariant
                0 <= ti <= n,
                self.wf(),
                n == self.towers@.len(),
                n == ts0.len(),
                m == old(self).mouse,
                ts0 == old(self).towers@,
                ps0 == old(self).planes@,
                cash0 == old(self).cash,
                *self == (Game {
                    towers: self.towers,
                    planes: self.planes,
                    cash: self.cash,
                    ..*old(self)
                }),
                forall|j: int| ti <= j < n ==> #[trigger] self.towers@[j] == ts0[j],
                spec_towers_pass(ts0, ps0, cash0, m, now) == (
                    self.towers@.take(ti as int)
                        + spec_towers_pass(self.towers@.skip(ti as int), self.planes@, self.cash, m, now).0,
                    spec_towers_pass(self.towers@.skip(ti as int), self.planes@, self.cash, m, now).1,
                    spec_towers_pass(self.towers@.skip(ti as int), self.planes@, self.cash, m, now).2,
                ),
            decreases n - ti,
        {
            let ghost ts_cur = self.towers@;
            let ghost ps_cur = self.planes@;
            let ghost cash_cur = self.cash;
            self.towers[ti].events(&m, &mut self.cash);
            let ghost t_e = self.towers@[ti as int];
            let ghost cash_e = self.cash;
            proof {
                assert((t_e, cash_e) == spec_events(ts_cur[ti as int], m, cash_cur));
            }
            self.damage_pass(ti, now);
            proof {
                let tail = ts_cur.skip(ti as int);
                assert(tail[0] == ts_cur[ti as int]);
                let ec = spec_events(tail[0], m, cash_cur);
                let dp = spec_damage_pass(ec.0, ps_cur, now);
                assert((self.towers@[ti as int], self.planes@) == dp);
                assert(tail.drop_first() =~= ts_cur.skip(ti as int + 1));
                assert(self.towers@.skip(ti as int + 1) =~= ts_cur.skip(ti as int + 1));
                assert(self.towers@.take(ti as int + 1)
                    =~= ts_cur.take(ti as int) + seq![dp.0]);
                assert(spec_towers_pass(tail, ps_cur, cash_cur, m, now) == (
                    seq![dp.0] + spec_towers_pass(tail.drop_first(), dp.1, ec.1, m, now).0,
                    spec_towers_pass(tail.drop_first(), dp.1, ec.1, m, now).1,
                    spec_towers_pass(tail.drop_first(), dp.1, ec.1, m, now).2,
                ));
                assert(ts_cur.take(ti as int) =~= self.towers@.take(ti as int + 1).take(ti as int));
                assert(ts_cur.take(ti as int) + (seq![dp.0]
                    + spec_towers_pass(tail.drop_first(), dp.1, ec.1, m, now).0)
                    =~= (ts_cur.take(ti as int) + seq![dp.0])
                        + spec_towers_pass(tail.drop_first(), dp.1, ec.1, m, now).0);
            }
            ti = ti + 1;
        }
        proof {
            assert(self.towers@.skip(n as int)
                =~= Seq::<Tower>::empty());
            assert(self.towers@.take(n as int) =~= self.towers@);
            lemma_towers_pass_hp_monotone(ts0, ps0, cash0, m, now);
        }
    }

    /// The movement phase: every plane scans the path and flies one step,
    /// in list order; planes never affect one another.
    pub fn move_planes(&mut self)
        requires
            old(self).wf(),
        ensures
            final(self).wf(),
            *final(self) == (Game { planes: final(self).planes, ..*old(self) }),
            final(self).planes@ == old(self).planes@.map_values(
                |p: PaperPlane| spec_fly(p, old(self).path.turns@),
            ),
    {
        let ghost ps0 = self.planes@;
        let ghost turns = self.path.turns@;
        let n = self.planes.len();
        let mut i: usize = 0;
        while i < n
            invariant
                0 <= i <= n,
                self.wf(),
                n == self.planes@.len(),
                n == ps0.len(),
                ps0 == old(self).planes@,
                turns == old(self).path.turns@,
                *self == (Game { planes: self.planes, ..*old(self) }),
                forall|j: int| 0 <= j < i ==> #[trigger] self.planes@[j] == spec_fly(ps0[j], turns),
                forall|j: int| i <= j < n ==> #[trigger] self.planes@[j] == ps0[j],
            decreases n - i,
        {
            let path = &self.path;
            self.planes[i].fly(path);
            i = i + 1;
        }
        proof {
            assert(self.planes@ =~= ps0.map_values(|p: PaperPlane| spec_fly(p, turns)));
        }
    }
}

/// The towers left after a lifecycle pass: those not marked deleted, in
/// their original order.
pub open spec fn keep_towers(ts: Seq<Tower>) -> Seq<Tower>
    decreases ts.len(),
{
    if ts.len() == 0 {
        ts
    } else if ts[0].status is Deleted {
        keep_towers(ts.drop_first())
    } else {
        seq![ts[0]] + keep_towers(ts.drop_first())
    }
}

/// The whole effect of the plane lifecycle pass on the plane list, the
/// cash and the player's health, scanning in list order: a dead plane is
/// removed and pays its bounty; otherwise a plane past the right edge of
/// the field is removed and costs the player its escape damage, floored
/// at zero. The two conditions are checked HP-first, so one plane is
/// reaped at most once.
pub open spec fn spec_reap(
    ps: Seq<PaperPlane>,
    cash: u32,
    hp: HitPoints,
    width: i64,
) -> (Seq<PaperPlane>, u32, HitPoints)
    decreases ps.len(),
{
    if ps.len() == 0 {
        (ps, cash, hp)
    } else if ps[0].hp.hp == 0 {
        spec_reap(ps.drop_first(), credit(cash, ps[0].bounty), hp, width)
    } else if ps[0].rect.x >= width {
        spec_reap(
            ps.drop_first(),
            cash,
            HitPoints { hp: sub_damage(hp.hp, ps[0].damage), ..hp },
            width,
        )
    } else {
        let rest = spec_reap(ps.drop_first(), cash, hp, width);
        (seq![ps[0]] + rest.0, rest.1, rest.2)
    }
}

/// Reaping never takes cash away: bounties only add to the balance.
pub proof fn lemma_reap_cash_never_falls(ps: Seq<PaperPlane>, cash: u32, hp: HitPoints, width: i64)
    ensures
        spec_reap(ps, cash, hp, width).1 >= cash,
    decreases ps.len(),
{
    if ps.len() > 0 {
        if ps[0].hp.hp == 0 {
            lemma_reap_cash_never_falls(ps.drop_first(), credit(cash, ps[0].bounty), hp, width);
        } else if ps[0].rect.x >= width {
            lemma_reap_cash_never_falls(ps.drop_first(), cash, HitPoints { hp: sub_damage(hp.hp, ps[0].damage), ..hp }, width);
        } else {
            lemma_reap_cash_never_falls(ps.drop_first(), cash, hp, width);
        }
    }
}

/// Player HP floor: however many planes escape in one pass, the player's
/// health only falls, never below zero, and the maximum is untouched.
pub proof fn lemma_reap_player_hp_floor(ps: Seq<PaperPlane>, cash: u32, hp: HitPoints, width: i64)
    ensures
        0 <= spec_reap(ps, cash, hp, width).2.hp <= hp.hp,
        spec_reap(ps, cash, hp, width).2.max_hp == hp.max_hp,
    decreases ps.len(),
{
    if ps.len() > 0 {
        if ps[0].hp.hp == 0 {
            lemma_reap_player_hp_floor(ps.drop_first(), credit(cash, ps[0].bounty), hp, width);
        } else if ps[0].rect.x >= width {
            lemma_reap_player_hp_floor(ps.drop_first(), cash, HitPoints { hp: sub_damage(hp.hp, ps[0].damage), ..hp }, width);
        } else {
            lemma_reap_player_hp_floor(ps.drop_first(), cash, hp, width);
        }
    }
}

impl Game {
    /// The tower lifecycle pass: remove every tower marked deleted. The
    /// refund was already paid when the mark was set, so removal moves no
    /// cash.
    pub fn remove_towers(&mut self)
        requires
            old(self).wf(),
        ensures
            final(self).wf(),
            *final(self) == (Game { towers: final(self).towers, ..*old(self) }),
            final(self).towers@ == keep_towers(old(self).towers@),
    {
        let ghost ts0 = self.towers@;
        proof {
            assert(ts0.skip(0) =~= ts0);
            assert(self.towers@.take(0) + keep_towers(ts0) =~= keep_towers(ts0));
        }
        let mut i: usize = 0;
        while i != self.towers.len()
            invariant
                0 <= i <= self.towers@.len(),
                self.wf(),
                ts0 == old(self).towers@,
                *self == (Game { towers: self.towers, ..*old(self) }),
                keep_towers(ts0) == self.towers@.take(i as int)
                    + keep_towers(self.towers@.skip(i as int)),
            decreases self.towers@.len() - i,
        {
            let ghost cur = self.towers@;
            if let TowerStatus::Deleted = self.towers[i].status() {
                self.towers.remove(i);
                proof {
                    assert(self.towers@.take(i as int) =~= cur.take(i as int));
                    assert(self.towers@.skip(i as int) =~= cur.skip(i as int).drop_first());
                    assert(cur.skip(i as int)[0] == cur[i as int]);
                }
            } else {
                proof {
                    assert(cur.skip(i as int)[0] == cur[i as int]);
                    assert(cur.skip(i as int).drop_first() =~= cur.skip(i as int + 1));
                    assert(cur.take(i as int + 1) =~= cur.take(i as int) + seq![cur[i as int]]);
                    assert(cur.take(i as int) + (seq![cur[i as int]]
                        + keep_towers(cur.skip(i as int + 1)))
                        =~= cur.take(i as int + 1) + keep_towers(cur.skip(i as int + 1)));
                }
                i = i + 1;
            }
        }
        proof {
            assert(self.towers@.skip(self.towers@.len() as int) =~= Seq::<Tower>::empty());
            assert(self.towers@.take(self.towers@.len() as int) =~= self.towers@);
        }
    }

    /// The plane lifecycle pass: remove dead planes (crediting their
    /// bounty) and escaped planes (costing the player their escape
    /// damage, floored at zero), HP-first, in list order.
    pub fn remove_planes(&mut self)
        requires
            old(self).wf(),
        ensures
            final(self).wf(),
            *final(self) == (Game {
                planes: final(self).planes,
                cash: final(self).cash,
                hp: final(self).hp,
                ..*old(self)
            }),
            (final(self).planes@, final(self).cash, final(self).hp)
                == spec_reap(old(self).planes@, old(self).cash, old(self).hp, old(self).width),
            final(self).cash >= old(self).cash,
            0 <= final(self).hp.hp <= old(self).hp.hp,
            final(self).hp.max_hp == old(self).hp.max_hp,
    {
        let ghost ps0 = self.planes@;
        let ghost cash0 = self.cash;
        let ghost hp0 = self.hp;
        proof {
            assert(ps0.skip(0) =~= ps0);
            assert(self.planes@.take(0) + spec_reap(ps0, cash0, hp0, self.width).0
                =~= spec_reap(ps0, cash0, hp0, self.width).0);
        }
        let mut i: usize = 0;
        while i != self.planes.len()
            invariant
                0 <= i <= self.planes@.len(),
                self.wf(),
                ps0 == old(self).planes@,
                cash0 == old(self).cash,
                hp0 == old(self).hp,
                *self == (Game {
                    planes: self.planes,
                    cash: self.cash,
                    hp: self.hp,
                    ..*old(self)
                }),
                spec_reap(ps0, cash0, hp0, old(self).width).0 == self.planes@.take(i as int)
                    + spec_reap(self.planes@.skip(i as int), self.cash, self.hp, old(self).width).0,
                spec_reap(ps0, cash0, hp0, old(self).width).1
                    == spec_reap(self.planes@.skip(i as int), self.cash, self.hp, old(self).width).1,
                spec_reap(ps0, cash0, hp0, old(self).width).2
                    == spec_reap(self.planes@.skip(i as int), self.cash, self.hp, old(self).width).2,
                forall|j: int| 0 <= j < i ==> !((#[trigger] self.planes@[j]).hp.hp == 0)
                    && !(self.planes@[j].rect.x >= old(self).width),
            decreases self.planes@.len() - i,
        {
            let ghost cur = self.planes@;
            proof {
                assert(cur.skip(i as int)[0] == cur[i as int]);
                assert(cur.skip(i as int).drop_first() =~= cur.skip(i as int + 1));
            }
            if self.planes[i].hp().is_dead() {
                let bounty = self.planes[i].bounty();
                self.cash = crate::econ::add_cash(self.cash, bounty);
                self.planes.remove(i);
                proof {
                    assert(self.planes@.take(i as int) =~= cur.take(i as int));
                    assert(self.planes@.skip(i as int) =~= cur.skip(i as int).drop_first());
                }
            } else if self.planes[i].x() >= self.width {
                let dmg = self.planes[i].damage();
                self.hp.take_damage(dmg);
                self.planes.remove(i);
                proof {
                    assert(self.planes@.take(i as int) =~= cur.take(i as int));
                    assert(self.planes@.skip(i as int) =~= cur.skip(i as int).drop_first());
                }
            } else {
                proof {
                    assert(cur.take(i as int + 1) =~= cur.take(i as int) + seq![cur[i as int]]);
                    assert(cur.take(i as int) + (seq![cur[i as int]]
                        + spec_reap(cur.skip(i as int + 1), self.cash, self.hp, old(self).width).0)
                        =~= cur.take(i as int + 1)
                            + spec_reap(cur.skip(i as int + 1), self.cash, self.hp, old(self).width).0);
                }
                i = i + 1;
            }
        }
        proof {
            assert(self.planes@.skip(self.planes@.len() as int) =~= Seq::<PaperPlane>::empty());
            assert(self.planes@.take(self.planes@.len() as int) =~= self.planes@);
            lemma_reap_cash_never_falls(ps0, cash0, hp0, old(self).width);
            lemma_reap_player_hp_floor(ps0, cash0, hp0, old(self).width);
        }
    }

    /// What the toolbar phase may do to the tower list and cash, given
    /// the pre-tick state: towers are only appended, each appended one is
    /// a fresh placement at the pointer, cash never rises, nothing moves
    /// without a selected button, and with exactly one selected button
    /// the outcome is pinned exactly.
    pub open spec fn events_outcome(self, m1: Mouse, t2: Seq<Tower>, c2: u32) -> bool {
        &&& t2.len() >= self.towers@.len()
        &&& forall|i: int| 0 <= i < self.towers@.len() ==> #[trigger] t2[i] == self.towers@[i]
        &&& forall|i: int| self.towers@.len() <= i < t2.len()
            ==> is_placed_tower(#[trigger] t2[i], m1, self.tower_size)
        &&& c2 <= self.cash
        &&& !m1.up ==> t2 == self.towers@ && c2 == self.cash
        &&& (forall|j: int| 0 <= j < self.buttons@.len()
            ==> !(#[trigger] self.buttons@[j]).selected)
            ==> t2 == self.towers@ && c2 == self.cash
        &&& m1.up ==> forall|i: int| only_selected(self.buttons@, i)
            ==> spec_toolbar_attempt(
                self.towers@, t2, self.cash, c2, m1, self.tower_size,
                (#[trigger] self.buttons@[i]).variant,
            )
    }

    /// The tick pipeline after the toolbar phase, as a function of the
    /// pre-tick state and the toolbar phase's tower list `t2` and cash
    /// `c2`: the scheduler's spawns, then combat, movement and the two
    /// lifecycle passes, yielding the towers, planes, cash and player
    /// health the tick ends with.
    pub open spec fn spec_tick_rest(self, t2: Seq<Tower>, c2: u32, m1: Mouse, now: u64)
        -> (Seq<Tower>, Seq<PaperPlane>, u32, HitPoints) {
        let planes1 = if round_fires(self) {
            self.planes@ + round_batch(self.round, self.plane_size, self.height)
        } else {
            self.planes@
        };
        let combat = spec_towers_pass(t2, planes1, c2, m1, now);
        let moved = combat.1.map_values(|p: PaperPlane| spec_fly(p, self.path.turns@));
        let reaped = spec_reap(moved, combat.2, self.hp, self.width);
        (keep_towers(combat.0), reaped.0, reaped.1, reaped.2)
    }

    /// `true` exactly when the player's health has reached zero: the loss
    /// condition the external loop watches for.
    pub fn is_defeated(&self) -> (r: bool)
        ensures
            r == (self.hp.hp == 0),
    {
        self.hp.is_dead()
    }

    /// One whole simulation tick, in the fixed order: take the pointer
    /// snapshot, advance the wave scheduler, handle the toolbar, run
    /// combat per tower, move every plane, then reap deleted towers and
    /// dead or escaped planes, and count the tick. `now` is the external
    /// monotonic millisecond clock.
    pub fn tick(&mut self, mouse_x: i64, mouse_y: i64, mouse_down: bool, mouse_up: bool, now: u64)
        requires
            old(self).wf(),
            -FIELD_LIMIT <= mouse_x <= FIELD_LIMIT,
            -FIELD_LIMIT <= mouse_y <= FIELD_LIMIT,
        ensures
            final(self).wf(),
            *final(self) == (Game {
                mouse: final(self).mouse,
                planes: final(self).planes,
                towers: final(self).towers,
                buttons: final(self).buttons,
                round: final(self).round,
                round_start_tic: final(self).round_start_tic,
                tic: final(self).tic,
                hp: final(self).hp,
                cash: final(self).cash,
                ..*old(self)
            }),
            final(self).mouse == (Mouse { x: mouse_x, y: mouse_y, down: mouse_down, up: mouse_up }),
            final(self).hp.hp <= old(self).hp.hp,
            final(self).hp.max_hp == old(self).hp.max_hp,
            round_fires(*old(self)) ==> final(self).round == old(self).round + 1
                && final(self).tic == 1 && final(self).round_start_tic == 0,
            !round_fires(*old(self)) ==> final(self).round == old(self).round
                && final(self).round_start_tic == old(self).round_start_tic
                && (old(self).tic < u64::MAX ==> final(self).tic == old(self).tic + 1),
            final(self).buttons@.len() == old(self).buttons@.len(),
            mouse_up ==> forall|i: int| 0 <= i < old(self).buttons@.len()
                ==> #[trigger] final(self).buttons@[i] == (Button {
                    selected: mouse_y < old(self).tower_size && (Mouse {
                        x: mouse_x,
                        y: mouse_y,
                        down: mouse_down,
                        up: mouse_up,
                    }).spec_inside(old(self).buttons@[i].rect),
                    ..old(self).buttons@[i]
                }),
            !mouse_up ==> final(self).buttons@ == old(self).buttons@,
            exists|t2: Seq<Tower>, c2: u32| {
                &&& old(self).events_outcome(
                    Mouse { x: mouse_x, y: mouse_y, down: mouse_down, up: mouse_up },
                    t2,
                    c2,
                )
                &&& (final(self).towers@, final(self).planes@, final(self).cash, final(self).hp)
                    == #[trigger] old(self).spec_tick_rest(
                        t2,
                        c2,
                        Mouse { x: mouse_x, y: mouse_y, down: mouse_down, up: mouse_up },
                        now,
                    )
            },
    {
        let ghost g0 = *old(self);
        self.mouse.update(mouse_x, mouse_y, mouse_down, mouse_up);
        let ghost m1 = self.mouse;
        self.make_planes();
        let ghost planes1 = self.planes@;
        self.events();
        let ghost t2v = self.towers@;
        let ghost c2v = self.cash;
        self.update_towers(now);
        let ghost combat = (self.towers@, self.planes@, self.cash);
        self.move_planes();
        let ghost moved = self.planes@;
        self.remove_towers();
        self.remove_planes();
        if self.tic < u64::MAX {
            self.tic = self.tic + 1;
        }
        proof {
            assert(g0.events_outcome(m1, t2v, c2v));
            assert(combat == spec_towers_pass(t2v, planes1, c2v, m1, now));
            assert(moved =~= combat.1.map_values(|p: PaperPlane| spec_fly(p, g0.path.turns@)));
            assert((self.towers@, self.planes@, self.cash, self.hp)
                == g0.spec_tick_rest(t2v, c2v, m1, now));
            assert(m1 == (Mouse { x: mouse_x, y: mouse_y, down: mouse_down, up: mouse_up }));
        }
    }
}

} // verus!
