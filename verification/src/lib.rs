//! Combat and economy core of a tower-defense simulation.
//!
//! Waves of paper planes follow a waypoint path across the field; water-gun
//! towers placed by the player damage planes inside their range on a cooldown,
//! and the player's cash and hit points are kept by the simulation itself.
//! All coordinates are integers in tenths of a world unit, so the whole
//! simulation is deterministic and free of floating point.

pub mod game;
pub mod geom;
pub mod hp;
pub mod button;
pub mod econ;
pub mod mouse;
pub mod path;
pub mod plane;
pub mod tower;
pub mod towerstatus;
pub mod towertype;

pub use game::Game;
pub use geom::Rect;
pub use hp::HitPoints;
pub use path::{Direction, PlanePath, Turn};
pub use button::{Button, ButtonType};
pub use mouse::Mouse;
pub use plane::{PaperPlane, PlaneKind};
pub use tower::Tower;
pub use towerstatus::TowerStatus;
pub use towertype::{AcidTower, SodaMaker, TowerType, WaterGun};
