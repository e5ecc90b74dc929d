//! Tower families and their upgrade ladders.
//!
//! Each family climbs its own fixed ladder of tiers; the ladder's length
//! differs per family and no tower ever leaves its family.

use vstd::prelude::*;

verus! {

/// Different upgrade variants of a Water Gun.
#[derive(Clone, Copy, PartialEq, Eq, Structural, Debug)]
pub enum WaterGun {
    Basic,
    SuperSoaker,
    ExtremeSoaker,
}

/// Different upgrade variants of an Acid Tower.
#[derive(Clone, Copy, PartialEq, Eq, Structural, Debug)]
pub enum AcidTower {
    Basic,
    Radioactive,
}

/// Different upgrade variants of a Soda Maker.
#[derive(Clone, Copy, PartialEq, Eq, Structural, Debug)]
pub enum SodaMaker {
    Basic,
    SparklingWater,
    RootBeer,
}

/// Represents the current type of Tower: its family and tier.
#[derive(Clone, Copy, PartialEq, Eq, Structural, Debug)]
pub enum TowerType {
    WaterGun(WaterGun),
    AcidTower(AcidTower),
    SodaMaker(SodaMaker),
}

/// How many upgrades this variant has already taken: 0, 1 or 2.
pub open spec fn tier_index(v: TowerType) -> int {
    match v {
        TowerType::WaterGun(WaterGun::Basic) => 0,
        TowerType::WaterGun(WaterGun::SuperSoaker) => 1,
        TowerType::WaterGun(WaterGun::ExtremeSoaker) => 2,
        TowerType::AcidTower(AcidTower::Basic) => 0,
        TowerType::AcidTower(AcidTower::Radioactive) => 1,
        TowerType::SodaMaker(SodaMaker::Basic) => 0,
        TowerType::SodaMaker(SodaMaker::SparklingWater) => 1,
        TowerType::SodaMaker(SodaMaker::RootBeer) => 2,
    }
}

/// True for the last tier of each family's ladder: no further upgrade
/// exists, and an upgrade attempt must change nothing.
pub open spec fn is_top_tier(v: TowerType) -> bool {
    match v {
        TowerType::WaterGun(WaterGun::ExtremeSoaker) => true,
        TowerType::AcidTower(AcidTower::Radioactive) => true,
        TowerType::SodaMaker(SodaMaker::RootBeer) => true,
        _ => false,
    }
}

} // verus!
