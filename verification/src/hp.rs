//! Hit points with a hard floor at zero.
//!
//! Both planes and the player keep their health in this type: damage
//! saturates at zero and nothing ever heals, so health never increases
//! and never goes negative.

use vstd::prelude::*;

verus! {

/// Current and maximum hit points of a unit or of the player.
#[derive(Clone, Copy, PartialEq, Eq, Structural, Debug)]
pub struct HitPoints {
    pub hp: u32,
    pub max_hp: u32,
}

/// Damage saturates: the result is `hp - dmg`, floored at zero.
pub open spec fn sub_damage(hp: u32, dmg: u32) -> u32 {
    if dmg <= hp {
        (hp - dmg) as u32
    } else {
        0
    }
}

impl HitPoints {
    /// The current value never exceeds the maximum.
    pub open spec fn wf(self) -> bool {
        self.hp <= self.max_hp
    }

    /// Create a new instance of the HP type, full at `hp`.
    pub fn new(hp: u32) -> (r: HitPoints)
        ensures
            r == (HitPoints { hp, max_hp: hp }),
            r.wf(),
    {
        HitPoints { hp, max_hp: hp }
    }

    /// Return current HP.
    pub fn curr_hp(&self) -> (r: u32)
        ensures
            r == self.hp,
    {
        self.hp
    }

    /// Returns true if the current HP is 0.
    pub fn is_dead(&self) -> (r: bool)
        ensures
            r == (self.hp == 0),
    {
        self.hp == 0
    }

    /// Reduce the HP by a damage value, stopping at zero.
    pub fn take_damage(&mut self, dmg: u32)
        ensures
            *final(self) == (HitPoints { hp: sub_damage(old(self).hp, dmg), ..*old(self) }),
            final(self).hp <= old(self).hp,
            old(self).wf() ==> final(self).wf(),
    {
        self.hp = if let Some(hp) = self.hp.checked_sub(dmg) {
            hp
        } else {
            0
        };
    }
}

/// Applying a whole sequence of damage values, oldest first.
pub open spec fn apply_damage_seq(hp: u32, dmgs: Seq<u32>) -> u32
    decreases dmgs.len(),
{
    if dmgs.len() == 0 {
        hp
    } else {
        apply_damage_seq(sub_damage(hp, dmgs[0]), dmgs.drop_first())
    }
}

/// However many units escape or hit, health only falls and never drops
/// below zero: any sequence of damage applications lands in `[0, hp]`.
pub proof fn lemma_hp_floor_and_monotone(hp: u32, dmgs: Seq<u32>)
    ensures
        0 <= apply_damage_seq(hp, dmgs) <= hp,
    decreases dmgs.len(),
{
    if dmgs.len() > 0 {
        lemma_hp_floor_and_monotone(sub_damage(hp, dmgs[0]), dmgs.drop_first());
    }
}

} // verus!
