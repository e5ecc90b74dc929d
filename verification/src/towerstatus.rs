//! The UI status of a tower.

use vstd::prelude::*;

verus! {

/// A type denoting the status of a Tower. `Deleted` is terminal: the
/// lifecycle pass removes such towers, and the refund was already paid
/// when the status was set.
#[derive(Clone, Copy, PartialEq, Eq, Structural, Debug)]
pub enum TowerStatus {
    Normal,
    Selected,
    Deleted,
}

} // verus!
