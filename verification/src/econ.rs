//! The player's cash: credits saturate, spends are gated.
//!
//! Cash is an unsigned count. Every spend in the simulation first checks
//! affordability and otherwise changes nothing, so cash can never go
//! negative however placements, upgrades, refunds and bounties interleave.

use vstd::prelude::*;

verus! {

/// Cash after a credit: the exact sum, saturating at the type's ceiling.
pub open spec fn credit(cash: u32, amount: u32) -> u32 {
    if cash + amount <= u32::MAX {
        (cash + amount) as u32
    } else {
        u32::MAX
    }
}

/// Cash after a spend attempt: whether it went through, and the balance,
/// which is only debited when the cost is covered.
pub open spec fn try_spend(cash: u32, cost: u32) -> (bool, u32) {
    if cash >= cost {
        (true, (cash - cost) as u32)
    } else {
        (false, cash)
    }
}

/// Add to the balance, saturating instead of wrapping.
pub fn add_cash(cash: u32, amount: u32) -> (r: u32)
    ensures
        r == credit(cash, amount),
{
    if let Some(c) = cash.checked_add(amount) {
        c
    } else {
        u32::MAX
    }
}

/// One movement of cash: a gated spend or a saturating credit.
#[derive(Clone, Copy, PartialEq, Eq, Structural, Debug)]
pub enum CashOp {
    Spend(u32),
    Credit(u32),
}

/// The balance after a whole sequence of cash movements, oldest first.
pub open spec fn apply_cash_ops(cash: u32, ops: Seq<CashOp>) -> u32
    decreases ops.len(),
{
    if ops.len() == 0 {
        cash
    } else {
        let next = match ops[0] {
            CashOp::Spend(cost) => try_spend(cash, cost).1,
            CashOp::Credit(amount) => credit(cash, amount),
        };
        apply_cash_ops(next, ops.drop_first())
    }
}

/// Cash never goes negative: after any sequence of placements, upgrades,
/// refunds and bounties the balance is still a nonnegative count, and a
/// spend that is not covered leaves the balance untouched.
pub proof fn lemma_economy_nonnegative(cash: u32, ops: Seq<CashOp>)
    ensures
        apply_cash_ops(cash, ops) >= 0,
        forall|cost: u32| cash < cost ==> (#[trigger] try_spend(cash, cost)).1 == cash,
    decreases ops.len(),
{
    if ops.len() > 0 {
        let next = match ops[0] {
            CashOp::Spend(cost) => try_spend(cash, cost).1,
            CashOp::Credit(amount) => credit(cash, amount),
        };
        lemma_economy_nonnegative(next, ops.drop_first());
    }
}

} // verus!
