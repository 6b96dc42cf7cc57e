//! Settlement arithmetic for a cooperative channel close.
//!
//! When a channel holding `custody` funds is closed with a claimed
//! `final_balance`, the custody is split three ways: a royalty of one fifth
//! of the claimed amount (rounded down) to the template creator, the rest of
//! the claimed amount to the channel owner, and the unclaimed remainder back
//! to the counter-party.

use vstd::prelude::*;

verus! {

/// Royalty to the template creator: a fifth of the claimed settlement,
/// rounded down.
pub open spec fn royalty_of(final_balance: u64) -> u64 {
    final_balance / 5
}

/// Share of the claimed settlement left to the channel owner after the
/// royalty is taken out.
pub open spec fn fee_of(final_balance: u64) -> u64 {
    (final_balance - royalty_of(final_balance)) as u64
}

/// Unclaimed custody returned to the counter-party.
pub open spec fn refund_of(custody: u64, final_balance: u64) -> u64
    recommends final_balance <= custody
{
    (custody - final_balance) as u64
}

/// The three disbursements of a cooperative close.
#[derive(Clone, Copy, PartialEq, Eq, Structural, Debug)]
pub struct Settlement {
    /// To the template creator.
    pub royalty: u64,
    /// To the channel owner.
    pub fee: u64,
    /// To the counter-party.
    pub refund_balance: u64,
}

/// Splits `custody` according to the claimed `final_balance`.
pub fn settle(custody: u64, final_balance: u64) -> (s: Settlement)
    requires
        final_balance <= custody,
    ensures
        s.royalty == royalty_of(final_balance),
        s.fee == fee_of(final_balance),
        s.refund_balance == refund_of(custody, final_balance),
        s.royalty + s.fee + s.refund_balance == custody,
{
    let royalty = final_balance / 5;
    let fee = final_balance - royalty;
    let refund_balance = custody - final_balance;
    Settlement { royalty, fee, refund_balance }
}

/// Conservation: the three disbursements of a close always add up to the
/// whole custody held before the close, and the royalty is exactly a fifth
/// (rounded down) of the claimed settlement.
pub proof fn lemma_settlement_conservation(custody: u64, final_balance: u64)
    requires
        final_balance <= custody,
    ensures
        royalty_of(final_balance) + fee_of(final_balance) + refund_of(custody, final_balance)
            == custody,
        royalty_of(final_balance) == final_balance / 5,
        royalty_of(final_balance) <= final_balance,
{
}

} // verus!
