//! Records that a host publishes once an operation has gone through.

use vstd::prelude::*;
use crate::types::{AccountId, Balance};

verus! {

/// One asset of a completed flash loan.
#[derive(Clone, Copy, Debug, PartialEq, Eq)]
pub struct FlashLoanEvent {
    /// The borrower.
    pub receiver: AccountId,
    /// The asset lent.
    pub asset: AccountId,
    /// The amount lent.
    pub amount: Balance,
    /// The fee retained.
    pub fee: Balance,
}

/// The events of a completed loan: one per asset, in the order of the request.
pub open spec fn loan_events(
    receiver: AccountId,
    assets: Seq<AccountId>,
    amounts: Seq<Balance>,
    fees: Seq<Balance>,
) -> Seq<FlashLoanEvent> {
    Seq::new(
        assets.len(),
        |i: int| FlashLoanEvent { receiver, asset: assets[i], amount: amounts[i], fee: fees[i] },
    )
}

/// Builds the events of a completed loan, one per asset.
pub fn flash_loan_events(
    receiver: &AccountId,
    assets: &Vec<AccountId>,
    amounts: &Vec<Balance>,
    fees: &Vec<Balance>,
) -> (events: Vec<FlashLoanEvent>)
    requires
        assets.len() == amounts.len(),
        assets.len() == fees.len(),
    ensures
        events@ == loan_events(*receiver, assets@, amounts@, fees@),
{
    let mut events: Vec<FlashLoanEvent> = Vec::new();
    let mut i: usize = 0;
    while i < assets.len()
        invariant
            i <= assets.len(),
            assets.len() == amounts.len(),
            assets.len() == fees.len(),
            events@ == loan_events(*receiver, assets@, amounts@, fees@).subrange(0, i as int),
        decreases assets.len() - i,
    {
        events.push(
            FlashLoanEvent {
                receiver: *receiver,
                asset: assets[i],
                amount: amounts[i],
                fee: fees[i],
            },
        );
        i = i + 1;
    }
    events
}

} // verus!
